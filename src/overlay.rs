//! The debug overlay: merging UI meshes into one upload and clipping draws.

use vstd::prelude::*;

verus! {

/// How many entities hold each component, as the overlay shows them.
#[derive(Clone, Copy, Debug, PartialEq, Eq, Structural)]
pub struct ComponentCounts {
    pub transforms: usize,
    pub velocities: usize,
    pub cameras: usize,
    pub renderables: usize,
}

/// A clip rectangle in physical pixels, as given by the UI (may reach outside the screen).
#[derive(Clone, Copy, Debug, PartialEq, Eq, Structural)]
pub struct PixelRect {
    pub min_x: i64,
    pub min_y: i64,
    pub max_x: i64,
    pub max_y: i64,
}

/// A scissor rectangle inside the screen.
#[derive(Clone, Copy, Debug, PartialEq, Eq, Structural)]
pub struct Scissor {
    pub x: u32,
    pub y: u32,
    pub width: u32,
    pub height: u32,
}

/// One UI mesh: its vertices are uploaded by the host, its indices count from
/// the mesh's own first vertex.
pub struct UiMesh {
    pub vertex_count: u32,
    pub indices: Vec<u32>,
    pub clip: PixelRect,
}

/// An indexed draw into the merged buffers.
#[derive(Clone, Copy, Debug, PartialEq, Eq, Structural)]
pub struct UiDraw {
    pub first_index: u32,
    pub index_count: u32,
    pub scissor: Scissor,
}

/// The merged indices, the draws, and how many vertices were merged.
pub struct OverlayBatch {
    pub indices: Vec<u32>,
    pub draws: Vec<UiDraw>,
    pub vertex_count: u32,
}

#[derive(Clone, Copy, Debug, PartialEq, Eq, Structural)]
pub enum OverlayError {
    /// The vertices do not fit the vertex buffer.
    TooManyVertices,
    /// The indices do not fit the index buffer.
    TooManyIndices,
    /// An index names no vertex of its mesh.
    BadIndex,
}

pub open spec fn max_i(a: int, b: int) -> int {
    if a >= b {
        a
    } else {
        b
    }
}

pub open spec fn min_i(a: int, b: int) -> int {
    if a <= b {
        a
    } else {
        b
    }
}

/// The part of `c` inside a `width` by `height` screen, if it has any pixels.
pub open spec fn scissor_spec(c: PixelRect, width: u32, height: u32) -> Option<Scissor> {
    let x0 = max_i(c.min_x as int, 0);
    let y0 = max_i(c.min_y as int, 0);
    let x1 = min_i(c.max_x as int, width as int);
    let y1 = min_i(c.max_y as int, height as int);
    if x1 <= x0 || y1 <= y0 {
        None
    } else {
        Some(Scissor { x: x0 as u32, y: y0 as u32, width: (x1 - x0) as u32, height: (y1 - y0) as u32 })
    }
}

pub fn scissor_for(c: PixelRect, width: u32, height: u32) -> (r: Option<Scissor>)
    ensures
        r == scissor_spec(c, width, height),
{
    let x0: i64 = if c.min_x >= 0 { c.min_x } else { 0 };
    let y0: i64 = if c.min_y >= 0 { c.min_y } else { 0 };
    let x1: i64 = if c.max_x <= width as i64 { c.max_x } else { width as i64 };
    let y1: i64 = if c.max_y <= height as i64 { c.max_y } else { height as i64 };
    if x1 <= x0 || y1 <= y0 {
        None
    } else {
        Some(
            Scissor {
                x: x0 as u32,
                y: y0 as u32,
                width: (x1 - x0) as u32,
                height: (y1 - y0) as u32,
            },
        )
    }
}

/// What merging `meshes` gives: the indices, shifted by the vertices of the
/// meshes before; one draw per mesh with indices and a visible clip; the
/// vertex total.
/// Checked per mesh in order: vertex room, index room, then its indices.
pub open spec fn merge_spec(
    meshes: Seq<UiMesh>,
    width: u32,
    height: u32,
    vertex_capacity: u32,
    index_capacity: u32,
) -> Result<(Seq<u32>, Seq<UiDraw>, nat), OverlayError>
    decreases meshes.len(),
{
    if meshes.len() == 0 {
        Ok((Seq::empty(), Seq::empty(), 0nat))
    } else {
        match merge_spec(meshes.drop_last(), width, height, vertex_capacity, index_capacity) {
            Err(e) => Err(e),
            Ok((idx, draws, nv)) => {
                let m = meshes.last();
                let mi = m.indices@;
                if nv + m.vertex_count > vertex_capacity {
                    Err(OverlayError::TooManyVertices)
                } else if idx.len() + mi.len() > index_capacity {
                    Err(OverlayError::TooManyIndices)
                } else if exists|j: int| 0 <= j < mi.len() && #[trigger] mi[j] >= m.vertex_count {
                    Err(OverlayError::BadIndex)
                } else {
                    let shifted = Seq::new(mi.len(), |j: int| (mi[j] + nv) as u32);
                    let draws2 = match scissor_spec(m.clip, width, height) {
                        Some(s) if mi.len() > 0 => draws.push(
                            UiDraw { first_index: idx.len() as u32, index_count: mi.len() as u32, scissor: s },
                        ),
                        _ => draws,
                    };
                    Ok((idx + shifted, draws2, (nv + m.vertex_count) as nat))
                }
            },
        }
    }
}

proof fn lemma_merge_error_stays(
    meshes: Seq<UiMesh>,
    n: int,
    width: u32,
    height: u32,
    vertex_capacity: u32,
    index_capacity: u32,
)
    requires
        0 <= n <= meshes.len(),
        merge_spec(meshes.take(n), width, height, vertex_capacity, index_capacity) is Err,
    ensures
        merge_spec(meshes, width, height, vertex_capacity, index_capacity) == merge_spec(
            meshes.take(n),
            width,
            height,
            vertex_capacity,
            index_capacity,
        ),
    decreases meshes.len() - n,
{
    if n == meshes.len() {
        assert(meshes.take(n) =~= meshes);
    } else {
        assert(meshes.drop_last().take(n) =~= meshes.take(n));
        lemma_merge_error_stays(meshes.drop_last(), n, width, height, vertex_capacity, index_capacity);
    }
}

/// Merges the meshes of one UI frame into a single index upload and a list of
/// clipped draws, in the order the UI gave them.
pub fn merge_meshes(
    meshes: &Vec<UiMesh>,
    width: u32,
    height: u32,
    vertex_capacity: u32,
    index_capacity: u32,
) -> (r: Result<OverlayBatch, OverlayError>)
    ensures
        match merge_spec(meshes@, width, height, vertex_capacity, index_capacity) {
            Ok((idx, draws, nv)) => r matches Ok(b) && b.indices@ == idx && b.draws@ == draws
                && b.vertex_count == nv,
            Err(e) => r matches Err(x) && x == e,
        },
{
    let mut indices: Vec<u32> = Vec::new();
    let mut draws: Vec<UiDraw> = Vec::new();
    let mut nv: u32 = 0;
    let mut k: usize = 0;
    while k < meshes.len()
        invariant
            k <= meshes@.len(),
            merge_spec(meshes@.take(k as int), width, height, vertex_capacity, index_capacity)
                == Ok::<(Seq<u32>, Seq<UiDraw>, nat), OverlayError>(
                (indices@, draws@, nv as nat),
            ),
            nv <= vertex_capacity,
            indices@.len() <= index_capacity,
        decreases meshes@.len() - k,
    {
        let m = &meshes[k];
        assert(meshes@.take(k + 1).drop_last() =~= meshes@.take(k as int));
        assert(meshes@.take(k + 1).last() == meshes@[k as int]);
        if m.vertex_count > vertex_capacity - nv {
            proof {
                lemma_merge_error_stays(meshes@, k + 1, width, height, vertex_capacity, index_capacity);
            }
            return Err(OverlayError::TooManyVertices);
        }
        if m.indices.len() > (index_capacity as usize) - indices.len() {
            proof {
                lemma_merge_error_stays(meshes@, k + 1, width, height, vertex_capacity, index_capacity);
            }
            return Err(OverlayError::TooManyIndices);
        }
        let first: u32 = indices.len() as u32;
        let ghost before = indices@;
        let mut j: usize = 0;
        while j < m.indices.len()
            invariant
                j <= m.indices@.len(),
                k < meshes@.len(),
                m == meshes@[k as int],
                merge_spec(meshes@.take(k as int), width, height, vertex_capacity, index_capacity)
                    == Ok::<(Seq<u32>, Seq<UiDraw>, nat), OverlayError>(
                    (before, draws@, nv as nat),
                ),
                meshes@.take(k + 1).drop_last() =~= meshes@.take(k as int),
                meshes@.take(k + 1).last() == meshes@[k as int],
                indices@.len() <= index_capacity,
                before.len() + m.indices@.len() <= index_capacity,
                nv + m.vertex_count <= vertex_capacity,
                indices@.len() == before.len() + j,
                indices@.take(before.len() as int) == before,
                forall|t: int| 0 <= t < j ==> #[trigger] m.indices@[t] < m.vertex_count,
                forall|t: int|
                    0 <= t < j ==> #[trigger] indices@[before.len() + t] == (m.indices@[t] + nv) as u32,
            decreases m.indices@.len() - j,
        {
            let x = m.indices[j];
            if x >= m.vertex_count {
                proof {
                    assert(m.indices@[j as int] >= m.vertex_count);
                    lemma_merge_error_stays(meshes@, k + 1, width, height, vertex_capacity, index_capacity);
                }
                return Err(OverlayError::BadIndex);
            }
            indices.push(x + nv);
            j = j + 1;
            assert(indices@.take(before.len() as int) =~= before);
        }
        assert forall|t: int| 0 <= t < before.len() implies indices@[t] == before[t] by {
            assert(indices@.take(before.len() as int)[t] == indices@[t]);
        }
        assert forall|t: int| 0 <= t < m.indices@.len() implies indices@[before.len() + t] == (
        m.indices@[t] + nv) as u32 by {}
        let ghost shifted = Seq::new(m.indices@.len(), |t: int| (m.indices@[t] + nv) as u32);
        assert forall|i: int| before.len() <= i < indices@.len() implies indices@[i] == (before
            + shifted)[i] by {
            let t = i - before.len();
            assert(indices@[before.len() + t] == (m.indices@[t] + nv) as u32);
        }
        assert(indices@ =~= before + shifted);
        match scissor_for(m.clip, width, height) {
            Some(s) if m.indices.len() > 0 => {
                draws.push(UiDraw { first_index: first, index_count: m.indices.len() as u32, scissor: s });
            },
            _ => {},
        }
        nv = nv + m.vertex_count;
        k = k + 1;
    }
    assert(meshes@.take(k as int) =~= meshes@);
    Ok(OverlayBatch { indices, draws, vertex_count: nv })
}

} // verus!
