use funky_renderer::overlay::{merge_meshes, scissor_for, OverlayError, PixelRect, Scissor, UiDraw, UiMesh};
use funky_renderer::spirv::{load_spirv, words_from_bytes, ShaderError, SPIRV_MAGIC};
use funky_renderer::work::{
    claim, plan_batches, worker_count, workers_for, AtomicWorkQueue, WorkerBatch, MAX_WORKERS,
};

#[test]
fn words_are_little_endian() {
    assert_eq!(words_from_bytes(&[1, 0, 0, 0, 0x03, 0x02, 0x23, 0x07, 9]), vec![1, SPIRV_MAGIC]);
    assert_eq!(words_from_bytes(&[0xff, 0xff, 0xff]), Vec::<u32>::new());
}

#[test]
fn spirv_in_either_byte_order() {
    let le = [0x03, 0x02, 0x23, 0x07, 0x01, 0x00, 0x01, 0x00];
    assert_eq!(load_spirv(&le), Ok(vec![SPIRV_MAGIC, 0x0001_0001]));
    let be = [0x07, 0x23, 0x02, 0x03, 0x00, 0x00, 0x00, 0x05];
    assert_eq!(load_spirv(&be), Ok(vec![SPIRV_MAGIC, 5]));
}

#[test]
fn spirv_errors() {
    assert_eq!(load_spirv(&[0x03, 0x02, 0x23]), Err(ShaderError::PartialWord));
    assert_eq!(load_spirv(&[]), Err(ShaderError::MissingMagic));
    assert_eq!(load_spirv(&[1, 2, 3, 4]), Err(ShaderError::MissingMagic));
}

#[test]
fn worker_pool_is_capped() {
    assert_eq!(workers_for(1), 1);
    assert_eq!(workers_for(16), MAX_WORKERS);
    let n = worker_count();
    assert!(n >= 1 && n <= MAX_WORKERS);
}

#[test]
fn batches_cover_objects_in_worker_order() {
    let b = plan_batches(10, 4, 4);
    assert_eq!(
        b,
        vec![
            WorkerBatch { worker: 0, start: 0, end: 3 },
            WorkerBatch { worker: 1, start: 3, end: 6 },
            WorkerBatch { worker: 2, start: 6, end: 9 },
            WorkerBatch { worker: 3, start: 9, end: 10 },
        ]
    );
}

#[test]
fn batches_past_the_end_are_empty_and_capped() {
    let b = plan_batches(2, 4, 4);
    assert_eq!(b[0], WorkerBatch { worker: 0, start: 0, end: 1 });
    assert_eq!(b[2], WorkerBatch { worker: 2, start: 2, end: 2 });
    assert_eq!(b[3], WorkerBatch { worker: 3, start: 2, end: 2 });
    let capped = plan_batches(20, 2, 4);
    assert_eq!(capped[0], WorkerBatch { worker: 0, start: 0, end: 4 });
    assert_eq!(capped[1], WorkerBatch { worker: 1, start: 10, end: 14 });
}

#[test]
fn work_queue_hands_out_each_index_once() {
    let q = AtomicWorkQueue::new(3);
    assert_eq!((q.next(), q.next(), q.next(), q.next()), (Some(0), Some(1), Some(2), None));
    q.reset();
    assert_eq!(q.next(), Some(0));
    assert_eq!(claim(5, 5), None);
    assert_eq!(claim(4, 5), Some(4));
}

fn rect(a: i64, b: i64, c: i64, d: i64) -> PixelRect {
    PixelRect { min_x: a, min_y: b, max_x: c, max_y: d }
}

#[test]
fn scissor_is_clipped_to_screen() {
    assert_eq!(scissor_for(rect(-5, 10, 900, 50), 800, 600), Some(Scissor { x: 0, y: 10, width: 800, height: 40 }));
    assert_eq!(scissor_for(rect(10, 10, 10, 50), 800, 600), None);
    assert_eq!(scissor_for(rect(900, 0, 1000, 10), 800, 600), None);
}

#[test]
fn meshes_merge_with_shifted_indices() {
    let meshes = vec![
        UiMesh { vertex_count: 3, indices: vec![0, 1, 2], clip: rect(0, 0, 100, 100) },
        UiMesh { vertex_count: 4, indices: vec![0, 1, 2, 2, 3, 0], clip: rect(0, 0, 0, 0) },
        UiMesh { vertex_count: 2, indices: vec![1, 0], clip: rect(10, 20, 30, 40) },
    ];
    let b = merge_meshes(&meshes, 800, 600, 100, 100).unwrap();
    assert_eq!(b.indices, vec![0, 1, 2, 3, 4, 5, 5, 6, 3, 8, 7]);
    assert_eq!(b.vertex_count, 9);
    assert_eq!(
        b.draws,
        vec![
            UiDraw { first_index: 0, index_count: 3, scissor: Scissor { x: 0, y: 0, width: 100, height: 100 } },
            UiDraw { first_index: 9, index_count: 2, scissor: Scissor { x: 10, y: 20, width: 20, height: 20 } },
        ]
    );
}

#[test]
fn merge_errors() {
    let mesh = |n: u32, idx: Vec<u32>| UiMesh { vertex_count: n, indices: idx, clip: rect(0, 0, 1, 1) };
    assert_eq!(merge_meshes(&vec![mesh(3, vec![0]), mesh(3, vec![0])], 10, 10, 5, 10).err(), Some(OverlayError::TooManyVertices));
    assert_eq!(merge_meshes(&vec![mesh(3, vec![0, 1, 2])], 10, 10, 5, 2).err(), Some(OverlayError::TooManyIndices));
    assert_eq!(merge_meshes(&vec![mesh(3, vec![0, 3])], 10, 10, 5, 10).err(), Some(OverlayError::BadIndex));
    let empty = merge_meshes(&vec![], 10, 10, 0, 0).unwrap();
    assert!(empty.indices.is_empty() && empty.draws.is_empty());
}

#[test]
fn meshes_without_indices_get_no_draw() {
    let meshes = vec![
        UiMesh { vertex_count: 0, indices: vec![], clip: rect(0, 0, 100, 100) },
        UiMesh { vertex_count: 2, indices: vec![], clip: rect(0, 0, 100, 100) },
    ];
    let b = merge_meshes(&meshes, 800, 600, 10, 10).unwrap();
    assert!(b.indices.is_empty());
    assert!(b.draws.is_empty());
    assert_eq!(b.vertex_count, 2);
}
