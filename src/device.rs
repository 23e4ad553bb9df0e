//! Choosing a device, a queue family and a memory type.

use vstd::prelude::*;

verus! {

/// What a queue family offers on the window's surface.
#[derive(Clone, Copy, Debug, PartialEq, Eq, Structural)]
pub struct QueueFamily {
    pub graphics: bool,
    pub present: bool,
}

#[derive(Clone, Copy, Debug, PartialEq, Eq, Structural)]
pub enum InitError {
    /// No physical device was found.
    NoDevice,
    /// No device has a queue family that both renders and presents to the surface.
    NoQueueFamily,
}

pub open spec fn suits(f: QueueFamily) -> bool {
    f.graphics && f.present
}

/// Whether device `d` (given by its queue families) has a family that suits.
pub open spec fn usable(d: Seq<QueueFamily>) -> bool {
    exists|q: int| 0 <= q < d.len() && suits(#[trigger] d[q])
}

/// The first family of `d` that suits.
pub fn first_suitable_family(d: &Vec<QueueFamily>) -> (r: Option<usize>)
    ensures
        r matches Some(q) ==> q < d@.len() && suits(d@[q as int]) && forall|j: int|
            0 <= j < q ==> !suits(#[trigger] d@[j]),
        r is None ==> !usable(d@),
{
    let mut q: usize = 0;
    while q < d.len()
        invariant
            q <= d@.len(),
            forall|j: int| 0 <= j < q ==> !suits(#[trigger] d@[j]),
        decreases d@.len() - q,
    {
        if d[q].graphics && d[q].present {
            return Some(q);
        }
        q = q + 1;
    }
    None
}

/// The first device, in the order given, with a family that both renders and
/// presents, and the first such family of it.
pub fn select_device(devices: &Vec<Vec<QueueFamily>>) -> (r: Result<(usize, usize), InitError>)
    ensures
        devices@.len() == 0 ==> r == Err::<(usize, usize), InitError>(InitError::NoDevice),
        devices@.len() > 0 && (forall|d: int| 0 <= d < devices@.len() ==> !usable(#[trigger] devices@[d]@))
            ==> r == Err::<(usize, usize), InitError>(InitError::NoQueueFamily),
        r matches Ok((d, q)) ==> {
            &&& d < devices@.len()
            &&& forall|e: int| 0 <= e < d ==> !usable(#[trigger] devices@[e]@)
            &&& q < devices@[d as int]@.len()
            &&& suits(devices@[d as int]@[q as int])
            &&& forall|j: int| 0 <= j < q ==> !suits(#[trigger] devices@[d as int]@[j])
        },
        (exists|d: int| 0 <= d < devices@.len() && usable(#[trigger] devices@[d]@)) ==> r is Ok,
{
    if devices.len() == 0 {
        return Err(InitError::NoDevice);
    }
    let mut d: usize = 0;
    while d < devices.len()
        invariant
            d <= devices@.len(),
            forall|e: int| 0 <= e < d ==> !usable(#[trigger] devices@[e]@),
        decreases devices@.len() - d,
    {
        match first_suitable_family(&devices[d]) {
            Some(q) => {
                return Ok((d, q));
            },
            None => {},
        }
        d = d + 1;
    }
    Err(InitError::NoQueueFamily)
}

/// Whether memory type `i` is allowed by `filter` and has every property of `required`.
pub open spec fn memory_type_fits(flags: Seq<u32>, filter: u32, required: u32, i: int) -> bool {
    &&& 0 <= i < 32
    &&& i < flags.len()
    &&& (filter >> (i as u32)) & 1 == 1
    &&& flags[i] & required == required
}

/// The first memory type that fits; at most 32 types are looked at, as a
/// 32-bit filter names no more.
pub fn find_memory_type(flags: &Vec<u32>, filter: u32, required: u32) -> (r: Option<u32>)
    ensures
        r matches Some(i) ==> memory_type_fits(flags@, filter, required, i as int) && forall|j: int|
            0 <= j < i ==> !#[trigger] memory_type_fits(flags@, filter, required, j),
        r is None ==> forall|j: int| !#[trigger] memory_type_fits(flags@, filter, required, j),
{
    let mut i: u32 = 0;
    while i < 32 && (i as usize) < flags.len()
        invariant
            i <= 32,
            forall|j: int| 0 <= j < i ==> !#[trigger] memory_type_fits(flags@, filter, required, j),
        decreases 32 - i,
    {
        if (filter >> i) & 1 == 1 && flags[i as usize] & required == required {
            return Some(i);
        }
        i = i + 1;
    }
    None
}


/// Relies on ash::vk::api_version_major: bits 22 to 28 of a packed version.
pub assume_specification[ ash::vk::api_version_major ](version: u32) -> (r: u32)
    ensures
        r == (version >> 22u32) & 0x7fu32,
;

/// Relies on ash::vk::api_version_minor: bits 12 to 21 of a packed version.
pub assume_specification[ ash::vk::api_version_minor ](version: u32) -> (r: u32)
    ensures
        r == (version >> 12u32) & 0x3ffu32,
;

/// Relies on ash::vk::api_version_patch: bits 0 to 11 of a packed version.
pub assume_specification[ ash::vk::api_version_patch ](version: u32) -> (r: u32)
    ensures
        r == version & 0xfffu32,
;

/// An API version, unpacked.
#[derive(Clone, Copy, Debug, PartialEq, Eq, Structural)]
pub struct ApiVersion {
    pub major: u32,
    pub minor: u32,
    pub patch: u32,
}

/// Unpacks a version as the loader reports it (variant bits ignored).
pub fn decode_api_version(version: u32) -> (r: ApiVersion)
    ensures
        r.major == (version >> 22u32) & 0x7fu32,
        r.minor == (version >> 12u32) & 0x3ffu32,
        r.patch == version & 0xfffu32,
{
    ApiVersion {
        major: ash::vk::api_version_major(version),
        minor: ash::vk::api_version_minor(version),
        patch: ash::vk::api_version_patch(version),
    }
}

} // verus!
