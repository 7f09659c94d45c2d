//! Which physical devices can run the renderer, and with what.
use vstd::prelude::*;

verus! {

/// What one queue family of a device offers.
#[derive(Clone, Copy, Debug, PartialEq, Eq, Structural)]
pub struct QueueFamily {
    /// The family supports graphics operations.
    pub graphics: bool,
    /// The family can present to the window's surface.
    pub present: bool,
}

/// The queue families the renderer submits to and presents from.
#[derive(Clone, Copy, Debug, PartialEq, Eq, Structural)]
pub struct QueueFamilyIndices {
    pub graphics: u32,
    pub present: u32,
}

/// What a device reports that decides whether it is suitable.
#[derive(Clone, Debug)]
pub struct DeviceProfile {
    pub sampler_anisotropy: bool,
    pub queue_families: Vec<QueueFamily>,
    /// Names of the device extensions it supports, as bytes.
    pub extensions: Vec<Vec<u8>>,
    /// How many surface formats the surface offers on this device.
    pub format_count: usize,
    /// How many present modes the surface offers on this device.
    pub present_mode_count: usize,
    /// Sample counts supported for colour attachments, as a bit set.
    pub colour_sample_counts: u32,
    /// Sample counts supported for depth attachments, as a bit set.
    pub depth_sample_counts: u32,
}

/// Why a device was passed over.
#[derive(Clone, Copy, Debug, PartialEq, Eq, Structural)]
pub enum SuitabilityError {
    NoSamplerAnisotropy,
    MissingQueueFamilies,
    MissingExtensions,
    InsufficientSwapchainSupport,
}

/// The device chosen, with the sample count its attachments will use.
#[derive(Clone, Copy, Debug, PartialEq, Eq, Structural)]
pub struct SelectedDevice {
    pub index: usize,
    pub msaa_samples: u32,
}

pub open spec fn is_first_graphics(families: Seq<QueueFamily>, i: int) -> bool {
    &&& 0 <= i < families.len()
    &&& families[i].graphics
    &&& forall|j: int| 0 <= j < i ==> !(#[trigger] families[j]).graphics
}

pub open spec fn is_first_present(families: Seq<QueueFamily>, i: int) -> bool {
    &&& 0 <= i < families.len()
    &&& families[i].present
    &&& forall|j: int| 0 <= j < i ==> !(#[trigger] families[j]).present
}

pub open spec fn has_graphics(families: Seq<QueueFamily>) -> bool {
    exists|i: int| 0 <= i < families.len() && (#[trigger] families[i]).graphics
}

pub open spec fn has_present(families: Seq<QueueFamily>) -> bool {
    exists|i: int| 0 <= i < families.len() && (#[trigger] families[i]).present
}

/// The first family with graphics support and the first that can present;
/// `None` when either is missing.
pub fn find_queue_families(families: &Vec<QueueFamily>) -> (r: Option<QueueFamilyIndices>)
    requires
        families@.len() <= u32::MAX,
    ensures
        r is Some <==> has_graphics(families@) && has_present(families@),
        r matches Some(q) ==> is_first_graphics(families@, q.graphics as int) && is_first_present(
            families@,
            q.present as int,
        ),
{
    let mut graphics: Option<u32> = None;
    let mut present: Option<u32> = None;
    let mut i: usize = 0;
    while i < families.len()
        invariant
            i <= families@.len(),
            families@.len() <= u32::MAX,
            graphics matches Some(g) ==> is_first_graphics(families@, g as int),
            graphics is None ==> forall|j: int| 0 <= j < i ==> !(#[trigger] families@[j]).graphics,
            present matches Some(p) ==> is_first_present(families@, p as int),
            present is None ==> forall|j: int| 0 <= j < i ==> !(#[trigger] families@[j]).present,
        decreases families@.len() - i,
    {
        let f = families[i];
        if graphics.is_none() && f.graphics {
            graphics = Some(i as u32);
        }
        if present.is_none() && f.present {
            present = Some(i as u32);
        }
        i += 1;
    }
    match (graphics, present) {
        (Some(g), Some(p)) => Some(QueueFamilyIndices { graphics: g, present: p }),
        _ => None,
    }
}

fn bytes_equal(a: &Vec<u8>, b: &Vec<u8>) -> (r: bool)
    ensures
        r == (a@ == b@),
{
    if a.len() != b.len() {
        return false;
    }
    let mut i: usize = 0;
    while i < a.len()
        invariant
            i <= a@.len(),
            a@.len() == b@.len(),
            forall|k: int| 0 <= k < i ==> a@[k] == b@[k],
        decreases a@.len() - i,
    {
        if a[i] != b[i] {
            return false;
        }
        i += 1;
    }
    assert(a@ =~= b@);
    true
}

pub open spec fn offers(available: Seq<Vec<u8>>, name: Seq<u8>) -> bool {
    exists|j: int| 0 <= j < available.len() && (#[trigger] available[j])@ == name
}

pub open spec fn offers_all(available: Seq<Vec<u8>>, required: Seq<Vec<u8>>) -> bool {
    forall|i: int| 0 <= i < required.len() ==> offers(available, (#[trigger] required[i])@)
}

fn offers_one(available: &Vec<Vec<u8>>, name: &Vec<u8>) -> (r: bool)
    ensures
        r == offers(available@, name@),
{
    let mut j: usize = 0;
    while j < available.len()
        invariant
            j <= available@.len(),
            forall|k: int| 0 <= k < j ==> (#[trigger] available@[k])@ != name@,
        decreases available@.len() - j,
    {
        if bytes_equal(&available[j], name) {
            return true;
        }
        j += 1;
    }
    false
}

/// Whether every required extension is among the available ones.
pub fn check_physical_device_extensions(
    available: &Vec<Vec<u8>>,
    required: &Vec<Vec<u8>>,
) -> (r: bool)
    ensures
        r == offers_all(available@, required@),
{
    let mut i: usize = 0;
    while i < required.len()
        invariant
            i <= required@.len(),
            forall|k: int| 0 <= k < i ==> offers(available@, (#[trigger] required@[k])@),
        decreases required@.len() - i,
    {
        if !offers_one(available, &required[i]) {
            return false;
        }
        i += 1;
    }
    true
}

/// The verdict on a device: the first unmet requirement, in the order
/// anisotropic sampling, queue families, extensions, swapchain support.
pub open spec fn suitability(p: DeviceProfile, required: Seq<Vec<u8>>) -> Result<
    (),
    SuitabilityError,
> {
    if !p.sampler_anisotropy {
        Err(SuitabilityError::NoSamplerAnisotropy)
    } else if !(has_graphics(p.queue_families@) && has_present(p.queue_families@)) {
        Err(SuitabilityError::MissingQueueFamilies)
    } else if !offers_all(p.extensions@, required) {
        Err(SuitabilityError::MissingExtensions)
    } else if p.format_count == 0 || p.present_mode_count == 0 {
        Err(SuitabilityError::InsufficientSwapchainSupport)
    } else {
        Ok(())
    }
}

/// Checks a device against the renderer's minimum requirements.
pub fn check_physical_device(profile: &DeviceProfile, required: &Vec<Vec<u8>>) -> (r: Result<
    (),
    SuitabilityError,
>)
    requires
        profile.queue_families@.len() <= u32::MAX,
    ensures
        r == suitability(*profile, required@),
{
    if !profile.sampler_anisotropy {
        return Err(SuitabilityError::NoSamplerAnisotropy);
    }
    if find_queue_families(&profile.queue_families).is_none() {
        return Err(SuitabilityError::MissingQueueFamilies);
    }
    if !check_physical_device_extensions(&profile.extensions, required) {
        return Err(SuitabilityError::MissingExtensions);
    }
    if profile.format_count == 0 || profile.present_mode_count == 0 {
        return Err(SuitabilityError::InsufficientSwapchainSupport);
    }
    Ok(())
}

/// The largest sample count, up to 64, that both colour and depth
/// attachments support; one sample when they share no other.
pub open spec fn max_msaa_samples(colour: u32, depth: u32) -> u32 {
    let counts = colour & depth;
    if counts & 64 != 0 {
        64
    } else if counts & 32 != 0 {
        32
    } else if counts & 16 != 0 {
        16
    } else if counts & 8 != 0 {
        8
    } else if counts & 4 != 0 {
        4
    } else if counts & 2 != 0 {
        2
    } else {
        1
    }
}

pub fn get_max_msaa_samples(colour_sample_counts: u32, depth_sample_counts: u32) -> (r: u32)
    ensures
        r == max_msaa_samples(colour_sample_counts, depth_sample_counts),
{
    let counts = colour_sample_counts & depth_sample_counts;
    if counts & 64 != 0 {
        64
    } else if counts & 32 != 0 {
        32
    } else if counts & 16 != 0 {
        16
    } else if counts & 8 != 0 {
        8
    } else if counts & 4 != 0 {
        4
    } else if counts & 2 != 0 {
        2
    } else {
        1
    }
}

pub open spec fn is_first_suitable(
    profiles: Seq<DeviceProfile>,
    required: Seq<Vec<u8>>,
    i: int,
) -> bool {
    &&& 0 <= i < profiles.len()
    &&& suitability(profiles[i], required) is Ok
    &&& forall|j: int| 0 <= j < i ==> (#[trigger] suitability(profiles[j], required)) is Err
}

/// The first suitable device, with its largest shared sample count; `None`
/// when no device is suitable.
pub fn pick_physical_device(profiles: &Vec<DeviceProfile>, required: &Vec<Vec<u8>>) -> (r: Option<
    SelectedDevice,
>)
    requires
        forall|i: int|
            0 <= i < profiles@.len() ==> (#[trigger] profiles@[i]).queue_families@.len()
                <= u32::MAX,
    ensures
        r is None <==> forall|i: int|
            0 <= i < profiles@.len() ==> (#[trigger] suitability(profiles@[i], required@)) is Err,
        r matches Some(d) ==> {
            &&& is_first_suitable(profiles@, required@, d.index as int)
            &&& d.msaa_samples == max_msaa_samples(
                profiles@[d.index as int].colour_sample_counts,
                profiles@[d.index as int].depth_sample_counts,
            )
        },
{
    let mut i: usize = 0;
    while i < profiles.len()
        invariant
            i <= profiles@.len(),
            forall|k: int|
                0 <= k < profiles@.len() ==> (#[trigger] profiles@[k]).queue_families@.len()
                    <= u32::MAX,
            forall|j: int| 0 <= j < i ==> (#[trigger] suitability(profiles@[j], required@)) is Err,
        decreases profiles@.len() - i,
    {
        let p = &profiles[i];
        if check_physical_device(p, required).is_ok() {
            let msaa_samples = get_max_msaa_samples(p.colour_sample_counts, p.depth_sample_counts);
            return Some(SelectedDevice { index: i, msaa_samples });
        }
        i += 1;
    }
    None
}

impl QueueFamilyIndices {
    /// The distinct families among the two, graphics first: the queues to
    /// create, and the families a swapchain image is shared between.
    pub fn unique(&self) -> (r: Vec<u32>)
        ensures
            self.graphics == self.present ==> r@ == seq![self.graphics],
            self.graphics != self.present ==> r@ == seq![self.graphics, self.present],
    {
        let mut r: Vec<u32> = Vec::new();
        r.push(self.graphics);
        if self.present != self.graphics {
            r.push(self.present);
        }
        r
    }
}

} // verus!
