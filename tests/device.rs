use render_core::memory::get_memory_type_index;
use render_core::physical_device::{
    check_physical_device, check_physical_device_extensions, find_queue_families,
    get_max_msaa_samples, pick_physical_device, DeviceProfile, QueueFamily, QueueFamilyIndices,
    SelectedDevice, SuitabilityError,
};

fn name(s: &str) -> Vec<u8> {
    s.as_bytes().to_vec()
}

fn required() -> Vec<Vec<u8>> {
    vec![name("VK_KHR_swapchain")]
}

fn good_profile() -> DeviceProfile {
    DeviceProfile {
        sampler_anisotropy: true,
        queue_families: vec![
            QueueFamily { graphics: false, present: false },
            QueueFamily { graphics: true, present: false },
            QueueFamily { graphics: true, present: true },
        ],
        extensions: vec![name("VK_KHR_maintenance1"), name("VK_KHR_swapchain")],
        format_count: 2,
        present_mode_count: 1,
        colour_sample_counts: 0b0001_1111,
        depth_sample_counts: 0b0000_1111,
    }
}

#[test]
fn queue_families_are_the_first_capable_ones() {
    let p = good_profile();
    assert_eq!(
        find_queue_families(&p.queue_families),
        Some(QueueFamilyIndices { graphics: 1, present: 2 })
    );
    let none_present = vec![QueueFamily { graphics: true, present: false }];
    assert_eq!(find_queue_families(&none_present), None);
    assert_eq!(find_queue_families(&Vec::new()), None);
}

#[test]
fn extensions_must_all_be_present() {
    let p = good_profile();
    assert!(check_physical_device_extensions(&p.extensions, &required()));
    assert!(check_physical_device_extensions(&p.extensions, &Vec::new()));
    assert!(!check_physical_device_extensions(&p.extensions, &vec![name("VK_KHR_swapchai")]));
    assert!(!check_physical_device_extensions(&Vec::new(), &required()));
}

#[test]
fn each_requirement_has_its_error() {
    assert_eq!(check_physical_device(&good_profile(), &required()), Ok(()));

    let mut p = good_profile();
    p.sampler_anisotropy = false;
    p.format_count = 0;
    assert_eq!(check_physical_device(&p, &required()), Err(SuitabilityError::NoSamplerAnisotropy));

    let mut p = good_profile();
    p.queue_families = vec![QueueFamily { graphics: false, present: true }];
    assert_eq!(check_physical_device(&p, &required()), Err(SuitabilityError::MissingQueueFamilies));

    let mut p = good_profile();
    p.extensions = vec![name("VK_KHR_maintenance1")];
    assert_eq!(check_physical_device(&p, &required()), Err(SuitabilityError::MissingExtensions));

    let mut p = good_profile();
    p.present_mode_count = 0;
    assert_eq!(
        check_physical_device(&p, &required()),
        Err(SuitabilityError::InsufficientSwapchainSupport)
    );
}

#[test]
fn first_suitable_device_is_picked() {
    let mut bad = good_profile();
    bad.format_count = 0;
    let mut second = good_profile();
    second.depth_sample_counts = 0b0100_0001;
    second.colour_sample_counts = 0b0111_1111;
    let profiles = vec![bad.clone(), second, good_profile()];
    assert_eq!(
        pick_physical_device(&profiles, &required()),
        Some(SelectedDevice { index: 1, msaa_samples: 64 })
    );
    assert_eq!(pick_physical_device(&vec![bad], &required()), None);
    assert_eq!(pick_physical_device(&Vec::new(), &required()), None);
}

#[test]
fn msaa_is_the_largest_shared_count() {
    assert_eq!(get_max_msaa_samples(0b0001_1111, 0b0000_1111), 8);
    assert_eq!(get_max_msaa_samples(0b0111_1111, 0b0111_1111), 64);
    assert_eq!(get_max_msaa_samples(0b0000_0100, 0b0000_0011), 1);
    assert_eq!(get_max_msaa_samples(0b0010_0110, 0b0010_0010), 32);
}

#[test]
fn memory_type_must_be_allowed_and_have_all_properties() {
    const DEVICE_LOCAL: u32 = 0x1;
    const HOST_VISIBLE: u32 = 0x2;
    const HOST_COHERENT: u32 = 0x4;
    let types = vec![
        DEVICE_LOCAL,
        HOST_VISIBLE,
        HOST_VISIBLE | HOST_COHERENT,
        DEVICE_LOCAL | HOST_VISIBLE | HOST_COHERENT,
    ];
    assert_eq!(get_memory_type_index(&types, 0b1111, HOST_VISIBLE | HOST_COHERENT), Some(2));
    assert_eq!(get_memory_type_index(&types, 0b1011, HOST_VISIBLE | HOST_COHERENT), Some(3));
    assert_eq!(get_memory_type_index(&types, 0b1111, DEVICE_LOCAL), Some(0));
    assert_eq!(get_memory_type_index(&types, 0b0110, DEVICE_LOCAL), None);
    assert_eq!(get_memory_type_index(&types, 0, 0), None);
    assert_eq!(get_memory_type_index(&types, 0b1000, 0), Some(3));
}

#[test]
fn unique_queue_families() {
    assert_eq!(QueueFamilyIndices { graphics: 2, present: 2 }.unique(), vec![2]);
    assert_eq!(QueueFamilyIndices { graphics: 0, present: 3 }.unique(), vec![0, 3]);
}
