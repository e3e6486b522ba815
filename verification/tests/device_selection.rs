use ash::vk;
use render_core::physical_device::{
    ApiVersion, DeviceCandidate, DeviceError, DeviceKind, DriverVersion, PhysicalDevice,
};
use render_core::queue::{QueueFamily, QUEUE_GRAPHICS, QUEUE_TRANSFER};

fn device(kind: DeviceKind, max_dim: u32, families: Vec<QueueFamily>) -> DeviceCandidate {
    DeviceCandidate {
        handle: 7,
        kind,
        max_image_dimension_2d: max_dim,
        api_version: 0,
        driver_version: 0,
        queue_families: families,
    }
}

fn both() -> Vec<QueueFamily> {
    vec![QueueFamily { queue_count: 1, queue_flags: QUEUE_GRAPHICS | QUEUE_TRANSFER }]
}

#[test]
fn queue_flag_constants_are_those_of_ash() {
    assert_eq!(QUEUE_GRAPHICS, vk::QueueFlags::GRAPHICS.as_raw());
    assert_eq!(QUEUE_TRANSFER, vk::QueueFlags::TRANSFER.as_raw());
}

#[test]
fn rating_adds_class_bonus_and_image_dimension() {
    assert_eq!(PhysicalDevice::rate_physical_device(&device(DeviceKind::DiscreteGpu, 16384, both())), 17384);
    assert_eq!(PhysicalDevice::rate_physical_device(&device(DeviceKind::VirtualGpu, 4096, both())), 4596);
    assert_eq!(PhysicalDevice::rate_physical_device(&device(DeviceKind::IntegratedGpu, 8192, both())), 8442);
    assert_eq!(PhysicalDevice::rate_physical_device(&device(DeviceKind::Cpu, 1024, both())), 1024);
    assert_eq!(PhysicalDevice::rate_physical_device(&device(DeviceKind::Other, 2048, both())), 2048);
}

#[test]
fn rating_of_the_largest_dimension_does_not_overflow() {
    assert_eq!(
        PhysicalDevice::rate_physical_device(&device(DeviceKind::DiscreteGpu, u32::MAX, both())),
        1000 + u32::MAX as u64
    );
}

#[test]
fn device_without_transfer_family_rates_zero() {
    let graphics_only = vec![QueueFamily { queue_count: 4, queue_flags: QUEUE_GRAPHICS }];
    let d = device(DeviceKind::DiscreteGpu, 16384, graphics_only);
    assert!(!d.is_suitable());
    assert_eq!(PhysicalDevice::rate_physical_device(&d), 0);
}

#[test]
fn device_without_graphics_family_rates_zero() {
    let transfer_only = vec![QueueFamily { queue_count: 2, queue_flags: QUEUE_TRANSFER | 0x2 }];
    let d = device(DeviceKind::DiscreteGpu, 16384, transfer_only);
    assert!(d.offers(QUEUE_TRANSFER));
    assert!(!d.offers(QUEUE_GRAPHICS));
    assert_eq!(PhysicalDevice::rate_physical_device(&d), 0);
}

#[test]
fn family_without_queues_does_not_count() {
    let empty = vec![QueueFamily { queue_count: 0, queue_flags: QUEUE_GRAPHICS | QUEUE_TRANSFER }];
    let d = device(DeviceKind::DiscreteGpu, 16384, empty);
    assert!(!d.is_suitable());
    assert_eq!(PhysicalDevice::rate_physical_device(&d), 0);
}

#[test]
fn graphics_and_transfer_may_come_from_two_families() {
    let split = vec![
        QueueFamily { queue_count: 1, queue_flags: QUEUE_TRANSFER },
        QueueFamily { queue_count: 1, queue_flags: QUEUE_GRAPHICS },
    ];
    let d = device(DeviceKind::IntegratedGpu, 100, split);
    assert!(d.is_suitable());
    assert_eq!(PhysicalDevice::rate_physical_device(&d), 350);
}

#[test]
fn selection_returns_the_highest_scoring_suitable_device() {
    let candidates = vec![
        device(DeviceKind::IntegratedGpu, 16384, both()),
        device(DeviceKind::DiscreteGpu, 32768, vec![QueueFamily { queue_count: 1, queue_flags: QUEUE_GRAPHICS }]),
        device(DeviceKind::DiscreteGpu, 16384, both()),
        device(DeviceKind::VirtualGpu, 16384, both()),
    ];
    assert_eq!(PhysicalDevice::pick_physical_device(&candidates), Ok(2));
}

#[test]
fn selection_keeps_the_first_of_equal_scores() {
    let candidates = vec![
        device(DeviceKind::Cpu, 10, both()),
        device(DeviceKind::DiscreteGpu, 4096, both()),
        device(DeviceKind::DiscreteGpu, 4096, both()),
    ];
    assert_eq!(PhysicalDevice::pick_physical_device(&candidates), Ok(1));
}

#[test]
fn selection_fails_without_a_suitable_device() {
    let candidates = vec![
        device(DeviceKind::DiscreteGpu, 4096, vec![QueueFamily { queue_count: 1, queue_flags: QUEUE_GRAPHICS }]),
        device(DeviceKind::DiscreteGpu, 4096, vec![]),
    ];
    assert_eq!(PhysicalDevice::pick_physical_device(&candidates), Err(DeviceError::NoSuitableDevice));
}

#[test]
fn selection_fails_on_an_empty_list() {
    assert_eq!(PhysicalDevice::pick_physical_device(&[]), Err(DeviceError::NoSuitableDevice));
}

#[test]
fn suitable_device_that_scores_zero_is_still_selected() {
    let candidates = vec![
        device(DeviceKind::DiscreteGpu, 4096, vec![]),
        device(DeviceKind::Other, 0, both()),
    ];
    assert_eq!(PhysicalDevice::pick_physical_device(&candidates), Ok(1));
}

#[test]
fn api_version_unpacks_what_ash_packs() {
    let packed = vk::make_api_version(0, 1, 3, 251);
    assert_eq!(ApiVersion::unpack(packed), ApiVersion { variant: 0, major: 1, minor: 3, patch: 251 });
    let other = vk::make_api_version(5, 127, 1023, 4095);
    assert_eq!(ApiVersion::unpack(other), ApiVersion { variant: 5, major: 127, minor: 1023, patch: 4095 });
    assert_eq!(ApiVersion::unpack(0), ApiVersion { variant: 0, major: 0, minor: 0, patch: 0 });
}

#[test]
fn driver_version_unpacks_ten_ten_twelve_bits() {
    let packed = (535u32 << 22) | (86u32 << 12) | 5;
    assert_eq!(DriverVersion::unpack(packed), DriverVersion { major: 535, minor: 86, patch: 5 });
    assert_eq!(DriverVersion::unpack(u32::MAX), DriverVersion { major: 1023, minor: 1023, patch: 4095 });
}

#[test]
fn api_version_fields_are_the_documented_bit_ranges() {
    let samples = [0u32, 1, 0xfff, 0x1000, 0x3f_ffff, 0x40_0000, 0x1fff_ffff, 0x2000_0000, 0xdead_beef, u32::MAX];
    for packed in samples {
        let v = ApiVersion::unpack(packed);
        assert_eq!(v.variant, packed >> 29);
        assert_eq!(v.major, (packed >> 22) & 0x7f);
        assert_eq!(v.minor, (packed >> 12) & 0x3ff);
        assert_eq!(v.patch, packed & 0xfff);
        assert_eq!(vk::make_api_version(v.variant, v.major, v.minor, v.patch), packed);
    }
}
