use fractal_view::device::{
    select_among, select_device, usable_family, ApiVersion, Candidate, DeviceClass, DeviceProfile,
    NoSuitableDeviceError, QueueFamily,
};
use vulkano::device::{DeviceExtensions, QueueFlags};

fn swapchain_only() -> DeviceExtensions {
    DeviceExtensions { khr_swapchain: true, ..DeviceExtensions::empty() }
}

fn family(flags: QueueFlags, present: bool) -> QueueFamily {
    QueueFamily { flags, present }
}

fn device(class: DeviceClass, minor: u32, supported: DeviceExtensions) -> DeviceProfile {
    DeviceProfile {
        api_version: ApiVersion { major: 1, minor, patch: 0 },
        supported_extensions: supported,
        class,
        queue_families: vec![family(QueueFlags::GRAPHICS | QueueFlags::COMPUTE, true)],
    }
}

#[test]
fn class_ranks_are_in_order() {
    assert_eq!(DeviceClass::Discrete.rank(), 0);
    assert_eq!(DeviceClass::Integrated.rank(), 1);
    assert_eq!(DeviceClass::Virtual.rank(), 2);
    assert_eq!(DeviceClass::Software.rank(), 3);
    assert_eq!(DeviceClass::Unknown.rank(), 4);
}

#[test]
fn versions_compare_by_major_minor_patch() {
    let v13 = ApiVersion { major: 1, minor: 3, patch: 0 };
    assert!(v13.at_least(&v13));
    assert!(ApiVersion { major: 1, minor: 3, patch: 7 }.at_least(&v13));
    assert!(ApiVersion { major: 2, minor: 0, patch: 0 }.at_least(&v13));
    assert!(!ApiVersion { major: 1, minor: 2, patch: 999 }.at_least(&v13));
    assert!(!ApiVersion { major: 0, minor: 9, patch: 0 }.at_least(&v13));
    assert!(v13.core_dynamic_rendering());
    assert!(!ApiVersion { major: 1, minor: 2, patch: 198 }.core_dynamic_rendering());
}

#[test]
fn discrete_wins_whatever_the_order() {
    let one = vec![
        device(DeviceClass::Integrated, 3, swapchain_only()),
        device(DeviceClass::Discrete, 3, swapchain_only()),
    ];
    let other = vec![
        device(DeviceClass::Discrete, 3, swapchain_only()),
        device(DeviceClass::Integrated, 3, swapchain_only()),
    ];
    assert_eq!(select_device(&one, swapchain_only()).unwrap().device, 1);
    assert_eq!(select_device(&other, swapchain_only()).unwrap().device, 0);
}

#[test]
fn equal_classes_go_to_the_first_found() {
    let devices = vec![
        device(DeviceClass::Software, 3, swapchain_only()),
        device(DeviceClass::Integrated, 3, swapchain_only()),
        device(DeviceClass::Integrated, 3, swapchain_only()),
    ];
    assert_eq!(select_device(&devices, swapchain_only()).unwrap().device, 1);
}

#[test]
fn classes_are_ranked_down_to_unknown() {
    let devices = vec![
        device(DeviceClass::Unknown, 3, swapchain_only()),
        device(DeviceClass::Software, 3, swapchain_only()),
        device(DeviceClass::Virtual, 3, swapchain_only()),
    ];
    assert_eq!(select_device(&devices, swapchain_only()).unwrap().device, 2);
    let devices = vec![
        device(DeviceClass::Unknown, 3, swapchain_only()),
        device(DeviceClass::Software, 3, swapchain_only()),
    ];
    assert_eq!(select_device(&devices, swapchain_only()).unwrap().device, 1);
}

#[test]
fn empty_enumeration_has_no_suitable_device() {
    let devices: Vec<DeviceProfile> = Vec::new();
    assert_eq!(select_device(&devices, swapchain_only()), Err(NoSuitableDeviceError));
}

#[test]
fn device_without_required_extension_is_turned_down() {
    let devices = vec![
        device(DeviceClass::Discrete, 3, DeviceExtensions::empty()),
        device(DeviceClass::Software, 3, swapchain_only()),
    ];
    assert_eq!(select_device(&devices, swapchain_only()).unwrap().device, 1);
    let devices = vec![device(DeviceClass::Discrete, 3, DeviceExtensions::empty())];
    assert_eq!(select_device(&devices, swapchain_only()), Err(NoSuitableDeviceError));
    // Nothing required: every set of extensions will do.
    assert_eq!(select_device(&devices, DeviceExtensions::empty()).unwrap().device, 0);
}

#[test]
fn old_device_needs_the_dynamic_rendering_extension() {
    let with_extension =
        DeviceExtensions { khr_swapchain: true, khr_dynamic_rendering: true, ..DeviceExtensions::empty() };
    let devices = vec![
        device(DeviceClass::Discrete, 2, swapchain_only()),
        device(DeviceClass::Integrated, 2, with_extension),
    ];
    let chosen = select_device(&devices, swapchain_only()).unwrap();
    assert_eq!(chosen.device, 1);
    assert_eq!(chosen.queue_family, 0);
    assert_eq!(chosen.enabled_extensions, with_extension);
    assert!(chosen.enabled_extensions.khr_dynamic_rendering);
}

#[test]
fn new_device_opens_with_the_required_extensions_alone() {
    let devices = vec![device(DeviceClass::Discrete, 3, swapchain_only())];
    let chosen = select_device(&devices, swapchain_only()).unwrap();
    assert_eq!(chosen.enabled_extensions, swapchain_only());
    assert!(!chosen.enabled_extensions.khr_dynamic_rendering);
}

#[test]
fn first_family_that_computes_and_presents_is_used() {
    let mut d = device(DeviceClass::Discrete, 3, swapchain_only());
    d.queue_families = vec![
        family(QueueFlags::GRAPHICS, true),
        family(QueueFlags::COMPUTE, false),
        family(QueueFlags::TRANSFER | QueueFlags::COMPUTE, true),
        family(QueueFlags::COMPUTE, true),
    ];
    assert_eq!(d.queue_family(), Some(2));
    assert!(!d.queue_families[0].is_fit());
    assert!(!d.queue_families[1].is_fit());
    assert!(d.queue_families[2].is_fit());
    let chosen = select_device(&vec![d], swapchain_only()).unwrap();
    assert_eq!(chosen.queue_family, 2);
}

#[test]
fn device_without_fitting_family_is_turned_down() {
    let mut d = device(DeviceClass::Discrete, 3, swapchain_only());
    d.queue_families = vec![family(QueueFlags::GRAPHICS, true), family(QueueFlags::COMPUTE, false)];
    assert_eq!(d.queue_family(), None);
    assert_eq!(d.assess(&swapchain_only()).queue_family, None);
    d.queue_families = Vec::new();
    assert_eq!(d.queue_family(), None);
    assert_eq!(select_device(&vec![d], swapchain_only()), Err(NoSuitableDeviceError));
}

#[test]
fn assessment_keeps_the_class() {
    let d = device(DeviceClass::Virtual, 3, swapchain_only());
    assert_eq!(
        d.assess(&swapchain_only()),
        Candidate { class: DeviceClass::Virtual, queue_family: Some(0) }
    );
}

#[test]
fn usable_family_applies_both_filters() {
    assert_eq!(usable_family(true, false, true, Some(3)), Some(3));
    assert_eq!(usable_family(false, true, true, Some(3)), Some(3));
    assert_eq!(usable_family(false, false, true, Some(3)), None);
    assert_eq!(usable_family(true, true, false, Some(3)), None);
    assert_eq!(usable_family(true, true, true, None), None);
}

#[test]
fn select_among_takes_the_first_cheapest() {
    let c = |class, queue_family| Candidate { class, queue_family };
    let list = vec![
        c(DeviceClass::Discrete, None),
        c(DeviceClass::Virtual, Some(0)),
        c(DeviceClass::Integrated, Some(1)),
        c(DeviceClass::Integrated, Some(0)),
    ];
    assert_eq!(select_among(&list), Some(2));
    assert_eq!(select_among(&vec![c(DeviceClass::Discrete, None)]), None);
    assert_eq!(select_among(&Vec::new()), None);
}
