use bevy_graphics_interop::devices::{classify_devices, select_physical_device, DeviceClass};
use bevy_graphics_interop::versions::{resolve_instance_version, target_api_version, Platform};

const ALL: [DeviceClass; 6] = [
    DeviceClass::Other,
    DeviceClass::IntegratedGpu,
    DeviceClass::DiscreteGpu,
    DeviceClass::VirtualGpu,
    DeviceClass::Cpu,
    DeviceClass::Unrecognized,
];

fn permutations(items: &mut Vec<DeviceClass>, from: usize, out: &mut Vec<Vec<DeviceClass>>) {
    if from == items.len() {
        out.push(items.clone());
        return;
    }
    for i in from..items.len() {
        items.swap(from, i);
        permutations(items, from + 1, out);
        items.swap(from, i);
    }
}

#[test]
fn discrete_gpu_is_chosen_wherever_it_stands() {
    let mut all = Vec::new();
    permutations(&mut ALL.to_vec(), 0, &mut all);
    assert_eq!(all.len(), 720);
    for order in all {
        let chosen = select_physical_device(&order).unwrap();
        assert_eq!(order[chosen], DeviceClass::DiscreteGpu);
    }
}

#[test]
fn no_device_gives_no_choice() {
    assert_eq!(select_physical_device(&Vec::new()), None);
}

#[test]
fn first_of_equal_devices_is_chosen() {
    let devices = vec![
        DeviceClass::Cpu,
        DeviceClass::DiscreteGpu,
        DeviceClass::IntegratedGpu,
        DeviceClass::DiscreteGpu,
    ];
    assert_eq!(select_physical_device(&devices), Some(1));
    let same = vec![DeviceClass::VirtualGpu, DeviceClass::VirtualGpu, DeviceClass::VirtualGpu];
    assert_eq!(select_physical_device(&same), Some(0));
}

#[test]
fn classes_are_preferred_in_order() {
    let pairs = [
        (DeviceClass::DiscreteGpu, DeviceClass::IntegratedGpu),
        (DeviceClass::IntegratedGpu, DeviceClass::VirtualGpu),
        (DeviceClass::VirtualGpu, DeviceClass::Other),
        (DeviceClass::Other, DeviceClass::Cpu),
        (DeviceClass::Cpu, DeviceClass::Unrecognized),
    ];
    for (better, worse) in pairs {
        assert_eq!(select_physical_device(&vec![worse, better]), Some(1));
        assert_eq!(select_physical_device(&vec![better, worse]), Some(0));
        assert!(better.priority() < worse.priority());
    }
}

#[test]
fn priorities_have_their_values() {
    assert_eq!(DeviceClass::DiscreteGpu.priority(), 1);
    assert_eq!(DeviceClass::IntegratedGpu.priority(), 2);
    assert_eq!(DeviceClass::VirtualGpu.priority(), 3);
    assert_eq!(DeviceClass::Other.priority(), 4);
    assert_eq!(DeviceClass::Cpu.priority(), 5);
    assert_eq!(DeviceClass::Unrecognized.priority(), 6);
}

#[test]
fn raw_type_values_are_classified() {
    assert_eq!(
        classify_devices(&vec![0, 1, 2, 3, 4, 5, -1, i32::MAX]),
        vec![
            DeviceClass::Other,
            DeviceClass::IntegratedGpu,
            DeviceClass::DiscreteGpu,
            DeviceClass::VirtualGpu,
            DeviceClass::Cpu,
            DeviceClass::Unrecognized,
            DeviceClass::Unrecognized,
            DeviceClass::Unrecognized,
        ]
    );
    assert_eq!(DeviceClass::from_raw(ash::vk::PhysicalDeviceType::DISCRETE_GPU.as_raw()), DeviceClass::DiscreteGpu);
    assert_eq!(DeviceClass::from_raw(ash::vk::PhysicalDeviceType::INTEGRATED_GPU.as_raw()), DeviceClass::IntegratedGpu);
    assert_eq!(DeviceClass::from_raw(ash::vk::PhysicalDeviceType::VIRTUAL_GPU.as_raw()), DeviceClass::VirtualGpu);
    assert_eq!(DeviceClass::from_raw(ash::vk::PhysicalDeviceType::OTHER.as_raw()), DeviceClass::Other);
    assert_eq!(DeviceClass::from_raw(ash::vk::PhysicalDeviceType::CPU.as_raw()), DeviceClass::Cpu);
}

#[test]
fn target_version_depends_on_platform() {
    assert_eq!(target_api_version(Platform::Desktop), 0x40_2000);
    assert_eq!(target_api_version(Platform::Android), 0x40_1000);
    assert_eq!(target_api_version(Platform::Desktop), ash::vk::API_VERSION_1_2);
    assert_eq!(target_api_version(Platform::Android), ash::vk::API_VERSION_1_1);
}

#[test]
fn unreported_version_is_one_point_zero() {
    assert_eq!(resolve_instance_version(None), 0x40_0000);
    assert_eq!(resolve_instance_version(None), ash::vk::API_VERSION_1_0);
    assert_eq!(resolve_instance_version(Some(ash::vk::API_VERSION_1_3)), ash::vk::API_VERSION_1_3);
    assert_eq!(resolve_instance_version(Some(0)), 0);
}
