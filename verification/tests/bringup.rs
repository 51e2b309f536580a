use bevy_graphics_interop::versions::Platform;
use bevy_graphics_interop::vulkan_init::{
    prefixed, Bringup, APPLICATION_NAME, ENGINE_NAME, DriverCall, DriverReply, Stage, VulkanInitError, VulkanWgpuInitPlugin,
};
use bevy_graphics_interop::GraphicsInteropSettings;

fn owned(names: &[&str]) -> Vec<String> {
    names.iter().map(|n| n.to_string()).collect()
}

fn step(state: Bringup, reply: DriverReply) -> (Bringup, DriverCall) {
    state.advance(reply).unwrap()
}

/// Runs a bring-up up to the enumeration of physical devices.
fn up_to_devices(platform: Platform, settings: GraphicsInteropSettings) -> Bringup {
    let (state, call) = Bringup::begin(platform, settings);
    assert!(matches!(call, DriverCall::LoadDriver));
    let (state, _) = step(state, DriverReply::Done);
    let (state, _) = step(state, DriverReply::Names(owned(&["VK_KHR_surface"])));
    let (state, _) = step(state, DriverReply::Done);
    let (state, _) = step(state, DriverReply::Names(owned(&[])));
    let (state, _) = step(state, DriverReply::InstanceVersion(Some(0x40_3000)));
    let (state, call) = step(state, DriverReply::Done);
    assert!(matches!(call, DriverCall::EnumeratePhysicalDevices));
    assert_eq!(state.stage, Stage::EnumeratingDevices);
    state
}

#[test]
fn bringup_creates_device_on_discrete_gpu_with_all_extensions() {
    let mut settings = GraphicsInteropSettings::new();
    settings.add_vk_device_extension("ext_a");
    let (state, call) = Bringup::begin(Platform::Desktop, settings);
    assert!(matches!(call, DriverCall::LoadDriver));

    let (state, call) = step(state, DriverReply::Done);
    assert!(matches!(call, DriverCall::QueryInstanceExtensions { api_version: 0x40_2000 }));

    let reply = DriverReply::Names(owned(&["VK_KHR_surface", "VK_KHR_surface", "VK_EXT_debug_utils"]));
    let (state, call) = step(state, reply);
    match call {
        DriverCall::CreateInstance { api_version, application_version, engine_version, extensions } => {
            assert_eq!(api_version, 0x40_2000);
            assert_eq!(application_version, 1);
            assert_eq!(engine_version, 15);
            assert_eq!(extensions, owned(&["VK_KHR_surface", "VK_EXT_debug_utils"]));
        }
        other => panic!("unexpected call {:?}", other),
    }

    let (state, call) = step(state, DriverReply::Done);
    assert!(matches!(call, DriverCall::EnumerateLayers));

    let (state, call) = step(state, DriverReply::Names(owned(&["VK_LAYER_NV_optimus"])));
    assert!(matches!(call, DriverCall::QueryInstanceVersion));

    let (state, call) = step(state, DriverReply::InstanceVersion(Some(0x40_3000)));
    match call {
        DriverCall::WrapInstance { api_version, has_nv_optimus, extensions } => {
            assert_eq!(api_version, 0x40_3000);
            assert!(has_nv_optimus);
            assert_eq!(extensions, owned(&["VK_KHR_surface", "VK_EXT_debug_utils"]));
        }
        other => panic!("unexpected call {:?}", other),
    }

    let (state, call) = step(state, DriverReply::Done);
    assert!(matches!(call, DriverCall::EnumeratePhysicalDevices));

    let integrated = ash::vk::PhysicalDeviceType::INTEGRATED_GPU.as_raw();
    let discrete = ash::vk::PhysicalDeviceType::DISCRETE_GPU.as_raw();
    let (state, call) = step(state, DriverReply::PhysicalDevices(vec![integrated, discrete]));
    assert!(matches!(call, DriverCall::ExposeAdapter { device: 1 }));

    let (state, call) = step(state, DriverReply::Adapter(true));
    assert!(matches!(call, DriverCall::QueryDeviceExtensions));

    let (state, call) = step(state, DriverReply::Names(owned(&["VK_KHR_swapchain", "VK_KHR_maintenance1"])));
    match call {
        DriverCall::CreateDevice { device, queue_family, multiview, extensions, required } => {
            assert_eq!(device, 1);
            assert_eq!(required, owned(&["VK_KHR_swapchain", "VK_KHR_maintenance1"]));
            assert_eq!(queue_family, 0);
            assert!(multiview);
            assert_eq!(extensions, owned(&["ext_a", "VK_KHR_swapchain", "VK_KHR_maintenance1"]));
        }
        other => panic!("unexpected call {:?}", other),
    }

    let (state, call) = step(state, DriverReply::Done);
    match call {
        DriverCall::WrapDevice { queue_family, queue_index, extensions } => {
            assert_eq!(queue_family, 0);
            assert_eq!(queue_index, 0);
            assert_eq!(extensions, owned(&["VK_KHR_swapchain", "VK_KHR_maintenance1"]));
        }
        other => panic!("unexpected call {:?}", other),
    }

    let (state, call) = step(state, DriverReply::Done);
    assert!(matches!(call, DriverCall::Deliver));
    assert_eq!(state.stage, Stage::Finished);
    assert!(state.is_over());
    assert_eq!(state.device, 1);
    assert!(state.advance(DriverReply::Done).is_none());
}

#[test]
fn instance_is_created_under_fixed_names() {
    assert_eq!(APPLICATION_NAME, "bevy_graphics_interop vulkan app");
    assert_eq!(ENGINE_NAME, "bevy");
}

#[test]
fn instance_extensions_are_listed_once_each() {
    let mut settings = GraphicsInteropSettings::new();
    settings.add_vk_instance_extension("registered");
    let (state, _) = Bringup::begin(Platform::Desktop, settings);
    let (state, _) = step(state, DriverReply::Done);
    let (state, call) = step(state, DriverReply::Names(owned(&["a", "b", "a", "c", "b", "a"])));
    match call {
        DriverCall::CreateInstance { extensions, .. } => {
            assert_eq!(extensions, owned(&["a", "b", "c"]));
        }
        other => panic!("unexpected call {:?}", other),
    }
    assert_eq!(state.instance_extensions, owned(&["a", "b", "c"]));
}

#[test]
fn no_physical_device_fails_and_makes_no_further_call() {
    let state = up_to_devices(Platform::Desktop, GraphicsInteropSettings::new());
    let (state, call) = step(state, DriverReply::PhysicalDevices(Vec::new()));
    assert!(matches!(call, DriverCall::Abort(VulkanInitError::NoPhysicalDevice)));
    assert_eq!(state.stage, Stage::Failed);
    assert!(state.is_over());
    assert!(state.advance(DriverReply::Adapter(true)).is_none());
}

#[test]
fn declined_adapter_fails_and_creates_no_device() {
    let state = up_to_devices(Platform::Desktop, GraphicsInteropSettings::new());
    let (state, call) = step(state, DriverReply::PhysicalDevices(vec![4, 3]));
    assert!(matches!(call, DriverCall::ExposeAdapter { device: 1 }));
    let (state, call) = step(state, DriverReply::Adapter(false));
    assert!(matches!(call, DriverCall::Abort(VulkanInitError::NoWgpuAdapter)));
    assert_eq!(state.stage, Stage::Failed);
    assert!(state.advance(DriverReply::Names(Vec::new())).is_none());
}

#[test]
fn missing_instance_version_defaults_to_oldest() {
    let (state, _) = Bringup::begin(Platform::Android, GraphicsInteropSettings::new());
    let (state, call) = step(state, DriverReply::Done);
    assert!(matches!(call, DriverCall::QueryInstanceExtensions { api_version: 0x40_1000 }));
    let (state, _) = step(state, DriverReply::Names(owned(&["VK_KHR_surface"])));
    let (state, _) = step(state, DriverReply::Done);
    let (state, _) = step(state, DriverReply::Names(owned(&["VK_LAYER_KHRONOS_validation"])));
    let (state, call) = step(state, DriverReply::InstanceVersion(None));
    match call {
        DriverCall::WrapInstance { api_version, has_nv_optimus, extensions } => {
            assert_eq!(api_version, 0x40_0000);
            assert!(!has_nv_optimus);
            assert_eq!(extensions, owned(&["VK_KHR_surface"]));
        }
        other => panic!("unexpected call {:?}", other),
    }
    assert_eq!(state.instance_version, 0x40_0000);
    assert_eq!(state.stage, Stage::WrappingInstance);
}

#[test]
fn failed_call_ends_the_bringup_with_its_error() {
    let (state, _) = Bringup::begin(Platform::Desktop, GraphicsInteropSettings::new());
    let failure = DriverReply::Failed(VulkanInitError::AshLoadingErr("no library".to_string()));
    let (state, call) = step(state, failure);
    match call {
        DriverCall::Abort(VulkanInitError::AshLoadingErr(detail)) => assert_eq!(detail, "no library"),
        other => panic!("unexpected call {:?}", other),
    }
    assert_eq!(state.stage, Stage::Failed);
    assert!(state.advance(DriverReply::Done).is_none());

    let state = up_to_devices(Platform::Desktop, GraphicsInteropSettings::new());
    let (state, call) = step(state, DriverReply::Failed(VulkanInitError::AshErr(-3)));
    assert!(matches!(call, DriverCall::Abort(VulkanInitError::AshErr(-3))));
    assert!(state.is_over());
}

#[test]
fn reply_of_another_kind_is_not_taken() {
    let (state, _) = Bringup::begin(Platform::Desktop, GraphicsInteropSettings::new());
    assert!(state.advance(DriverReply::Adapter(true)).is_none());
    let state = up_to_devices(Platform::Desktop, GraphicsInteropSettings::new());
    assert!(state.advance(DriverReply::Done).is_none());
}

#[test]
fn plugin_without_settings_does_nothing() {
    let plugin = VulkanWgpuInitPlugin;
    assert!(plugin.start(Platform::Desktop, None).is_none());
    let mut settings = GraphicsInteropSettings::new();
    settings.add_vk_device_extension("ext_a");
    let (state, call) = plugin.start(Platform::Desktop, Some(settings)).unwrap();
    assert!(matches!(call, DriverCall::LoadDriver));
    assert_eq!(state.stage, Stage::LoadingDriver);
    assert_eq!(state.requested, owned(&["ext_a"]));
}

#[test]
fn error_messages_name_the_failed_step() {
    assert_eq!(VulkanInitError::NoPhysicalDevice.message(), "No Physical Vulkan Device");
    assert_eq!(
        VulkanInitError::NoWgpuAdapter.message(),
        "No Wgpu adapter could be provided for the Physical Device"
    );
    assert_eq!(
        VulkanInitError::AshLoadingErr("libvulkan.so.1 missing".to_string()).message(),
        "unable to load vulkan: libvulkan.so.1 missing"
    );
    assert_eq!(
        VulkanInitError::WgpuHalInstanceErr("x".to_string()).message(),
        "wgpu_hal instance error: x"
    );
    assert_eq!(
        VulkanInitError::WgpuHalDeviceErr("y".to_string()).message(),
        "wgpu_hal device error: y"
    );
    assert_eq!(
        VulkanInitError::WgpuRequestDeviceErr("z".to_string()).message(),
        "failed to request wgpu device: z"
    );
    assert_eq!(prefixed("a: ", "b"), "a: b");
}

#[test]
fn vulkan_error_message_holds_the_result_text() {
    assert_eq!(
        VulkanInitError::AshErr(-3).message(),
        "vulkan error: Initialization of an object has failed"
    );
    assert_eq!(
        VulkanInitError::AshErr(ash::vk::Result::ERROR_EXTENSION_NOT_PRESENT.as_raw()).message(),
        format!("vulkan error: {}", ash::vk::Result::ERROR_EXTENSION_NOT_PRESENT)
    );
    assert_eq!(
        VulkanInitError::AshErr(-7).message(),
        "vulkan error: Extension specified does not exist"
    );
}
