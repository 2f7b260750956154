use engine_core::bootstrap::{Action, BootstrapContext, Resource, Step};
use engine_core::conf::{
    EngineConfig, VulkanConfig, VulkanInstanceConfig, VulkanPhysicalDeviceConfig, WindowConfig,
};
use engine_core::engine::Engine;
use engine_core::error::BootstrapError;
use engine_core::instance::plan_instance;
use engine_core::logical_device::plan_logical_device;
use engine_core::physical_device::{
    DeviceFeatureSupportMatrix, QueueFamilyIndices, QueueFlagSupportMatrix, VulkanPhysicalDevice,
};
use engine_core::validation::{
    create_debug_messenger, diagnostic_level, required_layers, DiagnosticLevel, VulkanDebugUtil,
    KHRONOS_VALIDATION_LAYER, SEVERITY_ERROR, SEVERITY_INFO, SEVERITY_VERBOSE, SEVERITY_WARNING,
};
use engine_core::window::{control_for, LoopControl, WindowInput};

/// Runs the machine, failing the step at `fail_at` if given, and returns the
/// construction trace and the teardown trace.
fn scripted_run(validation: bool, fail_at: Option<Step>) -> (Vec<Resource>, Vec<Resource>, Action) {
    let mut ctx = BootstrapContext::new(validation);
    let mut constructed = Vec::new();
    let mut action = ctx.next_action();
    while let Action::Perform(step) = action {
        if Some(step) == fail_at {
            action = ctx.advance(Err(BootstrapError::SurfaceCreationFailure("lost".to_string())));
        } else {
            if let Some(r) = step.resource() {
                constructed.push(r);
            }
            action = ctx.advance(Ok(()));
        }
    }
    assert_eq!(ctx.live_resources(), constructed);
    let destroyed = ctx.teardown();
    (constructed, destroyed, action)
}

fn mirrored(v: &[Resource]) -> Vec<Resource> {
    v.iter().rev().copied().collect()
}

#[test]
fn full_run_with_validation_tears_down_in_reverse() {
    let (built, destroyed, action) = scripted_run(true, None);
    assert_eq!(action, Action::Ready);
    assert_eq!(
        built,
        vec![
            Resource::ValidationLayer,
            Resource::Instance,
            Resource::DebugMessenger,
            Resource::Surface,
            Resource::Device
        ]
    );
    assert_eq!(destroyed, mirrored(&built));
}

#[test]
fn full_run_without_validation_tears_down_in_reverse() {
    let (built, destroyed, action) = scripted_run(false, None);
    assert_eq!(action, Action::Ready);
    assert_eq!(
        built,
        vec![Resource::ValidationLayer, Resource::Instance, Resource::Surface, Resource::Device]
    );
    assert_eq!(
        destroyed,
        vec![Resource::Device, Resource::Surface, Resource::Instance, Resource::ValidationLayer]
    );
}

#[test]
fn failed_run_unwinds_what_was_built() {
    let (built, destroyed, action) = scripted_run(true, Some(Step::CreateSurface));
    assert_eq!(
        action,
        Action::Abort(BootstrapError::SurfaceCreationFailure("lost".to_string()))
    );
    assert_eq!(
        built,
        vec![Resource::ValidationLayer, Resource::Instance, Resource::DebugMessenger]
    );
    assert_eq!(destroyed, mirrored(&built));
}

#[test]
fn missing_layer_never_reaches_instance_creation() {
    let available = vec!["VK_LAYER_other".to_string()];
    let err = VulkanDebugUtil::validate_layer_support(&available, &required_layers()).unwrap_err();
    assert_eq!(
        err,
        BootstrapError::MissingValidationLayer(KHRONOS_VALIDATION_LAYER.to_string())
    );
    let mut ctx = BootstrapContext::new(true);
    assert_eq!(ctx.next_action(), Action::Perform(Step::ValidateLayers));
    let action = ctx.advance(Err(err));
    assert!(matches!(action, Action::Abort(BootstrapError::MissingValidationLayer(_))));
    // Whatever is reported afterwards, no step runs.
    assert!(matches!(ctx.advance(Ok(())), Action::Abort(_)));
    assert!(ctx.live_resources().is_empty());
    assert!(ctx.teardown().is_empty());
}

#[test]
fn layer_check_runs_first_without_validation() {
    let mut ctx = BootstrapContext::new(false);
    assert_eq!(ctx.next_action(), Action::Perform(Step::ValidateLayers));
    let err = BootstrapError::MissingValidationLayer(KHRONOS_VALIDATION_LAYER.to_string());
    assert_eq!(ctx.advance(Err(err.duplicate())), Action::Abort(err));
    assert!(matches!(ctx.advance(Ok(())), Action::Abort(_)));
    assert!(ctx.teardown().is_empty());
}

#[test]
fn second_teardown_destroys_nothing() {
    let mut ctx = BootstrapContext::new(false);
    ctx.advance(Ok(()));
    ctx.advance(Ok(()));
    ctx.advance(Ok(()));
    assert_eq!(
        ctx.teardown(),
        vec![Resource::Surface, Resource::Instance, Resource::ValidationLayer]
    );
    assert!(ctx.teardown().is_empty());
    assert_eq!(ctx.next_action(), Action::Halted);
    assert_eq!(ctx.advance(Ok(())), Action::Halted);
    assert!(ctx.teardown().is_empty());
}

#[test]
fn layer_check_is_exact_and_case_sensitive() {
    let available = vec!["VK_LAYER_khronos_validation".to_string()];
    let required = vec![KHRONOS_VALIDATION_LAYER.to_string()];
    assert!(VulkanDebugUtil::validate_layer_support(&available, &required).is_err());
    let available = vec!["a".to_string(), KHRONOS_VALIDATION_LAYER.to_string()];
    assert_eq!(VulkanDebugUtil::validate_layer_support(&available, &required), Ok(()));
    assert_eq!(VulkanDebugUtil::validate_layer_support(&available, &Vec::new()), Ok(()));
}

#[test]
fn first_missing_layer_is_named() {
    let available = vec!["b".to_string()];
    let required = vec!["b".to_string(), "c".to_string(), "d".to_string()];
    assert_eq!(
        VulkanDebugUtil::validate_layer_support(&available, &required),
        Err(BootstrapError::MissingValidationLayer("c".to_string()))
    );
}

#[test]
fn required_layers_name_khronos_validation() {
    assert_eq!(required_layers(), vec!["VK_LAYER_KHRONOS_validation".to_string()]);
}

#[test]
fn diagnostics_route_by_severity() {
    assert_eq!(diagnostic_level(SEVERITY_VERBOSE), DiagnosticLevel::Debug);
    assert_eq!(diagnostic_level(SEVERITY_INFO), DiagnosticLevel::Info);
    assert_eq!(diagnostic_level(SEVERITY_WARNING), DiagnosticLevel::Warn);
    assert_eq!(diagnostic_level(SEVERITY_ERROR), DiagnosticLevel::Error);
    assert_eq!(diagnostic_level(SEVERITY_WARNING | SEVERITY_ERROR), DiagnosticLevel::Error);
}

#[test]
fn messenger_only_with_validation() {
    assert_eq!(create_debug_messenger(false), None);
    let s = create_debug_messenger(true).unwrap();
    assert_eq!(s.severity_mask, 0x1111);
    assert_eq!(s.type_mask, 0x7);
    assert_eq!(VulkanDebugUtil::new(true).get(), Some(s));
    assert_eq!(VulkanDebugUtil::new(false).get(), None);
}

fn instance_config(app: &str) -> VulkanInstanceConfig {
    VulkanInstanceConfig {
        app_name: app.to_string(),
        app_version: 3,
        engine_name: "engine".to_string(),
        engine_version: 7,
        api_version: (1, 3, 0),
    }
}

#[test]
fn instance_plan_with_validation() {
    let platform = vec!["VK_KHR_surface".to_string(), "VK_KHR_xlib_surface".to_string()];
    let layers = required_layers();
    let p = plan_instance(&instance_config("app"), &platform, Some(&layers)).unwrap();
    assert_eq!(p.app_name, "app");
    assert_eq!(p.app_version, 3);
    assert_eq!(p.engine_name, "engine");
    assert_eq!(p.engine_version, 7);
    assert_eq!(p.api_version, 0x0040_3000);
    assert_eq!(
        p.extensions,
        vec![
            "VK_KHR_surface".to_string(),
            "VK_KHR_xlib_surface".to_string(),
            "VK_EXT_debug_utils".to_string()
        ]
    );
    assert_eq!(p.layers, layers);
}

#[test]
fn instance_plan_without_validation() {
    let platform = vec!["VK_KHR_surface".to_string()];
    let mut config = instance_config("app");
    config.api_version = (1, 2, 189);
    let p = plan_instance(&config, &platform, None).unwrap();
    assert_eq!(p.api_version, (1 << 22) | (2 << 12) | 189);
    assert_eq!(p.extensions, platform);
    assert!(p.layers.is_empty());
}

#[test]
fn instance_plan_rejects_nul_in_names() {
    let r = plan_instance(&instance_config("a\0b"), &Vec::new(), None);
    assert!(matches!(r, Err(BootstrapError::InstanceCreationFailure(_))));
    let mut config = instance_config("app");
    config.engine_name = "\0".to_string();
    let r = plan_instance(&config, &Vec::new(), None);
    assert!(matches!(r, Err(BootstrapError::InstanceCreationFailure(_))));
}

fn selected(graphics: Option<u32>) -> VulkanPhysicalDevice {
    let mut indices = QueueFamilyIndices::empty(true);
    indices.graphics_family = graphics;
    indices.present_family = Some(0);
    VulkanPhysicalDevice { index: 0, queue_family_indices: indices }
}

#[test]
fn device_plan_uses_graphics_family() {
    let features = DeviceFeatureSupportMatrix { geometry_shader: true };
    let layers = required_layers();
    let p = plan_logical_device(&selected(Some(2)), &features, Some(&layers)).unwrap();
    assert_eq!(p.queue_family_index, 2);
    assert_eq!(p.queue_count, 1);
    assert_eq!(p.queue_index, 0);
    assert_eq!(p.enabled_features, features);
    assert_eq!(p.layers, layers);
    let none = DeviceFeatureSupportMatrix { geometry_shader: false };
    let p = plan_logical_device(&selected(Some(0)), &none, None).unwrap();
    assert!(!p.enabled_features.geometry_shader);
    assert!(p.layers.is_empty());
}

#[test]
fn device_plan_without_graphics_family_fails() {
    let features = DeviceFeatureSupportMatrix { geometry_shader: false };
    let r = plan_logical_device(&selected(None), &features, None);
    assert!(matches!(r, Err(BootstrapError::DeviceCreationFailure(_))));
}

#[test]
fn loop_exits_on_close_or_escape_press() {
    assert_eq!(control_for(&WindowInput::CloseRequested), LoopControl::Exit);
    assert_eq!(
        control_for(&WindowInput::Key { escape: true, pressed: true }),
        LoopControl::Exit
    );
    assert_eq!(
        control_for(&WindowInput::Key { escape: true, pressed: false }),
        LoopControl::Continue
    );
    assert_eq!(
        control_for(&WindowInput::Key { escape: false, pressed: true }),
        LoopControl::Continue
    );
    assert_eq!(control_for(&WindowInput::Other), LoopControl::Continue);
}

#[test]
fn engine_reports_config_version() {
    let engine = Engine {
        config: EngineConfig {
            version: 4,
            window: WindowConfig {
                title: "t".to_string(),
                width: 800,
                height: 600,
                fullscreen: false,
            },
            vulkan: VulkanConfig {
                instance: instance_config("app"),
                physical_device: VulkanPhysicalDeviceConfig {
                    desired_queue_flags: QueueFlagSupportMatrix {
                        graphics: true,
                        compute: false,
                        transfer: false,
                        sparse: false,
                    },
                    desired_device_features: DeviceFeatureSupportMatrix { geometry_shader: false },
                },
            },
        },
    };
    assert_eq!(engine.info(), 4);
}
