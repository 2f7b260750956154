use vstd::prelude::*;

use crate::physical_device::{DeviceFeatureSupportMatrix, QueueFlagSupportMatrix};

verus! {

/// The window the context presents to.
#[derive(Debug, PartialEq, Eq)]
pub struct WindowConfig {
    pub title: String,
    pub width: i32,
    pub height: i32,
    pub fullscreen: bool,
}

/// The identity that the instance is created with.
#[derive(Debug, PartialEq, Eq)]
pub struct VulkanInstanceConfig {
    pub app_name: String,
    pub app_version: u32,
    pub engine_name: String,
    pub engine_version: u32,
    /// Target API version as (major, minor, patch).
    pub api_version: (u32, u32, u32),
}

/// The capability requirement that adapter selection satisfies.
#[derive(Debug, Clone, Copy, PartialEq, Eq)]
pub struct VulkanPhysicalDeviceConfig {
    pub desired_queue_flags: QueueFlagSupportMatrix,
    pub desired_device_features: DeviceFeatureSupportMatrix,
}

#[derive(Debug, PartialEq, Eq)]
pub struct VulkanConfig {
    pub instance: VulkanInstanceConfig,
    pub physical_device: VulkanPhysicalDeviceConfig,
}

/// The engine's configuration, already loaded and validated.
#[derive(Debug, PartialEq, Eq)]
pub struct EngineConfig {
    pub version: i32,
    pub window: WindowConfig,
    pub vulkan: VulkanConfig,
}

/// The editor's configuration, already loaded and validated.
#[derive(Debug, PartialEq, Eq)]
pub struct EditorConfig {
    pub version: i32,
    pub window: WindowConfig,
    pub vulkan: VulkanConfig,
}

} // verus!
