use vstd::prelude::*;
use vstd::string::*;

use crate::error::BootstrapError;
use crate::instance::copy_names;
use crate::physical_device::{DeviceFeatureSupportMatrix, VulkanPhysicalDevice};

verus! {

/// The parameters that the logical device is created with: one queue of the
/// graphics family, at maximum priority, and queue 0 of it taken as the
/// graphics submission queue.
#[derive(Debug)]
pub struct LogicalDevicePlan {
    pub queue_family_index: u32,
    /// How many queues are requested from the family.
    pub queue_count: u32,
    /// Which queue of the family serves graphics submission.
    pub queue_index: u32,
    /// The features requested: those that selection required, no others.
    pub enabled_features: DeviceFeatureSupportMatrix,
    /// The validated layers when validation is enabled, else none.
    pub layers: Vec<String>,
}

/// Builds the device creation parameters for the selected adapter. Fails with
/// `DeviceCreationFailure` when its resolution has no graphics family.
pub fn plan_logical_device(
    physical_device: &VulkanPhysicalDevice,
    required_features: &DeviceFeatureSupportMatrix,
    validation_layers: Option<&Vec<String>>,
) -> (r: Result<LogicalDevicePlan, BootstrapError>)
    ensures
        r is Err <==> physical_device.queue_family_indices.graphics_family is None,
        r matches Err(e) ==> e is DeviceCreationFailure,
        r matches Ok(p) ==> {
            &&& physical_device.queue_family_indices.graphics_family == Some(p.queue_family_index)
            &&& p.queue_count == 1
            &&& p.queue_index == 0
            &&& p.enabled_features == *required_features
            &&& match validation_layers {
                Some(layers) => p.layers@ == layers@,
                None => p.layers@.len() == 0,
            }
        },
{
    let queue_family_index = match physical_device.queue_family_indices.graphics_family {
        Some(index) => index,
        None => {
            return Err(
                BootstrapError::DeviceCreationFailure(
                    String::from_str("the selected adapter has no graphics queue family"),
                ),
            );
        },
    };
    let layers = match validation_layers {
        Some(layers) => copy_names(layers),
        None => Vec::new(),
    };
    Ok(
        LogicalDevicePlan {
            queue_family_index,
            queue_count: 1,
            queue_index: 0,
            enabled_features: *required_features,
            layers,
        },
    )
}

} // verus!
