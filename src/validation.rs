use vstd::prelude::*;
use vstd::string::*;

use crate::error::BootstrapError;

verus! {

/// The validation layer that development builds require.
pub const KHRONOS_VALIDATION_LAYER: &'static str = "VK_LAYER_KHRONOS_validation";

/// `VK_DEBUG_UTILS_MESSAGE_SEVERITY_VERBOSE_BIT_EXT`.
pub const SEVERITY_VERBOSE: u32 = 0x1;

/// `VK_DEBUG_UTILS_MESSAGE_SEVERITY_INFO_BIT_EXT`.
pub const SEVERITY_INFO: u32 = 0x10;

/// `VK_DEBUG_UTILS_MESSAGE_SEVERITY_WARNING_BIT_EXT`.
pub const SEVERITY_WARNING: u32 = 0x100;

/// `VK_DEBUG_UTILS_MESSAGE_SEVERITY_ERROR_BIT_EXT`.
pub const SEVERITY_ERROR: u32 = 0x1000;

/// `VK_DEBUG_UTILS_MESSAGE_TYPE_GENERAL_BIT_EXT`.
pub const MESSAGE_TYPE_GENERAL: u32 = 0x1;

/// `VK_DEBUG_UTILS_MESSAGE_TYPE_VALIDATION_BIT_EXT`.
pub const MESSAGE_TYPE_VALIDATION: u32 = 0x2;

/// `VK_DEBUG_UTILS_MESSAGE_TYPE_PERFORMANCE_BIT_EXT`.
pub const MESSAGE_TYPE_PERFORMANCE: u32 = 0x4;

/// The layers that a build with validation requires, in order.
pub fn required_layers() -> (r: Vec<String>)
    ensures
        r@.len() == 1,
        r@[0]@ == KHRONOS_VALIDATION_LAYER@,
{
    let mut r: Vec<String> = Vec::new();
    r.push(String::from_str(KHRONOS_VALIDATION_LAYER));
    r
}

/// Some name of `available` equals `name`, character for character.
pub open spec fn layer_offered(available: Seq<String>, name: String) -> bool {
    exists|j: int| 0 <= j < available.len() && (#[trigger] available[j])@ == name@
}

/// `i` is the first required layer that `available` does not offer.
pub open spec fn is_first_missing(available: Seq<String>, required: Seq<String>, i: int) -> bool {
    &&& 0 <= i < required.len()
    &&& !layer_offered(available, required[i])
    &&& forall|k: int| 0 <= k < i ==> layer_offered(available, #[trigger] required[k])
}

/// Whether `available` offers `name` (exact, case-sensitive match).
pub fn is_layer_offered(available: &Vec<String>, name: &String) -> (r: bool)
    ensures
        r == layer_offered(available@, *name),
{
    let mut j: usize = 0;
    while j < available.len()
        invariant
            j <= available.len(),
            forall|k: int| 0 <= k < j ==> (#[trigger] available@[k])@ != name@,
        decreases available.len() - j,
    {
        if available[j] == *name {
            return true;
        }
        j += 1;
    }
    false
}

/// How a driver diagnostic is routed to the log.
#[derive(Debug, Clone, Copy, PartialEq, Eq)]
pub enum DiagnosticLevel {
    Debug,
    Info,
    Warn,
    Error,
}

/// The log level of a diagnostic of the given severity: verbose, info and
/// warning go to their own level, anything else is an error.
pub fn diagnostic_level(severity: u32) -> (r: DiagnosticLevel)
    ensures
        r == (if severity == SEVERITY_VERBOSE {
            DiagnosticLevel::Debug
        } else if severity == SEVERITY_INFO {
            DiagnosticLevel::Info
        } else if severity == SEVERITY_WARNING {
            DiagnosticLevel::Warn
        } else {
            DiagnosticLevel::Error
        }),
{
    if severity == SEVERITY_VERBOSE {
        DiagnosticLevel::Debug
    } else if severity == SEVERITY_INFO {
        DiagnosticLevel::Info
    } else if severity == SEVERITY_WARNING {
        DiagnosticLevel::Warn
    } else {
        DiagnosticLevel::Error
    }
}

/// The parameters that the debug messenger is registered with.
#[derive(Debug, Clone, Copy, PartialEq, Eq)]
pub struct DebugMessengerSettings {
    /// The severities the callback receives.
    pub severity_mask: u32,
    /// The message categories the callback receives.
    pub type_mask: u32,
}

/// Verbose, info, warning and error diagnostics of the general, validation and
/// performance categories.
pub open spec fn messenger_settings() -> DebugMessengerSettings {
    DebugMessengerSettings {
        severity_mask: SEVERITY_VERBOSE | SEVERITY_INFO | SEVERITY_WARNING | SEVERITY_ERROR,
        type_mask: MESSAGE_TYPE_GENERAL | MESSAGE_TYPE_VALIDATION | MESSAGE_TYPE_PERFORMANCE,
    }
}

/// The messenger to attach: none when validation is disabled.
pub fn create_debug_messenger(validation: bool) -> (r: Option<DebugMessengerSettings>)
    ensures
        r == (if validation {
            Some(messenger_settings())
        } else {
            None::<DebugMessengerSettings>
        }),
{
    if !validation {
        return None;
    }
    Some(
        DebugMessengerSettings {
            severity_mask: SEVERITY_VERBOSE | SEVERITY_INFO | SEVERITY_WARNING | SEVERITY_ERROR,
            type_mask: MESSAGE_TYPE_GENERAL | MESSAGE_TYPE_VALIDATION | MESSAGE_TYPE_PERFORMANCE,
        },
    )
}

/// The validation tooling of the context: the layer check, and the messenger
/// that is attached once the instance exists.
#[derive(Debug, Clone, Copy, PartialEq, Eq)]
pub struct VulkanDebugUtil {
    pub util: Option<DebugMessengerSettings>,
}

impl VulkanDebugUtil {
    pub fn new(validation: bool) -> (r: VulkanDebugUtil)
        ensures
            r.util == (if validation {
                Some(messenger_settings())
            } else {
                None::<DebugMessengerSettings>
            }),
    {
        VulkanDebugUtil { util: create_debug_messenger(validation) }
    }

    pub fn get(&self) -> (r: Option<DebugMessengerSettings>)
        ensures
            r == self.util,
    {
        self.util
    }

    /// Checks that the host offers every required layer; the first one missing
    /// is named in `MissingValidationLayer`.
    pub fn validate_layer_support(available: &Vec<String>, layers: &Vec<String>) -> (r: Result<
        (),
        BootstrapError,
    >)
        ensures
            r is Ok <==> forall|i: int| 0 <= i < layers.len() ==> layer_offered(available@, #[trigger] layers@[i]),
            r matches Err(e) ==> exists|i: int|
                is_first_missing(available@, layers@, i) && e == BootstrapError::MissingValidationLayer(
                    #[trigger] layers@[i],
                ),
    {
        let mut i: usize = 0;
        while i < layers.len()
            invariant
                i <= layers.len(),
                forall|k: int| 0 <= k < i ==> layer_offered(available@, #[trigger] layers@[k]),
            decreases layers.len() - i,
        {
            if !is_layer_offered(available, &layers[i]) {
                let missing = layers[i].clone();
                assert(is_first_missing(available@, layers@, i as int));
                return Err(BootstrapError::MissingValidationLayer(missing));
            }
            i += 1;
        }
        Ok(())
    }
}

} // verus!
