use vstd::prelude::*;
use vstd::string::*;

use crate::conf::VulkanInstanceConfig;
use crate::error::BootstrapError;

verus! {

/// The packed API version word for `major.minor.patch` with variant 0.
pub open spec fn packed_api_version(major: u32, minor: u32, patch: u32) -> u32 {
    (major << 22u32) | (minor << 12u32) | patch
}

/// Relies on `ash::vk::make_api_version`, which computes
/// `(variant << 29) | (major << 22) | (minor << 12) | patch`; variant is 0 here.
#[verifier::external_body]
fn make_api_version(major: u32, minor: u32, patch: u32) -> (r: u32)
    ensures
        r == packed_api_version(major, minor, patch),
{
    ash::vk::make_api_version(0, major, minor, patch)
}

/// Relies on `ash::extensions::ext::DebugUtils::name`: the C string
/// `VK_EXT_debug_utils`.
#[verifier::external_body]
fn debug_utils_extension_name() -> (r: String)
    ensures
        r@ == "VK_EXT_debug_utils"@,
{
    ash::extensions::ext::DebugUtils::name().to_string_lossy().into_owned()
}

/// A copy of a list of names.
pub fn copy_names(names: &Vec<String>) -> (r: Vec<String>)
    ensures
        r@ == names@,
{
    let mut r: Vec<String> = Vec::new();
    let mut i: usize = 0;
    while i < names.len()
        invariant
            i <= names.len(),
            r@ == names@.take(i as int),
        decreases names.len() - i,
    {
        r.push(names[i].clone());
        assert(names@.take(i + 1) == names@.take(i as int).push(names@[i as int]));
        i += 1;
    }
    assert(names@.take(names.len() as int) == names@);
    r
}

/// Whether `s` holds a NUL character, which a C string cannot carry.
pub open spec fn holds_nul(s: Seq<char>) -> bool {
    exists|i: int| 0 <= i < s.len() && s[i] == '\0'
}

/// Executable form of `holds_nul`.
pub fn has_nul(s: &String) -> (r: bool)
    ensures
        r == holds_nul(s@),
{
    let n = s.as_str().unicode_len();
    let mut i: usize = 0;
    while i < n
        invariant
            i <= n,
            n == s@.len(),
            forall|k: int| 0 <= k < i ==> s@[k] != '\0',
        decreases n - i,
    {
        if s.as_str().get_char(i) == '\0' {
            return true;
        }
        i += 1;
    }
    false
}

/// The parameters that the instance is created with.
#[derive(Debug)]
pub struct InstancePlan {
    pub app_name: String,
    pub app_version: u32,
    pub engine_name: String,
    pub engine_version: u32,
    /// The packed target API version.
    pub api_version: u32,
    /// The platform's surface extensions, then the debug-utility extension when
    /// validation is enabled.
    pub extensions: Vec<String>,
    /// The validated layers when validation is enabled, else none.
    pub layers: Vec<String>,
}

/// Builds the instance creation parameters from the application identity, the
/// platform's extension list and, when validation is enabled, the validated
/// layer list. Fails with `InstanceCreationFailure` when a name holds a NUL.
pub fn plan_instance(
    config: &VulkanInstanceConfig,
    platform_extensions: &Vec<String>,
    validation_layers: Option<&Vec<String>>,
) -> (r: Result<InstancePlan, BootstrapError>)
    ensures
        r is Err <==> holds_nul(config.app_name@) || holds_nul(config.engine_name@),
        r matches Err(e) ==> e is InstanceCreationFailure,
        r matches Ok(p) ==> {
            &&& p.app_name@ == config.app_name@
            &&& p.app_version == config.app_version
            &&& p.engine_name@ == config.engine_name@
            &&& p.engine_version == config.engine_version
            &&& p.api_version == packed_api_version(
                config.api_version.0,
                config.api_version.1,
                config.api_version.2,
            )
            &&& match validation_layers {
                Some(layers) => {
                    &&& p.extensions@.len() == platform_extensions@.len() + 1
                    &&& p.extensions@.drop_last() == platform_extensions@
                    &&& p.extensions@.last()@ == "VK_EXT_debug_utils"@
                    &&& p.layers@ == layers@
                },
                None => {
                    &&& p.extensions@ == platform_extensions@
                    &&& p.layers@.len() == 0
                },
            }
        },
{
    if has_nul(&config.app_name) {
        return Err(
            BootstrapError::InstanceCreationFailure(
                String::from_str("application name holds a NUL character"),
            ),
        );
    }
    if has_nul(&config.engine_name) {
        return Err(
            BootstrapError::InstanceCreationFailure(String::from_str("engine name holds a NUL character")),
        );
    }
    let api_version = make_api_version(
        config.api_version.0,
        config.api_version.1,
        config.api_version.2,
    );
    let mut extensions = copy_names(platform_extensions);
    let layers = match validation_layers {
        Some(layers) => {
            extensions.push(debug_utils_extension_name());
            assert(extensions@.drop_last() == platform_extensions@);
            copy_names(layers)
        },
        None => Vec::new(),
    };
    Ok(
        InstancePlan {
            app_name: config.app_name.clone(),
            app_version: config.app_version,
            engine_name: config.engine_name.clone(),
            engine_version: config.engine_version,
            api_version,
            extensions,
            layers,
        },
    )
}

} // verus!
