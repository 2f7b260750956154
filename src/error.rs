use vstd::prelude::*;

verus! {

/// Why the bootstrap stopped. Each variant carries the underlying driver or
/// platform message.
#[derive(Debug, PartialEq, Eq)]
pub enum BootstrapError {
    /// A required validation layer is not offered by the host; carries its name.
    MissingValidationLayer(String),
    InstanceCreationFailure(String),
    SurfaceCreationFailure(String),
    NoSuitableAdapter,
    DeviceCreationFailure(String),
    WindowCreationFailure(String),
}

impl BootstrapError {
    /// A copy of the error, equal to it.
    pub fn duplicate(&self) -> (r: BootstrapError)
        ensures
            r == *self,
    {
        match self {
            BootstrapError::MissingValidationLayer(s) => BootstrapError::MissingValidationLayer(s.clone()),
            BootstrapError::InstanceCreationFailure(s) => BootstrapError::InstanceCreationFailure(s.clone()),
            BootstrapError::SurfaceCreationFailure(s) => BootstrapError::SurfaceCreationFailure(s.clone()),
            BootstrapError::NoSuitableAdapter => BootstrapError::NoSuitableAdapter,
            BootstrapError::DeviceCreationFailure(s) => BootstrapError::DeviceCreationFailure(s.clone()),
            BootstrapError::WindowCreationFailure(s) => BootstrapError::WindowCreationFailure(s.clone()),
        }
    }
}

} // verus!
