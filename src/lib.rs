//! Verified bootstrap logic for a Vulkan rendering context: layer validation,
//! instance and device creation plans, first-fit adapter selection over a
//! declarative capability requirement, and the ordered construction and
//! teardown of the context's driver resources.
use vstd::prelude::*;

pub mod conf;
pub mod error;
pub mod physical_device;
pub mod validation;
pub mod instance;
pub mod logical_device;
pub mod bootstrap;
pub mod window;
pub mod engine;
