use vstd::prelude::*;

use crate::conf::{EditorConfig, EngineConfig};

verus! {

/// The engine with its loaded configuration.
#[derive(Debug)]
pub struct Engine {
    pub config: EngineConfig,
}

impl Engine {
    /// The configuration version that the engine runs with, for the startup log.
    pub fn info(&self) -> (r: i32)
        ensures
            r == self.config.version,
    {
        self.config.version
    }
}

/// The editor with its loaded configuration.
#[derive(Debug)]
pub struct Editor {
    pub config: EditorConfig,
}

impl Editor {
    /// The configuration version that the editor runs with, for the startup log.
    pub fn info(&self) -> (r: i32)
        ensures
            r == self.config.version,
    {
        self.config.version
    }
}

} // verus!
