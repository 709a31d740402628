//! A configuration source whose contents are already in memory.

use vstd::prelude::*;

use crate::configuration::Configuration;

verus! {

/// A configuration fixed at construction, with its base directory.
pub struct StaticConfig {
    pub conf: Configuration,
    pub base: String,
}

impl StaticConfig {
    /// The fixed configuration, copied out.
    pub fn read_config(&mut self) -> (r: Configuration)
        ensures
            *final(self) == *old(self),
            r == old(self).conf,
    {
        self.conf.clone()
    }

    /// The base directory, copied out.
    pub fn get_path_base(&mut self) -> (r: String)
        ensures
            *final(self) == *old(self),
            r@ == old(self).base@,
    {
        self.base.clone()
    }
}

} // verus!
