//! The configuration the command-line layer hands the library: the
//! interface-name allow-list and the "list interfaces and exit" switch.

use vstd::prelude::*;

verus! {

/// Parsed command-line configuration.
#[derive(Debug, Clone)]
pub struct Args {
    /// Names of the NIC interfaces to relay across.
    pub interface: Vec<String>,
    /// Show the list of NIC interfaces and exit.
    pub list: bool,
}

impl Args {
    /// A configuration that names no interface is a fatal configuration
    /// error unless list mode was requested.
    pub open spec fn spec_valid(self) -> bool {
        self.list || self.interface@.len() > 0
    }

    pub fn is_valid(&self) -> (r: bool)
        ensures
            r == self.spec_valid(),
    {
        self.list || self.interface.len() > 0
    }
}

} // verus!
