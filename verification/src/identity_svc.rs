//! The identity surface of the driver: plugin info, capabilities, probe.
use vstd::prelude::*;

verus! {

use vstd::string::StringExecFns;

/// What the plugin reports about itself.
#[derive(Debug)]
pub struct PluginInfo {
    pub name: String,
    pub vendor_version: String,
}

/// The capabilities the plugin can advertise.
#[derive(Clone, Copy, Debug, PartialEq, Eq, Structural)]
pub enum PluginCapability {
    ControllerService,
}

#[derive(Debug)]
pub struct IdentityService {
    pub name: String,
    pub version: String,
}

impl IdentityService {
    pub fn new(name: &str, version: &str) -> (r: Self)
        ensures
            r.name@ == name@,
            r.version@ == version@,
    {
        IdentityService { name: String::from_str(name), version: String::from_str(version) }
    }

    /// The plugin's name and vendor version, as configured.
    pub fn get_plugin_info(&self) -> (r: PluginInfo)
        ensures
            r.name@ == self.name@,
            r.vendor_version@ == self.version@,
    {
        PluginInfo { name: self.name.clone(), vendor_version: self.version.clone() }
    }

    /// The plugin advertises the controller service capability.
    pub fn get_plugin_capabilities(&self) -> (r: Vec<PluginCapability>)
        ensures
            r@.len() == 1,
            r@[0] == PluginCapability::ControllerService,
    {
        let mut caps: Vec<PluginCapability> = Vec::new();
        caps.push(PluginCapability::ControllerService);
        caps
    }

    /// The driver is always ready.
    pub fn probe(&self) -> (r: bool)
        ensures
            r == true,
    {
        true
    }
}

} // verus!
