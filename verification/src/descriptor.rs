//! Plugin metadata as reported at instantiation time.

use vstd::prelude::*;

verus! {

/// The descriptor a plugin reports once instantiated. Immutable once queried;
/// the unique id is stable for the lifetime of the loaded module.
pub struct PluginDescriptor {
    /// Display name of the plugin.
    pub name: String,
    /// Vendor string.
    pub vendor: String,
    /// The plugin's stable unique identifier.
    pub unique_id: i32,
    /// Plugin version number.
    pub version: i32,
    /// Number of automatable parameters.
    pub num_parameters: i32,
    /// Number of presets.
    pub num_presets: i32,
    /// Latency the plugin reports, in samples.
    pub initial_delay_samples: i32,
}

impl Clone for PluginDescriptor {
    /// Cloning a descriptor preserves every field.
    fn clone(&self) -> (r: Self)
        ensures
            r == *self,
    {
        PluginDescriptor {
            name: self.name.clone(),
            vendor: self.vendor.clone(),
            unique_id: self.unique_id,
            version: self.version,
            num_parameters: self.num_parameters,
            num_presets: self.num_presets,
            initial_delay_samples: self.initial_delay_samples,
        }
    }
}

} // verus!
