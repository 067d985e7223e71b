//! The host callback capability: the fixed set of callbacks a plugin may
//! invoke to reach back into the host.
//!
//! The capability must stay valid for the entire lifetime of every plugin
//! instance created through it; the host keeps it alive for the whole session
//! and passes it to every instantiation. Failures inside a callback are never
//! propagated back into the plugin's call stack: the handler only records the
//! notification.

use vstd::prelude::*;

verus! {

/// A parameter value is a fixed-point fraction: `value / PARAM_RESOLUTION`
/// lies in the normalized range from zero to one.
pub const PARAM_RESOLUTION: u32 = 1000000;

/// One parameter-change notification received from the plugin.
#[derive(Clone, Copy, Debug, PartialEq, Eq, Structural)]
pub struct ParameterChange {
    /// Index of the automated parameter.
    pub index: u32,
    /// New value as a fixed-point fraction of `PARAM_RESOLUTION`.
    pub value: u32,
}

/// The capability object the plugin invokes to reach back into the host.
pub struct HostCallback {
    /// Every parameter-change notification received, in arrival order.
    pub automations: Vec<ParameterChange>,
}

impl HostCallback {
    /// Create a fully initialized callback capability. It must be constructed
    /// before any instantiation, since a plugin may call back immediately.
    pub fn new() -> (r: HostCallback)
        ensures
            r.automations@.len() == 0,
    {
        HostCallback { automations: Vec::new() }
    }

    /// Record a parameter-change notification. Notification only: nothing is
    /// returned to the plugin and no failure is ever raised across the ABI
    /// boundary.
    pub fn on_parameter_automate(&mut self, index: u32, value: u32)
        ensures
            final(self).automations@ == old(self).automations@.push(
                ParameterChange { index, value },
            ),
    {
        self.automations.push(ParameterChange { index, value });
    }

    /// How many notifications have arrived so far.
    pub fn notification_count(&self) -> (r: usize)
        ensures
            r == self.automations@.len(),
    {
        self.automations.len()
    }
}

} // verus!
