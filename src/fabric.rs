//! The forwarder between the scanner and the observation fan-out: it drops
//! observations while this node is disabled.

use vstd::prelude::*;
use crate::engine::is_for_node;
use crate::events::SystemEnabledState;

verus! {

/// The enable gate of the forwarder; enabled until told otherwise.
pub struct EnableGate {
    pub enabled: bool,
}

impl EnableGate {
    pub fn new() -> (g: EnableGate)
        ensures
            g.enabled,
    {
        EnableGate { enabled: true }
    }

    /// Applies an enable-flag message; messages for other nodes are ignored.
    pub fn on_state(&mut self, state: &SystemEnabledState, my_address: &Option<String>)
        ensures
            final(self).enabled == (if my_address.is_some() && my_address.unwrap()@ == state.target_device_id@ {
                state.enabled
            } else {
                old(self).enabled
            }),
    {
        if is_for_node(state, my_address) {
            self.enabled = state.enabled;
        }
    }

    /// Whether an observation is passed on.
    pub fn should_forward(&self) -> (r: bool)
        ensures
            r == self.enabled,
    {
        self.enabled
    }
}

} // verus!
