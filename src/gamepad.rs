//! The facade: one adapter client, and the controllers made on it.

use crate::controller::{is_neutral_state, DualShock4Controller};
use crate::gamepad_error::VGamepadError;
use crate::macos::{MacOSClient, MacOSVirtualMethod};
use vstd::prelude::*;

verus! {

/// Owns the platform client; controllers are made from it.
pub struct VGamepadClient {
    inner: MacOSClient,
}

impl VGamepadClient {
    /// The method of the platform client.
    pub closed spec fn spec_method(&self) -> MacOSVirtualMethod {
        self.inner.spec_method()
    }

    /// Whether the platform client is initialized.
    pub closed spec fn spec_initialized(&self) -> bool {
        self.inner.spec_initialized()
    }

    /// A client on the simulated adapter.
    pub fn new() -> (r: Result<Self, VGamepadError>)
        ensures
            r matches Ok(c) && c.spec_method() == MacOSVirtualMethod::Simulation
                && c.spec_initialized(),
    {
        let inner = MacOSClient::new()?;
        Ok(VGamepadClient { inner })
    }

    /// A fresh controller in the neutral state.
    pub fn create_dualshock4(&self) -> (r: Result<DualShock4Controller, VGamepadError>)
        ensures
            self.spec_method() == MacOSVirtualMethod::Simulation ==> r is Ok,
            r matches Ok(c) ==> is_neutral_state(c.spec_state()) && c.spec_adapter().spec_connected()
                && c.spec_adapter().spec_method() == self.spec_method(),
    {
        DualShock4Controller::new(&self.inner)
    }
}

impl Default for VGamepadClient {
    /// A client on the simulated adapter, which is always available.
    fn default() -> (r: Self)
        ensures
            r.spec_method() == MacOSVirtualMethod::Simulation,
            r.spec_initialized(),
    {
        Self::new().unwrap()
    }
}

} // verus!
