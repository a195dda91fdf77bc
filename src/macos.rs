//! The macOS adapter: a simulated device that keeps the last report, a
//! user-space HID device, or a DriverKit extension, which is not supported.

use crate::controller::DS4ControllerState;
use crate::controller::DS4Report;
use crate::gamepad_error::VGamepadError;
use vstd::prelude::*;

verus! {

/// How the virtual controller reaches the operating system.
#[derive(Clone, Copy, Debug, PartialEq, Eq, Structural)]
pub enum MacOSVirtualMethod {
    /// In memory only; always available.
    Simulation,
    /// A user-space HID device; needs access to the HID master port.
    IOKitUserspace,
    /// A driver extension; not supported.
    DriverKit,
}

/// The feature named when a DriverKit controller is asked for.
pub const DRIVERKIT_NOT_IMPLEMENTED: &'static str = "the DriverKit method is not implemented";

/// The adapter's client side.
pub struct MacOSClient {
    method: MacOSVirtualMethod,
    initialized: bool,
}

/// Whether a client with this method can be created, given whether the
/// host granted access to the HID master port.
pub open spec fn client_creatable(method: MacOSVirtualMethod, iokit_access: bool) -> bool {
    method == MacOSVirtualMethod::Simulation || (method == MacOSVirtualMethod::IOKitUserspace
        && iokit_access)
}

impl MacOSClient {
    pub closed spec fn spec_method(&self) -> MacOSVirtualMethod {
        self.method
    }

    pub closed spec fn spec_initialized(&self) -> bool {
        self.initialized
    }

    /// A client in simulation mode.
    pub fn new() -> (r: Result<Self, VGamepadError>)
        ensures
            r matches Ok(c) && c.spec_method() == MacOSVirtualMethod::Simulation
                && c.spec_initialized(),
    {
        Self::new_with_method(MacOSVirtualMethod::Simulation)
    }

    /// A client with the given method, where the library has no way to query
    /// the HID master port and so treats access as not granted: the
    /// user-space HID method fails with `InsufficientPermissions`. Hosts that
    /// can query the port use `new_with_access`.
    pub fn new_with_method(method: MacOSVirtualMethod) -> (r: Result<Self, VGamepadError>)
        ensures
            r is Ok <==> client_creatable(method, false),
            r matches Ok(c) ==> c.spec_method() == method && c.spec_initialized(),
            method == MacOSVirtualMethod::IOKitUserspace ==> r matches Err(
                VGamepadError::InsufficientPermissions { .. },
            ),
            method == MacOSVirtualMethod::DriverKit ==> (r matches Err(
                VGamepadError::UnsupportedPlatform { platform, .. },
            ) && platform@ == "macOS"@),
    {
        Self::new_with_access(method, false)
    }

    /// A client with the given method. `iokit_access` is the host's answer
    /// to whether the HID master port may be opened. Simulation always
    /// succeeds; the user-space HID method succeeds exactly when access is
    /// granted and otherwise fails with `InsufficientPermissions`; DriverKit
    /// fails with `UnsupportedPlatform` on `"macOS"`.
    pub fn new_with_access(method: MacOSVirtualMethod, iokit_access: bool) -> (r: Result<
        Self,
        VGamepadError,
    >)
        ensures
            r is Ok <==> client_creatable(method, iokit_access),
            r matches Ok(c) ==> c.spec_method() == method && c.spec_initialized(),
            method == MacOSVirtualMethod::IOKitUserspace && !iokit_access ==> (r matches Err(
                VGamepadError::InsufficientPermissions { operation },
            ) && operation@ == "IOKit HID device creation"@),
            method == MacOSVirtualMethod::DriverKit ==> (r matches Err(
                VGamepadError::UnsupportedPlatform { platform, .. },
            ) && platform@ == "macOS"@),
    {
        match method {
            MacOSVirtualMethod::Simulation => {},
            MacOSVirtualMethod::IOKitUserspace => {
                if !iokit_access {
                    return Err(
                        VGamepadError::insufficient_permissions("IOKit HID device creation"),
                    );
                }
            },
            MacOSVirtualMethod::DriverKit => {
                return Err(
                    VGamepadError::unsupported_platform(
                        "macOS",
                        "a DriverKit virtual controller needs special entitlements",
                    ),
                );
            },
        }
        Ok(MacOSClient { method, initialized: true })
    }

    pub fn get_method(&self) -> (r: MacOSVirtualMethod)
        ensures
            r == self.spec_method(),
    {
        self.method
    }

    pub fn is_initialized(&self) -> (r: bool)
        ensures
            r == self.spec_initialized(),
    {
        self.initialized
    }

    /// Names of the controller kinds that the adapter knows of.
    pub fn list_controllers(&self) -> (r: Vec<String>)
        ensures
            r@.len() == 3,
            r@[0]@ == "DualShock 4 Wireless Controller"@,
            r@[1]@ == "Xbox Wireless Controller"@,
            r@[2]@ == "Generic MFi Controller"@,
    {
        let mut v: Vec<String> = Vec::new();
        v.push("DualShock 4 Wireless Controller".to_owned());
        v.push("Xbox Wireless Controller".to_owned());
        v.push("Generic MFi Controller".to_owned());
        v
    }
}

/// One virtual DualShock 4 on macOS.
pub struct MacOSDS4Controller {
    method: MacOSVirtualMethod,
    device_id: u32,
    connected: bool,
    last_report: Option<DS4Report>,
}

impl MacOSDS4Controller {
    pub closed spec fn spec_method(&self) -> MacOSVirtualMethod {
        self.method
    }

    pub closed spec fn spec_connected(&self) -> bool {
        self.connected
    }

    pub closed spec fn spec_device_id(&self) -> u32 {
        self.device_id
    }

    pub closed spec fn spec_last_report(&self) -> Option<DS4Report> {
        self.last_report
    }

    /// Whether a controller can be made for a client with this method.
    pub open spec fn spec_creatable(method: MacOSVirtualMethod) -> bool {
        method != MacOSVirtualMethod::DriverKit
    }

    /// The adapter went from `a` to `b` while submitting `report`, with
    /// result `r`: a disconnected adapter refuses, DriverKit is unsupported,
    /// and otherwise the report is accepted and kept as the last one.
    pub open spec fn submitted(
        a: MacOSDS4Controller,
        b: MacOSDS4Controller,
        report: DS4Report,
        r: Result<(), VGamepadError>,
    ) -> bool {
        &&& b.spec_method() == a.spec_method()
        &&& b.spec_connected() == a.spec_connected()
        &&& b.spec_device_id() == a.spec_device_id()
        &&& if !a.spec_connected() {
            r == Err::<(), VGamepadError>(VGamepadError::ControllerDisconnected)
                && b.spec_last_report() == a.spec_last_report()
        } else if a.spec_method() == MacOSVirtualMethod::DriverKit {
            (r matches Err(VGamepadError::UnsupportedPlatform { platform, feature }) && platform@
                == "macOS"@ && feature@ == DRIVERKIT_NOT_IMPLEMENTED@) && b.spec_last_report()
                == a.spec_last_report()
        } else {
            r is Ok && b.spec_last_report() == Some(report)
        }
    }

    /// Creates and connects a controller for the client's method.
    pub fn new(client: &MacOSClient) -> (r: Result<Self, VGamepadError>)
        ensures
            r is Ok <==> Self::spec_creatable(client.spec_method()),
            r matches Ok(c) ==> c.spec_method() == client.spec_method() && c.spec_connected()
                && c.spec_device_id() == 1 && c.spec_last_report() is None,
            r is Err ==> (r matches Err(VGamepadError::UnsupportedPlatform { platform, feature })
                && platform@ == "macOS"@ && feature@ == DRIVERKIT_NOT_IMPLEMENTED@),
    {
        let method = client.get_method();
        match method {
            MacOSVirtualMethod::Simulation => {},
            MacOSVirtualMethod::IOKitUserspace => {
                Self::create_iokit_device()?;
            },
            MacOSVirtualMethod::DriverKit => {
                return Err(
                    VGamepadError::unsupported_platform("macOS", DRIVERKIT_NOT_IMPLEMENTED),
                );
            },
        }
        let mut controller = MacOSDS4Controller {
            method,
            device_id: 1,
            connected: false,
            last_report: None,
        };
        controller.connect()?;
        Ok(controller)
    }

    /// Registers the user-space HID device with the report descriptor.
    fn create_iokit_device() -> (r: Result<(), VGamepadError>)
        ensures
            r is Ok,
    {
        let _descriptor = Self::create_ds4_hid_descriptor();
        Ok(())
    }

    pub fn connect(&mut self) -> (r: Result<(), VGamepadError>)
        ensures
            final(self).spec_method() == old(self).spec_method(),
            final(self).spec_device_id() == old(self).spec_device_id(),
            final(self).spec_last_report() == old(self).spec_last_report(),
            r is Ok <==> old(self).spec_method() != MacOSVirtualMethod::DriverKit,
            r is Ok ==> final(self).spec_connected(),
            r is Err ==> final(self).spec_connected() == old(self).spec_connected() && (r matches Err(
                VGamepadError::UnsupportedPlatform { platform, feature },
            ) && platform@ == "macOS"@ && feature@ == DRIVERKIT_NOT_IMPLEMENTED@),
    {
        match self.method {
            MacOSVirtualMethod::DriverKit => {
                return Err(
                    VGamepadError::unsupported_platform("macOS", DRIVERKIT_NOT_IMPLEMENTED),
                );
            },
            _ => {},
        }
        self.connected = true;
        Ok(())
    }

    /// Disconnects; a disconnected controller stays as it is.
    pub fn disconnect(&mut self) -> (r: Result<(), VGamepadError>)
        ensures
            r is Ok,
            !final(self).spec_connected(),
            final(self).spec_method() == old(self).spec_method(),
            final(self).spec_device_id() == old(self).spec_device_id(),
            final(self).spec_last_report() == old(self).spec_last_report(),
        opens_invariants none
        no_unwind
    {
        if !self.connected {
            return Ok(());
        }
        self.connected = false;
        Ok(())
    }

    /// Submits the state's report.
    pub fn update(&mut self, state: &DS4ControllerState) -> (r: Result<(), VGamepadError>)
        ensures
            Self::submitted(*old(self), *final(self), state.report, r),
    {
        if !self.connected {
            return Err(VGamepadError::ControllerDisconnected);
        }
        match self.method {
            MacOSVirtualMethod::DriverKit => {
                return Err(
                    VGamepadError::unsupported_platform("macOS", DRIVERKIT_NOT_IMPLEMENTED),
                );
            },
            _ => {},
        }
        self.last_report = Some(state.report);
        Ok(())
    }

    /// The method, the device id and whether the controller is connected.
    pub fn get_device_info(&self) -> (r: (MacOSVirtualMethod, u32, bool))
        ensures
            r == (self.spec_method(), self.spec_device_id(), self.spec_connected()),
    {
        (self.method, self.device_id, self.connected)
    }

    /// The last report accepted, if any.
    pub fn last_report(&self) -> (r: Option<DS4Report>)
        ensures
            r == self.spec_last_report(),
    {
        self.last_report
    }

    /// The HID report descriptor of the virtual device.
    pub fn create_ds4_hid_descriptor() -> (r: Vec<u8>)
        ensures
            r@ == ds4_hid_descriptor(),
    {
        let mut d: Vec<u8> = Vec::new();
        d.push(0x05);
        d.push(0x01);
        d.push(0x09);
        d.push(0x05);
        d.push(0xA1);
        d.push(0x01);
        d.push(0x85);
        d.push(0x01);
        d.push(0x09);
        d.push(0x30);
        d.push(0x09);
        d.push(0x31);
        d.push(0x09);
        d.push(0x32);
        d.push(0x09);
        d.push(0x35);
        d.push(0x15);
        d.push(0x00);
        d.push(0x26);
        d.push(0xFF);
        d.push(0x00);
        d.push(0x75);
        d.push(0x08);
        d.push(0x95);
        d.push(0x04);
        d.push(0x81);
        d.push(0x02);
        d.push(0x05);
        d.push(0x09);
        d.push(0x19);
        d.push(0x01);
        d.push(0x29);
        d.push(0x0E);
        d.push(0x15);
        d.push(0x00);
        d.push(0x25);
        d.push(0x01);
        d.push(0x75);
        d.push(0x01);
        d.push(0x95);
        d.push(0x0E);
        d.push(0x81);
        d.push(0x02);
        d.push(0x75);
        d.push(0x02);
        d.push(0x95);
        d.push(0x01);
        d.push(0x81);
        d.push(0x03);
        d.push(0x05);
        d.push(0x01);
        d.push(0x09);
        d.push(0x39);
        d.push(0x15);
        d.push(0x00);
        d.push(0x25);
        d.push(0x07);
        d.push(0x35);
        d.push(0x00);
        d.push(0x46);
        d.push(0x3B);
        d.push(0x01);
        d.push(0x65);
        d.push(0x14);
        d.push(0x75);
        d.push(0x04);
        d.push(0x95);
        d.push(0x01);
        d.push(0x81);
        d.push(0x42);
        d.push(0x75);
        d.push(0x04);
        d.push(0x95);
        d.push(0x01);
        d.push(0x81);
        d.push(0x03);
        d.push(0x05);
        d.push(0x01);
        d.push(0x09);
        d.push(0x32);
        d.push(0x09);
        d.push(0x35);
        d.push(0x15);
        d.push(0x00);
        d.push(0x26);
        d.push(0xFF);
        d.push(0x00);
        d.push(0x75);
        d.push(0x08);
        d.push(0x95);
        d.push(0x02);
        d.push(0x81);
        d.push(0x02);
        d.push(0xC0);
        proof {
            assert(d@ =~= ds4_hid_descriptor());
        }
        d
    }
}

impl Drop for MacOSDS4Controller {
    /// A controller disconnects when it goes away.
    fn drop(&mut self)
        opens_invariants none
        no_unwind
    {
        let _ = self.disconnect();
    }
}

/// The DualShock 4 HID report descriptor: a generic-desktop game pad with
/// report id 1, four 8-bit stick axes, 14 buttons and 2 filler bits, a hat
/// switch with 4 filler bits, and two 8-bit trigger axes.
pub open spec fn ds4_hid_descriptor() -> Seq<u8> {
    seq![
        0x05u8, 0x01, 0x09, 0x05, 0xA1, 0x01, 0x85, 0x01,
        0x09, 0x30, 0x09, 0x31, 0x09, 0x32, 0x09, 0x35,
        0x15, 0x00, 0x26, 0xFF, 0x00, 0x75, 0x08, 0x95,
        0x04, 0x81, 0x02, 0x05, 0x09, 0x19, 0x01, 0x29,
        0x0E, 0x15, 0x00, 0x25, 0x01, 0x75, 0x01, 0x95,
        0x0E, 0x81, 0x02, 0x75, 0x02, 0x95, 0x01, 0x81,
        0x03, 0x05, 0x01, 0x09, 0x39, 0x15, 0x00, 0x25,
        0x07, 0x35, 0x00, 0x46, 0x3B, 0x01, 0x65, 0x14,
        0x75, 0x04, 0x95, 0x01, 0x81, 0x42, 0x75, 0x04,
        0x95, 0x01, 0x81, 0x03, 0x05, 0x01, 0x09, 0x32,
        0x09, 0x35, 0x15, 0x00, 0x26, 0xFF, 0x00, 0x75,
        0x08, 0x95, 0x02, 0x81, 0x02, 0xC0,
    ]
}

/// Compatibility of the host; the simulated method is always available.
pub fn check_macos_compatibility() -> (r: Result<(), VGamepadError>)
    ensures
        r is Ok,
{
    Ok(())
}

/// The platform and the kind of environment.
pub fn get_system_info() -> (r: (String, String))
    ensures
        r.0@ == "macOS"@,
        r.1@ == "simulated environment"@,
{
    ("macOS".to_owned(), "simulated environment".to_owned())
}

/// Which methods are usable, one line each.
pub fn check_permissions() -> (r: Vec<String>)
    ensures
        r@.len() == 3,
        r@[0]@ == "Simulation: available"@,
        r@[1]@ == "IOKit: needs System Integrity Protection disabled"@,
        r@[2]@ == "DriverKit: needs developer entitlements"@,
{
    let mut permissions: Vec<String> = Vec::new();
    permissions.push("Simulation: available".to_owned());
    permissions.push("IOKit: needs System Integrity Protection disabled".to_owned());
    permissions.push("DriverKit: needs developer entitlements".to_owned());
    permissions
}

} // verus!
