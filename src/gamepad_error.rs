//! Errors of the virtual gamepad side.

use vstd::prelude::*;

verus! {

/// Everything that can go wrong while driving a virtual controller.
#[derive(Clone, Debug, PartialEq)]
pub enum VGamepadError {
    ViGEmError { message: String, code: u32 },
    ViGEmLibraryError { reason: String },
    ViGEmFunctionError { function: String, reason: String },
    IOKitError { message: String, status: i32 },
    ControllerInitError { reason: String },
    ControllerConnectionError { reason: String },
    ControllerDisconnected,
    ControllerUpdateError { reason: String },
    InvalidInput { field: String, expected: String, actual: String },
    UnsupportedPlatform { platform: String, feature: String },
    DriverNotInstalled { driver: String, download_url: String },
    InsufficientPermissions { operation: String },
    SystemError { reason: String },
}

impl VGamepadError {
    pub fn vigem_error(message: &str, code: u32) -> (r: Self)
        ensures
            r matches VGamepadError::ViGEmError { message: m, code: c } && m@ == message@ && c
                == code,
    {
        VGamepadError::ViGEmError { message: message.to_owned(), code }
    }

    pub fn vigem_library_error(reason: &str) -> (r: Self)
        ensures
            r matches VGamepadError::ViGEmLibraryError { reason: x } && x@ == reason@,
    {
        VGamepadError::ViGEmLibraryError { reason: reason.to_owned() }
    }

    pub fn vigem_function_error(function: &str, reason: &str) -> (r: Self)
        ensures
            r matches VGamepadError::ViGEmFunctionError { function: f, reason: x } && f@
                == function@ && x@ == reason@,
    {
        VGamepadError::ViGEmFunctionError { function: function.to_owned(), reason: reason.to_owned() }
    }

    pub fn iokit_error(message: &str, status: i32) -> (r: Self)
        ensures
            r matches VGamepadError::IOKitError { message: m, status: s } && m@ == message@ && s
                == status,
    {
        VGamepadError::IOKitError { message: message.to_owned(), status }
    }

    pub fn controller_init_error(reason: &str) -> (r: Self)
        ensures
            r matches VGamepadError::ControllerInitError { reason: x } && x@ == reason@,
    {
        VGamepadError::ControllerInitError { reason: reason.to_owned() }
    }

    pub fn controller_connection_error(reason: &str) -> (r: Self)
        ensures
            r matches VGamepadError::ControllerConnectionError { reason: x } && x@ == reason@,
    {
        VGamepadError::ControllerConnectionError { reason: reason.to_owned() }
    }

    pub fn controller_update_error(reason: &str) -> (r: Self)
        ensures
            r matches VGamepadError::ControllerUpdateError { reason: x } && x@ == reason@,
    {
        VGamepadError::ControllerUpdateError { reason: reason.to_owned() }
    }

    pub fn invalid_input(field: &str, expected: &str, actual: &str) -> (r: Self)
        ensures
            r matches VGamepadError::InvalidInput { field: f, expected: e, actual: a } && f@
                == field@ && e@ == expected@ && a@ == actual@,
    {
        VGamepadError::InvalidInput {
            field: field.to_owned(),
            expected: expected.to_owned(),
            actual: actual.to_owned(),
        }
    }

    pub fn unsupported_platform(platform: &str, feature: &str) -> (r: Self)
        ensures
            r matches VGamepadError::UnsupportedPlatform { platform: p, feature: f } && p@
                == platform@ && f@ == feature@,
    {
        VGamepadError::UnsupportedPlatform { platform: platform.to_owned(), feature: feature.to_owned() }
    }

    pub fn driver_not_installed(driver: &str, download_url: &str) -> (r: Self)
        ensures
            r matches VGamepadError::DriverNotInstalled { driver: d, download_url: u } && d@
                == driver@ && u@ == download_url@,
    {
        VGamepadError::DriverNotInstalled {
            driver: driver.to_owned(),
            download_url: download_url.to_owned(),
        }
    }

    pub fn insufficient_permissions(operation: &str) -> (r: Self)
        ensures
            r matches VGamepadError::InsufficientPermissions { operation: o } && o@ == operation@,
    {
        VGamepadError::InsufficientPermissions { operation: operation.to_owned() }
    }

    /// Failures of the Windows bus driver.
    pub open spec fn spec_is_vigem_error(&self) -> bool {
        self is ViGEmError || self is ViGEmLibraryError || self is ViGEmFunctionError
    }

    /// Failures that the caller can retry or correct.
    pub open spec fn spec_is_recoverable(&self) -> bool {
        self is ControllerUpdateError || self is InvalidInput
    }

    pub fn is_vigem_error(&self) -> (r: bool)
        ensures
            r == self.spec_is_vigem_error(),
    {
        match self {
            VGamepadError::ViGEmError { .. } | VGamepadError::ViGEmLibraryError { .. }
            | VGamepadError::ViGEmFunctionError { .. } => true,
            _ => false,
        }
    }

    pub fn is_iokit_error(&self) -> (r: bool)
        ensures
            r == self is IOKitError,
    {
        match self {
            VGamepadError::IOKitError { .. } => true,
            _ => false,
        }
    }

    pub fn is_recoverable(&self) -> (r: bool)
        ensures
            r == self.spec_is_recoverable(),
    {
        match self {
            VGamepadError::ControllerUpdateError { .. } | VGamepadError::InvalidInput { .. } => true,
            _ => false,
        }
    }
}

} // verus!
