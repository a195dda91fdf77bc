//! Decisions of the Windows bus-driver adapter (ViGEm): status codes, the
//! errors they map to, and the order of teardown. The native calls
//! themselves are made by the host.

use crate::gamepad_error::VGamepadError;
use vstd::prelude::*;

verus! {

/// Status codes of the bus driver's client library.
#[derive(Clone, Copy, Debug, PartialEq, Eq, Structural)]
pub enum ViGEmError {
    Success,
    BusNotFound,
    NoFreeSlot,
    InvalidTarget,
    RemovalFailed,
    AlreadyConnected,
    TargetUninitialized,
    TargetNotPluggedIn,
    BusVersionMismatch,
    BusAccessFailed,
    CallbackAlreadyRegistered,
    CallbackNotFound,
    UnknownUsbDevice,
    IllegalArgument,
    XusbUserIndexOutOfRange,
    InvalidParameter,
    NotSupported,
}

/// The 32-bit status of each code.
pub open spec fn vigem_code(e: ViGEmError) -> u32 {
    match e {
        ViGEmError::Success => 0x20000000,
        ViGEmError::BusNotFound => 0xE0000001,
        ViGEmError::NoFreeSlot => 0xE0000002,
        ViGEmError::InvalidTarget => 0xE0000003,
        ViGEmError::RemovalFailed => 0xE0000004,
        ViGEmError::AlreadyConnected => 0xE0000005,
        ViGEmError::TargetUninitialized => 0xE0000006,
        ViGEmError::TargetNotPluggedIn => 0xE0000007,
        ViGEmError::BusVersionMismatch => 0xE0000008,
        ViGEmError::BusAccessFailed => 0xE0000009,
        ViGEmError::CallbackAlreadyRegistered => 0xE000000A,
        ViGEmError::CallbackNotFound => 0xE000000B,
        ViGEmError::UnknownUsbDevice => 0xE000000C,
        ViGEmError::IllegalArgument => 0xE000000D,
        ViGEmError::XusbUserIndexOutOfRange => 0xE000000E,
        ViGEmError::InvalidParameter => 0xE000000F,
        ViGEmError::NotSupported => 0xE0000010,
    }
}

/// The code that a status names, if any.
pub open spec fn vigem_error_of(code: u32) -> Option<ViGEmError> {
    if code == 0x20000000 {
        Some(ViGEmError::Success)
    } else if code == 0xE0000001 {
        Some(ViGEmError::BusNotFound)
    } else if code == 0xE0000002 {
        Some(ViGEmError::NoFreeSlot)
    } else if code == 0xE0000003 {
        Some(ViGEmError::InvalidTarget)
    } else if code == 0xE0000004 {
        Some(ViGEmError::RemovalFailed)
    } else if code == 0xE0000005 {
        Some(ViGEmError::AlreadyConnected)
    } else if code == 0xE0000006 {
        Some(ViGEmError::TargetUninitialized)
    } else if code == 0xE0000007 {
        Some(ViGEmError::TargetNotPluggedIn)
    } else if code == 0xE0000008 {
        Some(ViGEmError::BusVersionMismatch)
    } else if code == 0xE0000009 {
        Some(ViGEmError::BusAccessFailed)
    } else if code == 0xE000000A {
        Some(ViGEmError::CallbackAlreadyRegistered)
    } else if code == 0xE000000B {
        Some(ViGEmError::CallbackNotFound)
    } else if code == 0xE000000C {
        Some(ViGEmError::UnknownUsbDevice)
    } else if code == 0xE000000D {
        Some(ViGEmError::IllegalArgument)
    } else if code == 0xE000000E {
        Some(ViGEmError::XusbUserIndexOutOfRange)
    } else if code == 0xE000000F {
        Some(ViGEmError::InvalidParameter)
    } else if code == 0xE0000010 {
        Some(ViGEmError::NotSupported)
    } else {
        None
    }
}

/// The mnemonic of a code.
pub open spec fn vigem_mnemonic(e: ViGEmError) -> Seq<char> {
    match e {
        ViGEmError::Success => "Success"@,
        ViGEmError::BusNotFound => "BusNotFound"@,
        ViGEmError::NoFreeSlot => "NoFreeSlot"@,
        ViGEmError::InvalidTarget => "InvalidTarget"@,
        ViGEmError::RemovalFailed => "RemovalFailed"@,
        ViGEmError::AlreadyConnected => "AlreadyConnected"@,
        ViGEmError::TargetUninitialized => "TargetUninitialized"@,
        ViGEmError::TargetNotPluggedIn => "TargetNotPluggedIn"@,
        ViGEmError::BusVersionMismatch => "BusVersionMismatch"@,
        ViGEmError::BusAccessFailed => "BusAccessFailed"@,
        ViGEmError::CallbackAlreadyRegistered => "CallbackAlreadyRegistered"@,
        ViGEmError::CallbackNotFound => "CallbackNotFound"@,
        ViGEmError::UnknownUsbDevice => "UnknownUsbDevice"@,
        ViGEmError::IllegalArgument => "IllegalArgument"@,
        ViGEmError::XusbUserIndexOutOfRange => "XusbUserIndexOutOfRange"@,
        ViGEmError::InvalidParameter => "InvalidParameter"@,
        ViGEmError::NotSupported => "NotSupported"@,
    }
}

/// The status that means success.
pub const VIGEM_SUCCESS: u32 = 0x2000_0000;

/// Where the bus driver is published.
pub const VIGEM_DOWNLOAD_URL: &'static str = "https://github.com/nefarius/ViGEmBus/releases";

impl ViGEmError {
    pub fn code(&self) -> (r: u32)
        ensures
            r == vigem_code(*self),
    {
        match self {
            ViGEmError::Success => 0x20000000,
            ViGEmError::BusNotFound => 0xE0000001,
            ViGEmError::NoFreeSlot => 0xE0000002,
            ViGEmError::InvalidTarget => 0xE0000003,
            ViGEmError::RemovalFailed => 0xE0000004,
            ViGEmError::AlreadyConnected => 0xE0000005,
            ViGEmError::TargetUninitialized => 0xE0000006,
            ViGEmError::TargetNotPluggedIn => 0xE0000007,
            ViGEmError::BusVersionMismatch => 0xE0000008,
            ViGEmError::BusAccessFailed => 0xE0000009,
            ViGEmError::CallbackAlreadyRegistered => 0xE000000A,
            ViGEmError::CallbackNotFound => 0xE000000B,
            ViGEmError::UnknownUsbDevice => 0xE000000C,
            ViGEmError::IllegalArgument => 0xE000000D,
            ViGEmError::XusbUserIndexOutOfRange => 0xE000000E,
            ViGEmError::InvalidParameter => 0xE000000F,
            ViGEmError::NotSupported => 0xE0000010,
        }
    }

    pub fn from_code(code: u32) -> (r: Option<Self>)
        ensures
            r == vigem_error_of(code),
    {
        if code == 0x20000000 {
            Some(ViGEmError::Success)
        } else if code == 0xE0000001 {
            Some(ViGEmError::BusNotFound)
        } else if code == 0xE0000002 {
            Some(ViGEmError::NoFreeSlot)
        } else if code == 0xE0000003 {
            Some(ViGEmError::InvalidTarget)
        } else if code == 0xE0000004 {
            Some(ViGEmError::RemovalFailed)
        } else if code == 0xE0000005 {
            Some(ViGEmError::AlreadyConnected)
        } else if code == 0xE0000006 {
            Some(ViGEmError::TargetUninitialized)
        } else if code == 0xE0000007 {
            Some(ViGEmError::TargetNotPluggedIn)
        } else if code == 0xE0000008 {
            Some(ViGEmError::BusVersionMismatch)
        } else if code == 0xE0000009 {
            Some(ViGEmError::BusAccessFailed)
        } else if code == 0xE000000A {
            Some(ViGEmError::CallbackAlreadyRegistered)
        } else if code == 0xE000000B {
            Some(ViGEmError::CallbackNotFound)
        } else if code == 0xE000000C {
            Some(ViGEmError::UnknownUsbDevice)
        } else if code == 0xE000000D {
            Some(ViGEmError::IllegalArgument)
        } else if code == 0xE000000E {
            Some(ViGEmError::XusbUserIndexOutOfRange)
        } else if code == 0xE000000F {
            Some(ViGEmError::InvalidParameter)
        } else if code == 0xE0000010 {
            Some(ViGEmError::NotSupported)
        } else {
            None
        }
    }

    pub fn mnemonic(&self) -> (r: &'static str)
        ensures
            r@ == vigem_mnemonic(*self),
    {
        proof {
            reveal_strlit("Success");
            reveal_strlit("BusNotFound");
            reveal_strlit("NoFreeSlot");
            reveal_strlit("InvalidTarget");
            reveal_strlit("RemovalFailed");
            reveal_strlit("AlreadyConnected");
            reveal_strlit("TargetUninitialized");
            reveal_strlit("TargetNotPluggedIn");
            reveal_strlit("BusVersionMismatch");
            reveal_strlit("BusAccessFailed");
            reveal_strlit("CallbackAlreadyRegistered");
            reveal_strlit("CallbackNotFound");
            reveal_strlit("UnknownUsbDevice");
            reveal_strlit("IllegalArgument");
            reveal_strlit("XusbUserIndexOutOfRange");
            reveal_strlit("InvalidParameter");
            reveal_strlit("NotSupported");
        }
        match self {
            ViGEmError::Success => "Success",
            ViGEmError::BusNotFound => "BusNotFound",
            ViGEmError::NoFreeSlot => "NoFreeSlot",
            ViGEmError::InvalidTarget => "InvalidTarget",
            ViGEmError::RemovalFailed => "RemovalFailed",
            ViGEmError::AlreadyConnected => "AlreadyConnected",
            ViGEmError::TargetUninitialized => "TargetUninitialized",
            ViGEmError::TargetNotPluggedIn => "TargetNotPluggedIn",
            ViGEmError::BusVersionMismatch => "BusVersionMismatch",
            ViGEmError::BusAccessFailed => "BusAccessFailed",
            ViGEmError::CallbackAlreadyRegistered => "CallbackAlreadyRegistered",
            ViGEmError::CallbackNotFound => "CallbackNotFound",
            ViGEmError::UnknownUsbDevice => "UnknownUsbDevice",
            ViGEmError::IllegalArgument => "IllegalArgument",
            ViGEmError::XusbUserIndexOutOfRange => "XusbUserIndexOutOfRange",
            ViGEmError::InvalidParameter => "InvalidParameter",
            ViGEmError::NotSupported => "NotSupported",
        }
    }
}

/// The kinds of virtual device the bus driver offers.
#[derive(Clone, Copy, Debug, PartialEq, Eq, Structural)]
pub enum ViGEmTargetType {
    Xbox360Wired,
    XboxOneWired,
    DualShock4Wired,
}

impl ViGEmTargetType {
    pub fn code(&self) -> (r: u32)
        ensures
            r == match *self {
                ViGEmTargetType::Xbox360Wired => 0u32,
                ViGEmTargetType::XboxOneWired => 1u32,
                ViGEmTargetType::DualShock4Wired => 2u32,
            },
    {
        match self {
            ViGEmTargetType::Xbox360Wired => 0,
            ViGEmTargetType::XboxOneWired => 1,
            ViGEmTargetType::DualShock4Wired => 2,
        }
    }
}

/// The text an unsuccessful status is reported with: its mnemonic, or
/// `Unknown` for a status outside the table.
pub open spec fn status_text(status: u32) -> Seq<char> {
    match vigem_error_of(status) {
        Some(e) => vigem_mnemonic(e),
        None => "Unknown"@,
    }
}

/// Maps a status returned by a bus call to success or to an error that
/// carries the status and its mnemonic.
pub fn check_status(status: u32) -> (r: Result<(), VGamepadError>)
    ensures
        r is Ok <==> status == VIGEM_SUCCESS,
        status != VIGEM_SUCCESS ==> (r matches Err(VGamepadError::ViGEmError { message, code })
            && code == status && message@ == status_text(status)),
{
    if status == VIGEM_SUCCESS {
        return Ok(());
    }
    proof {
        reveal_strlit("Unknown");
    }
    let message = match ViGEmError::from_code(status) {
        Some(e) => e.mnemonic(),
        None => "Unknown",
    };
    Err(VGamepadError::vigem_error(message, status))
}

/// The outcome of loading the client library: when it is missing, the bus
/// driver is not installed.
pub fn check_library_loaded(loaded: bool) -> (r: Result<(), VGamepadError>)
    ensures
        r is Ok <==> loaded,
        !loaded ==> (r matches Err(VGamepadError::DriverNotInstalled { driver, download_url })
            && driver@ == "ViGEm Bus Driver"@ && download_url@ == VIGEM_DOWNLOAD_URL@),
{
    if loaded {
        Ok(())
    } else {
        Err(VGamepadError::driver_not_installed("ViGEm Bus Driver", VIGEM_DOWNLOAD_URL))
    }
}

/// One call of the teardown sequence.
#[derive(Clone, Copy, Debug, PartialEq, Eq, Structural)]
pub enum ViGEmCall {
    TargetRemove(usize),
    TargetFree(usize),
    ClientDisconnect,
    ClientFree,
    UnloadLibrary,
}

/// The teardown sequence for `n` targets: remove every target, free every
/// target, disconnect the client, free it, unload the library.
pub open spec fn teardown_sequence(n: nat) -> Seq<ViGEmCall> {
    Seq::new(n, |i: int| ViGEmCall::TargetRemove(i as usize)) + Seq::new(
        n,
        |i: int| ViGEmCall::TargetFree(i as usize),
    ) + seq![ViGEmCall::ClientDisconnect, ViGEmCall::ClientFree, ViGEmCall::UnloadLibrary]
}

/// The calls that tear down a client with `n` targets, in order.
pub fn teardown_plan(n: usize) -> (r: Vec<ViGEmCall>)
    requires
        2 * n + 3 <= usize::MAX,
    ensures
        r@ == teardown_sequence(n as nat),
{
    let mut calls: Vec<ViGEmCall> = Vec::new();
    let mut i: usize = 0;
    while i < n
        invariant
            i <= n,
            calls@ == Seq::new(i as nat, |k: int| ViGEmCall::TargetRemove(k as usize)),
        decreases n - i,
    {
        calls.push(ViGEmCall::TargetRemove(i));
        proof {
            assert(calls@ =~= Seq::new((i + 1) as nat, |k: int| ViGEmCall::TargetRemove(k as usize)));
        }
        i = i + 1;
    }
    let mut j: usize = 0;
    while j < n
        invariant
            j <= n,
            calls@ == Seq::new(n as nat, |k: int| ViGEmCall::TargetRemove(k as usize)) + Seq::new(
                j as nat,
                |k: int| ViGEmCall::TargetFree(k as usize),
            ),
        decreases n - j,
    {
        calls.push(ViGEmCall::TargetFree(j));
        proof {
            assert(calls@ =~= Seq::new(n as nat, |k: int| ViGEmCall::TargetRemove(k as usize))
                + Seq::new((j + 1) as nat, |k: int| ViGEmCall::TargetFree(k as usize)));
        }
        j = j + 1;
    }
    calls.push(ViGEmCall::ClientDisconnect);
    calls.push(ViGEmCall::ClientFree);
    calls.push(ViGEmCall::UnloadLibrary);
    proof {
        assert(calls@ =~= teardown_sequence(n as nat));
    }
    calls
}

} // verus!
