//! The DualShock 4 controller model: a report, typed mutators, and input
//! validation. Every successful change is handed to the platform adapter.

use crate::f32bits::{
    in_signed_unit, in_unit, is_in_signed_unit, is_in_unit, stick_axis_byte, stick_byte,
    trigger_axis_byte, trigger_byte, F32Bits,
};
use crate::gamepad_error::VGamepadError;
use crate::le::{le_byte, write_u16_le};
use crate::macos::{MacOSClient, MacOSDS4Controller, DRIVERKIT_NOT_IMPLEMENTED};
use crate::text::{hex32, hex_string};
use vstd::prelude::*;

verus! {

/// The face, shoulder and system buttons.
#[derive(Clone, Copy, Debug, PartialEq, Eq, Structural)]
pub enum DS4Button {
    Triangle,
    Circle,
    Cross,
    Square,
    L1,
    R1,
    L2,
    R2,
    Share,
    Options,
    ThumbLeft,
    ThumbRight,
    PlayStation,
    TouchPad,
}

/// The bit of a button in the report's button mask.
pub open spec fn button_mask(b: DS4Button) -> u16 {
    match b {
        DS4Button::L1 => 0x0001,
        DS4Button::R1 => 0x0002,
        DS4Button::L2 => 0x0004,
        DS4Button::R2 => 0x0008,
        DS4Button::Cross => 0x0010,
        DS4Button::Circle => 0x0020,
        DS4Button::Square => 0x0040,
        DS4Button::Triangle => 0x0080,
        DS4Button::PlayStation => 0x0100,
        DS4Button::TouchPad => 0x0200,
        DS4Button::ThumbLeft => 0x0400,
        DS4Button::ThumbRight => 0x0800,
        DS4Button::Share => 0x1000,
        DS4Button::Options => 0x2000,
    }
}

impl DS4Button {
    pub fn mask(&self) -> (r: u16)
        ensures
            r == button_mask(*self),
    {
        match self {
            DS4Button::L1 => 0x0001,
            DS4Button::R1 => 0x0002,
            DS4Button::L2 => 0x0004,
            DS4Button::R2 => 0x0008,
            DS4Button::Cross => 0x0010,
            DS4Button::Circle => 0x0020,
            DS4Button::Square => 0x0040,
            DS4Button::Triangle => 0x0080,
            DS4Button::PlayStation => 0x0100,
            DS4Button::TouchPad => 0x0200,
            DS4Button::ThumbLeft => 0x0400,
            DS4Button::ThumbRight => 0x0800,
            DS4Button::Share => 0x1000,
            DS4Button::Options => 0x2000,
        }
    }
}

/// The directional pad, by compass direction.
#[derive(Clone, Copy, Debug, PartialEq, Eq, Structural)]
pub enum DS4DPad {
    Neutral,
    North,
    NorthEast,
    East,
    SouthEast,
    South,
    SouthWest,
    West,
    NorthWest,
}

/// The report's code for a d-pad direction.
pub open spec fn dpad_code(d: DS4DPad) -> u8 {
    match d {
        DS4DPad::North => 0,
        DS4DPad::NorthEast => 1,
        DS4DPad::East => 2,
        DS4DPad::SouthEast => 3,
        DS4DPad::South => 4,
        DS4DPad::SouthWest => 5,
        DS4DPad::West => 6,
        DS4DPad::NorthWest => 7,
        DS4DPad::Neutral => 8,
    }
}

impl DS4DPad {
    pub fn code(&self) -> (r: u8)
        ensures
            r == dpad_code(*self),
    {
        match self {
            DS4DPad::North => 0,
            DS4DPad::NorthEast => 1,
            DS4DPad::East => 2,
            DS4DPad::SouthEast => 3,
            DS4DPad::South => 4,
            DS4DPad::SouthWest => 5,
            DS4DPad::West => 6,
            DS4DPad::NorthWest => 7,
            DS4DPad::Neutral => 8,
        }
    }
}

/// The DualShock 4 input report.
#[derive(Clone, Copy, Debug)]
pub struct DS4Report {
    pub report_id: u8,
    pub left_thumb_x: u8,
    pub left_thumb_y: u8,
    pub right_thumb_x: u8,
    pub right_thumb_y: u8,
    pub buttons: u16,
    pub dpad: u8,
    pub left_trigger: u8,
    pub right_trigger: u8,
    pub timestamp: u16,
    pub battery: u8,
    pub gyro_x: i16,
    pub gyro_y: i16,
    pub gyro_z: i16,
    pub accel_x: i16,
    pub accel_y: i16,
    pub accel_z: i16,
    pub reserved: [u8; 5],
    pub extension: [u8; 12],
}

/// The report at rest: id 1, sticks centred at 128, nothing pressed, d-pad
/// released, triggers and the remaining fields zero.
pub open spec fn is_neutral_report(r: DS4Report) -> bool {
    &&& r.report_id == 1
    &&& r.left_thumb_x == 128
    &&& r.left_thumb_y == 128
    &&& r.right_thumb_x == 128
    &&& r.right_thumb_y == 128
    &&& r.buttons == 0
    &&& r.dpad == 8
    &&& r.left_trigger == 0
    &&& r.right_trigger == 0
    &&& r.timestamp == 0
    &&& r.battery == 0
    &&& r.gyro_x == 0 && r.gyro_y == 0 && r.gyro_z == 0
    &&& r.accel_x == 0 && r.accel_y == 0 && r.accel_z == 0
    &&& r.reserved@ == Seq::new(5, |i: int| 0u8)
    &&& r.extension@ == Seq::new(12, |i: int| 0u8)
}

impl Default for DS4Report {
    fn default() -> (r: Self)
        ensures
            is_neutral_report(r),
    {
        let r = DS4Report {
            report_id: 0x01,
            left_thumb_x: 128,
            left_thumb_y: 128,
            right_thumb_x: 128,
            right_thumb_y: 128,
            buttons: 0,
            dpad: 8,
            left_trigger: 0,
            right_trigger: 0,
            timestamp: 0,
            battery: 0,
            gyro_x: 0,
            gyro_y: 0,
            gyro_z: 0,
            accel_x: 0,
            accel_y: 0,
            accel_z: 0,
            reserved: [0u8; 5],
            extension: [0u8; 12],
        };
        proof {
            assert(r.reserved@ =~= Seq::new(5, |i: int| 0u8));
            assert(r.extension@ =~= Seq::new(12, |i: int| 0u8));
        }
        r
    }
}

/// Length of the report payload handed to an adapter.
pub const DS4_REPORT_LEN: usize = 64;

/// A signed 16-bit value as its two's-complement bit pattern.
pub open spec fn u16_of_i16(v: i16) -> u16 {
    if v >= 0 {
        v as u16
    } else {
        (v as int + 0x1_0000) as u16
    }
}

/// Byte `i` of the report payload: the fields in declaration order, packed,
/// little-endian, and zeros after the extension block up to 64 bytes.
pub open spec fn report_byte(r: DS4Report, i: int) -> u8 {
    if i == 0 {
        r.report_id
    } else if i == 1 {
        r.left_thumb_x
    } else if i == 2 {
        r.left_thumb_y
    } else if i == 3 {
        r.right_thumb_x
    } else if i == 4 {
        r.right_thumb_y
    } else if i < 7 {
        le_byte(r.buttons as int, i - 5)
    } else if i == 7 {
        r.dpad
    } else if i == 8 {
        r.left_trigger
    } else if i == 9 {
        r.right_trigger
    } else if i < 12 {
        le_byte(r.timestamp as int, i - 10)
    } else if i == 12 {
        r.battery
    } else if i < 15 {
        le_byte(u16_of_i16(r.gyro_x) as int, i - 13)
    } else if i < 17 {
        le_byte(u16_of_i16(r.gyro_y) as int, i - 15)
    } else if i < 19 {
        le_byte(u16_of_i16(r.gyro_z) as int, i - 17)
    } else if i < 21 {
        le_byte(u16_of_i16(r.accel_x) as int, i - 19)
    } else if i < 23 {
        le_byte(u16_of_i16(r.accel_y) as int, i - 21)
    } else if i < 25 {
        le_byte(u16_of_i16(r.accel_z) as int, i - 23)
    } else if i < 30 {
        r.reserved@[i - 25]
    } else if i < 42 {
        r.extension@[i - 30]
    } else {
        0
    }
}

/// The 64-byte payload of a report.
pub open spec fn report_bytes(r: DS4Report) -> Seq<u8> {
    Seq::new(DS4_REPORT_LEN as nat, |i: int| report_byte(r, i))
}

fn i16_bits(v: i16) -> (r: u16)
    ensures
        r == u16_of_i16(v),
{
    if v >= 0 {
        v as u16
    } else {
        (v as i32 + 0x1_0000) as u16
    }
}

impl DS4Report {
    /// The payload that an adapter submits; see `report_byte`.
    pub fn to_bytes(&self) -> (r: Vec<u8>)
        ensures
            r@ == report_bytes(*self),
    {
        let mut b: Vec<u8> = vec![0u8; DS4_REPORT_LEN];
        b.set(0, self.report_id);
        b.set(1, self.left_thumb_x);
        b.set(2, self.left_thumb_y);
        b.set(3, self.right_thumb_x);
        b.set(4, self.right_thumb_y);
        write_u16_le(&mut b, 5, self.buttons);
        b.set(7, self.dpad);
        b.set(8, self.left_trigger);
        b.set(9, self.right_trigger);
        write_u16_le(&mut b, 10, self.timestamp);
        b.set(12, self.battery);
        write_u16_le(&mut b, 13, i16_bits(self.gyro_x));
        write_u16_le(&mut b, 15, i16_bits(self.gyro_y));
        write_u16_le(&mut b, 17, i16_bits(self.gyro_z));
        write_u16_le(&mut b, 19, i16_bits(self.accel_x));
        write_u16_le(&mut b, 21, i16_bits(self.accel_y));
        write_u16_le(&mut b, 23, i16_bits(self.accel_z));
        b.set(25, self.reserved[0]);
        b.set(26, self.reserved[1]);
        b.set(27, self.reserved[2]);
        b.set(28, self.reserved[3]);
        b.set(29, self.reserved[4]);
        b.set(30, self.extension[0]);
        b.set(31, self.extension[1]);
        b.set(32, self.extension[2]);
        b.set(33, self.extension[3]);
        b.set(34, self.extension[4]);
        b.set(35, self.extension[5]);
        b.set(36, self.extension[6]);
        b.set(37, self.extension[7]);
        b.set(38, self.extension[8]);
        b.set(39, self.extension[9]);
        b.set(40, self.extension[10]);
        b.set(41, self.extension[11]);
        proof {
            assert(b@ =~= report_bytes(*self));
        }
        b
    }
}

/// The whole state of one controller.
#[derive(Clone, Copy, Debug)]
pub struct DS4ControllerState {
    pub report: DS4Report,
    pub led_color: (u8, u8, u8),
    pub left_rumble: u8,
    pub right_rumble: u8,
}

/// The state after a reset: neutral report, blue light, no rumble.
pub open spec fn is_neutral_state(s: DS4ControllerState) -> bool {
    &&& is_neutral_report(s.report)
    &&& s.led_color == (0u8, 0u8, 255u8)
    &&& s.left_rumble == 0
    &&& s.right_rumble == 0
}

impl Default for DS4ControllerState {
    fn default() -> (r: Self)
        ensures
            is_neutral_state(r),
    {
        DS4ControllerState {
            report: DS4Report::default(),
            led_color: (0, 0, 255),
            left_rumble: 0,
            right_rumble: 0,
        }
    }
}

/// `a` and `b` are the same report but for the buttons.
pub open spec fn same_but_buttons(a: DS4Report, b: DS4Report) -> bool {
    a == DS4Report { buttons: a.buttons, ..b }
}

/// The text that an out-of-range stick input reports as its value.
pub open spec fn stick_actual(x: F32Bits, y: F32Bits) -> Seq<char> {
    seq!['('] + hex32(x.bits) + seq![',', ' '] + hex32(y.bits) + seq![')']
}

/// A virtual DualShock 4 bound to a platform adapter.
pub struct DualShock4Controller {
    state: DS4ControllerState,
    inner: MacOSDS4Controller,
}

impl DualShock4Controller {
    /// The controller's current state.
    pub closed spec fn spec_state(&self) -> DS4ControllerState {
        self.state
    }

    /// The adapter that receives the reports.
    pub closed spec fn spec_adapter(&self) -> MacOSDS4Controller {
        self.inner
    }

    /// Creates a controller in the neutral state, with a connected adapter.
    pub fn new(client: &MacOSClient) -> (r: Result<Self, VGamepadError>)
        ensures
            r matches Ok(c) ==> is_neutral_state(c.spec_state()) && c.spec_adapter().spec_connected()
                && c.spec_adapter().spec_method() == client.spec_method(),
            r is Ok <==> MacOSDS4Controller::spec_creatable(client.spec_method()),
            r is Err ==> (r matches Err(VGamepadError::UnsupportedPlatform { platform, feature })
                && platform@ == "macOS"@ && feature@ == DRIVERKIT_NOT_IMPLEMENTED@),
    {
        let inner = MacOSDS4Controller::new(client)?;
        Ok(DualShock4Controller { state: DS4ControllerState::default(), inner })
    }

    /// Hands the current state to the adapter.
    pub fn update(&mut self) -> (r: Result<(), VGamepadError>)
        ensures
            final(self).spec_state() == old(self).spec_state(),
            MacOSDS4Controller::submitted(
                old(self).spec_adapter(),
                final(self).spec_adapter(),
                old(self).spec_state().report,
                r,
            ),
    {
        self.inner.update(&self.state)
    }

    pub fn press_button(&mut self, button: DS4Button) -> (r: Result<(), VGamepadError>)
        ensures
            final(self).spec_state().report.buttons == old(self).spec_state().report.buttons
                | button_mask(button),
            same_but_buttons(final(self).spec_state().report, old(self).spec_state().report),
            final(self).spec_state() == (DS4ControllerState {
                report: final(self).spec_state().report,
                ..old(self).spec_state()
            }),
            MacOSDS4Controller::submitted(
                old(self).spec_adapter(),
                final(self).spec_adapter(),
                final(self).spec_state().report,
                r,
            ),
    {
        self.state.report.buttons = self.state.report.buttons | button.mask();
        self.update()
    }

    pub fn release_button(&mut self, button: DS4Button) -> (r: Result<(), VGamepadError>)
        ensures
            final(self).spec_state().report.buttons == old(self).spec_state().report.buttons
                & !button_mask(button),
            same_but_buttons(final(self).spec_state().report, old(self).spec_state().report),
            final(self).spec_state() == (DS4ControllerState {
                report: final(self).spec_state().report,
                ..old(self).spec_state()
            }),
            MacOSDS4Controller::submitted(
                old(self).spec_adapter(),
                final(self).spec_adapter(),
                final(self).spec_state().report,
                r,
            ),
    {
        self.state.report.buttons = self.state.report.buttons & !button.mask();
        self.update()
    }

    pub fn set_dpad(&mut self, direction: DS4DPad) -> (r: Result<(), VGamepadError>)
        ensures
            final(self).spec_state() == (DS4ControllerState {
                report: DS4Report { dpad: dpad_code(direction), ..old(self).spec_state().report },
                ..old(self).spec_state()
            }),
            MacOSDS4Controller::submitted(
                old(self).spec_adapter(),
                final(self).spec_adapter(),
                final(self).spec_state().report,
                r,
            ),
    {
        self.state.report.dpad = direction.code();
        self.update()
    }

    /// Sets the left stick from two values in `[-1, 1]`, each mapped by
    /// `floor((v + 1) * 127.5)`. Out of range, nothing changes and the
    /// error names the field.
    pub fn set_left_joystick(&mut self, x: F32Bits, y: F32Bits) -> (r: Result<(), VGamepadError>)
        ensures
            !(in_signed_unit(x.bits) && in_signed_unit(y.bits)) ==> *final(self) == *old(self) && (
            r matches Err(VGamepadError::InvalidInput { field, expected, actual }) && field@
                == "left_joystick"@ && expected@ == "-1.0..=1.0"@ && actual@ == stick_actual(x, y)),
            in_signed_unit(x.bits) && in_signed_unit(y.bits) ==> final(self).spec_state() == (
            DS4ControllerState {
                report: DS4Report {
                    left_thumb_x: stick_byte(x.bits) as u8,
                    left_thumb_y: stick_byte(y.bits) as u8,
                    ..old(self).spec_state().report
                },
                ..old(self).spec_state()
            }) && MacOSDS4Controller::submitted(
                old(self).spec_adapter(),
                final(self).spec_adapter(),
                final(self).spec_state().report,
                r,
            ),
    {
        if !is_in_signed_unit(x) || !is_in_signed_unit(y) {
            return Err(Self::stick_error("left_joystick", x, y));
        }
        self.state.report.left_thumb_x = stick_axis_byte(x);
        self.state.report.left_thumb_y = stick_axis_byte(y);
        self.update()
    }

    /// As `set_left_joystick`, for the right stick.
    pub fn set_right_joystick(&mut self, x: F32Bits, y: F32Bits) -> (r: Result<(), VGamepadError>)
        ensures
            !(in_signed_unit(x.bits) && in_signed_unit(y.bits)) ==> *final(self) == *old(self) && (
            r matches Err(VGamepadError::InvalidInput { field, expected, actual }) && field@
                == "right_joystick"@ && expected@ == "-1.0..=1.0"@ && actual@ == stick_actual(x, y)),
            in_signed_unit(x.bits) && in_signed_unit(y.bits) ==> final(self).spec_state() == (
            DS4ControllerState {
                report: DS4Report {
                    right_thumb_x: stick_byte(x.bits) as u8,
                    right_thumb_y: stick_byte(y.bits) as u8,
                    ..old(self).spec_state().report
                },
                ..old(self).spec_state()
            }) && MacOSDS4Controller::submitted(
                old(self).spec_adapter(),
                final(self).spec_adapter(),
                final(self).spec_state().report,
                r,
            ),
    {
        if !is_in_signed_unit(x) || !is_in_signed_unit(y) {
            return Err(Self::stick_error("right_joystick", x, y));
        }
        self.state.report.right_thumb_x = stick_axis_byte(x);
        self.state.report.right_thumb_y = stick_axis_byte(y);
        self.update()
    }

    /// Sets the left trigger from a value in `[0, 1]`, mapped by
    /// `floor(v * 255)`. Out of range, nothing changes.
    pub fn set_left_trigger(&mut self, value: F32Bits) -> (r: Result<(), VGamepadError>)
        ensures
            !in_unit(value.bits) ==> *final(self) == *old(self) && (r matches Err(
                VGamepadError::InvalidInput { field, expected, actual },
            ) && field@ == "left_trigger"@ && expected@ == "0.0..=1.0"@ && actual@ == hex32(
                value.bits,
            )),
            in_unit(value.bits) ==> final(self).spec_state() == (DS4ControllerState {
                report: DS4Report {
                    left_trigger: trigger_byte(value.bits) as u8,
                    ..old(self).spec_state().report
                },
                ..old(self).spec_state()
            }) && MacOSDS4Controller::submitted(
                old(self).spec_adapter(),
                final(self).spec_adapter(),
                final(self).spec_state().report,
                r,
            ),
    {
        if !is_in_unit(value) {
            return Err(Self::trigger_error("left_trigger", value));
        }
        self.state.report.left_trigger = trigger_axis_byte(value);
        self.update()
    }

    /// As `set_left_trigger`, for the right trigger.
    pub fn set_right_trigger(&mut self, value: F32Bits) -> (r: Result<(), VGamepadError>)
        ensures
            !in_unit(value.bits) ==> *final(self) == *old(self) && (r matches Err(
                VGamepadError::InvalidInput { field, expected, actual },
            ) && field@ == "right_trigger"@ && expected@ == "0.0..=1.0"@ && actual@ == hex32(
                value.bits,
            )),
            in_unit(value.bits) ==> final(self).spec_state() == (DS4ControllerState {
                report: DS4Report {
                    right_trigger: trigger_byte(value.bits) as u8,
                    ..old(self).spec_state().report
                },
                ..old(self).spec_state()
            }) && MacOSDS4Controller::submitted(
                old(self).spec_adapter(),
                final(self).spec_adapter(),
                final(self).spec_state().report,
                r,
            ),
    {
        if !is_in_unit(value) {
            return Err(Self::trigger_error("right_trigger", value));
        }
        self.state.report.right_trigger = trigger_axis_byte(value);
        self.update()
    }

    /// Returns to the neutral state and submits it.
    pub fn reset(&mut self) -> (r: Result<(), VGamepadError>)
        ensures
            is_neutral_state(final(self).spec_state()),
            MacOSDS4Controller::submitted(
                old(self).spec_adapter(),
                final(self).spec_adapter(),
                final(self).spec_state().report,
                r,
            ),
    {
        self.state = DS4ControllerState::default();
        self.update()
    }

    pub fn get_state(&self) -> (r: &DS4ControllerState)
        ensures
            *r == self.spec_state(),
    {
        &self.state
    }

    fn stick_error(field: &str, x: F32Bits, y: F32Bits) -> (r: VGamepadError)
        ensures
            r matches VGamepadError::InvalidInput { field: f, expected, actual } && f@ == field@
                && expected@ == "-1.0..=1.0"@ && actual@ == stick_actual(x, y),
    {
        proof {
            reveal_strlit("(");
            reveal_strlit(", ");
            reveal_strlit(")");
        }
        let actual = "(".to_owned();
        let actual = actual.concat(hex_string(x.bits).as_str());
        let actual = actual.concat(", ");
        let actual = actual.concat(hex_string(y.bits).as_str());
        let actual = actual.concat(")");
        proof {
            assert(actual@ =~= stick_actual(x, y));
        }
        VGamepadError::invalid_input(field, "-1.0..=1.0", actual.as_str())
    }

    fn trigger_error(field: &str, v: F32Bits) -> (r: VGamepadError)
        ensures
            r matches VGamepadError::InvalidInput { field: f, expected, actual } && f@ == field@
                && expected@ == "0.0..=1.0"@ && actual@ == hex32(v.bits),
    {
        VGamepadError::invalid_input(field, "0.0..=1.0", hex_string(v.bits).as_str())
    }
}

/// Pressing and then releasing a button clears its bit and leaves the
/// others as they were; from no buttons pressed, none are pressed after.
pub proof fn lemma_press_release(buttons: u16, button: DS4Button)
    ensures
        (buttons | button_mask(button)) & !button_mask(button) == buttons & !button_mask(button),
        buttons & button_mask(button) == 0 ==> (buttons | button_mask(button)) & !button_mask(
            button,
        ) == buttons,
{
    let m = button_mask(button);
    assert((buttons | m) & !m == buttons & !m) by (bit_vector);
    assert(buttons & m == 0 ==> (buttons | m) & !m == buttons) by (bit_vector);
}

} // verus!
