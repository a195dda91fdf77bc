use gt7_vgamepad::controller::{DS4Button, DS4DPad};
use gt7_vgamepad::f32bits::F32Bits;
use gt7_vgamepad::gamepad::VGamepadClient;
use gt7_vgamepad::gamepad_error::VGamepadError;
use gt7_vgamepad::vigem::{check_library_loaded, check_status, teardown_plan, ViGEmCall, ViGEmError, ViGEmTargetType};

fn bits(v: f32) -> F32Bits {
    F32Bits { bits: v.to_bits() }
}

fn assert_neutral(c: &gt7_vgamepad::controller::DualShock4Controller) {
    let s = c.get_state();
    let r = s.report;
    assert_eq!(r.report_id, 1);
    assert_eq!(
        (r.left_thumb_x, r.left_thumb_y, r.right_thumb_x, r.right_thumb_y),
        (128, 128, 128, 128)
    );
    assert_eq!(r.buttons, 0);
    assert_eq!(r.dpad, 8);
    assert_eq!((r.left_trigger, r.right_trigger), (0, 0));
    assert_eq!(s.led_color, (0, 0, 255));
    assert_eq!((s.left_rumble, s.right_rumble), (0, 0));
}

#[test]
fn new_controller_is_neutral() {
    let client = VGamepadClient::new().unwrap();
    let c = client.create_dualshock4().unwrap();
    assert_neutral(&c);
}

#[test]
fn centred_stick_maps_to_127() {
    let client = VGamepadClient::new().unwrap();
    let mut c = client.create_dualshock4().unwrap();
    c.set_left_joystick(bits(0.0), bits(0.0)).unwrap();
    assert_eq!(c.get_state().report.left_thumb_x, 127);
    assert_eq!(c.get_state().report.left_thumb_y, 127);
}

#[test]
fn full_trigger_maps_to_255() {
    let client = VGamepadClient::new().unwrap();
    let mut c = client.create_dualshock4().unwrap();
    c.set_left_trigger(bits(1.0)).unwrap();
    assert_eq!(c.get_state().report.left_trigger, 255);
    c.set_right_trigger(bits(0.5)).unwrap();
    assert_eq!(c.get_state().report.right_trigger, 127);
}

#[test]
fn press_then_release_clears() {
    let client = VGamepadClient::new().unwrap();
    let mut c = client.create_dualshock4().unwrap();
    c.press_button(DS4Button::Cross).unwrap();
    assert_eq!(c.get_state().report.buttons, 0x0010);
    c.release_button(DS4Button::Cross).unwrap();
    assert_eq!(c.get_state().report.buttons, 0);
}

#[test]
fn button_masks() {
    let client = VGamepadClient::new().unwrap();
    let mut c = client.create_dualshock4().unwrap();
    let all = [
        (DS4Button::L1, 0x0001),
        (DS4Button::R1, 0x0002),
        (DS4Button::L2, 0x0004),
        (DS4Button::R2, 0x0008),
        (DS4Button::Cross, 0x0010),
        (DS4Button::Circle, 0x0020),
        (DS4Button::Square, 0x0040),
        (DS4Button::Triangle, 0x0080),
        (DS4Button::PlayStation, 0x0100),
        (DS4Button::TouchPad, 0x0200),
        (DS4Button::ThumbLeft, 0x0400),
        (DS4Button::ThumbRight, 0x0800),
        (DS4Button::Share, 0x1000),
        (DS4Button::Options, 0x2000),
    ];
    for (b, m) in all {
        assert_eq!(b.mask(), m);
        c.press_button(b).unwrap();
    }
    assert_eq!(c.get_state().report.buttons, 0x3FFF);
}

#[test]
fn out_of_range_stick_leaves_state() {
    let client = VGamepadClient::new().unwrap();
    let mut c = client.create_dualshock4().unwrap();
    c.set_left_joystick(bits(0.5), bits(-0.5)).unwrap();
    let before = c.get_state().report;
    match c.set_left_joystick(bits(2.0), bits(0.0)) {
        Err(VGamepadError::InvalidInput { field, expected, actual }) => {
            assert_eq!(field, "left_joystick");
            assert_eq!(expected, "-1.0..=1.0");
            assert_eq!(actual, "(0x40000000, 0x00000000)");
        }
        other => panic!("unexpected {:?}", other),
    }
    let after = c.get_state().report;
    assert_eq!((after.left_thumb_x, after.left_thumb_y), (before.left_thumb_x, before.left_thumb_y));
    assert_eq!((after.left_thumb_x, after.left_thumb_y), (191, 63));
    match c.set_right_trigger(bits(-0.5)) {
        Err(VGamepadError::InvalidInput { field, actual, .. }) => {
            assert_eq!(field, "right_trigger");
            assert_eq!(actual, "0xBF000000");
        }
        other => panic!("unexpected {:?}", other),
    }
    assert!(c.set_right_joystick(bits(f32::NAN), bits(0.0)).is_err());
}

#[test]
fn reset_round_trip() {
    let client = VGamepadClient::new().unwrap();
    let mut c = client.create_dualshock4().unwrap();
    c.press_button(DS4Button::Triangle).unwrap();
    c.set_left_joystick(bits(-1.0), bits(1.0)).unwrap();
    c.set_right_trigger(bits(1.0)).unwrap();
    c.set_dpad(DS4DPad::SouthWest).unwrap();
    let r = c.get_state().report;
    assert_eq!(r.buttons, 0x0080);
    assert_eq!(r.left_thumb_x, 0);
    assert_eq!(r.left_thumb_y, 255);
    assert_eq!(r.right_trigger, 255);
    assert_eq!(r.dpad, 5);
    c.reset().unwrap();
    assert_neutral(&c);
}

#[test]
fn vigem_status_codes() {
    assert!(check_status(0x2000_0000).is_ok());
    match check_status(0xE000_0001) {
        Err(VGamepadError::ViGEmError { message, code }) => {
            assert_eq!(message, "BusNotFound");
            assert_eq!(code, 0xE000_0001);
        }
        other => panic!("unexpected {:?}", other),
    }
    match check_status(0x1234) {
        Err(VGamepadError::ViGEmError { message, .. }) => assert_eq!(message, "Unknown"),
        other => panic!("unexpected {:?}", other),
    }
    assert_eq!(ViGEmError::from_code(0xE000_0002), Some(ViGEmError::NoFreeSlot));
    assert_eq!(ViGEmError::NotSupported.code(), 0xE000_0010);
    assert_eq!(ViGEmTargetType::DualShock4Wired.code(), 2);
}

#[test]
fn driver_absence() {
    match check_library_loaded(false) {
        Err(VGamepadError::DriverNotInstalled { driver, download_url }) => {
            assert_eq!(driver, "ViGEm Bus Driver");
            assert_eq!(download_url, "https://github.com/nefarius/ViGEmBus/releases");
        }
        other => panic!("unexpected {:?}", other),
    }
    assert!(check_library_loaded(true).is_ok());
}

#[test]
fn teardown_order() {
    let plan = teardown_plan(2);
    assert_eq!(
        plan,
        vec![
            ViGEmCall::TargetRemove(0),
            ViGEmCall::TargetRemove(1),
            ViGEmCall::TargetFree(0),
            ViGEmCall::TargetFree(1),
            ViGEmCall::ClientDisconnect,
            ViGEmCall::ClientFree,
            ViGEmCall::UnloadLibrary,
        ]
    );
}

#[test]
fn gamepad_error_predicates() {
    assert!(VGamepadError::vigem_error("x", 1).is_vigem_error());
    assert!(VGamepadError::vigem_library_error("x").is_vigem_error());
    assert!(VGamepadError::vigem_function_error("f", "x").is_vigem_error());
    assert!(VGamepadError::iokit_error("x", -1).is_iokit_error());
    assert!(VGamepadError::controller_update_error("x").is_recoverable());
    assert!(VGamepadError::invalid_input("a", "b", "c").is_recoverable());
    assert!(!VGamepadError::controller_init_error("x").is_recoverable());
    assert!(!VGamepadError::controller_connection_error("x").is_vigem_error());
    assert!(!VGamepadError::unsupported_platform("p", "f").is_iokit_error());
    assert!(!VGamepadError::driver_not_installed("d", "u").is_recoverable());
    assert!(!VGamepadError::insufficient_permissions("o").is_vigem_error());
}

#[test]
fn report_payload_layout() {
    let client = VGamepadClient::default();
    let mut c = client.create_dualshock4().unwrap();
    c.press_button(DS4Button::Options).unwrap();
    let mut report = c.get_state().report;
    report.gyro_x = -2;
    report.extension[11] = 0x7F;
    let bytes = report.to_bytes();
    assert_eq!(bytes.len(), 64);
    assert_eq!(&bytes[0..10], &[1, 128, 128, 128, 128, 0x00, 0x20, 8, 0, 0]);
    assert_eq!(&bytes[13..15], &[0xFE, 0xFF]);
    assert_eq!(bytes[41], 0x7F);
    assert!(bytes[42..].iter().all(|&x| x == 0));
}
