use gt7_vgamepad::macos::{
    check_macos_compatibility, check_permissions, get_system_info, MacOSClient, MacOSDS4Controller,
    MacOSVirtualMethod,
};

#[test]
fn test_macos_client_creation() {
    let result = MacOSClient::new();
    assert!(result.is_ok(), "creating the macOS client should succeed");

    let client = result.unwrap();
    assert!(client.is_initialized(), "the client should be initialized");
    assert_eq!(client.get_method(), MacOSVirtualMethod::Simulation);
}

#[test]
fn test_different_methods() {
    let sim_client = MacOSClient::new_with_method(MacOSVirtualMethod::Simulation);
    assert!(sim_client.is_ok());

    let _iokit_result = MacOSClient::new_with_method(MacOSVirtualMethod::IOKitUserspace);

    let driverkit_result = MacOSClient::new_with_method(MacOSVirtualMethod::DriverKit);
    assert!(driverkit_result.is_err(), "DriverKit should return an error");
}

#[test]
fn test_ds4_controller_creation() {
    let client = MacOSClient::new().unwrap();
    let result = MacOSDS4Controller::new(&client);
    assert!(result.is_ok(), "creating the DS4 controller should succeed");

    let controller = result.unwrap();
    let (method, device_id, connected) = controller.get_device_info();
    assert_eq!(method, MacOSVirtualMethod::Simulation);
    assert_eq!(device_id, 1);
    assert!(connected);
}

#[test]
fn test_compatibility_check() {
    let result = check_macos_compatibility();
    assert!(result.is_ok(), "the compatibility check should succeed");
}

#[test]
fn test_controller_list() {
    let client = MacOSClient::new().unwrap();
    let controllers = client.list_controllers();
    assert!(!controllers.is_empty(), "a list of controllers should be returned");
}

#[test]
fn iokit_without_access_is_refused() {
    let r = MacOSClient::new_with_method(MacOSVirtualMethod::IOKitUserspace);
    assert!(matches!(
        r,
        Err(gt7_vgamepad::gamepad_error::VGamepadError::InsufficientPermissions { .. })
    ));
}

#[test]
fn disconnected_adapter_refuses_reports() {
    let client = MacOSClient::new().unwrap();
    let mut controller = MacOSDS4Controller::new(&client).unwrap();
    assert!(controller.disconnect().is_ok());
    assert!(controller.disconnect().is_ok());
    let state = gt7_vgamepad::controller::DS4ControllerState::default();
    assert!(matches!(
        controller.update(&state),
        Err(gt7_vgamepad::gamepad_error::VGamepadError::ControllerDisconnected)
    ));
    assert!(controller.last_report().is_none());
    assert!(controller.connect().is_ok());
    assert!(controller.update(&state).is_ok());
    assert!(controller.last_report().is_some());
}

#[test]
fn hid_descriptor_bytes() {
    let d = MacOSDS4Controller::create_ds4_hid_descriptor();
    assert_eq!(d.len(), 94);
    assert_eq!(&d[0..8], &[0x05, 0x01, 0x09, 0x05, 0xA1, 0x01, 0x85, 0x01]);
    assert_eq!(&d[d.len() - 3..], &[0x81, 0x02, 0xC0]);
}

#[test]
fn system_info_and_permissions() {
    let (platform, env) = get_system_info();
    assert_eq!(platform, "macOS");
    assert_eq!(env, "simulated environment");
    assert_eq!(check_permissions().len(), 3);
}

#[test]
fn iokit_with_access_drives_a_controller() {
    let client = MacOSClient::new_with_access(MacOSVirtualMethod::IOKitUserspace, true).unwrap();
    assert_eq!(client.get_method(), MacOSVirtualMethod::IOKitUserspace);
    let mut controller = MacOSDS4Controller::new(&client).unwrap();
    let (method, _, connected) = controller.get_device_info();
    assert_eq!(method, MacOSVirtualMethod::IOKitUserspace);
    assert!(connected);
    let state = gt7_vgamepad::controller::DS4ControllerState::default();
    assert!(controller.update(&state).is_ok());
    match MacOSClient::new_with_access(MacOSVirtualMethod::IOKitUserspace, false) {
        Err(gt7_vgamepad::gamepad_error::VGamepadError::InsufficientPermissions { operation }) => {
            assert_eq!(operation, "IOKit HID device creation")
        }
        _ => panic!("access refused should fail"),
    }
    match MacOSClient::new_with_access(MacOSVirtualMethod::DriverKit, true) {
        Err(gt7_vgamepad::gamepad_error::VGamepadError::UnsupportedPlatform { platform, .. }) => {
            assert_eq!(platform, "macOS")
        }
        _ => panic!("DriverKit should fail"),
    }
}
