use button_board::error::CommLibError;
use button_board::manager::{DeviceManager, PortEvent, RecvAction, Update};

#[test]
fn led_frames_use_the_wire_codes() {
    let manager = DeviceManager::new();
    // logical index -> wire code: green 0 -> 2, blue 1 -> 0, red 2 -> 1
    assert_eq!(manager.send(Update::LED(0, true)), Ok(vec![0x03, 2, 1]));
    assert_eq!(manager.send(Update::LED(0, false)), Ok(vec![0x03, 2, 0]));
    assert_eq!(manager.send(Update::LED(1, true)), Ok(vec![0x03, 0, 1]));
    assert_eq!(manager.send(Update::LED(1, false)), Ok(vec![0x03, 0, 0]));
    assert_eq!(manager.send(Update::LED(2, true)), Ok(vec![0x03, 1, 1]));
    assert_eq!(manager.send(Update::LED(2, false)), Ok(vec![0x03, 1, 0]));
}

#[test]
fn led_codes_and_states() {
    assert_eq!(Update::LED(0, true).get_command_led(), 2);
    assert_eq!(Update::LED(1, true).get_command_led(), 0);
    assert_eq!(Update::LED(2, true).get_command_led(), 1);
    assert_eq!(Update::LED(2, true).get_command_led_state(), 1);
    assert_eq!(Update::LED(2, false).get_command_led_state(), 0);
}

#[test]
fn text_frame_is_command_then_one_byte_per_character() {
    let manager = DeviceManager::new();
    assert_eq!(
        manager.send(Update::Text("Hi 5~".to_string())),
        Ok(vec![0x04, b'H', b'i', b' ', b'5', b'~'])
    );
}

#[test]
fn empty_text_frame_is_the_command_alone() {
    assert_eq!(DeviceManager::new().send(Update::Text(String::new())), Ok(vec![0x04]));
}

#[test]
fn text_frame_is_one_byte_longer_than_the_text() {
    let text = "x".repeat(84);
    let frame = DeviceManager::new().send(Update::Text(text)).unwrap();
    assert_eq!(frame.len(), 85);
}

#[test]
fn invalid_updates_are_not_sent() {
    let manager = DeviceManager::new();
    assert_eq!(manager.send(Update::LED(3, true)), Err(CommLibError::InvalidLed(3)));
    assert_eq!(manager.send(Update::Text("y".repeat(85))), Err(CommLibError::TooLong));
    assert_eq!(
        manager.send(Update::Text("AB\tC".to_string())),
        Err(CommLibError::NotAscii(vec![2]))
    );
}

#[test]
fn failed_write_is_a_send_error() {
    assert_eq!(DeviceManager::sent(Ok(3)), Ok(()));
    assert_eq!(
        DeviceManager::sent(Err("broken pipe".to_string())),
        Err(CommLibError::SendError("broken pipe".to_string()))
    );
}

#[test]
fn new_manager_has_no_button_pressed() {
    assert_eq!(DeviceManager::new().get_button_state(), [false, false, false, false]);
}

#[test]
fn press_then_release() {
    let mut manager = DeviceManager::new();
    assert_eq!(manager.recv(PortEvent::Pending(2)), RecvAction::ReadFrame);
    assert_eq!(manager.recv(PortEvent::Frame(0x01, 2)), RecvAction::Done);
    assert_eq!(manager.get_button_state(), [false, false, true, false]);
    assert_eq!(manager.recv(PortEvent::Pending(2)), RecvAction::ReadFrame);
    assert_eq!(manager.recv(PortEvent::Frame(0x02, 2)), RecvAction::Done);
    assert_eq!(manager.get_button_state(), [false, false, false, false]);
}

#[test]
fn fewer_than_two_bytes_change_nothing() {
    let mut manager = DeviceManager::new();
    manager.recv(PortEvent::Frame(0x01, 1));
    assert_eq!(manager.recv(PortEvent::Pending(0)), RecvAction::Done);
    assert_eq!(manager.recv(PortEvent::Pending(1)), RecvAction::Done);
    assert_eq!(manager.get_button_state(), [false, true, false, false]);
}

#[test]
fn more_than_two_bytes_ask_for_one_frame() {
    let mut manager = DeviceManager::new();
    assert_eq!(manager.recv(PortEvent::Pending(7)), RecvAction::ReadFrame);
    assert_eq!(manager.recv(PortEvent::Pending(u32::MAX)), RecvAction::ReadFrame);
}

#[test]
fn buttons_are_independent() {
    let mut manager = DeviceManager::new();
    manager.recv(PortEvent::Frame(0x01, 0));
    manager.recv(PortEvent::Frame(0x01, 3));
    assert_eq!(manager.get_button_state(), [true, false, false, true]);
    manager.recv(PortEvent::Frame(0x02, 0));
    assert_eq!(manager.get_button_state(), [false, false, false, true]);
    manager.recv(PortEvent::Frame(0x01, 3));
    assert_eq!(manager.get_button_state(), [false, false, false, true]);
}

#[test]
fn unknown_command_is_reported_and_ignored() {
    let mut manager = DeviceManager::new();
    manager.recv(PortEvent::Frame(0x01, 1));
    assert_eq!(manager.recv(PortEvent::Frame(0x07, 1)), RecvAction::UnknownCommand(0x07, 1));
    assert_eq!(manager.recv(PortEvent::Frame(0x00, 9)), RecvAction::UnknownCommand(0x00, 9));
    assert_eq!(manager.get_button_state(), [false, true, false, false]);
}

#[test]
fn failed_query_and_failed_read_are_read_errors() {
    let mut manager = DeviceManager::new();
    manager.recv(PortEvent::Frame(0x01, 0));
    assert_eq!(
        manager.recv(PortEvent::QueryFailed("gone".to_string())),
        RecvAction::Fail(CommLibError::ReadError("gone".to_string()))
    );
    assert_eq!(
        manager.recv(PortEvent::ReadFailed("short read".to_string())),
        RecvAction::Fail(CommLibError::ReadError("short read".to_string()))
    );
    assert_eq!(manager.get_button_state(), [true, false, false, false]);
}

#[test]
fn frames_for_a_fifth_button_are_outside_the_protocol() {
    assert!(PortEvent::Frame(0x01, 3).in_protocol());
    assert!(PortEvent::Frame(0x02, 0).in_protocol());
    assert!(!PortEvent::Frame(0x01, 4).in_protocol());
    assert!(!PortEvent::Frame(0x02, 255).in_protocol());
    assert!(PortEvent::Frame(0x03, 200).in_protocol());
    assert!(PortEvent::Pending(9).in_protocol());
    assert!(PortEvent::QueryFailed(String::new()).in_protocol());
    assert!(PortEvent::ReadFailed(String::new()).in_protocol());
}
