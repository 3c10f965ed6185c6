use button_board::error::CommLibError;
use button_board::ports::{
    get_best_match_device, get_potential_devices, is_potential_device, open_failed, PortRequest,
    BAUD_RATE,
};
use button_board::text::{chars_of, contains};

fn names(list: &[&str]) -> Vec<String> {
    list.iter().map(|name| name.to_string()).collect()
}

#[test]
fn only_names_with_the_marker_are_candidates() {
    let listing = names(&["/dev/ttyS0", "/dev/cu.usbmodem1101", "/dev/ttyUSB0", "/dev/tty.usbmodem2"]);
    assert_eq!(
        get_potential_devices(Ok(listing)),
        Ok(names(&["/dev/cu.usbmodem1101", "/dev/tty.usbmodem2"]))
    );
}

#[test]
fn no_port_no_candidate() {
    assert_eq!(get_potential_devices(Ok(Vec::new())), Ok(Vec::new()));
    assert_eq!(get_potential_devices(Ok(names(&["COM1", "usbmode", "USBMODEM"]))), Ok(Vec::new()));
}

#[test]
fn failed_enumeration_is_not_supported() {
    assert_eq!(
        get_potential_devices(Err("no enumeration here".to_string())),
        Err(CommLibError::NotSupported("no enumeration here".to_string()))
    );
    assert_eq!(
        get_best_match_device(Err("no enumeration here".to_string())),
        Err(CommLibError::NotSupported("no enumeration here".to_string()))
    );
}

#[test]
fn best_match_is_the_first_candidate_at_9600_baud() {
    let listing = names(&["/dev/ttyS0", "/dev/cu.usbmodem7", "/dev/cu.usbmodem3"]);
    assert_eq!(
        get_best_match_device(Ok(listing)),
        Ok(PortRequest { name: "/dev/cu.usbmodem7".to_string(), baud_rate: 9600 })
    );
    assert_eq!(BAUD_RATE, 9600);
}

#[test]
fn without_candidate_no_device_is_found() {
    assert_eq!(get_best_match_device(Ok(Vec::new())), Err(CommLibError::NoDeviceFound));
    assert_eq!(get_best_match_device(Ok(names(&["/dev/ttyS0"]))), Err(CommLibError::NoDeviceFound));
}

#[test]
fn failed_open_is_not_supported() {
    assert_eq!(
        open_failed("permission denied".to_string()),
        CommLibError::NotSupported("permission denied".to_string())
    );
}

#[test]
fn marker_may_stand_anywhere_in_the_name() {
    assert!(is_potential_device("usbmodem"));
    assert!(is_potential_device("usbmodem1"));
    assert!(is_potential_device("xusbmodem"));
    assert!(is_potential_device("ususbmodemm"));
    assert!(!is_potential_device(""));
    assert!(!is_potential_device("usbmode"));
    assert!(!is_potential_device("usb-modem"));
    assert!(is_potential_device("\u{e9}usbmodem\u{e9}"));
}

#[test]
fn substring_search() {
    let text = chars_of("abcabd");
    assert!(contains(&text, &chars_of("abd")));
    assert!(contains(&text, &chars_of("")));
    assert!(contains(&text, &chars_of("abcabd")));
    assert!(!contains(&text, &chars_of("abcabda")));
    assert!(!contains(&text, &chars_of("ac")));
    assert!(contains(&chars_of(""), &chars_of("")));
    assert_eq!(chars_of("h\u{e9}!"), vec!['h', '\u{e9}', '!']);
}
