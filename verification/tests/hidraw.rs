use hwwctl::hidraw::{hidraw_device_path, is_hidraw_name, uevent_has_uniq};

#[test]
fn uniq_match_basic() {
    let u = "HID_ID=0003:000003EB:00002403\nHID_NAME=BitBox02\nHID_UNIQ=hwwctl-bb02-a3f912\n";
    assert!(uevent_has_uniq(u, "hwwctl-bb02-a3f912"));
    assert!(!uevent_has_uniq(u, "hwwctl-bb02-aaaaaa"));
}

#[test]
fn uniq_match_ignores_substring_in_name() {
    let u = "HID_NAME=hwwctl-bb02-a3f912 BitBox02\nHID_UNIQ=\n";
    assert!(!uevent_has_uniq(u, "hwwctl-bb02-a3f912"));
}

#[test]
fn empty_uevent_is_no_match() {
    assert!(!uevent_has_uniq("", "anything"));
}

#[test]
fn uniq_value_is_trimmed() {
    assert!(uevent_has_uniq("HID_UNIQ=  abc \r\nX=1", "abc"));
    assert!(uevent_has_uniq("HID_UNIQ=abc", "abc"));
    assert!(!uevent_has_uniq("HID_UNIQ=abcd", "abc"));
    assert!(!uevent_has_uniq(" HID_UNIQ=abc", "abc"));
    assert!(uevent_has_uniq("HID_UNIQ=\n", ""));
}

#[test]
fn hidraw_entries() {
    assert!(is_hidraw_name("hidraw3"));
    assert!(is_hidraw_name("hidraw"));
    assert!(!is_hidraw_name("hid"));
    assert!(!is_hidraw_name("event0"));
    assert_eq!(hidraw_device_path("hidraw3"), "/dev/hidraw3");
}
