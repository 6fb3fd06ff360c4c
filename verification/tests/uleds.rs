use fw16_kblight::uleds::{
    brightness_payload, check_outcome, handshake_ready, notification_value, registration_record,
    sysfs_brightness_path,
};

#[test]
fn registration_record_layout() {
    let name = b"fw16::kbd_backlight";
    let rec = registration_record(name);
    assert_eq!(rec.len(), 68);
    assert_eq!(&rec[..name.len()], &name[..]);
    for i in name.len()..64 {
        assert_eq!(rec[i], 0);
    }
    // 255 in the machine byte order of the supported (little-endian) targets
    assert_eq!(&rec[64..], &[255, 0, 0, 0]);
}

#[test]
fn registration_record_full_length_name() {
    let name = [b'x'; 64];
    let rec = registration_record(&name);
    assert_eq!(rec.len(), 68);
    assert_eq!(&rec[..64], &name[..]);
    assert_eq!(&rec[64..], &[255, 0, 0, 0]);
}

#[test]
fn registration_record_empty_name() {
    let rec = registration_record(&[]);
    assert_eq!(rec.len(), 68);
    assert_eq!(&rec[..64], &[0u8; 64][..]);
    assert_eq!(&rec[64..], &[255, 0, 0, 0]);
}

#[test]
fn notification_decodes_and_truncates() {
    assert_eq!(notification_value(&[128, 0, 0, 0]), 128);
    assert_eq!(notification_value(&[0, 0, 0, 0]), 0);
    assert_eq!(notification_value(&[255, 0, 0, 0]), 255);
    // 257 truncates to the 8-bit range
    assert_eq!(notification_value(&[1, 1, 0, 0]), 1);
}

#[test]
fn check_reports_only_real_changes() {
    assert_eq!(check_outcome(0, Some(&[128, 0, 0, 0])), Some(128));
    assert_eq!(check_outcome(128, Some(&[128, 0, 0, 0])), None);
    // a would-block or failed read is no change
    assert_eq!(check_outcome(37, None), None);
}

#[test]
fn create_swallows_exactly_one_zero_notification() {
    // the kernel emits one synthetic "changed to 0" notification on
    // registration; the discard read against the initial baseline 0 must
    // observe no change
    let first = check_outcome(0, Some(&[0, 0, 0, 0]));
    assert_eq!(first, None);
    assert!(handshake_ready(first));

    // observing an actual change there is a setup failure
    let bad = check_outcome(0, Some(&[5, 0, 0, 0]));
    assert!(!handshake_ready(bad));

    // a genuine nonzero read after creation is reported as a real change
    assert_eq!(check_outcome(0, Some(&[128, 0, 0, 0])), Some(128));
}

#[test]
fn sysfs_path_is_derived_from_the_name() {
    assert_eq!(
        sysfs_brightness_path("fw16::kbd_backlight"),
        "/sys/class/leds/fw16::kbd_backlight/brightness"
    );
    assert_eq!(sysfs_brightness_path(""), "/sys/class/leds//brightness");
}

#[test]
fn payload_is_plain_decimal() {
    assert_eq!(brightness_payload(0), b"0");
    assert_eq!(brightness_payload(7), b"7");
    assert_eq!(brightness_payload(10), b"10");
    assert_eq!(brightness_payload(42), b"42");
    assert_eq!(brightness_payload(100), b"100");
    assert_eq!(brightness_payload(128), b"128");
    assert_eq!(brightness_payload(255), b"255");
}
