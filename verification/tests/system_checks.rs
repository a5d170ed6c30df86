use admin_portal::system::{
    check_is_root, drops_record, effective_uid, gdk_handle, gdk_level_label, gdk_log_line,
    is_cursor_noise, LogField,
};

const STATUS_USER: &str = "Name:\tadmin-portal\nUmask:\t0022\nState:\tS (sleeping)\nUid:\t1000\t1001\t1000\t1000\nGid:\t1000\t1000\t1000\t1000\n";
const STATUS_ROOT: &str = "Name:\tx\r\nUid:\t0\t0\t0\t0\r\nGid:\t0\t0\t0\t0\r\n";

#[test]
fn effective_uid_is_the_third_field_of_the_uid_line() {
    assert_eq!(effective_uid(Some(STATUS_USER)), 1001);
    assert_eq!(effective_uid(Some(STATUS_ROOT)), 0);
    assert_eq!(effective_uid(None), 1000);
    assert_eq!(effective_uid(Some("")), 1000);
    assert_eq!(effective_uid(Some("Uid:\t5\n")), 1000);
    assert_eq!(effective_uid(Some("Uid:\t5\tx\t5\n")), 1000);
    assert_eq!(effective_uid(Some("Uid:\t5\tx\nUid:\t0\t0\t0\n")), 1000);
    assert_eq!(effective_uid(Some("XUid:\t0\t0\t0\nUid:\t2\t3\t4")), 3);
}

#[test]
fn root_is_effective_uid_zero() {
    assert!(check_is_root(Some(STATUS_ROOT)));
    assert!(!check_is_root(Some(STATUS_USER)));
    assert!(!check_is_root(None));
}

#[test]
fn cursor_noise_is_recognised() {
    assert!(is_cursor_noise("Unable to load sb_h_double_arrow from the cursor theme"));
    assert!(is_cursor_noise("Cursor size is not an integer multiple of scale"));
    assert!(!is_cursor_noise("Failed to create EGL context"));
    assert!(!is_cursor_noise(""));
}

#[test]
fn gdk_messages_are_labelled_or_dropped() {
    assert_eq!(gdk_level_label(1 << 4), "WARNING");
    assert_eq!(gdk_level_label((1 << 5) | (1 << 4)), "WARNING");
    assert_eq!(gdk_level_label(1 << 5), "Message");
    assert_eq!(gdk_level_label(1 << 6), "Info");
    assert_eq!(gdk_log_line(1 << 5, "hello"), "Gdk-Message: hello");
    assert_eq!(gdk_handle(1 << 4, "bad thing"), Some("Gdk-WARNING: bad thing".to_string()));
    assert_eq!(gdk_handle(1 << 4, "Unable to load cursor"), None);
}

fn field(k: Option<&str>, v: Option<&str>) -> LogField {
    LogField { key: k.map(|s| s.to_string()), value: v.map(|s| s.to_string()) }
}

#[test]
fn structured_records_are_dropped_only_for_cursor_messages() {
    assert!(drops_record(&vec![
        field(Some("GLIB_DOMAIN"), Some("Gdk")),
        field(Some("MESSAGE"), Some("Unable to load left_ptr")),
    ]));
    assert!(!drops_record(&vec![field(Some("MESSAGE"), Some("real warning"))]));
    assert!(!drops_record(&vec![field(Some("PRIORITY"), Some("4"))]));
    assert!(!drops_record(&vec![]));
    // A field with a missing value is skipped; only the first message counts.
    assert!(drops_record(&vec![
        field(Some("MESSAGE"), None),
        field(Some("MESSAGE"), Some("cursor theme")),
        field(Some("MESSAGE"), Some("other")),
    ]));
    assert!(!drops_record(&vec![
        field(Some("MESSAGE"), Some("other")),
        field(Some("MESSAGE"), Some("cursor theme")),
    ]));
}
