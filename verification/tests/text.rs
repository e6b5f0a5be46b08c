use dingtalk_wayland_screenshare::text::{contains_text, decimal, lower_hex, same_text};

#[test]
fn numbers_in_digits() {
    for n in [0u64, 7, 10, 199, 4096, u64::MAX] {
        assert_eq!(decimal(n), format!("{}", n));
    }
    for n in [0u128, 9, 10, 15, 16, 255, 0xdead_beef, u128::MAX] {
        assert_eq!(lower_hex(n), format!("{:x}", n));
    }
}

#[test]
fn different_numbers_have_different_digits() {
    assert_ne!(lower_hex(16), lower_hex(1));
    assert_ne!(decimal(10), decimal(1));
}

#[test]
fn texts_within_texts() {
    assert!(contains_text("/opt/lib/libmeeting_sdk.so.1", "libmeeting_sdk.so"));
    assert!(contains_text("abc", ""));
    assert!(contains_text("aab", "ab"));
    assert!(!contains_text("ab", "abc"));
    assert!(!contains_text("", "a"));
    assert!(contains_text("\u{4e2d}\u{6587}x", "\u{6587}"));
}

#[test]
fn same_texts() {
    assert!(same_text("tblive", "tblive"));
    assert!(!same_text("tblive", "tblivf"));
    assert!(!same_text("tblive", "tbliv"));
    assert!(same_text("", ""));
}
