use fnlock::error::Error;
use fnlock::error::ErrorKind;
use fnlock::text::hex4;
use fnlock::text::push_hex4;
use fnlock::text::trim;

#[test]
fn trim_drops_whitespace_at_both_ends() {
    assert_eq!(trim("  Keyboard K380 \t\n"), "Keyboard K380");
}

#[test]
fn trim_keeps_whitespace_inside() {
    assert_eq!(trim(" a  b "), "a  b");
}

#[test]
fn trim_leaves_trimmed_text_alone() {
    assert_eq!(trim("Mouse"), "Mouse");
    assert_eq!(trim(trim("  Mouse  ")), trim("  Mouse  "));
}

#[test]
fn trim_of_whitespace_is_empty() {
    assert_eq!(trim(" \t \n"), "");
    assert_eq!(trim(""), "");
}

#[test]
fn trim_knows_whitespace_beyond_ascii() {
    assert_eq!(trim("\u{a0}\u{3000}K380\u{2003}"), "K380");
}

#[test]
fn trim_counts_characters_not_bytes() {
    assert_eq!(trim(" Tastatur für Köln "), "Tastatur für Köln");
    assert_eq!(trim("é "), "é");
}

#[test]
fn trim_agrees_with_std() {
    for text in ["", " ", "a", " a", "a ", "  a b  ", "\n\ta\u{a0}", "\u{200b} x"] {
        assert_eq!(trim(text), text.trim());
    }
}

#[test]
fn hex4_pads_with_zeros() {
    assert_eq!(hex4(0x0001, false), "0001");
    assert_eq!(hex4(0, true), "0000");
    assert_eq!(hex4(0x046d, false), "046d");
}

#[test]
fn hex4_upper_and_lower_case() {
    assert_eq!(hex4(0xb342, false), "b342");
    assert_eq!(hex4(0xb342, true), "B342");
    assert_eq!(hex4(0xff00, true), "FF00");
    assert_eq!(hex4(0xffff, false), "ffff");
    assert_eq!(hex4(0xabcd, true), "ABCD");
    assert_eq!(hex4(0x9aef, false), "9aef");
}

#[test]
fn hex4_agrees_with_std_formatting() {
    for value in [0u16, 1, 9, 10, 15, 16, 255, 256, 0x1234, 0xb342, 0xfffe, 0xffff] {
        assert_eq!(hex4(value, false), format!("{:04x}", value));
        assert_eq!(hex4(value, true), format!("{:04X}", value));
    }
}

#[test]
fn push_hex4_appends() {
    let mut out = String::from("id=");
    push_hex4(&mut out, 0x00ff, true);
    assert_eq!(out, "id=00FF");
}

#[test]
fn error_kind_names() {
    assert_eq!(ErrorKind::BackendUnavailable.name(), "BackendUnavailable");
    assert_eq!(ErrorKind::OpenFailed.name(), "OpenFailed");
    assert_eq!(ErrorKind::WriteFailed.name(), "WriteFailed");
    assert_eq!(ErrorKind::NoTargetFound.name(), "NoTargetFound");
}

#[test]
fn error_describes_kind_and_detail() {
    let error = Error::new(ErrorKind::BackendUnavailable, "Failed to initialize hidapi");
    assert_eq!(error.kind, ErrorKind::BackendUnavailable);
    assert_eq!(error.detail, "Failed to initialize hidapi");
    assert_eq!(error.describe(), "BackendUnavailable: Failed to initialize hidapi");
}

#[test]
fn error_without_detail_describes_kind_alone() {
    let error = Error::new(ErrorKind::NoTargetFound, "");
    assert_eq!(error.describe(), "NoTargetFound");
}

#[test]
fn error_clone_keeps_kind_and_detail() {
    let error = Error::new(ErrorKind::WriteFailed, "device detached");
    let copy = error.clone();
    assert_eq!(copy.kind, ErrorKind::WriteFailed);
    assert_eq!(copy.detail, "device detached");
}
