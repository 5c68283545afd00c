use steamworks::text::{
    buffer_text, c_str_len, c_string, is_c_compatible, native_text, SteamParamStringArray,
};
use steamworks::warning::WarningHook;

#[test]
fn param_string_array_owns_each_string() {
    let arr = SteamParamStringArray::new(&["a", "b", "c"]);
    assert_eq!(arr.len(), 3);
    assert_eq!(arr.get(0), b"a\0");
    assert_eq!(arr.get(1), b"b\0");
    assert_eq!(arr.get(2), b"c\0");
    let raw = arr.as_raw();
    assert_eq!(raw.num_strings, 3);
    let p0 = raw.strings[0].as_ptr();
    let p1 = raw.strings[1].as_ptr();
    let p2 = raw.strings[2].as_ptr();
    assert!(p0 != p1 && p1 != p2 && p0 != p2);
    drop(arr);
}

#[test]
fn param_string_array_empty() {
    let arr = SteamParamStringArray::new(&[]);
    assert_eq!(arr.len(), 0);
    assert_eq!(arr.as_raw().num_strings, 0);
}

#[test]
fn c_string_appends_terminator() {
    assert_eq!(c_string("héllo"), "héllo\0".as_bytes().to_vec());
    assert_eq!(c_string(""), vec![0u8]);
}

#[test]
fn embedded_nul_is_not_c_compatible() {
    assert!(!is_c_compatible("a\0b"));
    assert!(is_c_compatible("ab"));
    assert!(is_c_compatible(""));
}

#[test]
fn native_text_stops_at_nul() {
    assert_eq!(c_str_len(b"US\0junk"), 2);
    assert_eq!(native_text(b"US\0junk"), "US");
    assert_eq!(native_text(b"english"), "english");
    assert_eq!(native_text(b"\0"), "");
}

#[test]
fn buffer_text_replaces_invalid_bytes() {
    assert_eq!(buffer_text(&[0xc3, 0xa9]), "é");
    assert_eq!(buffer_text(&[0xff, b'x']), "\u{fffd}x");
}

#[test]
fn replaced_warning_handler_is_not_called() {
    let mut hook = WarningHook::new();
    assert_eq!(hook.handler(), None);
    hook.set(1);
    hook.set(2);
    assert_eq!(hook.handler(), Some(2));
}
