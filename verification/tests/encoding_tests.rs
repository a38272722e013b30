use base64::Engine;
use cfwgen::encoding::{escape_json, str_eq, to_std_base64, to_url_base64};

#[test]
fn converts_url_safe_to_standard() {
    assert_eq!(to_std_base64("ab-_"), "ab+/=");
}

#[test]
fn conversion_appends_exactly_one_padding_char() {
    assert_eq!(to_std_base64(""), "=");
    assert_eq!(to_std_base64("QUJD"), "QUJD=");
}

#[test]
fn round_trip_reproduces_host_export_value() {
    // A realistic 43-character URL-safe unpadded export of a 32-byte value.
    let exported = "HcRk2NDnlHwpPLgREHoSvjA-nhOadmPRlwlOtvYT-30";
    let standard = to_std_base64(exported);
    assert_eq!(to_url_base64(&standard), Some(exported.to_string()));
}

#[test]
fn round_trip_on_value_with_both_swapped_chars() {
    let exported = "a-b_c";
    let standard = to_std_base64(exported);
    assert_eq!(standard, "a+b/c=");
    assert_eq!(to_url_base64(&standard), Some(exported.to_string()));
}

#[test]
fn reverse_rejects_value_without_padding() {
    assert_eq!(to_url_base64(""), None);
    assert_eq!(to_url_base64("abc"), None);
}

#[test]
fn converted_value_decodes_as_standard_base64() {
    // The converted value must mean the same bytes to a standard padded
    // decoder as the original does to a URL-safe unpadded one.
    let exported = "HcRk2NDnlHwpPLgREHoSvjA-nhOadmPRlwlOtvYT-30";
    let via_url = base64::engine::general_purpose::URL_SAFE_NO_PAD
        .decode(exported)
        .expect("URL-safe decode");
    let via_std = base64::engine::general_purpose::STANDARD
        .decode(to_std_base64(exported))
        .expect("standard decode");
    assert_eq!(via_url, via_std);
    assert_eq!(via_url.len(), 32);
}

#[test]
fn escapes_quotes_backslashes_and_controls() {
    assert_eq!(escape_json("plain"), "plain");
    assert_eq!(escape_json("a\"b"), "a\\\"b");
    assert_eq!(escape_json("a\\b"), "a\\\\b");
    assert_eq!(escape_json("a\nb"), "a\\u000ab");
    assert_eq!(escape_json("\u{1f}"), "\\u001f");
}

#[test]
fn str_eq_decides_equality() {
    assert!(str_eq("", ""));
    assert!(str_eq("same", "same"));
    assert!(!str_eq("same", "Same"));
    assert!(!str_eq("short", "shorter"));
}
