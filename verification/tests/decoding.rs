use upki_ffi::decode::{c_str_len, decode_c_str, require_non_null};
use upki_ffi::upki_result;

#[test]
fn null_pointer_is_rejected() {
    let missing: Option<&[u8]> = None;
    assert_eq!(
        require_non_null(missing),
        Err(upki_result::UPKI_ERR_NULL_POINTER)
    );
}

#[test]
fn present_pointer_is_handed_on() {
    let bytes: [u8; 3] = [1, 2, 3];
    assert_eq!(require_non_null(Some(&bytes[..])), Ok(&bytes[..]));
}

#[test]
fn empty_region_with_a_pointer_is_valid() {
    let empty: [u8; 0] = [];
    assert_eq!(require_non_null(Some(&empty[..])), Ok(&empty[..]));
}

#[test]
fn c_string_ends_at_first_nul() {
    assert_eq!(c_str_len(b"abc\0"), 3);
    assert_eq!(c_str_len(b"ab\0cd\0"), 2);
    assert_eq!(c_str_len(b"\0"), 0);
    assert_eq!(c_str_len(b"\0abc"), 0);
}

#[test]
fn c_string_without_nul_ends_with_its_buffer() {
    assert_eq!(c_str_len(b"abc"), 3);
    assert_eq!(c_str_len(b""), 0);
}

#[test]
fn utf8_path_decodes_to_its_text() {
    assert_eq!(decode_c_str(b"/etc/upki/config.toml\0"), Ok("/etc/upki/config.toml"));
    assert_eq!(decode_c_str("caf\u{e9}/\u{4e2d}\0".as_bytes()), Ok("caf\u{e9}/\u{4e2d}"));
    assert_eq!(decode_c_str(b"\0"), Ok(""));
    assert_eq!(decode_c_str(b"no terminator"), Ok("no terminator"));
}

#[test]
fn bytes_after_the_terminator_are_not_read() {
    assert_eq!(decode_c_str(&[b'a', 0x00, 0xFF, 0xFE]), Ok("a"));
}

#[test]
fn non_utf8_path_is_a_config_path_error() {
    assert_eq!(
        decode_c_str(&[0xFF, 0x00]),
        Err(upki_result::UPKI_ERR_CONFIG_PATH)
    );
    assert_eq!(
        decode_c_str(&[b'a', 0xC3, 0x00]),
        Err(upki_result::UPKI_ERR_CONFIG_PATH)
    );
    assert_eq!(
        decode_c_str(&[0xED, 0xA0, 0x80, 0x00]),
        Err(upki_result::UPKI_ERR_CONFIG_PATH)
    );
}
