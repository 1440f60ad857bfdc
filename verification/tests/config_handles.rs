use std::io::Write;

use upki_ffi::config::deliver_config;
use upki_ffi::{upki_config, upki_config_free, upki_config_from_file, upki_config_new, upki_result};

fn c_path(path: &std::path::Path) -> Vec<u8> {
    let mut bytes = path.to_str().unwrap().as_bytes().to_vec();
    bytes.push(0);
    bytes
}

fn write_config(dir: &tempfile::TempDir, cache_dir: &str) -> Vec<u8> {
    let path = dir.path().join("config.toml");
    let mut file = tempfile::NamedTempFile::new_in(dir.path()).unwrap();
    let text = format!(
        "cache-dir = \"{cache_dir}\"\n\n[revocation]\nfetch-url = \"https://upki.example/\"\n"
    );
    file.write_all(text.as_bytes()).unwrap();
    file.persist(&path).unwrap();
    c_path(&path)
}

fn shown(slot: &Option<Box<upki_config>>) -> String {
    format!("{slot:?}")
}

#[test]
fn default_config_roundtrip() {
    let mut slot: Option<Box<upki_config>> = None;
    let r = upki_config_new(Some(&mut slot));
    assert_eq!(r, upki_result::UPKI_OK);
    assert!(slot.is_some());
    upki_config_free(slot);
    upki_config_free(None);
    upki_config_free(None);
}

#[test]
fn null_out_for_default_config() {
    assert_eq!(upki_config_new(None), upki_result::UPKI_ERR_NULL_POINTER);
}

#[test]
fn bad_path() {
    let mut slot: Option<Box<upki_config>> = None;
    let r = upki_config_from_file(Some(&[0xFF, 0x00]), Some(&mut slot));
    assert_eq!(r, upki_result::UPKI_ERR_CONFIG_PATH);
    assert!(slot.is_none());
}

#[test]
fn bad_path_leaves_a_held_handle_in_place() {
    let dir = tempfile::tempdir().unwrap();
    let path = write_config(&dir, "/sentinel/cache");
    let mut slot: Option<Box<upki_config>> = None;
    assert_eq!(
        upki_config_from_file(Some(&path), Some(&mut slot)),
        upki_result::UPKI_OK
    );
    let before = shown(&slot);
    assert!(before.contains("/sentinel/cache"));

    let r = upki_config_from_file(Some(&[0xFF, 0x00]), Some(&mut slot));
    assert_eq!(r, upki_result::UPKI_ERR_CONFIG_PATH);
    assert_eq!(shown(&slot), before);
    upki_config_free(slot);
}

#[test]
fn missing_file() {
    let dir = tempfile::tempdir().unwrap();
    let path = c_path(&dir.path().join("absent.toml"));
    let mut slot: Option<Box<upki_config>> = None;
    let r = upki_config_from_file(Some(&path), Some(&mut slot));
    assert_eq!(r, upki_result::UPKI_ERR_CONFIG_FILE);
    assert!(slot.is_none());
}

#[test]
fn malformed_file_is_a_config_file_error() {
    let dir = tempfile::tempdir().unwrap();
    let path = dir.path().join("config.toml");
    let mut file = tempfile::NamedTempFile::new_in(dir.path()).unwrap();
    file.write_all(b"cache_dir = 3\n").unwrap();
    file.persist(&path).unwrap();
    let mut slot: Option<Box<upki_config>> = None;
    let r = upki_config_from_file(Some(&c_path(&path)), Some(&mut slot));
    assert_eq!(r, upki_result::UPKI_ERR_CONFIG_FILE);
    assert!(slot.is_none());
}

#[test]
fn config_from_file_roundtrip() {
    let dir = tempfile::tempdir().unwrap();
    let path = write_config(&dir, "/var/cache/upki-first");
    let mut slot: Option<Box<upki_config>> = None;
    let r = upki_config_from_file(Some(&path), Some(&mut slot));
    assert_eq!(r, upki_result::UPKI_OK);
    assert!(shown(&slot).contains("/var/cache/upki-first"));
    upki_config_free(slot);
}

#[test]
fn path_is_read_up_to_its_terminator() {
    let dir = tempfile::tempdir().unwrap();
    let mut path = write_config(&dir, "/var/cache/upki");
    path.extend_from_slice(&[0xFF, b'x', 0x00]);
    let mut slot: Option<Box<upki_config>> = None;
    let r = upki_config_from_file(Some(&path), Some(&mut slot));
    assert_eq!(r, upki_result::UPKI_OK);
    assert!(slot.is_some());
}

#[test]
fn failed_load_leaves_a_held_handle_in_place() {
    let dir = tempfile::tempdir().unwrap();
    let path = write_config(&dir, "/kept/cache");
    let mut slot: Option<Box<upki_config>> = None;
    assert_eq!(
        upki_config_from_file(Some(&path), Some(&mut slot)),
        upki_result::UPKI_OK
    );
    let before = shown(&slot);

    let absent = c_path(&dir.path().join("absent.toml"));
    let r = upki_config_from_file(Some(&absent), Some(&mut slot));
    assert_eq!(r, upki_result::UPKI_ERR_CONFIG_FILE);
    assert_eq!(shown(&slot), before);
}

#[test]
fn null_path_or_out_for_config_file() {
    let dir = tempfile::tempdir().unwrap();
    let path = write_config(&dir, "/var/cache/upki");
    let mut slot: Option<Box<upki_config>> = None;
    assert_eq!(
        upki_config_from_file(None, Some(&mut slot)),
        upki_result::UPKI_ERR_NULL_POINTER
    );
    assert!(slot.is_none());
    assert_eq!(
        upki_config_from_file(Some(&path), None),
        upki_result::UPKI_ERR_NULL_POINTER
    );
    assert_eq!(
        upki_config_from_file(None, None),
        upki_result::UPKI_ERR_NULL_POINTER
    );
}

#[test]
fn null_pointer_comes_before_a_bad_path() {
    assert_eq!(
        upki_config_from_file(Some(&[0xFF, 0x00]), None),
        upki_result::UPKI_ERR_NULL_POINTER
    );
}

#[test]
fn delivered_config_fills_the_slot() {
    let dir = tempfile::tempdir().unwrap();
    let path = write_config(&dir, "/delivered/cache");
    let text = std::str::from_utf8(&path[..path.len() - 1]).unwrap();
    let config = upki::Config::from_file(std::path::Path::new(text)).unwrap();
    let mut slot: Option<Box<upki_config>> = None;
    let r = deliver_config(Ok(config), upki_result::UPKI_ERR_CONFIG_FILE, &mut slot);
    assert_eq!(r, upki_result::UPKI_OK);
    assert!(shown(&slot).contains("/delivered/cache"));
}

#[test]
fn engine_failure_is_delivered_as_the_given_code() {
    let mut slot: Option<Box<upki_config>> = None;
    let r = deliver_config(
        Err(upki::Error::NoCacheDirectoryFound),
        upki_result::UPKI_ERR_PLATFORM,
        &mut slot,
    );
    assert_eq!(r, upki_result::UPKI_ERR_PLATFORM);
    assert!(slot.is_none());
    let r = deliver_config(
        Err(upki::Error::NoValidHomeDirectory),
        upki_result::UPKI_ERR_CONFIG_FILE,
        &mut slot,
    );
    assert_eq!(r, upki_result::UPKI_ERR_CONFIG_FILE);
    assert!(slot.is_none());
}
