//! The configuration handle and its lifecycle.
//!
//! A handle owns one configuration of the engine, in one heap allocation.
//! The caller of the C surface holds a pointer to it: here an
//! `Option<Box<upki_config>>`, `None` for the null pointer. The out-parameter
//! of a constructor is a pointer to the storage of such a pointer, so it is an
//! `Option<&mut Option<Box<upki_config>>>`.
use vstd::prelude::*;
use vstd::utf8::valid_utf8;

use crate::decode::{c_str_text, decode_c_str, require_non_null};
use crate::engine::config_from_path;
use crate::status::{may_report, upki_result, EntryPoint};

verus! {

/// Opaque type representing a `upki::Config`.
#[derive(Debug)]
pub struct upki_config(upki::Config);

impl upki_config {
    /// The engine configuration that the handle owns.
    pub closed spec fn engine_config(self) -> upki::Config {
        self.0
    }

    /// The engine configuration that the handle owns.
    pub fn config(&self) -> (config: &upki::Config)
        ensures
            *config == self.engine_config(),
    {
        &self.0
    }
}

/// Ends a constructor with what the engine made of it: a configuration is
/// moved into a fresh handle, whose pointer is written through `out`, and
/// reported as `UPKI_OK`; a failure of the engine is reported as `failure`,
/// and `out` is not written.
pub fn deliver_config(
    loaded: Result<upki::Config, upki::Error>,
    failure: upki_result,
    out: &mut Option<Box<upki_config>>,
) -> (r: upki_result)
    ensures
        loaded matches Ok(config) ==> r == upki_result::UPKI_OK && (*final(out) matches Some(handle)
            && handle.engine_config() == config),
        loaded is Err ==> r == failure && *final(out) == *old(out),
{
    match loaded {
        Ok(config) => {
            *out = Some(Box::new(upki_config(config)));
            upki_result::UPKI_OK
        },
        Err(_) => failure,
    }
}

/// Create a new `upki_config` with default settings.
///
/// On success, writes the config pointer to `out` and returns `UPKI_OK`.
/// The caller is responsible for freeing the config with `upki_config_free`.
///
/// A null `out` is reported as `UPKI_ERR_NULL_POINTER`, before the engine is
/// asked; an engine that cannot determine the platform's directories as
/// `UPKI_ERR_PLATFORM`. Unless `UPKI_OK` is returned, `out` is not written.
pub fn upki_config_new(out: Option<&mut Option<Box<upki_config>>>) -> (r: upki_result)
    ensures
        out is None <==> r == upki_result::UPKI_ERR_NULL_POINTER,
        out matches Some(slot) ==> {
            ||| r == upki_result::UPKI_OK && *final(slot) is Some
            ||| r == upki_result::UPKI_ERR_PLATFORM && *final(slot) == *slot
        },
        may_report(EntryPoint::ConfigNew, r),
{
    let slot = match require_non_null(out) {
        Ok(slot) => slot,
        Err(code) => return code,
    };
    deliver_config(upki::Config::try_default(), upki_result::UPKI_ERR_PLATFORM, slot)
}

/// Create a new `upki_config` by loading it from the file at `path`.
///
/// `path` points to the bytes of a C string: the path is its text, up to the
/// first NUL. On success, writes the config pointer to `out` and returns
/// `UPKI_OK`. The caller is responsible for freeing the config with
/// `upki_config_free`.
///
/// Failures, in this order: a null `path` or `out` is reported as
/// `UPKI_ERR_NULL_POINTER`; a path that is not UTF-8 as
/// `UPKI_ERR_CONFIG_PATH`, before the engine is asked; a file that the
/// engine cannot load as `UPKI_ERR_CONFIG_FILE`. Unless `UPKI_OK` is
/// returned, `out` is not written.
pub fn upki_config_from_file(path: Option<&[u8]>, out: Option<&mut Option<Box<upki_config>>>) -> (r:
    upki_result)
    ensures
        (path is None || out is None) <==> r == upki_result::UPKI_ERR_NULL_POINTER,
        (path matches Some(buf) && out is Some && !valid_utf8(c_str_text(buf@))) <==> r
            == upki_result::UPKI_ERR_CONFIG_PATH,
        out matches Some(slot) ==> {
            ||| r == upki_result::UPKI_OK && *final(slot) is Some
            ||| r != upki_result::UPKI_OK && *final(slot) == *slot
        },
        may_report(EntryPoint::ConfigFromFile, r),
{
    let buf = match require_non_null(path) {
        Ok(buf) => buf,
        Err(code) => return code,
    };
    let slot = match require_non_null(out) {
        Ok(slot) => slot,
        Err(code) => return code,
    };
    let text = match decode_c_str(buf) {
        Ok(text) => text,
        Err(code) => return code,
    };
    deliver_config(config_from_path(text), upki_result::UPKI_ERR_CONFIG_FILE, slot)
}

/// Free a `upki_config` created by `upki_config_new` or
/// `upki_config_from_file`.
///
/// The handle and the engine configuration that it owns are released. A null
/// pointer is accepted, and nothing is done for it. Releasing does not
/// unwind: the engine gives its configuration no destructor of its own.
pub fn upki_config_free(config: Option<Box<upki_config>>)
    no_unwind
{
    if let Some(handle) = config {
        // The handle is owned here and by nothing else: it ends with this
        // block, and its allocation and configuration with it.
        let _ = handle;
    }
}

} // verus!
