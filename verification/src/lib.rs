//! A flat, C-shaped interface in front of the `upki` revocation engine.
//!
//! Every operation reports its outcome as one [`upki_result`] code. Pointer
//! arguments of the C surface are modelled as `Option`s: `None` stands for a
//! null pointer, `Some` for a pointer to the value it holds.
#![allow(non_camel_case_types)]

pub mod config;
pub mod decode;
pub mod engine;
pub mod revocation;
pub mod status;

pub use config::{upki_config, upki_config_free, upki_config_from_file, upki_config_new};
pub use revocation::{check_code, prepare_check, upki_ct_timestamp};
pub use status::upki_result;
