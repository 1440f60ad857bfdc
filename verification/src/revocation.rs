//! The revocation query.
//!
//! A query is answered in three steps. `prepare_check` decides everything
//! that comes before the engine's check: it rejects null pointers, copies the
//! inputs into a query and loads the manifest. The caller then puts the query
//! to the engine, which is the one step that this crate does not make (see
//! `engine`). `check_code` decides what is reported for the outcome.
use vstd::prelude::*;
use vstd::slice::slice_to_vec;

use crate::config::upki_config;
use crate::decode::require_non_null;
use crate::status::{may_report, upki_result, EntryPoint};

verus! {

/// A certificate transparency timestamp.
#[derive(Clone, Copy, Debug, PartialEq, Eq)]
pub struct upki_ct_timestamp {
    /// CT log ID (32 bytes).
    pub log_id: [u8; 32],
    /// Issuance timestamp.
    pub timestamp: u64,
}

/// The input of one revocation query, in storage of its own: nothing in it
/// refers to the caller's memory.
#[derive(Debug)]
pub struct RevocationQuery {
    /// Big-endian bytes of the certificate's serial number.
    pub serial: Vec<u8>,
    /// SHA256 hash of the issuer's `SubjectPublicKeyInfo`.
    pub issuer_spki_hash: [u8; 32],
    /// CT log IDs and issuance timestamps of the certificate, in the caller's order.
    pub sct_timestamps: Vec<upki_ct_timestamp>,
}

/// What the engine answers to a query that it could complete.
#[derive(Clone, Copy, Debug, PartialEq, Eq, Structural)]
pub enum RevocationAnswer {
    /// The revocation data does not cover the certificate.
    NotCovered,
    /// The revocation data says that the certificate is revoked.
    Revoked,
    /// The revocation data covers the certificate and does not say that it is revoked.
    NotRevoked,
}

/// The result code that stands for an answer of the engine.
pub open spec fn spec_answer_code(answer: RevocationAnswer) -> upki_result {
    match answer {
        RevocationAnswer::NotCovered => upki_result::UPKI_REVOCATION_NOT_COVERED,
        RevocationAnswer::Revoked => upki_result::UPKI_REVOCATION_REVOKED,
        RevocationAnswer::NotRevoked => upki_result::UPKI_REVOCATION_NOT_REVOKED,
    }
}

/// The result code that stands for what the engine made of a check: its
/// answer, or `UPKI_ERR_REVOCATION_CHECK` where it gave none.
pub open spec fn spec_check_code(
    checked: Result<RevocationAnswer, upki::revocation::Error>,
) -> upki_result {
    match checked {
        Ok(answer) => spec_answer_code(answer),
        Err(_) => upki_result::UPKI_ERR_REVOCATION_CHECK,
    }
}

/// Copies the caller's serial, issuer hash and timestamps into a query.
pub fn assemble_query(
    serial: &[u8],
    issuer_spki_hash: &[u8; 32],
    ct_timestamps: &[upki_ct_timestamp],
) -> (query: RevocationQuery)
    ensures
        query.serial@ == serial@,
        query.issuer_spki_hash == *issuer_spki_hash,
        query.sct_timestamps@ == ct_timestamps@,
{
    RevocationQuery {
        serial: slice_to_vec(serial),
        issuer_spki_hash: *issuer_spki_hash,
        sct_timestamps: slice_to_vec(ct_timestamps),
    }
}

/// Projects an answer of the engine onto the result codes.
pub fn answer_code(answer: RevocationAnswer) -> (r: upki_result)
    ensures
        r == spec_answer_code(answer),
        r.spec_is_revocation_status(),
    no_unwind
{
    match answer {
        RevocationAnswer::NotCovered => upki_result::UPKI_REVOCATION_NOT_COVERED,
        RevocationAnswer::Revoked => upki_result::UPKI_REVOCATION_REVOKED,
        RevocationAnswer::NotRevoked => upki_result::UPKI_REVOCATION_NOT_REVOKED,
    }
}

/// Projects what the engine made of a check onto the result codes: an answer
/// onto its revocation status, a failure onto `UPKI_ERR_REVOCATION_CHECK`,
/// whatever the failure was. This is what a query reports once it was put to
/// the engine, and finding it does not unwind.
pub fn check_code(checked: Result<RevocationAnswer, upki::revocation::Error>) -> (r: upki_result)
    ensures
        r == spec_check_code(checked),
        checked is Ok <==> r.spec_is_revocation_status(),
        may_report(EntryPoint::CheckRevocation, r),
    no_unwind
{
    match checked {
        Ok(answer) => answer_code(answer),
        Err(_) => upki_result::UPKI_ERR_REVOCATION_CHECK,
    }
}

/// A query that is ready for the engine's check: the handle that it was made
/// for, the manifest that the engine loaded for that handle, and the copy of
/// the caller's inputs.
#[derive(Debug)]
pub struct PreparedCheck<'a> {
    /// The configuration handle of the query.
    pub config: &'a upki_config,
    /// The manifest that the engine loaded for the handle's configuration.
    pub manifest: upki::revocation::Manifest,
    /// The caller's serial, issuer hash and timestamps, in storage of their own.
    pub query: RevocationQuery,
}

/// Prepares the check of a certificate's revocation status.
///
/// All four pointers are required, `ct_timestamps` also where the list is
/// empty: a null one is reported as `UPKI_ERR_NULL_POINTER`, before anything
/// else is done. The inputs are then copied into a query, and the manifest is
/// loaded from the handle's configuration; where the engine loads none, that
/// is reported as `UPKI_ERR_MANIFEST`. What comes back otherwise is what the
/// engine's check is to be called with: the handle, the manifest, and a query
/// that holds the caller's inputs, all of them and in their order.
pub fn prepare_check<'a>(
    config: Option<&'a upki_config>,
    serial: Option<&[u8]>,
    issuer_spki_hash: Option<&[u8; 32]>,
    ct_timestamps: Option<&[upki_ct_timestamp]>,
) -> (r: Result<PreparedCheck<'a>, upki_result>)
    ensures
        (config is None || serial is None || issuer_spki_hash is None || ct_timestamps is None)
            <==> (r matches Err(code) && code == upki_result::UPKI_ERR_NULL_POINTER),
        r matches Err(code) ==> (code == upki_result::UPKI_ERR_NULL_POINTER || code
            == upki_result::UPKI_ERR_MANIFEST) && may_report(EntryPoint::CheckRevocation, code),
        r matches Ok(ready) ==> {
            &&& config matches Some(handle) && ready.config == handle
            &&& serial matches Some(bytes) && ready.query.serial@ == bytes@
            &&& issuer_spki_hash matches Some(hash) && ready.query.issuer_spki_hash == *hash
            &&& ct_timestamps matches Some(timestamps) && ready.query.sct_timestamps@
                == timestamps@
        },
{
    let config = match require_non_null(config) {
        Ok(config) => config,
        Err(code) => return Err(code),
    };
    let serial = match require_non_null(serial) {
        Ok(serial) => serial,
        Err(code) => return Err(code),
    };
    let issuer_spki_hash = match require_non_null(issuer_spki_hash) {
        Ok(hash) => hash,
        Err(code) => return Err(code),
    };
    let ct_timestamps = match require_non_null(ct_timestamps) {
        Ok(timestamps) => timestamps,
        Err(code) => return Err(code),
    };
    let query = assemble_query(serial, issuer_spki_hash, ct_timestamps);
    match upki::revocation::Manifest::from_config(config.config()) {
        Ok(manifest) => Ok(PreparedCheck { config, manifest, query }),
        Err(_) => Err(upki_result::UPKI_ERR_MANIFEST),
    }
}

} // verus!
