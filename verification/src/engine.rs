//! The revocation engine, as far as this layer relies on it.
//!
//! Nothing in this file is proved. It holds the declarations of the engine's
//! types and the calls into the engine; each doc comment says what is claimed
//! of the engine and what is left open. What the engine answers depends on the
//! process's environment and on the files of its cache, so no call promises an
//! outcome: the rest of the crate is proved for every answer.
//!
//! The engine's check itself, `upki::revocation::Manifest::check`, is not
//! called from this crate. It indexes into the filter that it read from disk,
//! and a filter file that decodes but does not agree with itself makes it
//! panic. No argument of the call decides that, so no precondition can rule
//! it out: the call is made at the C boundary, which can stop an unwind, from
//! what `revocation::prepare_check` hands over, and its outcome comes back to
//! `revocation::check_code`.
use vstd::prelude::*;

verus! {

/// `upki::Config`, the engine's configuration. Its contents are not visible
/// to this layer, which only carries values of it.
#[verifier::external_type_specification]
#[verifier::external_body]
pub struct ExConfig(upki::Config);

/// `upki::Error`, the engine's reason for not producing a configuration.
/// This layer never looks inside it.
#[verifier::external_type_specification]
#[verifier::external_body]
pub struct ExConfigError(upki::Error);

/// `upki::revocation::Error`, the engine's reason for not producing a
/// manifest or an answer. This layer never looks inside it.
#[verifier::external_type_specification]
#[verifier::external_body]
pub struct ExRevocationError(upki::revocation::Error);

/// `upki::revocation::Manifest`, the revocation data that the engine loads
/// for a configuration. This layer only carries it to the engine's check.
#[verifier::external_type_specification]
#[verifier::external_body]
pub struct ExManifest(upki::revocation::Manifest);

/// `upki::Config::try_default`: asks the engine for a configuration built
/// from the platform's default directories. The outcome depends on the
/// environment of the process, so nothing is claimed of it.
pub assume_specification[ upki::Config::try_default ]() -> (loaded: Result<
    upki::Config,
    upki::Error,
>)
;

/// `upki::revocation::Manifest::from_config`: loads the manifest from the
/// cache directory that the configuration names. The outcome depends on what
/// is on disk, so nothing is claimed of it.
pub assume_specification[ upki::revocation::Manifest::from_config ](
    config: &upki::Config,
) -> (loaded: Result<upki::revocation::Manifest, upki::revocation::Error>)
;

/// `upki::Config::from_file`, on the path that `path` spells: reads and
/// parses the configuration file. The outcome depends on what is on disk, so
/// nothing is claimed of it.
#[verifier::external_body]
pub(crate) fn config_from_path(path: &str) -> (loaded: Result<upki::Config, upki::Error>) {
    upki::Config::from_file(std::path::Path::new(path))
}

} // verus!
