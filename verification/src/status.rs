//! The result codes shared by every operation, and their two bands.
use vstd::prelude::*;

verus! {

/// First numeric value of the error band; every smaller value is a success.
pub const ERROR_BAND_START: u32 = 16;

/// Result type for upki C API functions.
///
/// Values 0-15 indicate success (with specific status information).
/// Values 16 and above indicate errors.
#[derive(Clone, Copy, Debug, PartialEq, Eq, Structural)]
pub enum upki_result {
    /// Operation succeeded.
    UPKI_OK,
    /// The certificate is not covered by the revocation data.
    UPKI_REVOCATION_NOT_COVERED,
    /// The certificate has been revoked.
    UPKI_REVOCATION_REVOKED,
    /// The certificate is not revoked.
    UPKI_REVOCATION_NOT_REVOKED,
    /// A null pointer was passed where a valid pointer was required.
    UPKI_ERR_NULL_POINTER,
    /// Failed to determine platform-specific default directories.
    UPKI_ERR_PLATFORM,
    /// Failed to load the revocation manifest.
    UPKI_ERR_MANIFEST,
    /// Failed to perform the revocation check.
    UPKI_ERR_REVOCATION_CHECK,
    /// The config path is not valid UTF-8.
    UPKI_ERR_CONFIG_PATH,
    /// Failed to load the config file.
    UPKI_ERR_CONFIG_FILE,
}

impl upki_result {
    /// The numeric value that stands for this code on the C side.
    pub open spec fn spec_code(self) -> u32 {
        match self {
            upki_result::UPKI_OK => 0,
            upki_result::UPKI_REVOCATION_NOT_COVERED => 1,
            upki_result::UPKI_REVOCATION_REVOKED => 2,
            upki_result::UPKI_REVOCATION_NOT_REVOKED => 3,
            upki_result::UPKI_ERR_NULL_POINTER => 16,
            upki_result::UPKI_ERR_PLATFORM => 17,
            upki_result::UPKI_ERR_MANIFEST => 18,
            upki_result::UPKI_ERR_REVOCATION_CHECK => 19,
            upki_result::UPKI_ERR_CONFIG_PATH => 20,
            upki_result::UPKI_ERR_CONFIG_FILE => 21,
        }
    }

    /// A code of the error band: the operation did not produce an answer.
    pub open spec fn spec_is_error(self) -> bool {
        self.spec_code() >= ERROR_BAND_START
    }

    /// One of the three answers of a revocation query.
    pub open spec fn spec_is_revocation_status(self) -> bool {
        1 <= self.spec_code() <= 3
    }

    /// The numeric value that stands for this code on the C side.
    #[verifier::when_used_as_spec(spec_code)]
    pub fn code(self) -> (c: u32)
        ensures
            c == self.spec_code(),
        no_unwind
    {
        match self {
            upki_result::UPKI_OK => 0,
            upki_result::UPKI_REVOCATION_NOT_COVERED => 1,
            upki_result::UPKI_REVOCATION_REVOKED => 2,
            upki_result::UPKI_REVOCATION_NOT_REVOKED => 3,
            upki_result::UPKI_ERR_NULL_POINTER => 16,
            upki_result::UPKI_ERR_PLATFORM => 17,
            upki_result::UPKI_ERR_MANIFEST => 18,
            upki_result::UPKI_ERR_REVOCATION_CHECK => 19,
            upki_result::UPKI_ERR_CONFIG_PATH => 20,
            upki_result::UPKI_ERR_CONFIG_FILE => 21,
        }
    }

    /// The code that a numeric value names, if it names one. Values that are
    /// reserved in either band name none.
    pub fn from_code(code: u32) -> (r: Option<upki_result>)
        ensures
            match r {
                Some(named) => named.spec_code() == code,
                None => forall|other: upki_result| other.spec_code() != code,
            },
        no_unwind
    {
        if code == 0 {
            Some(upki_result::UPKI_OK)
        } else if code == 1 {
            Some(upki_result::UPKI_REVOCATION_NOT_COVERED)
        } else if code == 2 {
            Some(upki_result::UPKI_REVOCATION_REVOKED)
        } else if code == 3 {
            Some(upki_result::UPKI_REVOCATION_NOT_REVOKED)
        } else if code == 16 {
            Some(upki_result::UPKI_ERR_NULL_POINTER)
        } else if code == 17 {
            Some(upki_result::UPKI_ERR_PLATFORM)
        } else if code == 18 {
            Some(upki_result::UPKI_ERR_MANIFEST)
        } else if code == 19 {
            Some(upki_result::UPKI_ERR_REVOCATION_CHECK)
        } else if code == 20 {
            Some(upki_result::UPKI_ERR_CONFIG_PATH)
        } else if code == 21 {
            Some(upki_result::UPKI_ERR_CONFIG_FILE)
        } else {
            None
        }
    }

    /// Whether this code lies in the error band.
    #[verifier::when_used_as_spec(spec_is_error)]
    pub fn is_error(self) -> (b: bool)
        ensures
            b == self.spec_is_error(),
        no_unwind
    {
        self.code() >= ERROR_BAND_START
    }

    /// Whether this code is one of the three answers of a revocation query.
    #[verifier::when_used_as_spec(spec_is_revocation_status)]
    pub fn is_revocation_status(self) -> (b: bool)
        ensures
            b == self.spec_is_revocation_status(),
        no_unwind
    {
        let c: u32 = self.code();
        1 <= c && c <= 3
    }
}

/// The operations of the C surface that report a result code.
#[derive(Clone, Copy, Debug, PartialEq, Eq, Structural)]
pub enum EntryPoint {
    /// The revocation query.
    CheckRevocation,
    /// The constructor of a configuration from a file.
    ConfigFromFile,
    /// The constructor of a configuration from the platform's defaults.
    ConfigNew,
}

/// The codes that an operation reports: the query answers with a revocation
/// status and never with `UPKI_OK`, a constructor answers with `UPKI_OK` and
/// never with a revocation status, and each has its own errors.
pub open spec fn may_report(entry: EntryPoint, code: upki_result) -> bool {
    match entry {
        EntryPoint::CheckRevocation => {
            ||| code.spec_is_revocation_status()
            ||| code == upki_result::UPKI_ERR_NULL_POINTER
            ||| code == upki_result::UPKI_ERR_MANIFEST
            ||| code == upki_result::UPKI_ERR_REVOCATION_CHECK
        },
        EntryPoint::ConfigFromFile => {
            ||| code == upki_result::UPKI_OK
            ||| code == upki_result::UPKI_ERR_NULL_POINTER
            ||| code == upki_result::UPKI_ERR_CONFIG_PATH
            ||| code == upki_result::UPKI_ERR_CONFIG_FILE
        },
        EntryPoint::ConfigNew => {
            ||| code == upki_result::UPKI_OK
            ||| code == upki_result::UPKI_ERR_NULL_POINTER
            ||| code == upki_result::UPKI_ERR_PLATFORM
        },
    }
}

/// The code that an operation reports when the engine did not return from a
/// call but unwound: the error that the operation has for a failed engine.
/// Finding that code does not unwind in its turn.
pub fn unwind_code(entry: EntryPoint) -> (code: upki_result)
    ensures
        code == match entry {
            EntryPoint::CheckRevocation => upki_result::UPKI_ERR_REVOCATION_CHECK,
            EntryPoint::ConfigFromFile => upki_result::UPKI_ERR_CONFIG_FILE,
            EntryPoint::ConfigNew => upki_result::UPKI_ERR_PLATFORM,
        },
        may_report(entry, code),
        code.spec_is_error(),
    no_unwind
{
    match entry {
        EntryPoint::CheckRevocation => upki_result::UPKI_ERR_REVOCATION_CHECK,
        EntryPoint::ConfigFromFile => upki_result::UPKI_ERR_CONFIG_FILE,
        EntryPoint::ConfigNew => upki_result::UPKI_ERR_PLATFORM,
    }
}

/// Two codes with the same numeric value are the same code.
pub proof fn lemma_code_is_injective(a: upki_result, b: upki_result)
    requires
        a.spec_code() == b.spec_code(),
    ensures
        a == b,
{
}

/// Every code lies in one band: it is an error, with a value of 16 or more,
/// or a success, with a value below 16; a success is `UPKI_OK` or a
/// revocation status, and never both.
pub proof fn lemma_code_bands(r: upki_result)
    ensures
        r.spec_is_error() <==> r.spec_code() >= 16,
        !r.spec_is_error() <==> r.spec_code() < 16,
        !r.spec_is_error() <==> (r == upki_result::UPKI_OK || r.spec_is_revocation_status()),
        !(r == upki_result::UPKI_OK && r.spec_is_revocation_status()),
        r.spec_code() <= 3 || 16 <= r.spec_code() <= 21,
{
}

/// A reported code is a revocation status exactly when the operation was the
/// revocation query and the code's value lies between 1 and 3; a constructor
/// that does not fail reports `UPKI_OK`; and whatever the operation, a value
/// of 16 or more is an error.
pub proof fn lemma_band_law(entry: EntryPoint, r: upki_result)
    requires
        may_report(entry, r),
    ensures
        r.spec_is_revocation_status() <==> (entry == EntryPoint::CheckRevocation && 1
            <= r.spec_code() <= 3),
        entry != EntryPoint::CheckRevocation ==> (r == upki_result::UPKI_OK || r.spec_is_error()),
        entry == EntryPoint::CheckRevocation ==> r != upki_result::UPKI_OK,
        r.spec_code() >= 16 <==> r.spec_is_error(),
{
}

} // verus!
