//! Decoding of the raw arguments of the C surface.
//!
//! A pointer argument arrives as an `Option`, `None` for null. A C string
//! arrives as the bytes that its pointer refers to; its text ends at the first
//! NUL byte.
use vstd::prelude::*;
use vstd::slice::slice_subrange;
use vstd::string::StringSliceAdditionalSpecFns;
use vstd::utf8::valid_utf8;

use crate::status::upki_result;

verus! {

/// `n` bounds the text of the C string held in `buf`: no byte before `n` is
/// NUL, and `n` is the place of a NUL byte, or the end of `buf` where `buf`
/// holds none.
pub open spec fn is_c_str_bound(buf: Seq<u8>, n: int) -> bool {
    &&& 0 <= n <= buf.len()
    &&& forall|i: int| 0 <= i < n ==> buf[i] != 0
    &&& n < buf.len() ==> buf[n] == 0
}

/// The length of the text of the C string held in `buf`.
pub open spec fn spec_c_str_len(buf: Seq<u8>) -> int {
    choose|n: int| is_c_str_bound(buf, n)
}

/// The text of the C string held in `buf`: its bytes before the first NUL.
pub open spec fn c_str_text(buf: Seq<u8>) -> Seq<u8> {
    buf.take(spec_c_str_len(buf))
}

/// A buffer has one bound only, so `spec_c_str_len` names it.
pub proof fn lemma_c_str_bound_is_unique(buf: Seq<u8>, n: int, m: int)
    requires
        is_c_str_bound(buf, n),
        is_c_str_bound(buf, m),
    ensures
        n == m,
{
    if n < m {
        assert(buf[n] == 0);
    } else if m < n {
        assert(buf[m] == 0);
    }
}

/// Every buffer has a bound, and the text of its C string holds no NUL.
pub proof fn lemma_c_str_text_has_no_nul(buf: Seq<u8>)
    ensures
        is_c_str_bound(buf, spec_c_str_len(buf)),
        c_str_text(buf).len() == spec_c_str_len(buf),
        forall|i: int| 0 <= i < c_str_text(buf).len() ==> c_str_text(buf)[i] != 0,
    decreases buf.len(),
{
    if buf.len() == 0 || buf[0] == 0 {
        assert(is_c_str_bound(buf, 0));
    } else {
        let rest = buf.skip(1);
        lemma_c_str_text_has_no_nul(rest);
        let k = spec_c_str_len(rest);
        assert forall|i: int| 0 <= i < k + 1 implies buf[i] != 0 by {
            if i > 0 {
                assert(rest[i - 1] == buf[i]);
            }
        }
        if k + 1 < buf.len() {
            assert(rest[k] == buf[k + 1]);
        }
        assert(is_c_str_bound(buf, k + 1));
    }
}

/// The null check: a required pointer is handed on, a null one is reported as
/// `UPKI_ERR_NULL_POINTER`.
pub fn require_non_null<T>(pointer: Option<T>) -> (r: Result<T, upki_result>)
    ensures
        pointer matches Some(target) ==> r == Ok::<T, upki_result>(target),
        pointer is None ==> r == Err::<T, upki_result>(upki_result::UPKI_ERR_NULL_POINTER),
    no_unwind
{
    match pointer {
        Some(target) => Ok(target),
        None => Err(upki_result::UPKI_ERR_NULL_POINTER),
    }
}

/// Finds where the text of the C string held in `buf` ends.
pub fn c_str_len(buf: &[u8]) -> (n: usize)
    ensures
        n == spec_c_str_len(buf@),
        is_c_str_bound(buf@, n as int),
{
    let mut n: usize = 0;
    while n < buf.len() && buf[n] != 0
        invariant
            n <= buf@.len(),
            forall|i: int| 0 <= i < n ==> buf@[i] != 0,
        decreases buf@.len() - n,
    {
        n = n + 1;
    }
    proof {
        lemma_c_str_text_has_no_nul(buf@);
        lemma_c_str_bound_is_unique(buf@, n as int, spec_c_str_len(buf@));
    }
    n
}

/// `core::str::from_utf8`, with its error dropped: the bytes are handed back
/// as text exactly when they are valid UTF-8, and the text is then made of
/// those same bytes.
#[verifier::external_body]
fn utf8_text(bytes: &[u8]) -> (r: Option<&str>)
    ensures
        r is Some <==> valid_utf8(bytes@),
        r matches Some(text) ==> text.spec_bytes() == bytes@,
{
    core::str::from_utf8(bytes).ok()
}

/// Decodes the C string held in `buf`: bounds it at its first NUL and reads
/// the bytes before it as UTF-8. Text that is not UTF-8 is reported as
/// `UPKI_ERR_CONFIG_PATH`.
pub fn decode_c_str(buf: &[u8]) -> (r: Result<&str, upki_result>)
    ensures
        r is Ok <==> valid_utf8(c_str_text(buf@)),
        r matches Ok(text) ==> text.spec_bytes() == c_str_text(buf@),
        r matches Err(code) ==> code == upki_result::UPKI_ERR_CONFIG_PATH,
{
    let n: usize = c_str_len(buf);
    let text_bytes = slice_subrange(buf, 0, n);
    match utf8_text(text_bytes) {
        Some(text) => Ok(text),
        None => Err(upki_result::UPKI_ERR_CONFIG_PATH),
    }
}

} // verus!
