//! The wall clock, behind the `time` crate: reading the current moment and
//! rendering it as the RFC 3339 text that RFC 5424 mandates for the
//! timestamp field.

use vstd::prelude::*;

verus! {

/// A broken-down moment in time, carried opaquely from the clock to the
/// formatter.
#[verifier::external_type_specification]
#[verifier::external_body]
pub struct ExTm(time::Tm);

/// A well-formed timestamp token: non-empty text with no embedded space, so
/// that it occupies exactly one field of the space-separated wire line.
pub open spec fn timestamp_token(ts: Seq<char>) -> bool {
    &&& ts.len() > 0
    &&& forall|i: int| 0 <= i < ts.len() ==> ts[i] != ' '
}

/// Relies on time::now for the current moment in the local timezone.
/// Nothing is promised of the value: the clock decides it.
pub assume_specification[ time::now ]() -> (t: time::Tm)
;

/// Relies on Tm::rfc3339, whose rendering is digits and the separators
/// `-`, `T`, `:`, `+` and `Z` alone: always at least one character, never a
/// space.
#[verifier::external_body]
pub(crate) fn rfc3339_string(t: &time::Tm) -> (r: String)
    ensures
        timestamp_token(r@),
{
    format!("{}", t.rfc3339())
}

} // verus!
