//! The one piece of query-helper logic that is more than a forwarded call:
//! turning a "no rows" outcome into `Ok(None)` instead of an error, while
//! every other outcome passes through unchanged.

use vstd::prelude::*;

verus! {

/// Declares `diesel::result::Error`, the backing store's query error, so
/// that values of it can be carried through unchanged; which of its
/// variants means "no rows" is the one thing read from it, through
/// `is_not_found`.
#[verifier::external_type_specification]
#[verifier::external_body]
pub struct ExQueryError(diesel::result::Error);

/// Whether a query outcome `r` with no-rows flag `not_found` resolves to
/// an optional row.
pub open spec fn spec_resolve_optional<U, E>(
    r: Result<U, E>,
    not_found: bool,
) -> Result<Option<U>, E> {
    match r {
        Ok(u) => Ok(Some(u)),
        Err(e) => if not_found {
            Ok(None)
        } else {
            Err(e)
        },
    }
}

/// Resolves a query outcome into an optional row: a row found is
/// `Ok(Some(row))`, a failure that means "no rows" (`not_found`) is
/// `Ok(None)` rather than an error, and every other failure is passed
/// through unchanged.
pub fn resolve_optional<U, E>(r: Result<U, E>, not_found: bool) -> (resolved: Result<
    Option<U>,
    E,
>)
    ensures
        resolved == spec_resolve_optional(r, not_found),
        r matches Ok(u) ==> resolved == Ok::<Option<U>, E>(Some(u)),
        r is Err && not_found ==> resolved == Ok::<Option<U>, E>(None),
        !not_found ==> (r matches Err(e) ==> resolved == Err::<Option<U>, E>(e)),
{
    match r {
        Ok(u) => Ok(Some(u)),
        Err(e) => if not_found {
            Ok(None)
        } else {
            Err(e)
        },
    }
}

/// A query that matched zero rows — whatever the row type and however the
/// failure is represented — resolves to `Ok(None)`, never to an error.
pub proof fn lemma_no_rows_is_none<U, E>(e: E)
    ensures
        spec_resolve_optional(Err::<U, E>(e), true) == Ok::<Option<U>, E>(None),
{
}

/// Relies on `diesel::result::Error::NotFound` being the variant by which
/// the backing store reports that a query matched zero rows: answers
/// whether `e` is that variant and nothing else. Nothing is stated of the
/// answer — the verified caller takes it as an argument and is exact in it.
#[verifier::external_body]
fn is_not_found(e: &diesel::result::Error) -> bool {
    matches!(e, diesel::result::Error::NotFound)
}

/// Resolves a raw query outcome into an optional row: a found row is
/// `Ok(Some(row))`, and a failure either is recognized as "no rows" and
/// becomes `Ok(None)` or is passed through unchanged — no third thing is
/// ever returned.
pub fn optional_outcome<U>(r: Result<U, diesel::result::Error>) -> (resolved: Result<
    Option<U>,
    diesel::result::Error,
>)
    ensures
        r matches Ok(u) ==> resolved == Ok::<Option<U>, diesel::result::Error>(Some(u)),
        r matches Err(e) ==> resolved == Ok::<Option<U>, diesel::result::Error>(None)
            || resolved == Err::<Option<U>, diesel::result::Error>(e),
{
    let not_found = match &r {
        Ok(_) => false,
        Err(e) => is_not_found(e),
    };
    resolve_optional(r, not_found)
}

} // verus!
