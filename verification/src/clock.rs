//! The one clock reading of a run: the UTC timestamp captured when the
//! run begins.

use vstd::prelude::*;
use crate::text::ends_with;

verus! {

/// Relies on `chrono::Utc::now` and the `Display` form of a UTC datetime.
/// A clock reading depends on the moment of the call, so the value is not
/// promised; what holds of every outcome is that the rendering — the
/// datetime, a space, and the `Utc` offset's own `"UTC"` — is a nonempty
/// string ending in `" UTC"`.
///
/// `Utc::now` itself aborts on a system clock set before 1970 or too far
/// past the representable range; the library inherits that from chrono.
#[verifier::external_body]
pub(crate) fn now_utc_string() -> (r: String)
    ensures
        r@.len() > 0,
        ends_with(r@, " UTC"@),
{
    chrono::Utc::now().to_string()
}

} // verus!
