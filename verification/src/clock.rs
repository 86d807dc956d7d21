//! The machine's clock.

use vstd::prelude::*;

verus! {

#[verifier::external_type_specification]
#[verifier::external_body]
pub struct ExNaiveDateTime(chrono::NaiveDateTime);

/// The local date and time by the machine's clock, read through
/// `chrono::Local::now` and `DateTime::naive_local`. The result depends on
/// the moment of the call and on the machine's time zone, so nothing is
/// claimed of it. chrono gives up on a clock that stands before the year
/// 1970 or so far from the present that the local time has no
/// representation.
#[verifier::external_body]
pub(crate) fn now() -> chrono::NaiveDateTime {
    chrono::Local::now().naive_local()
}

} // verus!
