//! Wall-clock time, which events are stamped with and which the library
//! carries through without reading.

use vstd::prelude::*;

verus! {

/// `std::time::SystemTime`, an opaque point in time.
#[verifier::external_type_specification]
#[verifier::external_body]
pub struct ExSystemTime(std::time::SystemTime);

/// Calls `std::time::SystemTime::now`. Nothing is stated of the result: it is
/// whatever the system clock reads.
#[verifier::external_body]
pub(crate) fn now() -> std::time::SystemTime {
    std::time::SystemTime::now()
}

} // verus!
