//! One decoded unit of broker traffic, and the timestamp type it carries.
//!
//! The capture timestamp is a `chrono` naive local date-time (the wall-clock
//! fields of the local time at capture). The crate never looks inside it; it
//! only renders it through one trusted formatting call.

use vstd::prelude::*;

verus! {

#[verifier::external_type_specification]
#[verifier::external_body]
pub struct ExNaiveDateTime(chrono::NaiveDateTime);

/// The text `"%Y/%m/%d %I:%M:%S%.6f %p"` renders a timestamp as. It takes
/// the declared timestamp type as its argument because the rendering reads
/// the timestamp's stored calendar fields and nothing else.
pub uninterp spec fn timestamp_text(t: chrono::NaiveDateTime) -> Seq<char>;

/// Relies on chrono's `NaiveDateTime::format` (with the strftime text
/// `"%Y/%m/%d %I:%M:%S%.6f %p"`, rendered to a `String`): every specifier in
/// that text reads the date-time's stored calendar fields, none reads a time
/// zone or a locale, so the result is a function of the timestamp value
/// alone.
#[verifier::external_body]
pub(crate) fn format_timestamp(t: &chrono::NaiveDateTime) -> (r: String)
    ensures
        r@ == timestamp_text(*t),
{
    t.format("%Y/%m/%d %I:%M:%S%.6f %p").to_string()
}

/// One decoded delivery: which subscription produced it, the exchange it
/// came from, the payload as text, and when it was captured.
pub struct ReadValue {
    pub id: u64,
    pub exchange_name: String,
    pub value: String,
    pub timestamp: chrono::NaiveDateTime,
}

} // verus!
