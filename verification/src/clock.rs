//! Wall-clock readings, taken through the `chrono` crate.
use vstd::prelude::*;

verus! {

/// Whether `c` is one of the decimal digits `0` to `9`.
pub open spec fn is_decimal_digit(c: char) -> bool {
    48 <= c as u32 <= 57
}

/// Whether `s` reads `dd:dd:dd`, each `d` a decimal digit.
pub open spec fn is_time_of_day(s: Seq<char>) -> bool {
    &&& s.len() == 8
    &&& s[2] == ':'
    &&& s[5] == ':'
    &&& forall|i: int| 0 <= i < 8 && i != 2 && i != 5 ==> is_decimal_digit(#[trigger] s[i])
}

/// Reads the local time with `chrono::Local::now()` and formats it with the
/// pattern `%H:%M:%S`.
///
/// Trusted: chrono writes hour, minute and second as two zero-padded decimal
/// digits each, separated by colons.  Which time is read is not stated.
#[verifier::external_body]
pub(crate) fn local_time_of_day() -> (label: String)
    ensures
        is_time_of_day(label@),
{
    chrono::Local::now().format("%H:%M:%S").to_string()
}

/// Reads the time with `chrono::Utc::now()` and writes it with
/// `DateTime::to_rfc3339`.
///
/// Trusted: nothing is stated of the text.
#[verifier::external_body]
pub(crate) fn utc_timestamp() -> (stamp: String) {
    chrono::Utc::now().to_rfc3339()
}

} // verus!
