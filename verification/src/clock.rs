//! The time of a poll, as the report and the log write it.

use vstd::prelude::*;
use chrono::Local;

verus! {

/// How a time is written: year, month and day, then hour, minute and second.
pub const STAMP_FORMAT: &'static str = "%Y/%m/%d %H:%M:%S";

/// `chrono::Local::now` and `chrono::DateTime::format`: the machine's local
/// time at the call, written as `format` says. Only the one format that is
/// known to be well formed is let in. The time is the machine's own, so
/// nothing is claimed of the text.
#[verifier::external_body]
fn local_time(format: &str) -> String
    requires
        format@ == STAMP_FORMAT@,
{
    Local::now().format(format).to_string()
}

/// The local time now, written as `STAMP_FORMAT` says.
pub fn stamp() -> String {
    local_time(STAMP_FORMAT)
}

} // verus!
