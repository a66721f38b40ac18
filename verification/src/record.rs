//! One captured log event.

use crate::level::Level;
use vstd::prelude::*;

verus! {

/// `time::OffsetDateTime`, a date and time with its offset from UTC. The
/// library carries such values and never looks inside them.
#[verifier::external_type_specification]
#[verifier::external_body]
pub struct ExOffsetDateTime(time::OffsetDateTime);

/// `time::error::IndeterminateOffset`, the error of a local time whose
/// offset from UTC could not be found out.
#[verifier::external_type_specification]
#[verifier::external_body]
pub struct ExIndeterminateOffset(time::error::IndeterminateOffset);

/// `time::OffsetDateTime::now_local`: the current time in the local offset,
/// or an error where that offset cannot be determined. Nothing is claimed
/// of the value: it depends on the clock and on the machine.
pub assume_specification[ time::OffsetDateTime::now_local ]() -> Result<
    time::OffsetDateTime,
    time::error::IndeterminateOffset,
>
;

/// `time::OffsetDateTime::now_utc`: the current time in UTC. Nothing is
/// claimed of the value: it depends on the clock.
pub assume_specification[ time::OffsetDateTime::now_utc ]() -> time::OffsetDateTime
;

/// A log record.
pub struct Record {
    /// Log level used for this record
    pub level: Level,
    /// Time this message was logged
    pub time: time::OffsetDateTime,
    /// Message content
    pub message: String,
}

impl Clone for Record {
    fn clone(&self) -> (copy: Record)
        ensures
            copy == *self,
    {
        Record { level: self.level, time: self.time, message: self.message.clone() }
    }
}

/// The current time: in the local offset where that can be determined, in
/// UTC where it cannot.
pub(crate) fn timestamp() -> time::OffsetDateTime {
    match time::OffsetDateTime::now_local() {
        Ok(local) => local,
        Err(_) => time::OffsetDateTime::now_utc(),
    }
}

} // verus!
