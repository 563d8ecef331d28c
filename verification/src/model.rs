//! The records that the engine hands out.

use vstd::prelude::*;
use crate::reply::Reply;

verus! {

/// The audit trail of one execution.
#[derive(Clone, Debug, PartialEq, Eq)]
pub struct Command {
    /// A random identifier.
    pub id: String,
    /// The command in readable form.
    pub cmd: String,
    /// The normalized reply, or the description of the failure.
    pub response: String,
    /// When the record was made, as local wall-clock text.
    pub created_at: String,
    /// The host that the command went to.
    pub host: String,
    /// How long the execution took, in microseconds.
    pub duration: i64,
}

/// What the transport reports of one command that was sent over it.
#[derive(Debug, PartialEq, Eq)]
pub struct Exchange {
    /// The reply, or the description of the failure.
    pub outcome: Result<Reply, String>,
    /// The wall-clock time just before the command was sent, in microseconds.
    pub started: i64,
    /// The wall-clock time just after the answer came, in microseconds.
    pub ended: i64,
    /// The local wall-clock text of the moment the answer came.
    pub created_at: String,
}

/// What an operation on a connection came to, and the record of the
/// execution behind it where a subscriber is to get one.
#[derive(Debug)]
pub struct Reported<T> {
    pub result: Result<T, crate::err::CusError>,
    pub record: Option<Command>,
}

/// The time between two wall-clock readings: never negative, whatever the
/// clock did in between, and never more than an `i64` holds.
pub open spec fn elapsed(started: int, ended: int) -> int {
    if ended <= started {
        0
    } else if ended - started > i64::MAX {
        i64::MAX as int
    } else {
        ended - started
    }
}

/// The time between two wall-clock readings.
pub fn duration(started: i64, ended: i64) -> (d: i64)
    ensures
        d == elapsed(started as int, ended as int),
{
    if ended <= started {
        0
    } else {
        match ended.checked_sub(started) {
            Some(d) => d,
            None => i64::MAX,
        }
    }
}

/// The summary of one live connection.
#[derive(Clone, Debug, PartialEq, Eq)]
pub struct Conn {
    pub id: String,
    pub host: String,
    pub created_at: String,
    pub types: String,
    pub proxy: Option<String>,
}

} // verus!
