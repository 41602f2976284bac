//! What the database answers, and what the answers mean.

use crate::error::{persistence_error, DriverError, PersistenceError};
use crate::value::{row_view, Value, ValueView};
use vstd::prelude::*;

verus! {

/// What the database reports of a statement that returns no rows.
#[derive(Debug, Clone, Copy, PartialEq, Eq, Structural)]
pub struct ExecOutcome {
    /// How many stored rows the statement matched.
    pub rows_affected: u64,
    /// The key that the database gave to the inserted row; 0 where the
    /// statement inserted none or the table gives none.
    pub last_insert_id: u64,
}

/// The key that a reported insert id stands for. The database reports the id
/// unsigned; the record keeps the same 64 bits as a signed number.
pub open spec fn assigned_id(last_insert_id: u64) -> i64 {
    if last_insert_id <= i64::MAX {
        last_insert_id as i64
    } else {
        (last_insert_id - 0x1_0000_0000_0000_0000) as i64
    }
}

/// The signed number with the bits of `last_insert_id`.
pub fn id_from_insert(last_insert_id: u64) -> (id: i64)
    ensures
        id == assigned_id(last_insert_id),
{
    if last_insert_id <= 0x7fff_ffff_ffff_ffff {
        last_insert_id as i64
    } else {
        let above: u64 = last_insert_id - 0x8000_0000_0000_0000;
        (above as i64) + i64::MIN
    }
}

/// The id of a record after the answer to its insert: the assigned one on
/// success, the one it had on failure.
pub open spec fn id_after_create(id: i64, reply: Result<ExecOutcome, DriverError>) -> i64 {
    match reply {
        Ok(outcome) => assigned_id(outcome.last_insert_id),
        Err(_) => id,
    }
}

/// What the answer to an insert means: success, or the driver's failure.
pub open spec fn acknowledged(reply: Result<ExecOutcome, DriverError>) -> Result<
    (),
    PersistenceError,
> {
    match reply {
        Ok(_) => Ok(()),
        Err(e) => Err(persistence_error(e)),
    }
}

/// What the answer to an update or a delete means: the number of rows that
/// the statement matched, or the driver's failure.
pub open spec fn rows_affected(reply: Result<ExecOutcome, DriverError>) -> Result<
    u64,
    PersistenceError,
> {
    match reply {
        Ok(outcome) => Ok(outcome.rows_affected),
        Err(e) => Err(crate::error::persistence_error(e)),
    }
}

/// Reads the number of matched rows from the answer to an update or a
/// delete.
pub fn count_rows(reply: Result<ExecOutcome, DriverError>) -> (r: Result<u64, PersistenceError>)
    ensures
        r == rows_affected(reply),
{
    match reply {
        Ok(outcome) => Ok(outcome.rows_affected),
        Err(e) => Err(PersistenceError::from_driver(e)),
    }
}

/// The reply to a fetch, by the views of its columns.
pub open spec fn reply_view(reply: Result<Vec<Value>, DriverError>) -> Result<
    Seq<ValueView>,
    DriverError,
> {
    match reply {
        Ok(row) => Ok(row_view(row@)),
        Err(e) => Err(e),
    }
}

} // verus!
