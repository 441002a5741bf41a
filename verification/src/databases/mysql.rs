//! The MySQL adapter. It does no work yet: each operation ends at once with an
//! error that says so, and never asks for a tool to be run.

use crate::databases::configs::{Engine, MySqlConfig};
use crate::error::BackupError;
use crate::tool::{Event, Step};
use bytes::Bytes;
use vstd::prelude::*;

verus! {

/// The error with which every MySQL operation ends.
pub open spec fn mysql_unsupported() -> BackupError {
    BackupError::UnsupportedBackend { engine: Engine::MySql }
}

/// One step of a backup of a MySQL database: refused, whatever the event.
pub fn backup_mysql(config: &MySqlConfig, event: Event) -> (step: Step<Bytes>)
    ensures
        step == Step::<Bytes>::Done(Err(mysql_unsupported())),
{
    Step::Done(Err(BackupError::UnsupportedBackend { engine: Engine::MySql }))
}

/// One step of a restore into a MySQL database: refused, whatever the dump and
/// the event.
pub fn restore_mysql(config: &MySqlConfig, dump_data: &Bytes, event: Event) -> (step: Step<()>)
    ensures
        step == Step::<()>::Done(Err(mysql_unsupported())),
{
    Step::Done(Err(BackupError::UnsupportedBackend { engine: Engine::MySql }))
}

} // verus!
