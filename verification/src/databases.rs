//! The orchestration facade: one backup and one restore operation for every
//! engine, dispatched on the configuration's tag.
//!
//! Both operations are driven in the same way. The caller calls with
//! [`Event::Start`]. On [`Step::Run`] it runs the invocation to its end, draining
//! standard output and standard error and, for a restore, writing all of the
//! input and closing it, and calls again with [`Event::Finished`] and the
//! report. On [`Step::Done`] the operation is over. No state is kept between
//! the calls, or between operations.

pub mod configs;
pub mod mysql;
pub mod postgres;

use crate::blob::blob_bytes;
use crate::databases::configs::{
    effective_password,
    password_or_empty,
    Parallelism,
    SourceConfig,
};
use crate::databases::mysql::{backup_mysql, mysql_unsupported, restore_mysql};
use crate::databases::postgres::{
    backup_postgres,
    clean_args,
    connection_args,
    is_connection_word,
    is_postgres_backup_step,
    is_postgres_restore_step,
    lemma_dump_arguments,
    lemma_restore_arguments,
    restore_postgres,
};
use crate::decimal::decimal_digits;
use crate::error::BackupError;
use crate::tool::{Event, Step, ToolReport};
use bytes::Bytes;
use vstd::prelude::*;

verus! {

/// The number of workers that a backup lets the dump tool use.
pub const DEFAULT_JOBS: u32 = 8;

/// Whether `step` is the backup's answer to `event` for `config`.
///
/// For PostgreSQL it is the adapter's answer, with the configuration's effective
/// password and [`DEFAULT_JOBS`] workers. For an engine without a working
/// adapter it is the refusal, whatever the event.
pub open spec fn is_backup_step(config: SourceConfig, event: Event, step: Step<Bytes>) -> bool {
    match config {
        SourceConfig::PG(pg) => is_postgres_backup_step(
            pg.database@,
            pg.host@,
            pg.port,
            pg.username@,
            Some(effective_password(pg.password)),
            Some(DEFAULT_JOBS as nat),
            event,
            step,
        ),
        SourceConfig::MySql(_) => step == Step::<Bytes>::Done(Err(mysql_unsupported())),
    }
}

/// Whether `step` is the restore's answer to `event` for `config` and a dump
/// that holds `dump`.
///
/// For PostgreSQL it is the adapter's answer, with the configuration's effective
/// password and the clean switch set. For an engine without a working adapter
/// it is the refusal, whatever the dump and the event.
pub open spec fn is_restore_step(
    config: SourceConfig,
    dump: Seq<u8>,
    event: Event,
    step: Step<()>,
) -> bool {
    match config {
        SourceConfig::PG(pg) => is_postgres_restore_step(
            pg.database@,
            pg.host@,
            pg.port,
            pg.username@,
            Some(effective_password(pg.password)),
            dump,
            true,
            event,
            step,
        ),
        SourceConfig::MySql(_) => step == Step::<()>::Done(Err(mysql_unsupported())),
    }
}

/// One step of a backup of the database that `source_config` names.
///
/// The result is `Ok` with the dump exactly when the dump tool has run and ended
/// with exit status 0; the dump is then all of its standard output. Every
/// failure ends the operation with the adapter's error, and no dump.
pub fn backup_source(source_config: &SourceConfig, event: Event) -> (step: Step<Bytes>)
    ensures
        is_backup_step(*source_config, event, step),
        !(source_config is PG) ==> step == Step::<Bytes>::Done(
            Err(BackupError::UnsupportedBackend { engine: source_config.spec_engine() }),
        ),
        event is Finished ==> step is Done,
{
    match source_config {
        SourceConfig::PG(config) => backup_postgres(
            config.database.as_str(),
            config.host.as_str(),
            config.port,
            config.username.as_str(),
            Some(password_or_empty(&config.password)),
            Parallelism::new(DEFAULT_JOBS),
            event,
        ),
        SourceConfig::MySql(config) => backup_mysql(config, event),
    }
}

/// One step of a restore of `dump_data` into the database that `source_config`
/// names. Objects that the dump holds are dropped from the target before they
/// are created again.
///
/// The dump is read, never changed, and not checked against the engine. One of
/// zero length is invalid input: the operation ends with an error before any
/// tool is asked for. The result is `Ok` exactly when the restore tool has run
/// and ended with exit status 0.
pub fn restore_source(
    source_config: &SourceConfig,
    dump_data: &Bytes,
    event: Event,
) -> (step: Step<()>)
    ensures
        is_restore_step(*source_config, blob_bytes(*dump_data), event, step),
        !(source_config is PG) ==> step == Step::<()>::Done(
            Err(BackupError::UnsupportedBackend { engine: source_config.spec_engine() }),
        ),
        source_config is PG && blob_bytes(*dump_data).len() == 0 ==> step == Step::<()>::Done(
            Err(BackupError::EmptyDump),
        ),
        event is Finished ==> step is Done,
{
    match source_config {
        SourceConfig::PG(config) => restore_postgres(
            config.database.as_str(),
            config.host.as_str(),
            config.port,
            config.username.as_str(),
            Some(password_or_empty(&config.password)),
            dump_data,
            true,
            event,
        ),
        SourceConfig::MySql(config) => restore_mysql(config, dump_data, event),
    }
}

/// Whether two configurations name the same engine and agree on host, port,
/// database and user name. Their passwords may differ.
pub open spec fn same_target(a: SourceConfig, b: SourceConfig) -> bool {
    match (a, b) {
        (SourceConfig::PG(x), SourceConfig::PG(y)) => {
            &&& x.host@ == y.host@
            &&& x.port == y.port
            &&& x.database@ == y.database@
            &&& x.username@ == y.username@
        },
        (SourceConfig::MySql(x), SourceConfig::MySql(y)) => {
            &&& x.host@ == y.host@
            &&& x.port == y.port
            &&& x.database@ == y.database@
            &&& x.username@ == y.username@
        },
        _ => false,
    }
}

/// A backup hands out a dump in one case only: the engine has an adapter, the
/// dump tool was run, and it ended with exit status 0. The dump is then all that
/// the tool wrote to standard output, byte for byte. In every other case the
/// caller gets no bytes at all, whatever the tool had written.
pub proof fn lemma_backup_is_all_or_nothing(config: SourceConfig, event: Event, step: Step<Bytes>)
    requires
        is_backup_step(config, event, step),
    ensures
        step.succeeded() <==> config is PG && event.tool_succeeded(),
        step matches Step::Done(Ok(blob)) ==> (event matches Event::Finished(report) && blob_bytes(
            blob,
        ) == report.output()),
{
}

/// A restore succeeds in one case only: the engine has an adapter, the dump is
/// not empty, the restore tool was run, and it ended with exit status 0. Where
/// the tool was started and did not end so, the error is
/// [`BackupError::PartialRestore`]: the target may be in an inconsistent state.
pub proof fn lemma_restore_outcomes(
    config: SourceConfig,
    dump: Seq<u8>,
    report: ToolReport,
    step: Step<()>,
)
    requires
        is_restore_step(config, dump, Event::Finished(report), step),
    ensures
        step.succeeded() <==> config is PG && dump.len() > 0 && report.succeeded(),
        !step.succeeded() ==> step.failed(),
        config is PG && dump.len() > 0 && !(report is NotStarted) && !report.succeeded() ==> (
        step matches Step::Done(Err(error)) && error is PartialRestore),
{
}

/// A restore never asks for a tool to be run on a dump of zero length: it ends
/// with an error at once, for every configuration and every event.
pub proof fn lemma_empty_dump_is_refused(config: SourceConfig, event: Event, step: Step<()>)
    requires
        is_restore_step(config, Seq::<u8>::empty(), event, step),
    ensures
        step.failed(),
        config is PG ==> step == Step::<()>::Done(Err(BackupError::EmptyDump)),
{
}

/// The password is no part of what a backup puts on the command line: two
/// configurations that differ in their passwords alone ask for the same program
/// with the same arguments and the same input. Only the environment differs.
pub proof fn lemma_backup_password_not_in_arguments(
    a: SourceConfig,
    b: SourceConfig,
    step_a: Step<Bytes>,
    step_b: Step<Bytes>,
)
    requires
        same_target(a, b),
        is_backup_step(a, Event::Start, step_a),
        is_backup_step(b, Event::Start, step_b),
    ensures
        step_a is Run <==> step_b is Run,
        step_a matches Step::Run(run_a) ==> (step_b matches Step::Run(run_b) && run_a@.program
            == run_b@.program && run_a@.args == run_b@.args && run_a@.stdin == run_b@.stdin),
{
}

/// The password is no part of what a restore puts on the command line: two
/// configurations that differ in their passwords alone ask, for the same dump,
/// for the same program with the same arguments and the same input.
pub proof fn lemma_restore_password_not_in_arguments(
    a: SourceConfig,
    b: SourceConfig,
    dump: Seq<u8>,
    step_a: Step<()>,
    step_b: Step<()>,
)
    requires
        same_target(a, b),
        is_restore_step(a, dump, Event::Start, step_a),
        is_restore_step(b, dump, Event::Start, step_b),
    ensures
        step_a is Run <==> step_b is Run,
        step_a matches Step::Run(run_a) ==> (step_b matches Step::Run(run_b) && run_a@.program
            == run_b@.program && run_a@.args == run_b@.args && run_a@.stdin == run_b@.stdin),
{
}

/// Whether `word` is spelled like an argument that a backup of the database puts
/// on the command line: a fixed word of the dump tool, the host, the port, the
/// user name, the database, or the number of workers.
pub open spec fn is_backup_word(config: SourceConfig, word: Seq<char>) -> bool {
    config matches SourceConfig::PG(pg) && {
        ||| is_connection_word(word, pg.database@, pg.host@, pg.port, pg.username@)
        ||| word == "--format"@
        ||| word == "custom"@
        ||| word == "--jobs"@
        ||| word == decimal_digits(DEFAULT_JOBS as nat)
    }
}

/// Whether `word` is spelled like an argument that a restore into the database
/// puts on the command line: a fixed word of the restore tool, the host, the
/// port, the user name or the database.
pub open spec fn is_restore_word(config: SourceConfig, word: Seq<char>) -> bool {
    config matches SourceConfig::PG(pg) && {
        ||| is_connection_word(word, pg.database@, pg.host@, pg.port, pg.username@)
        ||| word == "--clean"@
        ||| word == "--if-exists"@
    }
}

/// The password of a configuration.
pub open spec fn password_of(config: SourceConfig) -> Seq<char> {
    match config {
        SourceConfig::PG(pg) => effective_password(pg.password),
        SourceConfig::MySql(my) => effective_password(my.password),
    }
}

/// No argument of a backup is the password, unless the password is spelled like
/// something that is on the command line for its own sake, such as the host.
pub proof fn lemma_backup_arguments_hold_no_password(
    config: SourceConfig,
    event: Event,
    step: Step<Bytes>,
)
    requires
        is_backup_step(config, event, step),
        !is_backup_word(config, password_of(config)),
    ensures
        step matches Step::Run(run) ==> !run@.args.contains(password_of(config)),
{
    if let SourceConfig::PG(pg) = config {
        lemma_dump_arguments(
            pg.database@,
            pg.host@,
            pg.port,
            pg.username@,
            Some(effective_password(pg.password)),
            Some(DEFAULT_JOBS as nat),
            password_of(config),
        );
    }
}

/// No argument of a restore is the password, unless the password is spelled like
/// something that is on the command line for its own sake, such as the host.
pub proof fn lemma_restore_arguments_hold_no_password(
    config: SourceConfig,
    dump: Seq<u8>,
    event: Event,
    step: Step<()>,
)
    requires
        is_restore_step(config, dump, event, step),
        !is_restore_word(config, password_of(config)),
    ensures
        step matches Step::Run(run) ==> !run@.args.contains(password_of(config)),
{
    if let SourceConfig::PG(pg) = config {
        lemma_restore_arguments(
            pg.database@,
            pg.host@,
            pg.port,
            pg.username@,
            Some(effective_password(pg.password)),
            dump,
            true,
            password_of(config),
        );
    }
}

/// What a backup hands out is what a restore feeds in: the dump of a successful
/// backup, given to a restore for the same configuration, reaches the restore
/// tool's standard input as the bytes that the dump tool wrote, unless there are
/// none.
pub proof fn lemma_restore_is_fed_the_backup(
    config: SourceConfig,
    report: ToolReport,
    backed_up: Step<Bytes>,
    restoring: Step<()>,
)
    requires
        is_backup_step(config, Event::Finished(report), backed_up),
        backed_up matches Step::Done(Ok(blob)) && blob_bytes(blob).len() > 0 && is_restore_step(
            config,
            blob_bytes(blob),
            Event::Start,
            restoring,
        ),
    ensures
        report.succeeded(),
        restoring matches Step::Run(run) && run@.stdin == Some(report.output()),
{
}

/// Every restore that asks for a tool asks it to clean: the arguments are those
/// of the connection followed by the clean switch.
pub proof fn lemma_restore_cleans(
    config: SourceConfig,
    dump: Seq<u8>,
    event: Event,
    step: Step<()>,
)
    requires
        is_restore_step(config, dump, event, step),
    ensures
        step matches Step::Run(run) ==> (config matches SourceConfig::PG(pg) && run@.args
            == connection_args(pg.database@, pg.host@, pg.port, pg.username@) + clean_args(true)
            && run@.args.contains("--clean"@)),
{
    if let Step::Run(run) = step {
        let args = run@.args;
        assert(args[8] == "--clean"@);
    }
}

} // verus!
