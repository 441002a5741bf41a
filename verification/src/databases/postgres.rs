//! The PostgreSQL adapter: `pg_dump` and `pg_restore`.
//!
//! A backup is one run of `pg_dump` whose standard output is the dump; a restore
//! is one run of `pg_restore` whose standard input is the dump. The password is
//! never an argument: it travels in the environment variable `PGPASSWORD`.

use crate::blob::blob_bytes;
use crate::databases::configs::Parallelism;
use crate::decimal::{decimal_digits, decimal_text};
use crate::error::BackupError;
use crate::tool::{
    exit_is_success,
    is_success,
    Event,
    Invocation,
    InvocationView,
    Step,
    ToolReport,
};
use bytes::Bytes;
use vstd::prelude::*;

verus! {

/// The arguments that name the database to connect to. They are the same for
/// both tools, and hold no password.
pub open spec fn connection_args(
    database: Seq<char>,
    host: Seq<char>,
    port: u16,
    username: Seq<char>,
) -> Seq<Seq<char>> {
    seq![
        "--host"@,
        host,
        "--port"@,
        decimal_digits(port as nat),
        "--username"@,
        username,
        "--dbname"@,
        database,
    ]
}

/// The arguments that set the number of workers: none where no number is given.
pub open spec fn jobs_args(jobs: Option<nat>) -> Seq<Seq<char>> {
    match jobs {
        Some(workers) => seq!["--jobs"@, decimal_digits(workers)],
        None => Seq::empty(),
    }
}

/// The arguments that make a restore drop what it is about to create: none
/// unless `clean` is set. With `--if-exists` an object that is not there to be
/// dropped is no error, so the same arguments serve an empty target.
pub open spec fn clean_args(clean: bool) -> Seq<Seq<char>> {
    if clean {
        seq!["--clean"@, "--if-exists"@]
    } else {
        Seq::empty()
    }
}

/// The environment that carries the password: `PGPASSWORD` where one is given,
/// nothing where none is.
pub open spec fn password_env(password: Option<Seq<char>>) -> Seq<(Seq<char>, Seq<char>)> {
    match password {
        Some(text) => seq![("PGPASSWORD"@, text)],
        None => Seq::empty(),
    }
}

/// The number of workers in an optional setting.
pub open spec fn worker_count(jobs: Option<Parallelism>) -> Option<nat> {
    match jobs {
        Some(setting) => Some(setting.spec_workers() as nat),
        None => None,
    }
}

/// The run of `pg_dump` that backs a database up: the connection, the custom
/// archive format, the number of workers, and no input.
pub open spec fn dump_invocation(
    database: Seq<char>,
    host: Seq<char>,
    port: u16,
    username: Seq<char>,
    password: Option<Seq<char>>,
    jobs: Option<nat>,
) -> InvocationView {
    InvocationView {
        program: "pg_dump"@,
        args: connection_args(database, host, port, username) + seq!["--format"@, "custom"@]
            + jobs_args(jobs),
        env: password_env(password),
        stdin: None,
    }
}

/// The run of `pg_restore` that loads `dump` into a database: the connection,
/// the clean switch, and the dump as input.
pub open spec fn restore_invocation(
    database: Seq<char>,
    host: Seq<char>,
    port: u16,
    username: Seq<char>,
    password: Option<Seq<char>>,
    dump: Seq<u8>,
    clean: bool,
) -> InvocationView {
    InvocationView {
        program: "pg_restore"@,
        args: connection_args(database, host, port, username) + clean_args(clean),
        env: password_env(password),
        stdin: Some(dump),
    }
}

/// What a run of `pg_dump` amounts to: the dump, which is all of its standard
/// output, where it ended with exit status 0, and an error in every other case.
/// Output of a run that failed is not a dump.
pub open spec fn dump_verdict(report: ToolReport) -> Result<Seq<u8>, BackupError> {
    match report {
        ToolReport::NotStarted { detail } => Err(BackupError::Spawn { detail }),
        ToolReport::StreamBroken { detail } => Err(BackupError::Stream { detail }),
        ToolReport::Exited { code, stdout, stderr } => if is_success(code) {
            Ok(stdout@)
        } else {
            Err(BackupError::ToolFailed { code, diagnostics: stderr })
        },
    }
}

/// What a run of `pg_restore` amounts to: success where it ended with exit
/// status 0. Where it was started and did not, the target may have lost objects
/// that were not created again, and the error says so.
pub open spec fn restore_verdict(report: ToolReport) -> Result<(), BackupError> {
    match report {
        ToolReport::NotStarted { detail } => Err(BackupError::Spawn { detail }),
        ToolReport::StreamBroken { detail } => Err(
            BackupError::PartialRestore { code: None, diagnostics: detail },
        ),
        ToolReport::Exited { code, stdout, stderr } => if is_success(code) {
            Ok(())
        } else {
            Err(BackupError::PartialRestore { code, diagnostics: stderr })
        },
    }
}

/// The result of a backup with the dump as plain bytes.
pub open spec fn dump_view(result: Result<Bytes, BackupError>) -> Result<Seq<u8>, BackupError> {
    match result {
        Ok(blob) => Ok(blob_bytes(blob)),
        Err(error) => Err(error),
    }
}

/// Whether `step` is the PostgreSQL backup's answer to `event`: at the start,
/// the run of `pg_dump`; after the run, its verdict.
pub open spec fn is_postgres_backup_step(
    database: Seq<char>,
    host: Seq<char>,
    port: u16,
    username: Seq<char>,
    password: Option<Seq<char>>,
    jobs: Option<nat>,
    event: Event,
    step: Step<Bytes>,
) -> bool {
    match event {
        Event::Start => step matches Step::Run(invocation) && invocation@ == dump_invocation(
            database,
            host,
            port,
            username,
            password,
            jobs,
        ),
        Event::Finished(report) => step matches Step::Done(result) && dump_view(result)
            == dump_verdict(report),
    }
}

/// Whether `step` is the PostgreSQL restore's answer to `event`. An empty dump
/// is refused whatever the event; else, at the start, the run of `pg_restore`
/// on the dump; after the run, its verdict.
pub open spec fn is_postgres_restore_step(
    database: Seq<char>,
    host: Seq<char>,
    port: u16,
    username: Seq<char>,
    password: Option<Seq<char>>,
    dump: Seq<u8>,
    clean: bool,
    event: Event,
    step: Step<()>,
) -> bool {
    if dump.len() == 0 {
        step == Step::<()>::Done(Err(BackupError::EmptyDump))
    } else {
        match event {
            Event::Start => step matches Step::Run(invocation) && invocation@
                == restore_invocation(database, host, port, username, password, dump, clean),
            Event::Finished(report) => step == Step::<()>::Done(restore_verdict(report)),
        }
    }
}

/// Whether `word` is one of the connection arguments: a fixed word of the
/// tools, or the host, the port, the user name or the database.
pub open spec fn is_connection_word(
    word: Seq<char>,
    database: Seq<char>,
    host: Seq<char>,
    port: u16,
    username: Seq<char>,
) -> bool {
    ||| word == "--host"@
    ||| word == host
    ||| word == "--port"@
    ||| word == decimal_digits(port as nat)
    ||| word == "--username"@
    ||| word == username
    ||| word == "--dbname"@
    ||| word == database
}

/// Every argument of a dump is a fixed word of the tool, a connection field or
/// the number of workers, and nothing else is an argument. A password is thus
/// on the command line only if it happens to be spelled like one of these; it
/// never gets there as the password.
pub proof fn lemma_dump_arguments(
    database: Seq<char>,
    host: Seq<char>,
    port: u16,
    username: Seq<char>,
    password: Option<Seq<char>>,
    jobs: Option<nat>,
    word: Seq<char>,
)
    ensures
        dump_invocation(database, host, port, username, password, jobs).args.contains(word) <==> {
            ||| is_connection_word(word, database, host, port, username)
            ||| word == "--format"@
            ||| word == "custom"@
            ||| (jobs matches Some(workers) && (word == "--jobs"@ || word == decimal_digits(
                workers,
            )))
        },
{
    let args = dump_invocation(database, host, port, username, password, jobs).args;
    assert(args.len() == 10 + jobs_args(jobs).len());
    if args.contains(word) {
        let i = choose|i: int| 0 <= i < args.len() && args[i] == word;
        assert(args[i] == word);
    }
    assert(args[0] == "--host"@);
    assert(args[1] == host);
    assert(args[2] == "--port"@);
    assert(args[3] == decimal_digits(port as nat));
    assert(args[4] == "--username"@);
    assert(args[5] == username);
    assert(args[6] == "--dbname"@);
    assert(args[7] == database);
    assert(args[8] == "--format"@);
    assert(args[9] == "custom"@);
    if let Some(workers) = jobs {
        assert(args[10] == "--jobs"@);
        assert(args[11] == decimal_digits(workers));
    }
}

/// Every argument of a restore is a fixed word of the tool or a connection
/// field, and nothing else is an argument: not the password, and no byte of the
/// dump.
pub proof fn lemma_restore_arguments(
    database: Seq<char>,
    host: Seq<char>,
    port: u16,
    username: Seq<char>,
    password: Option<Seq<char>>,
    dump: Seq<u8>,
    clean: bool,
    word: Seq<char>,
)
    ensures
        restore_invocation(database, host, port, username, password, dump, clean).args.contains(
            word,
        ) <==> {
            ||| is_connection_word(word, database, host, port, username)
            ||| (clean && (word == "--clean"@ || word == "--if-exists"@))
        },
{
    let args = restore_invocation(database, host, port, username, password, dump, clean).args;
    assert(args.len() == 8 + clean_args(clean).len());
    if args.contains(word) {
        let i = choose|i: int| 0 <= i < args.len() && args[i] == word;
        assert(args[i] == word);
    }
    assert(args[0] == "--host"@);
    assert(args[1] == host);
    assert(args[2] == "--port"@);
    assert(args[3] == decimal_digits(port as nat));
    assert(args[4] == "--username"@);
    assert(args[5] == username);
    assert(args[6] == "--dbname"@);
    assert(args[7] == database);
    if clean {
        assert(args[8] == "--clean"@);
        assert(args[9] == "--if-exists"@);
    }
}

fn connection_arguments(database: &str, host: &str, port: u16, username: &str) -> (args:
    Vec<String>)
    ensures
        args.deep_view() == connection_args(database@, host@, port, username@),
{
    let mut args: Vec<String> = Vec::new();
    args.push("--host".to_owned());
    args.push(host.to_owned());
    args.push("--port".to_owned());
    args.push(decimal_text(port as u32));
    args.push("--username".to_owned());
    args.push(username.to_owned());
    args.push("--dbname".to_owned());
    args.push(database.to_owned());
    assert(args.deep_view() =~= connection_args(database@, host@, port, username@));
    args
}

fn password_environment(password: Option<&str>) -> (env: Vec<(String, String)>)
    ensures
        env.deep_view() == password_env(password.deep_view()),
{
    let mut env: Vec<(String, String)> = Vec::new();
    if let Some(text) = password {
        env.push(("PGPASSWORD".to_owned(), text.to_owned()));
    }
    assert(env.deep_view() =~= password_env(password.deep_view()));
    env
}

/// The run of `pg_dump` that backs the database up.
pub fn dump_command(
    database: &str,
    host: &str,
    port: u16,
    username: &str,
    password: Option<&str>,
    jobs: Option<Parallelism>,
) -> (invocation: Invocation)
    ensures
        invocation@ == dump_invocation(
            database@,
            host@,
            port,
            username@,
            password.deep_view(),
            worker_count(jobs),
        ),
{
    let mut args = connection_arguments(database, host, port, username);
    let ghost connection = args.deep_view();
    args.push("--format".to_owned());
    args.push("custom".to_owned());
    let ghost with_format = args.deep_view();
    assert(with_format =~= connection + seq!["--format"@, "custom"@]);
    if let Some(setting) = jobs {
        args.push("--jobs".to_owned());
        args.push(decimal_text(setting.workers()));
    }
    assert(args.deep_view() =~= with_format + jobs_args(worker_count(jobs)));
    let invocation = Invocation {
        program: "pg_dump".to_owned(),
        args,
        env: password_environment(password),
        stdin: None,
    };
    invocation
}

/// The run of `pg_restore` that loads `dump_data` into the database.
pub fn restore_command(
    database: &str,
    host: &str,
    port: u16,
    username: &str,
    password: Option<&str>,
    dump_data: &Bytes,
    clean: bool,
) -> (invocation: Invocation)
    ensures
        invocation@ == restore_invocation(
            database@,
            host@,
            port,
            username@,
            password.deep_view(),
            blob_bytes(*dump_data),
            clean,
        ),
{
    let mut args = connection_arguments(database, host, port, username);
    let ghost connection = args.deep_view();
    if clean {
        args.push("--clean".to_owned());
        args.push("--if-exists".to_owned());
    }
    assert(args.deep_view() =~= connection + clean_args(clean));
    let invocation = Invocation {
        program: "pg_restore".to_owned(),
        args,
        env: password_environment(password),
        stdin: Some(dump_data.clone()),
    };
    invocation
}

/// Turns the report of a run of `pg_dump` into the backup's result.
pub fn dump_result(report: ToolReport) -> (result: Result<Bytes, BackupError>)
    ensures
        dump_view(result) == dump_verdict(report),
{
    match report {
        ToolReport::NotStarted { detail } => Err(BackupError::Spawn { detail }),
        ToolReport::StreamBroken { detail } => Err(BackupError::Stream { detail }),
        ToolReport::Exited { code, stdout, stderr } => {
            if exit_is_success(code) {
                Ok(Bytes::from(stdout))
            } else {
                Err(BackupError::ToolFailed { code, diagnostics: stderr })
            }
        },
    }
}

/// Turns the report of a run of `pg_restore` into the restore's result.
pub fn restore_result(report: ToolReport) -> (result: Result<(), BackupError>)
    ensures
        result == restore_verdict(report),
{
    match report {
        ToolReport::NotStarted { detail } => Err(BackupError::Spawn { detail }),
        ToolReport::StreamBroken { detail } => Err(
            BackupError::PartialRestore { code: None, diagnostics: detail },
        ),
        ToolReport::Exited { code, stdout, stderr } => {
            if exit_is_success(code) {
                Ok(())
            } else {
                Err(BackupError::PartialRestore { code, diagnostics: stderr })
            }
        },
    }
}

/// One step of a backup of a PostgreSQL database.
///
/// `password` is handed to the tool in its environment where it is `Some`;
/// `jobs` is the number of workers that the tool may use, its own default where
/// `None`.
pub fn backup_postgres(
    database: &str,
    host: &str,
    port: u16,
    username: &str,
    password: Option<&str>,
    jobs: Option<Parallelism>,
    event: Event,
) -> (step: Step<Bytes>)
    ensures
        is_postgres_backup_step(
            database@,
            host@,
            port,
            username@,
            password.deep_view(),
            worker_count(jobs),
            event,
            step,
        ),
{
    match event {
        Event::Start => Step::Run(dump_command(database, host, port, username, password, jobs)),
        Event::Finished(report) => Step::Done(dump_result(report)),
    }
}

/// One step of a restore of `dump_data` into a PostgreSQL database.
///
/// With `clean` set the tool drops each object before it creates it again. A
/// dump of zero length is refused before any tool is asked for.
pub fn restore_postgres(
    database: &str,
    host: &str,
    port: u16,
    username: &str,
    password: Option<&str>,
    dump_data: &Bytes,
    clean: bool,
    event: Event,
) -> (step: Step<()>)
    ensures
        is_postgres_restore_step(
            database@,
            host@,
            port,
            username@,
            password.deep_view(),
            blob_bytes(*dump_data),
            clean,
            event,
            step,
        ),
{
    if dump_data.is_empty() {
        return Step::Done(Err(BackupError::EmptyDump));
    }
    match event {
        Event::Start => Step::Run(
            restore_command(database, host, port, username, password, dump_data, clean),
        ),
        Event::Finished(report) => Step::Done(restore_result(report)),
    }
}

} // verus!
