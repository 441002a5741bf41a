use bytes::Bytes;
use db_backup::databases::configs::{Engine, MySqlConfig, Parallelism};
use db_backup::databases::mysql::{backup_mysql, restore_mysql};
use db_backup::databases::postgres::{
    backup_postgres, dump_command, dump_result, restore_command, restore_postgres, restore_result,
};
use db_backup::error::BackupError;
use db_backup::tool::{Event, Step, ToolReport};

fn texts(items: &[&str]) -> Vec<String> {
    items.iter().map(|s| String::from(*s)).collect()
}

#[test]
fn dump_command_with_all_settings() {
    let run = dump_command("shop", "localhost", 5433, "alice", Some("pw"), Parallelism::new(3));
    assert_eq!(run.program, "pg_dump");
    assert_eq!(
        run.args,
        texts(&[
            "--host", "localhost", "--port", "5433", "--username", "alice", "--dbname", "shop",
            "--format", "custom", "--jobs", "3",
        ])
    );
    assert_eq!(run.env, vec![(String::from("PGPASSWORD"), String::from("pw"))]);
    assert_eq!(run.stdin, None);
}

#[test]
fn dump_command_without_jobs_or_password() {
    let run = dump_command("shop", "localhost", 1, "alice", None, None);
    assert_eq!(
        run.args,
        texts(&[
            "--host", "localhost", "--port", "1", "--username", "alice", "--dbname", "shop",
            "--format", "custom",
        ])
    );
    assert!(run.env.is_empty());
    assert_eq!(run.stdin, None);
}

#[test]
fn dump_command_with_many_workers() {
    let run = dump_command("d", "h", 65535, "u", None, Parallelism::new(128));
    assert_eq!(run.args[3], "65535");
    assert_eq!(run.args[10], "--jobs");
    assert_eq!(run.args[11], "128");
}

#[test]
fn dump_command_keeps_odd_names_whole() {
    let run = dump_command("my db", "--host", 0, "", Some(""), None);
    assert_eq!(
        run.args,
        texts(&[
            "--host", "--host", "--port", "0", "--username", "", "--dbname", "my db", "--format",
            "custom",
        ])
    );
    assert_eq!(run.env, vec![(String::from("PGPASSWORD"), String::new())]);
}

#[test]
fn restore_command_with_clean() {
    let dump = Bytes::from(vec![10u8, 20, 30]);
    let run = restore_command("shop", "localhost", 5432, "alice", Some("pw"), &dump, true);
    assert_eq!(run.program, "pg_restore");
    assert_eq!(
        run.args,
        texts(&[
            "--host", "localhost", "--port", "5432", "--username", "alice", "--dbname", "shop",
            "--clean", "--if-exists",
        ])
    );
    assert_eq!(run.env, vec![(String::from("PGPASSWORD"), String::from("pw"))]);
    assert_eq!(run.stdin.map(|b| b.to_vec()), Some(vec![10u8, 20, 30]));
}

#[test]
fn restore_command_without_clean() {
    let dump = Bytes::from(vec![10u8, 20, 30]);
    let run = restore_command("shop", "localhost", 5432, "alice", None, &dump, false);
    assert_eq!(
        run.args,
        texts(&["--host", "localhost", "--port", "5432", "--username", "alice", "--dbname", "shop"])
    );
    assert!(run.env.is_empty());
}

#[test]
fn dump_result_of_each_report() {
    let ok = dump_result(ToolReport::Exited {
        code: Some(0),
        stdout: vec![1, 2, 3],
        stderr: String::from("note"),
    });
    assert_eq!(ok.map(|b| b.to_vec()), Ok(vec![1u8, 2, 3]));
    let failed = dump_result(ToolReport::Exited {
        code: Some(3),
        stdout: vec![1, 2, 3],
        stderr: String::from("fatal"),
    });
    assert_eq!(
        failed,
        Err(BackupError::ToolFailed { code: Some(3), diagnostics: String::from("fatal") })
    );
    let not_started = dump_result(ToolReport::NotStarted { detail: String::from("enoent") });
    assert_eq!(not_started, Err(BackupError::Spawn { detail: String::from("enoent") }));
    let broken = dump_result(ToolReport::StreamBroken { detail: String::from("epipe") });
    assert_eq!(broken, Err(BackupError::Stream { detail: String::from("epipe") }));
}

#[test]
fn restore_result_of_each_report() {
    let ok = restore_result(ToolReport::Exited {
        code: Some(0),
        stdout: Vec::new(),
        stderr: String::new(),
    });
    assert_eq!(ok, Ok(()));
    let failed = restore_result(ToolReport::Exited {
        code: Some(1),
        stdout: Vec::new(),
        stderr: String::from("fatal"),
    });
    assert_eq!(
        failed,
        Err(BackupError::PartialRestore { code: Some(1), diagnostics: String::from("fatal") })
    );
    let not_started = restore_result(ToolReport::NotStarted { detail: String::from("enoent") });
    assert_eq!(not_started, Err(BackupError::Spawn { detail: String::from("enoent") }));
    let broken = restore_result(ToolReport::StreamBroken { detail: String::from("epipe") });
    assert_eq!(
        broken,
        Err(BackupError::PartialRestore { code: None, diagnostics: String::from("epipe") })
    );
}

#[test]
fn backup_postgres_steps() {
    let start = backup_postgres("shop", "h", 5432, "u", None, None, Event::Start);
    assert_eq!(start, Step::Run(dump_command("shop", "h", 5432, "u", None, None)));
    let done = backup_postgres(
        "shop",
        "h",
        5432,
        "u",
        None,
        None,
        Event::Finished(ToolReport::Exited {
            code: Some(0),
            stdout: vec![42],
            stderr: String::new(),
        }),
    );
    assert_eq!(done, Step::Done(Ok(Bytes::from(vec![42u8]))));
}

#[test]
fn restore_postgres_steps() {
    let dump = Bytes::from(vec![42u8]);
    let start = restore_postgres("shop", "h", 5432, "u", None, &dump, false, Event::Start);
    assert_eq!(start, Step::Run(restore_command("shop", "h", 5432, "u", None, &dump, false)));
    let empty = restore_postgres("shop", "h", 5432, "u", None, &Bytes::new(), false, Event::Start);
    assert_eq!(empty, Step::Done(Err(BackupError::EmptyDump)));
    let done = restore_postgres(
        "shop",
        "h",
        5432,
        "u",
        None,
        &dump,
        true,
        Event::Finished(ToolReport::Exited {
            code: Some(0),
            stdout: Vec::new(),
            stderr: String::new(),
        }),
    );
    assert_eq!(done, Step::Done(Ok(())));
}

#[test]
fn mysql_adapter_refuses_everything() {
    let config = MySqlConfig {
        host: String::from("h"),
        port: 3306,
        database: String::from("d"),
        username: String::from("u"),
        password: None,
    };
    let refusal = BackupError::UnsupportedBackend { engine: Engine::MySql };
    assert_eq!(backup_mysql(&config, Event::Start), Step::Done(Err(refusal.clone())));
    assert_eq!(
        restore_mysql(&config, &Bytes::from(vec![1u8]), Event::Start),
        Step::Done(Err(refusal))
    );
}
