use db_backup::databases::configs::{
    password_or_empty, Engine, MySqlConfig, Parallelism, PostgresConfig, SourceConfig,
};
use db_backup::decimal::{decimal_text, signed_decimal_text};

#[test]
fn decimal_text_of_zero() {
    assert_eq!(decimal_text(0), "0");
}

#[test]
fn decimal_text_of_single_digits() {
    assert_eq!(decimal_text(1), "1");
    assert_eq!(decimal_text(7), "7");
    assert_eq!(decimal_text(9), "9");
}

#[test]
fn decimal_text_has_no_leading_zero() {
    assert_eq!(decimal_text(10), "10");
    assert_eq!(decimal_text(100), "100");
    assert_eq!(decimal_text(1005), "1005");
}

#[test]
fn decimal_text_of_usual_ports() {
    assert_eq!(decimal_text(5432), "5432");
    assert_eq!(decimal_text(3306), "3306");
    assert_eq!(decimal_text(65535), "65535");
}

#[test]
fn decimal_text_of_the_largest_number() {
    assert_eq!(decimal_text(u32::MAX), "4294967295");
}

#[test]
fn decimal_text_agrees_with_std() {
    let samples: [u32; 9] = [0, 9, 10, 11, 99, 101, 12345, 1_000_000, 4_000_000_000];
    for n in samples {
        assert_eq!(decimal_text(n), format!("{}", n));
    }
}

#[test]
fn decimal_text_reads_back() {
    for n in 0u32..2000 {
        assert_eq!(decimal_text(n).parse::<u32>().ok(), Some(n));
    }
}

#[test]
fn parallelism_refuses_zero() {
    assert_eq!(Parallelism::new(0), None);
}

#[test]
fn parallelism_keeps_its_number() {
    assert_eq!(Parallelism::new(1).map(|p| p.workers()), Some(1));
    assert_eq!(Parallelism::new(8).map(|p| p.workers()), Some(8));
    assert_eq!(Parallelism::new(u32::MAX).map(|p| p.workers()), Some(u32::MAX));
}

#[test]
fn absent_password_is_the_empty_one() {
    assert_eq!(password_or_empty(&None), "");
}

#[test]
fn supplied_password_is_kept() {
    assert_eq!(password_or_empty(&Some(String::from("s3cret"))), "s3cret");
    assert_eq!(password_or_empty(&Some(String::new())), "");
}

#[test]
fn configuration_names_its_engine() {
    let pg = SourceConfig::PG(PostgresConfig {
        host: String::from("db.example.org"),
        port: 5432,
        database: String::from("shop"),
        username: String::from("alice"),
        password: None,
    });
    let my = SourceConfig::MySql(MySqlConfig {
        host: String::from("db.example.org"),
        port: 3306,
        database: String::from("shop"),
        username: String::from("alice"),
        password: None,
    });
    assert_eq!(pg.engine(), Engine::Postgres);
    assert_eq!(my.engine(), Engine::MySql);
}

#[test]
fn signed_decimal_text_of_each_sign() {
    assert_eq!(signed_decimal_text(0), "0");
    assert_eq!(signed_decimal_text(1), "1");
    assert_eq!(signed_decimal_text(-1), "-1");
    assert_eq!(signed_decimal_text(127), "127");
    assert_eq!(signed_decimal_text(-15), "-15");
    assert_eq!(signed_decimal_text(i32::MAX), "2147483647");
    assert_eq!(signed_decimal_text(i32::MIN), "-2147483648");
}

#[test]
fn engine_names() {
    assert_eq!(Engine::Postgres.name(), "PostgreSQL");
    assert_eq!(Engine::MySql.name(), "MySQL");
}
