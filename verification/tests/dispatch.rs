use write_ir::error::CoreError;
use write_ir::load_executor::{load, ConnectorKind, Datasource, PreviewFeatures, QueryExecutor};

fn ds(provider: &str) -> Datasource {
    Datasource { active_provider: provider.to_string() }
}

fn no_features() -> PreviewFeatures {
    PreviewFeatures { bits: 0 }
}

fn expect_ok(provider: &str, url: &str) -> QueryExecutor {
    match load(&ds(provider), no_features(), url) {
        Ok(e) => e,
        Err(CoreError::ConfigurationError(m)) => panic!("configuration error: {m}"),
        Err(CoreError::ConnectorError(m)) => panic!("connector error: {m}"),
    }
}

fn expect_configuration_error(provider: &str, url: &str) -> String {
    match load(&ds(provider), no_features(), url) {
        Ok(_) => panic!("expected a configuration error"),
        Err(CoreError::ConfigurationError(m)) => m,
        Err(CoreError::ConnectorError(m)) => panic!("connector error: {m}"),
    }
}

#[test]
fn unknown_provider_is_a_configuration_error() {
    let msg = expect_configuration_error("duckdb", "duckdb://x");
    assert_eq!(msg, "Unsupported connector type: duckdb");
}

#[test]
fn sqlite_loads_without_forced_transactions() {
    let e = expect_ok("sqlite", "file:dev.db");
    assert_eq!(e.connector, ConnectorKind::Sqlite);
    assert!(!e.force_transactions);
}

#[test]
fn mysql_loads_without_forced_transactions() {
    let e = expect_ok("mysql", "mysql://h/db");
    assert_eq!(e.connector, ConnectorKind::Mysql);
    assert!(!e.force_transactions);
}

#[test]
fn sqlserver_loads_the_mssql_connector() {
    let e = expect_ok("sqlserver", "sqlserver://h:1433;database=db");
    assert_eq!(e.connector, ConnectorKind::Mssql);
    assert!(!e.force_transactions);
}

#[test]
fn mongodb_loads_without_forced_transactions() {
    let e = expect_ok("mongodb", "mongodb://h/db");
    assert_eq!(e.connector, ConnectorKind::Mongo);
    assert!(!e.force_transactions);
}

#[test]
fn pgbouncer_true_forces_transactions() {
    let e = expect_ok("postgresql", "postgres://h/db?pgbouncer=true");
    assert_eq!(e.connector, ConnectorKind::Postgres);
    assert!(e.force_transactions);
}

#[test]
fn pgbouncer_numeric_true_forces_transactions() {
    let e = expect_ok("postgresql", "postgres://x/db?pgbouncer=1");
    assert_eq!(e.connector, ConnectorKind::Postgres);
    assert!(e.force_transactions);
}

#[test]
fn pgbouncer_false_or_absent_does_not_force_transactions() {
    let e = expect_ok("postgresql", "postgres://h/db?pgbouncer=false");
    assert!(!e.force_transactions);
    let e = expect_ok("postgresql", "postgres://h/db");
    assert!(!e.force_transactions);
    let e = expect_ok("postgresql", "postgres://h/db?pgbouncer=bogus");
    assert!(!e.force_transactions);
}

#[test]
fn the_last_pgbouncer_pair_wins() {
    let e = expect_ok("postgres", "postgres://h/db?pgbouncer=true&pgbouncer=false");
    assert!(!e.force_transactions);
    let e = expect_ok("postgres", "postgres://h/db?pgbouncer=false&pgbouncer=true");
    assert!(e.force_transactions);
}

#[test]
fn postgres_alias_is_recognized() {
    let e = expect_ok("postgres", "postgres://h/db");
    assert_eq!(e.connector, ConnectorKind::Postgres);
}

#[test]
fn cockroachdb_dispatches_to_the_postgres_connector() {
    let e = expect_ok("cockroachdb", "postgres://h/db?pgbouncer=true");
    assert_eq!(e.connector, ConnectorKind::Postgres);
    assert!(e.force_transactions);
}

#[test]
fn unparseable_url_on_the_postgres_branch_is_a_configuration_error() {
    let msg = expect_configuration_error("postgresql", "not a url at all");
    assert!(msg.starts_with("Error parsing connection string: "));
}

#[test]
fn the_provider_comparison_is_case_sensitive() {
    let msg = expect_configuration_error("PostgreSQL", "postgres://h/db");
    assert_eq!(msg, "Unsupported connector type: PostgreSQL");
}
