use pty_relay::db_datatype_trans::{DbType, convert_sql};

#[test]
fn test_limit_conversion() {
    let src = "select * from t limit 5, 10";
    let out = convert_sql(src, "mysql", "postgresql").unwrap();
    assert!(out.to_lowercase().contains("limit 10 offset 5"));
}

#[test]
fn test_create_table_auto_inc() {
    let src = "CREATE TABLE `users` ( `id` int AUTO_INCREMENT PRIMARY KEY ) ENGINE=InnoDB DEFAULT CHARSET=utf8";
    let out = convert_sql(src, "mysql", "postgresql").unwrap();
    assert!(out.contains("\"users\""));
    assert!(out.contains("SERIAL PRIMARY KEY"));
    assert!(!out.to_lowercase().contains("engine="));
    assert!(!out.to_lowercase().contains("charset"));
}

#[test]
fn test_datatypes_functions() {
    let src = "CREATE TABLE t ( f1 tinyint(1), f2 datetime, f3 double, f4 float, f5 mediumint, f6 tinyint, f7 int unsigned ); select now(), ifnull(a,0), from_unixtime(ts) from t limit 0, 1";
    let out = convert_sql(src, "mysql", "postgresql").unwrap();
    println!("{}", out);
    let l = out.to_lowercase();
    assert!(l.contains("boolean"));
    assert!(l.contains("timestamp"));
    assert!(l.contains("double precision"));
    assert!(l.contains("real"));
    assert!(l.contains("integer"));
    assert!(l.contains("smallint"));
    assert!(l.contains("current_timestamp"));
    assert!(l.contains("coalesce("));
    assert!(l.contains("to_timestamp("));
    assert!(l.contains("limit 1 offset 0"));
    assert!(!l.contains("unsigned"));
}

#[test]
fn test_pg_limit_conversion() {
    let src = "select * from t limit 10 offset 5";
    let out = convert_sql(src, "postgresql", "mysql").unwrap();
    assert!(out.to_lowercase().contains("limit 5, 10"));
}

#[test]
fn test_pg_datatypes_functions() {
    let src = "CREATE TABLE t ( f1 boolean, f2 timestamp, f3 double precision, f4 real, f5 integer, f6 bigserial, f7 serial ); select current_timestamp, coalesce(a,0), to_timestamp(ts) from t limit 1 offset 0";
    let out = convert_sql(src, "postgresql", "mysql").unwrap();
    let l = out.to_lowercase();
    assert!(l.contains("tinyint(1)"));
    assert!(l.contains("datetime"));
    assert!(l.contains("double"));
    assert!(l.contains("float"));
    assert!(l.contains("int"));
    assert!(l.contains("bigint auto_increment"));
    assert!(l.contains("int auto_increment"));
    assert!(l.contains("now()"));
    assert!(l.contains("ifnull("));
    assert!(l.contains("from_unixtime("));
    assert!(l.contains("limit 0, 1"));
}

#[test]
fn same_dialect_returns_input_unchanged() {
    let src = "select `a` from t limit 5, 10";
    let out = convert_sql(src, "mysql", "mysql").unwrap();
    assert_eq!(out, src);
}

#[test]
fn unknown_dialect_is_reported() {
    let err = convert_sql("select 1", "foo", "mysql").unwrap_err();
    assert_eq!(err, "unsupported db type: foo");
    let err = convert_sql("select 1", "mysql", " Bar ").unwrap_err();
    assert_eq!(err, "unsupported db type: bar");
}

#[test]
fn missing_converter_is_reported() {
    let err = convert_sql("select 1", "mysql", "oracle").unwrap_err();
    assert_eq!(err, "converter not found: mysql -> oracle");
    let err = convert_sql("select 1", "sqlite3", "MSSQL").unwrap_err();
    assert_eq!(err, "converter not found: sqlite -> sqlserver");
}

#[test]
fn dialect_names_accept_aliases_and_case() {
    assert!(matches!(DbType::parse("  MySQL  "), Ok(DbType::Mysql)));
    assert!(matches!(DbType::parse("pgsql"), Ok(DbType::Postgresql)));
    assert!(matches!(DbType::parse("postgres"), Ok(DbType::Postgresql)));
    assert!(matches!(DbType::parse("sqlite3"), Ok(DbType::Sqlite)));
    assert!(matches!(DbType::parse("mssql"), Ok(DbType::SqlServer)));
    assert!(matches!(DbType::parse("ORACLE"), Ok(DbType::Oracle)));
    assert!(DbType::parse("mongodb").is_err());
}

#[test]
fn word_boundaries_protect_identifiers() {
    let out = convert_sql("select print_time from t", "mysql", "postgresql").unwrap();
    assert_eq!(out, "select print_time from t");
    let out = convert_sql("select POINT from t", "mysql", "postgresql").unwrap();
    assert_eq!(out, "select POINT from t");
}
