use xsql::cli::{convert_args_to_paths, convert_sql, converted_file_name, dialect_label, folder_outcome, is_sql_file, ConvertArgs, Dialect};
use xsql::emit::{emit_mysql, emit_sqlite};
use xsql::emit_postgres::emit_postgres;
use xsql::ir::{Column, DataType, Schema, Table};
use xsql::parse::{parse_mysql_schema, parse_postgres_schema, parse_sqlite_schema};
use xsql::sqlmodel::SqlParseError;

fn users() -> Schema {
    Schema {
        tables: vec![Table {
            name: "users".to_string(),
            columns: vec![
                Column { name: "id".to_string(), data_type: DataType::Int, nullable: false, auto_increment: true, default: None },
                Column { name: "email".to_string(), data_type: DataType::Varchar(Some(120)), nullable: true, auto_increment: false, default: Some("'x'".to_string()) },
            ],
            primary_key: Some(vec!["id".to_string()]),
        }],
    }
}

#[test]
fn emit_mysql_exact() {
    assert_eq!(
        emit_mysql(&users()),
        "CREATE TABLE users (\n  id INT AUTO_INCREMENT NOT NULL,\n  email VARCHAR(120) DEFAULT 'x',\n  PRIMARY KEY (id)\n);\n\n"
    );
}

#[test]
fn emit_sqlite_exact() {
    assert_eq!(
        emit_sqlite(&users()),
        "CREATE TABLE users (\n  id INTEGER PRIMARY KEY AUTOINCREMENT NOT NULL,\n  email TEXT\n);\n\n"
    );
}

#[test]
fn emit_postgres_exact() {
    assert_eq!(
        emit_postgres(&users()),
        "CREATE TABLE users (\n  id INTEGER GENERATED BY DEFAULT AS IDENTITY NOT NULL,\n  email VARCHAR(120) DEFAULT 'x',\n  PRIMARY KEY (id)\n);\n\n"
    );
}

#[test]
fn emit_empty_schema_is_empty() {
    let s = Schema { tables: vec![] };
    assert_eq!(emit_mysql(&s), "");
    assert_eq!(emit_sqlite(&s), "");
}

#[test]
fn emit_mysql_varchar_default_length_and_types() {
    let s = Schema {
        tables: vec![Table {
            name: "t".to_string(),
            columns: vec![
                Column { name: "a".to_string(), data_type: DataType::Varchar(None), nullable: true, auto_increment: false, default: None },
                Column { name: "b".to_string(), data_type: DataType::Boolean, nullable: true, auto_increment: false, default: None },
                Column { name: "c".to_string(), data_type: DataType::Timestamp, nullable: true, auto_increment: false, default: None },
            ],
            primary_key: None,
        }],
    };
    assert_eq!(emit_mysql(&s), "CREATE TABLE t (\n  a VARCHAR(255),\n  b TINYINT(1),\n  c DATETIME\n);\n\n");
}

#[test]
fn parse_mysql_v1_columns() {
    let s = parse_mysql_schema("CREATE TABLE users (id INT AUTO_INCREMENT PRIMARY KEY, email VARCHAR(120) NOT NULL DEFAULT 'a', ok TINYINT(1), n TINYINT);").unwrap();
    let t = &s.tables[0];
    assert_eq!(t.name, "users");
    assert_eq!(t.primary_key, Some(vec!["id".to_string()]));
    assert!(t.columns[0].auto_increment);
    assert!(!t.columns[0].nullable);
    assert_eq!(t.columns[0].data_type, DataType::Int);
    assert_eq!(t.columns[1].data_type, DataType::Varchar(Some(120)));
    assert!(!t.columns[1].nullable);
    assert_eq!(t.columns[1].default, Some("'a'".to_string()));
    assert_eq!(t.columns[2].data_type, DataType::Boolean);
    assert_eq!(t.columns[3].data_type, DataType::Text);
}

#[test]
fn parse_sqlite_v1_columns() {
    let s = parse_sqlite_schema("CREATE TABLE s (id INTEGER PRIMARY KEY AUTOINCREMENT, name STRING, big INT8, a, PRIMARY KEY (name));").unwrap();
    let t = &s.tables[0];
    assert!(t.columns[0].auto_increment);
    assert_eq!(t.columns[1].data_type, DataType::Text);
    assert_eq!(t.columns[2].data_type, DataType::BigInt);
    assert_eq!(t.columns[3].data_type, DataType::Text);
    assert_eq!(t.primary_key, Some(vec!["name".to_string()]));
}

#[test]
fn parse_postgres_v1_columns() {
    let s = parse_postgres_schema("CREATE TABLE p (id BIGINT, name CHARACTER VARYING(20), at TIMESTAMP);").unwrap();
    let t = &s.tables[0];
    assert_eq!(t.columns[0].data_type, DataType::BigInt);
    assert_eq!(t.columns[1].data_type, DataType::Varchar(Some(20)));
    assert_eq!(t.columns[2].data_type, DataType::Timestamp);
    assert_eq!(t.primary_key, None);
}

#[test]
fn parse_rejects_bad_sql() {
    assert!(parse_mysql_schema("CREATE TABLE").is_err());
    assert!(parse_sqlite_schema("CREATE TABLE").is_err());
}

#[test]
fn parse_error_messages() {
    let e = SqlParseError::ParserError("Expected identifier".to_string());
    assert_eq!(e.message(), "sql parser error: Expected identifier");
    let e = SqlParseError::TokenizerError("Unterminated string".to_string());
    assert_eq!(e.message(), "sql parser error: Unterminated string");
    assert_eq!(SqlParseError::RecursionLimitExceeded.message(), "sql parser error: recursion limit exceeded");
    let v1 = parse_mysql_schema("CREATE TABLE (").unwrap_err();
    assert!(matches!(v1, SqlParseError::ParserError(_)));
    let converted = convert_sql(Dialect::Mysql, Dialect::Sqlite, "CREATE TABLE (").unwrap_err();
    assert_eq!(converted, v1.message());
    assert!(converted.starts_with("sql parser error: "));
}

#[test]
fn convert_mysql_to_sqlite() {
    let out = convert_sql(Dialect::Mysql, Dialect::Sqlite, "CREATE TABLE t (id INT AUTO_INCREMENT NOT NULL, name TEXT);").unwrap();
    assert_eq!(out, "CREATE TABLE t (\n  id INTEGER PRIMARY KEY AUTOINCREMENT NOT NULL,\n  name TEXT\n);\n\n");
    assert!(convert_sql(Dialect::Mysql, Dialect::Sqlite, "CREATE TABLE (").is_err());
}

#[test]
fn dialect_names() {
    assert_eq!(Dialect::parse("MySQL"), Ok(Dialect::Mysql));
    assert_eq!(Dialect::parse("pg"), Ok(Dialect::Postgres));
    assert_eq!(Dialect::parse("PostgreSQL"), Ok(Dialect::Postgres));
    assert_eq!(Dialect::parse("sqlite3"), Ok(Dialect::Sqlite));
    assert_eq!(
        Dialect::parse("Oracle"),
        Err("unknown dialect 'oracle'. Supported: mysql, postgres, sqlite".to_string())
    );
    for d in [Dialect::Mysql, Dialect::Postgres, Dialect::Sqlite] {
        assert_eq!(Dialect::parse(dialect_label(d)), Ok(d));
    }
}

#[test]
fn sql_file_names() {
    assert!(is_sql_file("schema.sql"));
    assert!(is_sql_file("schema.SQL"));
    assert!(is_sql_file("a.b.sql"));
    assert!(!is_sql_file(".sql"));
    assert!(!is_sql_file("schema.sql.bak"));
    assert!(!is_sql_file("sql"));
    assert!(!is_sql_file("schema."));
}

#[test]
fn converted_names() {
    assert_eq!(converted_file_name(&Some("schema".to_string()), Dialect::Postgres), "schema.postgres.sql");
    assert_eq!(converted_file_name(&None, Dialect::Sqlite), "schema.sqlite.sql");
}

#[test]
fn args_need_both_paths() {
    let mut a = ConvertArgs { input: None, output: Some("o".to_string()), from: "mysql".to_string(), to: "postgres".to_string() };
    assert_eq!(convert_args_to_paths(&a), Err("--input is required".to_string()));
    a.input = Some("i".to_string());
    a.output = None;
    assert_eq!(convert_args_to_paths(&a), Err("--output is required".to_string()));
    a.output = Some("o".to_string());
    assert_eq!(convert_args_to_paths(&a), Ok(("i".to_string(), "o".to_string())));
}

#[test]
fn folder_outcomes() {
    assert_eq!(folder_outcome(3, 0), Ok(()));
    assert_eq!(folder_outcome(3, 2), Err("converted 3 files, 2 failed".to_string()));
}

#[test]
fn emit_sqlite_writes_the_table_key() {
    let col = |n: &str, t: DataType, nl: bool| Column { name: n.to_string(), data_type: t, nullable: nl, auto_increment: false, default: None };
    let schema = Schema {
        tables: vec![
            Table { name: "parent".to_string(), columns: vec![col("id", DataType::BigInt, false)], primary_key: Some(vec!["id".to_string()]) },
            Table {
                name: "child".to_string(),
                columns: vec![col("a", DataType::Int, true), col("b", DataType::Int, true)],
                primary_key: Some(vec!["a".to_string(), "b".to_string()]),
            },
        ],
    };
    let out = emit_sqlite(&schema);
    assert!(out.contains("PRIMARY KEY (a, b)"));
    assert_eq!(
        out,
        "CREATE TABLE parent (\n  id INTEGER NOT NULL,\n  PRIMARY KEY (id)\n);\n\nCREATE TABLE child (\n  a INTEGER,\n  b INTEGER,\n  PRIMARY KEY (a, b)\n);\n\n"
    );
}

#[test]
fn refused_script_error() {
    let e = parse_sqlite_schema("CREATE TABLE t (id INT) AUTO_INCREMENT = 99999999999").unwrap_err();
    assert!(matches!(e, SqlParseError::Refused));
    assert!(e.message().starts_with("sql parser error: unsupported statement"));
}

#[test]
fn guard_accepts_keywords_used_as_names() {
    let s = parse_mysql_schema("CREATE TABLE t (top INT)").expect("top as a column name");
    assert_eq!(s.tables[0].columns[0].name, "top");
    let s = parse_mysql_schema(
        "CREATE TABLE t (\n  id INT AUTO_INCREMENT,\n  granted BOOLEAN,\n  channel TEXT,\n  name VARCHAR(20) DEFAULT 'Straße'\n) AUTO_INCREMENT=5;",
    )
    .expect("ordinary schema");
    assert_eq!(s.tables[0].columns.len(), 4);
    assert_eq!(s.tables[0].columns[3].default.as_deref(), Some("'Straße'"));
    let s = parse_sqlite_schema("CREATE TABLE t (a INT, replace INT)").expect("replace as a column name");
    assert_eq!(s.tables[0].columns.len(), 2);
    let s = parse_mysql_schema("CREATE TABLE t (a INT, replace INT)").expect("replace after a comma");
    assert_eq!(s.tables[0].columns.len(), 2);
}

fn column(name: &str, t: DataType, nullable: bool, auto: bool, default: Option<&str>) -> Column {
    Column { name: name.to_string(), data_type: t, nullable, auto_increment: auto, default: default.map(|d| d.to_string()) }
}

fn same_tables(a: &Schema, b: &Schema) {
    assert_eq!(a.tables.len(), b.tables.len());
    for (x, y) in a.tables.iter().zip(b.tables.iter()) {
        assert_eq!(x.name, y.name);
        assert_eq!(x.primary_key, y.primary_key);
        assert_eq!(x.columns.len(), y.columns.len());
        for (c, d) in x.columns.iter().zip(y.columns.iter()) {
            assert_eq!(c.name, d.name);
            assert_eq!(c.data_type, d.data_type);
            assert_eq!(c.nullable, d.nullable);
            assert_eq!(c.auto_increment, d.auto_increment);
            assert_eq!(c.default, d.default);
        }
    }
}

#[test]
fn mysql_round_trip() {
    let s = Schema {
        tables: vec![Table {
            name: "users".to_string(),
            columns: vec![
                column("id", DataType::Int, false, true, None),
                column("email", DataType::Varchar(None), true, false, Some("'x'")),
                column("ok", DataType::Boolean, false, false, None),
                column("at", DataType::Timestamp, true, false, None),
                column("n", DataType::Double, true, false, Some("1.5")),
            ],
            primary_key: Some(vec!["id".to_string()]),
        }],
    };
    let back = parse_mysql_schema(&emit_mysql(&s)).expect("read back");
    let mut expected = s.clone();
    expected.tables[0].columns[1].data_type = DataType::Varchar(Some(255));
    same_tables(&back, &expected);
}

#[test]
fn sqlite_round_trip() {
    let s = Schema {
        tables: vec![Table {
            name: "t".to_string(),
            columns: vec![
                column("a", DataType::BigInt, false, false, None),
                column("b", DataType::Boolean, true, false, None),
                column("c", DataType::Varchar(Some(3)), true, false, Some("'z'")),
            ],
            primary_key: Some(vec!["a".to_string(), "b".to_string()]),
        }],
    };
    let back = parse_sqlite_schema(&emit_sqlite(&s)).expect("read back");
    let mut expected = s.clone();
    expected.tables[0].columns[0].data_type = DataType::Int;
    expected.tables[0].columns[1].data_type = DataType::Int;
    expected.tables[0].columns[2].data_type = DataType::Text;
    expected.tables[0].columns[2].default = None;
    same_tables(&back, &expected);
}
