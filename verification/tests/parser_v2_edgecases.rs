use xsql::parse::{parse_mysql_schema_v2, parse_postgres_schema_v2, parse_sqlite_schema_v2};
use xsql::v2::{ColumnConstraint, Constraint, V2DataType};

#[test]
fn parse_postgres_composite_pk_and_fk() {
    let sql = r#"
    CREATE TABLE parent (id BIGINT PRIMARY KEY);
    CREATE TABLE child (
        a INT,
        b INT,
        PRIMARY KEY (a, b),
        CONSTRAINT fk_parent FOREIGN KEY (a) REFERENCES parent(id) ON DELETE CASCADE
    );
    "#;

    let schema = parse_postgres_schema_v2(sql).expect("parse v2");
    assert_eq!(schema.tables.len(), 2);
    let child = schema
        .tables
        .iter()
        .find(|t| t.name == "child")
        .expect("child");
    assert_eq!(child.primary_key.as_ref().unwrap().len(), 2);
    assert!(child
        .constraints
        .iter()
        .any(|c| matches!(c, Constraint::ForeignKey(_))));
}

#[test]
fn parse_mysql_check_and_unique_multi() {
    let sql = r#"
    CREATE TABLE t (
        x INT,
        y INT,
        UNIQUE KEY ux_xy (x,y),
        CHECK (x > 0 AND y > 0)
    );
    "#;
    let schema = parse_mysql_schema_v2(sql).expect("parse v2");
    let t = schema.tables.iter().find(|t| t.name == "t").expect("t");
    assert!(t
        .constraints
        .iter()
        .any(|c| matches!(c, Constraint::Unique { .. })));
    assert!(t
        .constraints
        .iter()
        .any(|c| matches!(c, Constraint::Check { .. })));
}

#[test]
fn parse_sqlite_autoinc_and_default() {
    let sql = r#"
    CREATE TABLE s (
        id INTEGER PRIMARY KEY AUTOINCREMENT,
        created_at TEXT DEFAULT (CURRENT_TIMESTAMP)
    );
    "#;
    let schema = parse_sqlite_schema_v2(sql).expect("parse v2");
    let s = schema.tables.iter().find(|t| t.name == "s").expect("s");
    assert!(s.columns.iter().any(|c| c
        .constraints
        .iter()
        .any(|cc| matches!(cc, ColumnConstraint::AutoIncrement))));
    assert!(s.columns.iter().any(|c| c
        .constraints
        .iter()
        .any(|cc| matches!(cc, ColumnConstraint::Default(_)))));
}

#[test]
fn v2_types_by_keyword() {
    let sql = "CREATE TABLE t (a BIGINT, b SMALLINT, c VARCHAR(40), d TEXT, e TIMESTAMP, f DOUBLE PRECISION, g REAL, h UUID);";
    let schema = parse_postgres_schema_v2(sql).expect("parse v2");
    let cols = &schema.tables[0].columns;
    assert!(matches!(cols[0].data_type, V2DataType::Integer { bits: Some(64) }));
    assert!(matches!(cols[1].data_type, V2DataType::Integer { bits: Some(16) }));
    assert!(matches!(cols[2].data_type, V2DataType::Varchar(Some(40))));
    assert!(matches!(cols[3].data_type, V2DataType::Text));
    assert!(matches!(cols[4].data_type, V2DataType::Timestamp));
    assert!(matches!(cols[5].data_type, V2DataType::Double));
    assert!(matches!(cols[6].data_type, V2DataType::Float));
    match &cols[7].data_type {
        V2DataType::Custom(s) => assert_eq!(s, "UUID"),
        other => panic!("unexpected {:?}", other),
    }
}

#[test]
fn v2_mysql_boolean_and_auto_increment() {
    let sql = "CREATE TABLE t (id INT AUTO_INCREMENT NOT NULL, flag TINYINT(1), ok BOOL);";
    let schema = parse_mysql_schema_v2(sql).expect("parse v2");
    let cols = &schema.tables[0].columns;
    assert!(matches!(cols[0].data_type, V2DataType::Integer { bits: Some(32) }));
    assert!(matches!(cols[0].constraints[0], ColumnConstraint::AutoIncrement));
    assert!(matches!(cols[0].constraints[1], ColumnConstraint::NotNull));
    assert!(matches!(cols[1].data_type, V2DataType::Boolean));
    assert!(matches!(cols[2].data_type, V2DataType::Boolean));
    assert!(schema.metadata.is_empty());
}

#[test]
fn v2_unhandled_option_is_annotated() {
    let sql = "CREATE TABLE t (a INT UNIQUE);";
    let schema = parse_postgres_schema_v2(sql).expect("parse v2");
    let a = &schema.tables[0].columns[0];
    assert!(a.constraints.is_empty());
    assert_eq!(a.annotations.len(), 1);
    assert!(a.annotations[0].starts_with("unhandled column option: "));
}

#[test]
fn v2_parse_error_is_reported() {
    assert!(parse_mysql_schema_v2("CREATE TABLE (").is_err());
    assert!(parse_sqlite_schema_v2("CREATE TABLE (").is_err());
    assert!(parse_postgres_schema_v2("CREATE TABLE (").is_err());
    let m = parse_mysql_schema_v2("CREATE TABLE (").unwrap_err();
    assert!(m.starts_with("sql parser error: "), "{m}");
}

#[test]
fn v2_non_table_statements_are_skipped() {
    let schema = parse_postgres_schema_v2("SELECT 1; CREATE TABLE a (x INT);").expect("parse v2");
    assert_eq!(schema.tables.len(), 1);
    assert_eq!(schema.tables[0].name, "a");
}

#[test]
fn v2_foreign_key_actions_are_kept() {
    let sql = "CREATE TABLE parent (id BIGINT PRIMARY KEY); CREATE TABLE child (a INT, b INT, PRIMARY KEY (a, b), CONSTRAINT fk_parent FOREIGN KEY (a) REFERENCES parent(id) ON DELETE CASCADE);";
    let schema = parse_postgres_schema_v2(sql).expect("parse v2");
    let child = schema.tables.iter().find(|t| t.name == "child").expect("child");
    let fk = child
        .constraints
        .iter()
        .find_map(|c| match c {
            Constraint::ForeignKey(fk) => Some(fk),
            _ => None,
        })
        .expect("fk");
    assert_eq!(fk.on_delete.as_deref(), Some("CASCADE"));
    assert_eq!(fk.on_update, None);
    let sql = "CREATE TABLE c (a INT, FOREIGN KEY (a) REFERENCES p(id) ON UPDATE SET NULL ON DELETE NO ACTION);";
    let schema = parse_mysql_schema_v2(sql).expect("parse v2");
    let Constraint::ForeignKey(fk) = &schema.tables[0].constraints[0] else { panic!("expected a foreign key") };
    assert_eq!(fk.on_update.as_deref(), Some("SET NULL"));
    assert_eq!(fk.on_delete.as_deref(), Some("NO ACTION"));
}

#[test]
fn scripts_that_could_panic_the_parser_are_refused() {
    for sql in [
        "CREATE TABLE t (id INT) AUTO_INCREMENT=4294967296",
        "SELECT TOP 99999999999999999999999 * FROM t",
        "FLUSH RELAY LOGS FOR CHANNEL",
        "GRANT SELECT ON t TO u GRANTED BY",
    ] {
        let e = parse_postgres_schema_v2(sql).unwrap_err();
        assert!(e.contains("unsupported statement"), "{e}");
    }
    let e = parse_mysql_schema_v2("REPLACE INTO").unwrap_err();
    assert!(e.contains("unsupported statement"), "{e}");
    // the column option AUTO_INCREMENT and words that merely contain a keyword are fine
    let s = parse_mysql_schema_v2("CREATE TABLE t (id INT AUTO_INCREMENT, stop INT, desktop TEXT);").expect("parse v2");
    assert_eq!(s.tables[0].columns.len(), 3);
}

#[test]
fn sqlite_readers_agree() {
    let sql = "CREATE TABLE a (id INTEGER PRIMARY KEY AUTOINCREMENT, name TEXT); CREATE TABLE b (x INT, y REAL);";
    let v1 = xsql::parse::parse_sqlite_schema(sql).expect("v1");
    let v2 = parse_sqlite_schema_v2(sql).expect("v2");
    assert_eq!(v1.tables.len(), v2.tables.len());
    for (t1, t2) in v1.tables.iter().zip(v2.tables.iter()) {
        assert_eq!(t1.name, t2.name);
        let c1: Vec<&str> = t1.columns.iter().map(|c| c.name.as_str()).collect();
        let c2: Vec<&str> = t2.columns.iter().map(|c| c.name.as_str()).collect();
        assert_eq!(c1, c2);
    }
    assert!(xsql::parse::parse_sqlite_schema("CREATE TABLE (").is_err());
    assert!(parse_sqlite_schema_v2("CREATE TABLE (").is_err());
}
