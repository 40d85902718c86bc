use xsql::emit_v2::emit_warnings;
use std::collections::HashMap;
use xsql::emit_v2::{emit_mysql_v2, emit_sqlite_v2};
use xsql::v2::{ColumnConstraint, Constraint, ForeignKey, V2Column, V2DataType, V2Schema, V2Table};

fn sample_fk_schema() -> V2Schema {
    let m = HashMap::new();
    V2Schema {
        tables: vec![
            V2Table {
                name: "parent".to_string(),
                columns: vec![V2Column { name: "id".to_string(), data_type: V2DataType::Integer { bits: Some(64) }, constraints: vec![ColumnConstraint::NotNull], annotations: vec![] }],
                primary_key: Some(vec!["id".to_string()]),
                constraints: vec![],
            },
            V2Table {
                name: "child".to_string(),
                columns: vec![
                    V2Column { name: "a".to_string(), data_type: V2DataType::Integer { bits: Some(32) }, constraints: vec![], annotations: vec![] },
                    V2Column { name: "b".to_string(), data_type: V2DataType::Integer { bits: Some(32) }, constraints: vec![], annotations: vec![] },
                ],
                primary_key: Some(vec!["a".to_string(), "b".to_string()]),
                constraints: vec![Constraint::ForeignKey(ForeignKey { name: Some("fk_parent".to_string()), columns: vec!["a".to_string()], referenced_table: "parent".to_string(), referenced_columns: vec!["id".to_string()], on_update: Some("NO ACTION".to_string()), on_delete: Some("CASCADE".to_string()) })],
            },
        ],
        metadata: m,
    }
}

#[test]
fn emit_fk_actions_mysql() {
    let schema = sample_fk_schema();
    let sql = emit_mysql_v2(&schema);
    assert!(sql.contains("ON DELETE CASCADE"));
    assert!(sql.contains("ON UPDATE NO ACTION"));
}

#[test]
fn emit_composite_pk_sqlite() {
    let schema = sample_fk_schema();
    let sql = emit_sqlite_v2(&schema);
    assert!(sql.contains("PRIMARY KEY (a, b)"));
}

#[test]
fn emit_mysql_v2_exact_text() {
    let schema = sample_fk_schema();
    let sql = emit_mysql_v2(&schema);
    assert_eq!(
        sql,
        "CREATE TABLE parent (\n  id BIGINT NOT NULL,\n  PRIMARY KEY (id)\n);\n\nCREATE TABLE child (\n  a INT,\n  b INT,\n  PRIMARY KEY (a, b),\n  CONSTRAINT fk_parent FOREIGN KEY (a) REFERENCES parent (id) ON DELETE CASCADE ON UPDATE NO ACTION\n);\n\n"
    );
}

#[test]
fn emit_sqlite_v2_exact_text() {
    let schema = sample_fk_schema();
    let sql = emit_sqlite_v2(&schema);
    assert_eq!(
        sql,
        "CREATE TABLE parent (\n  id INTEGER NOT NULL,\n  PRIMARY KEY (id)\n);\n\nCREATE TABLE child (\n  a INTEGER,\n  b INTEGER,\n  PRIMARY KEY (a, b),\n  CONSTRAINT fk_parent FOREIGN KEY (a) REFERENCES parent (id) ON DELETE CASCADE ON UPDATE NO ACTION\n);\n\n"
    );
}

#[test]
fn emit_warns_about_custom_types() {
    let mut s = V2Schema::new();
    s.tables.push(V2Table {
        name: "t".to_string(),
        columns: vec![
            V2Column { name: "a".to_string(), data_type: V2DataType::Custom("JSONB".to_string()), constraints: vec![], annotations: vec![] },
            V2Column { name: "b".to_string(), data_type: V2DataType::Text, constraints: vec![], annotations: vec![] },
        ],
        primary_key: None,
        constraints: vec![],
    });
    assert_eq!(emit_warnings(&s), vec!["warning: t.a has the type JSONB, which is written as it is".to_string()]);
    assert!(emit_warnings(&V2Schema::new()).is_empty());
}
