use std::collections::HashMap;
use xsql::alter::diff_to_alter_sql;
use xsql::diff::diff_v2_schemas;
use xsql::v2::{ColumnConstraint, V2Column, V2DataType, V2Schema, V2Table};

fn col(name: &str, bits: u8) -> V2Column {
    V2Column { name: name.to_string(), data_type: V2DataType::Integer { bits: Some(bits) }, constraints: vec![], annotations: vec![] }
}

fn table(name: &str, cols: Vec<V2Column>, pk: Option<Vec<&str>>) -> V2Table {
    V2Table {
        name: name.to_string(),
        columns: cols,
        primary_key: pk.map(|v| v.into_iter().map(|s| s.to_string()).collect()),
        constraints: vec![],
    }
}

fn schema(tables: Vec<V2Table>) -> V2Schema {
    V2Schema { tables, metadata: HashMap::new() }
}

#[test]
fn diff_of_identical_schemas_is_empty() {
    let s = schema(vec![table("a", vec![col("x", 32)], Some(vec!["x"])), table("b", vec![], None)]);
    let d = diff_v2_schemas(&s, &s);
    assert!(d.added_tables.is_empty());
    assert!(d.removed_tables.is_empty());
    assert!(d.changed_tables.is_empty());
    assert!(diff_to_alter_sql(&s, &s).is_empty());
}

#[test]
fn diff_reports_sorted_changes() {
    let old = schema(vec![
        table("zeta", vec![], None),
        table("users", vec![col("id", 32), col("age", 32), col("gone", 32)], Some(vec!["id"])),
        table("alpha", vec![], None),
    ]);
    let mut new_id = col("id", 64);
    new_id.constraints.push(ColumnConstraint::NotNull);
    let new = schema(vec![
        table("users", vec![col("zz", 32), new_id, col("age", 32), col("aa", 32)], Some(vec!["id", "age"])),
        table("new2", vec![], None),
        table("new1", vec![], None),
    ]);
    let d = diff_v2_schemas(&old, &new);
    let added: Vec<&str> = d.added_tables.iter().map(|t| t.name.as_str()).collect();
    assert_eq!(added, vec!["new1", "new2"]);
    assert_eq!(d.removed_tables, vec!["alpha".to_string(), "zeta".to_string()]);
    assert_eq!(d.changed_tables.len(), 1);
    let tc = &d.changed_tables[0];
    assert_eq!(tc.name, "users");
    let added_cols: Vec<&str> = tc.added_columns.iter().map(|c| c.name.as_str()).collect();
    assert_eq!(added_cols, vec!["aa", "zz"]);
    assert_eq!(tc.removed_columns, vec!["gone".to_string()]);
    assert_eq!(tc.changed_columns.len(), 1);
    assert_eq!(tc.changed_columns[0].name, "id");
    assert!(matches!(tc.changed_columns[0].before.data_type, V2DataType::Integer { bits: Some(32) }));
    assert!(matches!(tc.changed_columns[0].after.data_type, V2DataType::Integer { bits: Some(64) }));
    assert!(tc.pk_changed);

    let alter = diff_to_alter_sql(&old, &new);
    assert_eq!(
        alter,
        vec![
            "-- TODO: CREATE TABLE new1 (full definition)".to_string(),
            "-- TODO: CREATE TABLE new2 (full definition)".to_string(),
            "DROP TABLE alpha;".to_string(),
            "DROP TABLE zeta;".to_string(),
        ]
    );
}

#[test]
fn diff_uses_last_table_of_a_name() {
    let old = schema(vec![table("t", vec![col("a", 32)], None)]);
    let new = schema(vec![table("t", vec![col("b", 32)], None), table("t", vec![col("a", 32)], None)]);
    let d = diff_v2_schemas(&old, &new);
    assert!(d.changed_tables.is_empty());
    assert!(d.added_tables.is_empty());
}

#[test]
fn diff_reversed_swaps_added_and_removed() {
    let a = schema(vec![table("x", vec![], None), table("y", vec![], None)]);
    let b = schema(vec![table("y", vec![], None), table("z", vec![], None)]);
    let ab = diff_v2_schemas(&a, &b);
    let ba = diff_v2_schemas(&b, &a);
    let ab_added: Vec<String> = ab.added_tables.iter().map(|t| t.name.clone()).collect();
    let ba_added: Vec<String> = ba.added_tables.iter().map(|t| t.name.clone()).collect();
    assert_eq!(ab.removed_tables, ba_added);
    assert_eq!(ba.removed_tables, ab_added);
}

#[test]
fn pk_only_change_is_reported() {
    let old = schema(vec![table("t", vec![col("a", 32)], None)]);
    let new = schema(vec![table("t", vec![col("a", 32)], Some(vec!["a"]))]);
    let d = diff_v2_schemas(&old, &new);
    assert_eq!(d.changed_tables.len(), 1);
    assert!(d.changed_tables[0].pk_changed);
    assert!(d.changed_tables[0].added_columns.is_empty());
}

#[test]
fn new_schema_is_empty() {
    let s = V2Schema::new();
    assert!(s.tables.is_empty());
    assert!(s.metadata.is_empty());
    let d: V2Schema = Default::default();
    assert!(d.tables.is_empty());
}

#[test]
fn diff_accounts_for_every_table() {
    let old = schema(vec![table("a", vec![], None), table("b", vec![], None), table("c", vec![], None)]);
    let new = schema(vec![table("c", vec![], None), table("d", vec![], None), table("a", vec![], None)]);
    let d = diff_v2_schemas(&old, &new);
    let mut rebuilt: Vec<String> = old
        .tables
        .iter()
        .map(|t| t.name.clone())
        .filter(|n| !d.removed_tables.contains(n))
        .chain(d.added_tables.iter().map(|t| t.name.clone()))
        .collect();
    rebuilt.sort();
    let mut expected: Vec<String> = new.tables.iter().map(|t| t.name.clone()).collect();
    expected.sort();
    assert_eq!(rebuilt, expected);
    assert_eq!(d.removed_tables, vec!["b".to_string()]);
}

#[test]
fn diff_fully_reversed() {
    let mut a_id = col("id", 32);
    a_id.constraints.push(ColumnConstraint::NotNull);
    let a = schema(vec![table("t", vec![a_id, col("old", 32)], None), table("x", vec![], None)]);
    let b = schema(vec![table("t", vec![col("id", 64), col("new", 32)], Some(vec!["id"])), table("y", vec![], None)]);
    let ab = diff_v2_schemas(&a, &b);
    let ba = diff_v2_schemas(&b, &a);
    assert_eq!(ab.changed_tables.len(), 1);
    assert_eq!(ba.changed_tables.len(), 1);
    let (t1, t2) = (&ab.changed_tables[0], &ba.changed_tables[0]);
    assert_eq!(t1.name, t2.name);
    let added1: Vec<String> = t1.added_columns.iter().map(|c| c.name.clone()).collect();
    let added2: Vec<String> = t2.added_columns.iter().map(|c| c.name.clone()).collect();
    assert_eq!(added1, t2.removed_columns);
    assert_eq!(t1.removed_columns, added2);
    assert_eq!(t1.changed_columns.len(), 1);
    assert!(matches!(t1.changed_columns[0].before.data_type, V2DataType::Integer { bits: Some(32) }));
    assert!(matches!(t2.changed_columns[0].after.data_type, V2DataType::Integer { bits: Some(32) }));
    assert!(matches!(t2.changed_columns[0].before.data_type, V2DataType::Integer { bits: Some(64) }));
    assert_eq!(t1.pk_changed, t2.pk_changed);
}

#[test]
fn diff_ignores_order_metadata_and_table_constraints() {
    let old = schema(vec![table("t", vec![col("a", 32), col("b", 32)], None), table("u", vec![], None)]);
    let new = schema(vec![table("t", vec![col("a", 64), col("c", 32)], None), table("v", vec![], None)]);
    let mut t2 = table("t", vec![col("c", 32), col("a", 64)], None);
    t2.constraints.push(xsql::v2::Constraint::Check { name: None, expr: "a > 0".to_string() });
    let mut new2 = schema(vec![table("v", vec![], None), t2]);
    new2.metadata.insert("k".to_string(), "v".to_string());
    let d1 = diff_v2_schemas(&old, &new);
    let d2 = diff_v2_schemas(&old, &new2);
    let names = |d: &xsql::diff::V2Diff| -> (Vec<String>, Vec<String>, Vec<String>) {
        (
            d.added_tables.iter().map(|t| t.name.clone()).collect(),
            d.removed_tables.clone(),
            d.changed_tables.iter().map(|t| t.name.clone()).collect(),
        )
    };
    assert_eq!(names(&d1), names(&d2));
    let (c1, c2) = (&d1.changed_tables[0], &d2.changed_tables[0]);
    assert_eq!(c1.removed_columns, c2.removed_columns);
    let a1: Vec<String> = c1.added_columns.iter().map(|c| c.name.clone()).collect();
    let a2: Vec<String> = c2.added_columns.iter().map(|c| c.name.clone()).collect();
    assert_eq!(a1, a2);
    assert_eq!(c1.changed_columns.len(), c2.changed_columns.len());
    assert_eq!(c1.changed_columns[0].name, c2.changed_columns[0].name);
}
