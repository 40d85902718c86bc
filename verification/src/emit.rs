//! Emitting `CREATE TABLE` DDL from the minimal IR, for MySQL and SQLite.

use vstd::prelude::*;
use crate::ir::{Column, ColumnView, DataType, Schema, Table, TableView};
use crate::text::{append_decimal, append_joined, decimal, join};

verus! {

// ---------------------------------------------------------------------------
// MySQL

/// The MySQL spelling of a column type.
pub open spec fn mysql_type_text(t: DataType) -> Seq<char> {
    match t {
        DataType::Int => "INT"@,
        DataType::BigInt => "BIGINT"@,
        DataType::Boolean => "TINYINT(1)"@,
        DataType::Float => "FLOAT"@,
        DataType::Double => "DOUBLE"@,
        DataType::Varchar(Some(n)) => "VARCHAR("@ + decimal(n as nat) + ")"@,
        DataType::Varchar(None) => "VARCHAR(255)"@,
        DataType::Text => "TEXT"@,
        DataType::Timestamp => "DATETIME"@,
    }
}

/// `text` when `cond` holds, nothing otherwise.
pub open spec fn text_if(cond: bool, text: Seq<char>) -> Seq<char> {
    if cond { text } else { Seq::empty() }
}

/// One column line of a MySQL table; `comma` says whether a comma follows.
pub open spec fn mysql_column_line(c: ColumnView, comma: bool) -> Seq<char> {
    "  "@ + c.name + " "@ + mysql_type_text(c.data_type)
        + text_if(c.auto_increment, " AUTO_INCREMENT"@)
        + text_if(!c.nullable, " NOT NULL"@)
        + (match c.default { Some(d) => " DEFAULT "@ + d, None => Seq::empty() })
        + text_if(comma, ","@)
        + "\n"@
}

/// The first `n` column lines of a MySQL table. A column line ends with a comma
/// unless it is the last column and the table has no primary key.
pub open spec fn mysql_column_lines(cols: Seq<ColumnView>, has_pk: bool, n: nat) -> Seq<char>
    decreases n,
{
    if n == 0 {
        Seq::empty()
    } else {
        mysql_column_lines(cols, has_pk, (n - 1) as nat)
            + mysql_column_line(cols[n - 1], n - 1 < cols.len() - 1 || has_pk)
    }
}

pub open spec fn mysql_table_text(t: TableView) -> Seq<char> {
    "CREATE TABLE "@ + t.name + " (\n"@
        + mysql_column_lines(t.columns, t.primary_key is Some, t.columns.len())
        + (match t.primary_key {
            Some(pk) => "  PRIMARY KEY ("@ + join(pk, ", "@) + ")\n"@,
            None => Seq::empty(),
        })
        + ");\n\n"@
}

/// The MySQL DDL of the first `n` tables.
pub open spec fn mysql_schema_text(tables: Seq<TableView>, n: nat) -> Seq<char>
    decreases n,
{
    if n == 0 {
        Seq::empty()
    } else {
        mysql_schema_text(tables, (n - 1) as nat) + mysql_table_text(tables[n - 1])
    }
}

fn append_mysql_type(out: &mut String, t: &DataType)
    ensures
        final(out)@ == old(out)@ + mysql_type_text(*t),
{
    match t {
        DataType::Int => out.append("INT"),
        DataType::BigInt => out.append("BIGINT"),
        DataType::Boolean => out.append("TINYINT(1)"),
        DataType::Float => out.append("FLOAT"),
        DataType::Double => out.append("DOUBLE"),
        DataType::Varchar(Some(n)) => {
            out.append("VARCHAR(");
            append_decimal(out, *n as u64);
            out.append(")");
            proof {
                assert(final(out)@ =~= old(out)@ + mysql_type_text(*t));
            }
        },
        DataType::Varchar(None) => out.append("VARCHAR(255)"),
        DataType::Text => out.append("TEXT"),
        DataType::Timestamp => out.append("DATETIME"),
    }
}

#[verifier::rlimit(40)]
fn append_mysql_column(out: &mut String, c: &Column, comma: bool)
    ensures
        final(out)@ == old(out)@ + mysql_column_line(c@, comma),
{
    out.append("  ");
    out.append(c.name.as_str());
    out.append(" ");
    append_mysql_type(out, &c.data_type);
    if c.auto_increment {
        out.append(" AUTO_INCREMENT");
    }
    if !c.nullable {
        out.append(" NOT NULL");
    }
    if let Some(default) = &c.default {
        out.append(" DEFAULT ");
        out.append(default.as_str());
    }
    if comma {
        out.append(",");
    }
    out.append("\n");
    proof {
        assert(final(out)@ =~= old(out)@ + mysql_column_line(c@, comma));
    }
}

fn append_mysql_table(out: &mut String, table: &Table)
    ensures
        final(out)@ == old(out)@ + mysql_table_text(table@),
{
    let ghost start = out@;
    let ghost t = table@;
    out.append("CREATE TABLE ");
    out.append(table.name.as_str());
    out.append(" (\n");
    let ghost head = out@;
    let n = table.columns.len();
    for i in 0..n
        invariant
            n == table.columns@.len(),
            t == table@,
            out@ == head + mysql_column_lines(t.columns, t.primary_key is Some, i as nat),
    {
        let comma = i < n - 1 || table.primary_key.is_some();
        append_mysql_column(out, &table.columns[i], comma);
        proof {
            assert(t.columns[i as int] == table.columns@[i as int]@);
            assert(out@ =~= head + mysql_column_lines(t.columns, t.primary_key is Some, (i + 1) as nat));
        }
    }
    let ghost body = out@;
    if let Some(pk) = &table.primary_key {
        out.append("  PRIMARY KEY (");
        append_joined(out, pk, ", ");
        out.append(")\n");
    }
    out.append(");\n\n");
    proof {
        assert(out@ =~= start + mysql_table_text(t));
    }
}

pub fn emit_mysql(schema: &Schema) -> (out: String)
    ensures
        out@ == mysql_schema_text(schema@, schema@.len()),
{
    let mut out = String::new();
    let n = schema.tables.len();
    for i in 0..n
        invariant
            n == schema.tables@.len(),
            out@ == mysql_schema_text(schema@, i as nat),
    {
        append_mysql_table(&mut out, &schema.tables[i]);
        proof {
            assert(schema@[i as int] == schema.tables@[i as int]@);
        }
    }
    out
}

// ---------------------------------------------------------------------------
// SQLite

/// The SQLite spelling of a column type: integers and booleans are `INTEGER`,
/// everything else is `TEXT`.
pub open spec fn sqlite_type_text(t: DataType) -> Seq<char> {
    match t {
        DataType::Boolean | DataType::Int | DataType::BigInt => "INTEGER"@,
        _ => "TEXT"@,
    }
}

pub open spec fn sqlite_column_line(c: ColumnView, comma: bool) -> Seq<char> {
    "  "@ + c.name + " "@ + sqlite_type_text(c.data_type)
        + text_if(c.auto_increment, " PRIMARY KEY AUTOINCREMENT"@)
        + text_if(!c.nullable, " NOT NULL"@)
        + text_if(comma, ","@)
        + "\n"@
}

/// The first `n` column lines of a SQLite table. A column line ends with a comma
/// unless it is the last column and no table key line follows.
pub open spec fn sqlite_column_lines(cols: Seq<ColumnView>, has_key: bool, n: nat) -> Seq<char>
    decreases n,
{
    if n == 0 {
        Seq::empty()
    } else {
        sqlite_column_lines(cols, has_key, (n - 1) as nat)
            + sqlite_column_line(cols[n - 1], n - 1 < cols.len() - 1 || has_key)
    }
}

/// Some column is written `PRIMARY KEY AUTOINCREMENT`.
pub open spec fn has_auto_increment_column(cols: Seq<ColumnView>) -> bool {
    exists|i: int| 0 <= i < cols.len() && #[trigger] cols[i].auto_increment
}

/// The key written as a `PRIMARY KEY (...)` line of a SQLite table: the table's
/// primary key, unless an auto-increment column already is the key (SQLite allows
/// one primary key per table).
pub open spec fn sqlite_table_key(t: TableView) -> Option<Seq<Seq<char>>> {
    if has_auto_increment_column(t.columns) { None } else { t.primary_key }
}

pub open spec fn sqlite_table_text(t: TableView) -> Seq<char> {
    "CREATE TABLE "@ + t.name + " (\n"@
        + sqlite_column_lines(t.columns, sqlite_table_key(t) is Some, t.columns.len())
        + (match sqlite_table_key(t) {
            Some(pk) => "  PRIMARY KEY ("@ + join(pk, ", "@) + ")\n"@,
            None => Seq::empty(),
        })
        + ");\n\n"@
}

pub open spec fn sqlite_schema_text(tables: Seq<TableView>, n: nat) -> Seq<char>
    decreases n,
{
    if n == 0 {
        Seq::empty()
    } else {
        sqlite_schema_text(tables, (n - 1) as nat) + sqlite_table_text(tables[n - 1])
    }
}

#[verifier::rlimit(40)]
fn append_sqlite_column(out: &mut String, c: &Column, comma: bool)
    ensures
        final(out)@ == old(out)@ + sqlite_column_line(c@, comma),
{
    out.append("  ");
    out.append(c.name.as_str());
    out.append(" ");
    match c.data_type {
        DataType::Boolean | DataType::Int | DataType::BigInt => out.append("INTEGER"),
        _ => out.append("TEXT"),
    }
    if c.auto_increment {
        out.append(" PRIMARY KEY AUTOINCREMENT");
    }
    if !c.nullable {
        out.append(" NOT NULL");
    }
    if comma {
        out.append(",");
    }
    out.append("\n");
    proof {
        assert(final(out)@ =~= old(out)@ + sqlite_column_line(c@, comma));
    }
}

fn any_auto_increment(cols: &Vec<Column>) -> (r: bool)
    ensures
        r == has_auto_increment_column(crate::ir::columns_view(cols@)),
{
    let ghost cv = crate::ir::columns_view(cols@);
    for i in 0..cols.len()
        invariant
            cv == crate::ir::columns_view(cols@),
            forall|k: int| 0 <= k < i ==> !(#[trigger] cv[k]).auto_increment,
    {
        if cols[i].auto_increment {
            assert(cv[i as int].auto_increment);
            return true;
        }
    }
    false
}

fn append_sqlite_table(out: &mut String, table: &Table)
    ensures
        final(out)@ == old(out)@ + sqlite_table_text(table@),
{
    let ghost start = out@;
    let ghost t = table@;
    out.append("CREATE TABLE ");
    out.append(table.name.as_str());
    out.append(" (\n");
    let ghost head = out@;
    let n = table.columns.len();
    let auto = any_auto_increment(&table.columns);
    let write_key = !auto && table.primary_key.is_some();
    assert(write_key == (sqlite_table_key(t) is Some));
    for i in 0..n
        invariant
            n == table.columns@.len(),
            t == table@,
            out@ == head + sqlite_column_lines(t.columns, write_key, i as nat),
    {
        append_sqlite_column(out, &table.columns[i], i < n - 1 || write_key);
        proof {
            assert(t.columns[i as int] == table.columns@[i as int]@);
            assert(out@ =~= head + sqlite_column_lines(t.columns, write_key, (i + 1) as nat));
        }
    }
    if !auto {
        if let Some(pk) = &table.primary_key {
            out.append("  PRIMARY KEY (");
            append_joined(out, pk, ", ");
            out.append(")\n");
        }
    }
    out.append(");\n\n");
    proof {
        assert(out@ =~= start + sqlite_table_text(t));
    }
}

pub fn emit_sqlite(schema: &Schema) -> (out: String)
    ensures
        out@ == sqlite_schema_text(schema@, schema@.len()),
{
    let mut out = String::new();
    let n = schema.tables.len();
    for i in 0..n
        invariant
            n == schema.tables@.len(),
            out@ == sqlite_schema_text(schema@, i as nat),
    {
        append_sqlite_table(&mut out, &schema.tables[i]);
        proof {
            assert(schema@[i as int] == schema.tables@[i as int]@);
        }
    }
    out
}

} // verus!
