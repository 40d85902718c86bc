//! Emitting `CREATE TABLE` DDL from the minimal IR, for PostgreSQL.
//!
//! The layout is that of the MySQL emitter; types use PostgreSQL's names and an
//! auto-increment column becomes an identity column.

use vstd::prelude::*;
use crate::emit::text_if;
use crate::ir::{Column, ColumnView, DataType, Schema, Table, TableView};
use crate::text::{append_decimal, append_joined, decimal, join};

verus! {

// ---------------------------------------------------------------------------
// PostgreSQL

/// The PostgreSQL spelling of a column type.
pub open spec fn postgres_type_text(t: DataType) -> Seq<char> {
    match t {
        DataType::Int => "INTEGER"@,
        DataType::BigInt => "BIGINT"@,
        DataType::Boolean => "BOOLEAN"@,
        DataType::Float => "REAL"@,
        DataType::Double => "DOUBLE PRECISION"@,
        DataType::Varchar(Some(n)) => "VARCHAR("@ + decimal(n as nat) + ")"@,
        DataType::Varchar(None) => "VARCHAR"@,
        DataType::Text => "TEXT"@,
        DataType::Timestamp => "TIMESTAMP"@,
    }
}

/// One column line of a PostgreSQL table; `comma` says whether a comma follows.
pub open spec fn postgres_column_line(c: ColumnView, comma: bool) -> Seq<char> {
    "  "@ + c.name + " "@ + postgres_type_text(c.data_type)
        + text_if(c.auto_increment, " GENERATED BY DEFAULT AS IDENTITY"@)
        + text_if(!c.nullable, " NOT NULL"@)
        + (match c.default { Some(d) => " DEFAULT "@ + d, None => Seq::empty() })
        + text_if(comma, ","@)
        + "\n"@
}

/// The first `n` column lines of a PostgreSQL table. A column line ends with a comma
/// unless it is the last column and the table has no primary key.
pub open spec fn postgres_column_lines(cols: Seq<ColumnView>, has_pk: bool, n: nat) -> Seq<char>
    decreases n,
{
    if n == 0 {
        Seq::empty()
    } else {
        postgres_column_lines(cols, has_pk, (n - 1) as nat)
            + postgres_column_line(cols[n - 1], n - 1 < cols.len() - 1 || has_pk)
    }
}

pub open spec fn postgres_table_text(t: TableView) -> Seq<char> {
    "CREATE TABLE "@ + t.name + " (\n"@
        + postgres_column_lines(t.columns, t.primary_key is Some, t.columns.len())
        + (match t.primary_key {
            Some(pk) => "  PRIMARY KEY ("@ + join(pk, ", "@) + ")\n"@,
            None => Seq::empty(),
        })
        + ");\n\n"@
}

/// The PostgreSQL DDL of the first `n` tables.
pub open spec fn postgres_schema_text(tables: Seq<TableView>, n: nat) -> Seq<char>
    decreases n,
{
    if n == 0 {
        Seq::empty()
    } else {
        postgres_schema_text(tables, (n - 1) as nat) + postgres_table_text(tables[n - 1])
    }
}

fn append_postgres_type(out: &mut String, t: &DataType)
    ensures
        final(out)@ == old(out)@ + postgres_type_text(*t),
{
    match t {
        DataType::Int => out.append("INTEGER"),
        DataType::BigInt => out.append("BIGINT"),
        DataType::Boolean => out.append("BOOLEAN"),
        DataType::Float => out.append("REAL"),
        DataType::Double => out.append("DOUBLE PRECISION"),
        DataType::Varchar(Some(n)) => {
            out.append("VARCHAR(");
            append_decimal(out, *n as u64);
            out.append(")");
            proof {
                assert(final(out)@ =~= old(out)@ + postgres_type_text(*t));
            }
        },
        DataType::Varchar(None) => out.append("VARCHAR"),
        DataType::Text => out.append("TEXT"),
        DataType::Timestamp => out.append("TIMESTAMP"),
    }
}

fn append_postgres_column(out: &mut String, c: &Column, comma: bool)
    ensures
        final(out)@ == old(out)@ + postgres_column_line(c@, comma),
{
    out.append("  ");
    out.append(c.name.as_str());
    out.append(" ");
    append_postgres_type(out, &c.data_type);
    if c.auto_increment {
        out.append(" GENERATED BY DEFAULT AS IDENTITY");
    }
    if !c.nullable {
        out.append(" NOT NULL");
    }
    if let Some(default) = &c.default {
        out.append(" DEFAULT ");
        out.append(default.as_str());
    }
    if comma {
        out.append(",");
    }
    out.append("\n");
    proof {
        assert(final(out)@ =~= old(out)@ + postgres_column_line(c@, comma));
    }
}

fn append_postgres_table(out: &mut String, table: &Table)
    ensures
        final(out)@ == old(out)@ + postgres_table_text(table@),
{
    let ghost start = out@;
    let ghost t = table@;
    out.append("CREATE TABLE ");
    out.append(table.name.as_str());
    out.append(" (\n");
    let ghost head = out@;
    let n = table.columns.len();
    for i in 0..n
        invariant
            n == table.columns@.len(),
            t == table@,
            out@ == head + postgres_column_lines(t.columns, t.primary_key is Some, i as nat),
    {
        let comma = i < n - 1 || table.primary_key.is_some();
        append_postgres_column(out, &table.columns[i], comma);
        proof {
            assert(t.columns[i as int] == table.columns@[i as int]@);
            assert(out@ =~= head + postgres_column_lines(t.columns, t.primary_key is Some, (i + 1) as nat));
        }
    }
    let ghost body = out@;
    if let Some(pk) = &table.primary_key {
        out.append("  PRIMARY KEY (");
        append_joined(out, pk, ", ");
        out.append(")\n");
    }
    out.append(");\n\n");
    proof {
        assert(out@ =~= start + postgres_table_text(t));
    }
}

pub fn emit_postgres(schema: &Schema) -> (out: String)
    ensures
        out@ == postgres_schema_text(schema@, schema@.len()),
{
    let mut out = String::new();
    let n = schema.tables.len();
    for i in 0..n
        invariant
            n == schema.tables@.len(),
            out@ == postgres_schema_text(schema@, i as nat),
    {
        append_postgres_table(&mut out, &schema.tables[i]);
        proof {
            assert(schema@[i as int] == schema.tables@[i as int]@);
        }
    }
    out
}

} // verus!
