//! Emitting `CREATE TABLE` DDL from IR v2, for MySQL, PostgreSQL and SQLite.
//!
//! A table is written as its column definitions followed by its primary key and its
//! table-level constraints, one per line, separated by commas.

use vstd::prelude::*;
use crate::cli::Dialect;
use crate::ir::{opt_string_view, strings_view};
use crate::text::{append_decimal, append_joined, decimal, join};
use crate::v2::{
    column_constraints_view, constraints_view, v2_columns_view, ColumnConstraint,
    ColumnConstraintView, Constraint, ConstraintView, ForeignKey, V2Column,
    V2ColumnView, V2DataType, V2DataTypeView, V2Schema, V2Table, V2TableView,
};

verus! {

/// The spelling of a v2 type in a dialect.
pub open spec fn v2_type_text(d: Dialect, t: V2DataTypeView) -> Seq<char> {
    match d {
        Dialect::Mysql => match t {
            V2DataTypeView::Integer { bits: Some(64) } => "BIGINT"@,
            V2DataTypeView::Integer { bits: Some(16) } => "SMALLINT"@,
            V2DataTypeView::Integer { bits: Some(8) } => "TINYINT"@,
            V2DataTypeView::Integer { .. } => "INT"@,
            V2DataTypeView::Boolean => "TINYINT(1)"@,
            V2DataTypeView::Float => "FLOAT"@,
            V2DataTypeView::Double => "DOUBLE"@,
            V2DataTypeView::Varchar(Some(n)) => "VARCHAR("@ + decimal(n as nat) + ")"@,
            V2DataTypeView::Varchar(None) => "VARCHAR(255)"@,
            V2DataTypeView::Text => "TEXT"@,
            V2DataTypeView::Timestamp => "DATETIME"@,
            V2DataTypeView::Custom(s) => s,
        },
        Dialect::Postgres => match t {
            V2DataTypeView::Integer { bits: Some(64) } => "BIGINT"@,
            V2DataTypeView::Integer { bits: Some(16) } => "SMALLINT"@,
            V2DataTypeView::Integer { .. } => "INTEGER"@,
            V2DataTypeView::Boolean => "BOOLEAN"@,
            V2DataTypeView::Float => "REAL"@,
            V2DataTypeView::Double => "DOUBLE PRECISION"@,
            V2DataTypeView::Varchar(Some(n)) => "VARCHAR("@ + decimal(n as nat) + ")"@,
            V2DataTypeView::Varchar(None) => "VARCHAR"@,
            V2DataTypeView::Text => "TEXT"@,
            V2DataTypeView::Timestamp => "TIMESTAMP"@,
            V2DataTypeView::Custom(s) => s,
        },
        Dialect::Sqlite => match t {
            V2DataTypeView::Integer { .. } | V2DataTypeView::Boolean => "INTEGER"@,
            V2DataTypeView::Float | V2DataTypeView::Double => "REAL"@,
            V2DataTypeView::Custom(s) => s,
            _ => "TEXT"@,
        },
    }
}

/// How a dialect marks an auto-increment column.
pub open spec fn auto_increment_text(d: Dialect) -> Seq<char> {
    match d {
        Dialect::Mysql => " AUTO_INCREMENT"@,
        Dialect::Postgres => " GENERATED BY DEFAULT AS IDENTITY"@,
        Dialect::Sqlite => " PRIMARY KEY AUTOINCREMENT"@,
    }
}

pub open spec fn column_constraint_text(d: Dialect, c: ColumnConstraintView) -> Seq<char> {
    match c {
        ColumnConstraintView::NotNull => " NOT NULL"@,
        ColumnConstraintView::Default(value) => " DEFAULT "@ + value,
        ColumnConstraintView::AutoIncrement => auto_increment_text(d),
        ColumnConstraintView::Check(e) => " CHECK ("@ + e + ")"@,
    }
}

/// The text of the first `n` column constraints.
pub open spec fn column_constraints_text(d: Dialect, cs: Seq<ColumnConstraintView>, n: nat) -> Seq<char>
    decreases n,
{
    if n == 0 {
        Seq::empty()
    } else {
        column_constraints_text(d, cs, (n - 1) as nat) + column_constraint_text(d, cs[n - 1])
    }
}

pub open spec fn column_definition(d: Dialect, c: V2ColumnView) -> Seq<char> {
    "  "@ + c.name + " "@ + v2_type_text(d, c.data_type)
        + column_constraints_text(d, c.constraints, c.constraints.len())
}

/// `CONSTRAINT <name> ` for a named constraint, nothing otherwise.
pub open spec fn constraint_name_text(name: Option<Seq<char>>) -> Seq<char> {
    match name {
        Some(n) => "CONSTRAINT "@ + n + " "@,
        None => Seq::empty(),
    }
}

pub open spec fn action_text(keyword: Seq<char>, action: Option<Seq<char>>) -> Seq<char> {
    match action {
        Some(a) => keyword + a,
        None => Seq::empty(),
    }
}

pub open spec fn table_constraint_line(c: ConstraintView) -> Seq<char> {
    match c {
        ConstraintView::Unique { name, columns } =>
            "  "@ + constraint_name_text(name) + "UNIQUE ("@ + join(columns, ", "@) + ")"@,
        ConstraintView::ForeignKey(fk) =>
            "  "@ + constraint_name_text(fk.name) + "FOREIGN KEY ("@ + join(fk.columns, ", "@)
                + ") REFERENCES "@ + fk.referenced_table + " ("@ + join(fk.referenced_columns, ", "@) + ")"@
                + action_text(" ON DELETE "@, fk.on_delete) + action_text(" ON UPDATE "@, fk.on_update),
        ConstraintView::Check { name, expr } =>
            "  "@ + constraint_name_text(name) + "CHECK ("@ + expr + ")"@,
    }
}

/// The lines inside a table's parentheses: columns, then the primary key, then the
/// table-level constraints.
pub open spec fn table_items(d: Dialect, t: V2TableView) -> Seq<Seq<char>> {
    t.columns.map_values(|c: V2ColumnView| column_definition(d, c))
        + (match t.primary_key {
            Some(pk) => seq!["  PRIMARY KEY ("@ + join(pk, ", "@) + ")"@],
            None => Seq::empty(),
        })
        + t.constraints.map_values(|c: ConstraintView| table_constraint_line(c))
}

pub open spec fn v2_table_text(d: Dialect, t: V2TableView) -> Seq<char> {
    "CREATE TABLE "@ + t.name + " (\n"@ + join(table_items(d, t), ",\n"@) + "\n);\n\n"@
}

/// The DDL of the first `n` tables.
pub open spec fn v2_schema_text(d: Dialect, tables: Seq<V2TableView>, n: nat) -> Seq<char>
    decreases n,
{
    if n == 0 {
        Seq::empty()
    } else {
        v2_schema_text(d, tables, (n - 1) as nat) + v2_table_text(d, tables[n - 1])
    }
}

fn append_v2_type(out: &mut String, d: Dialect, t: &V2DataType)
    ensures
        final(out)@ == old(out)@ + v2_type_text(d, t@),
{
    match d {
        Dialect::Mysql => match t {
            V2DataType::Integer { bits: Some(64) } => out.append("BIGINT"),
            V2DataType::Integer { bits: Some(16) } => out.append("SMALLINT"),
            V2DataType::Integer { bits: Some(8) } => out.append("TINYINT"),
            V2DataType::Integer { .. } => out.append("INT"),
            V2DataType::Boolean => out.append("TINYINT(1)"),
            V2DataType::Float => out.append("FLOAT"),
            V2DataType::Double => out.append("DOUBLE"),
            V2DataType::Varchar(Some(n)) => append_varchar(out, *n),
            V2DataType::Varchar(None) => out.append("VARCHAR(255)"),
            V2DataType::Text => out.append("TEXT"),
            V2DataType::Timestamp => out.append("DATETIME"),
            V2DataType::Custom(s) => out.append(s.as_str()),
        },
        Dialect::Postgres => match t {
            V2DataType::Integer { bits: Some(64) } => out.append("BIGINT"),
            V2DataType::Integer { bits: Some(16) } => out.append("SMALLINT"),
            V2DataType::Integer { .. } => out.append("INTEGER"),
            V2DataType::Boolean => out.append("BOOLEAN"),
            V2DataType::Float => out.append("REAL"),
            V2DataType::Double => out.append("DOUBLE PRECISION"),
            V2DataType::Varchar(Some(n)) => append_varchar(out, *n),
            V2DataType::Varchar(None) => out.append("VARCHAR"),
            V2DataType::Text => out.append("TEXT"),
            V2DataType::Timestamp => out.append("TIMESTAMP"),
            V2DataType::Custom(s) => out.append(s.as_str()),
        },
        Dialect::Sqlite => match t {
            V2DataType::Integer { .. } | V2DataType::Boolean => out.append("INTEGER"),
            V2DataType::Float | V2DataType::Double => out.append("REAL"),
            V2DataType::Custom(s) => out.append(s.as_str()),
            _ => out.append("TEXT"),
        },
    }
}

fn append_varchar(out: &mut String, n: u32)
    ensures
        final(out)@ == old(out)@ + "VARCHAR("@ + decimal(n as nat) + ")"@,
{
    out.append("VARCHAR(");
    append_decimal(out, n as u64);
    out.append(")");
}

fn column_definition_of(d: Dialect, c: &V2Column) -> (r: String)
    ensures
        r@ == column_definition(d, c@),
{
    let mut out = String::new();
    out.append("  ");
    out.append(c.name.as_str());
    out.append(" ");
    append_v2_type(&mut out, d, &c.data_type);
    let ghost head = out@;
    let ghost cv = column_constraints_view(c.constraints@);
    for i in 0..c.constraints.len()
        invariant
            cv == column_constraints_view(c.constraints@),
            out@ == head + column_constraints_text(d, cv, i as nat),
    {
        match &c.constraints[i] {
            ColumnConstraint::NotNull => out.append(" NOT NULL"),
            ColumnConstraint::Default(value) => {
                out.append(" DEFAULT ");
                out.append(value.as_str());
            },
            ColumnConstraint::AutoIncrement => match d {
                Dialect::Mysql => out.append(" AUTO_INCREMENT"),
                Dialect::Postgres => out.append(" GENERATED BY DEFAULT AS IDENTITY"),
                Dialect::Sqlite => out.append(" PRIMARY KEY AUTOINCREMENT"),
            },
            ColumnConstraint::Check(e) => {
                out.append(" CHECK (");
                out.append(e.as_str());
                out.append(")");
            },
        }
        proof {
            assert(out@ =~= head + column_constraints_text(d, cv, (i + 1) as nat));
        }
    }
    proof {
        assert(out@ =~= column_definition(d, c@));
    }
    out
}

fn append_constraint_name(out: &mut String, name: &Option<String>)
    ensures
        final(out)@ == old(out)@ + constraint_name_text(opt_string_view(*name)),
{
    if let Some(n) = name {
        out.append("CONSTRAINT ");
        out.append(n.as_str());
        out.append(" ");
        proof {
            assert(final(out)@ =~= old(out)@ + constraint_name_text(opt_string_view(*name)));
        }
    } else {
        proof {
            assert(final(out)@ =~= old(out)@ + constraint_name_text(opt_string_view(*name)));
        }
    }
}

fn append_action(out: &mut String, keyword: &str, action: &Option<String>)
    ensures
        final(out)@ == old(out)@ + action_text(keyword@, opt_string_view(*action)),
{
    if let Some(a) = action {
        out.append(keyword);
        out.append(a.as_str());
        proof {
            assert(final(out)@ =~= old(out)@ + action_text(keyword@, opt_string_view(*action)));
        }
    } else {
        proof {
            assert(final(out)@ =~= old(out)@ + action_text(keyword@, opt_string_view(*action)));
        }
    }
}

fn foreign_key_line(fk: &ForeignKey) -> (r: String)
    ensures
        r@ == table_constraint_line(ConstraintView::ForeignKey(fk@)),
{
    let mut out = String::new();
    out.append("  ");
    append_constraint_name(&mut out, &fk.name);
    out.append("FOREIGN KEY (");
    append_joined(&mut out, &fk.columns, ", ");
    out.append(") REFERENCES ");
    out.append(fk.referenced_table.as_str());
    out.append(" (");
    append_joined(&mut out, &fk.referenced_columns, ", ");
    out.append(")");
    append_action(&mut out, " ON DELETE ", &fk.on_delete);
    append_action(&mut out, " ON UPDATE ", &fk.on_update);
    proof {
        assert(out@ =~= table_constraint_line(ConstraintView::ForeignKey(fk@)));
    }
    out
}

fn table_constraint_line_of(c: &Constraint) -> (r: String)
    ensures
        r@ == table_constraint_line(c@),
{
    match c {
        Constraint::Unique { name, columns } => {
            let mut out = String::new();
            out.append("  ");
            append_constraint_name(&mut out, name);
            out.append("UNIQUE (");
            append_joined(&mut out, columns, ", ");
            out.append(")");
            proof {
                assert(out@ =~= table_constraint_line(c@));
            }
            out
        },
        Constraint::ForeignKey(fk) => foreign_key_line(fk),
        Constraint::Check { name, expr } => {
            let mut out = String::new();
            out.append("  ");
            append_constraint_name(&mut out, name);
            out.append("CHECK (");
            out.append(expr.as_str());
            out.append(")");
            proof {
                assert(out@ =~= table_constraint_line(c@));
            }
            out
        },
    }
}

fn table_items_of(d: Dialect, t: &V2Table) -> (r: Vec<String>)
    ensures
        strings_view(r@) == table_items(d, t@),
{
    let mut items: Vec<String> = Vec::new();
    let ghost cols = v2_columns_view(t.columns@);
    for i in 0..t.columns.len()
        invariant
            cols == v2_columns_view(t.columns@),
            items@.len() == i,
            forall|k: int| 0 <= k < i ==> (#[trigger] items@[k])@ == column_definition(d, cols[k]),
    {
        let line = column_definition_of(d, &t.columns[i]);
        items.push(line);
    }
    proof {
        assert(strings_view(items@) =~= cols.map_values(|c: V2ColumnView| column_definition(d, c)));
    }
    let ghost after_cols = strings_view(items@);
    if let Some(pk) = &t.primary_key {
        let mut line = String::new();
        line.append("  PRIMARY KEY (");
        append_joined(&mut line, pk, ", ");
        line.append(")");
        items.push(line);
    }
    let ghost head = strings_view(items@);
    proof {
        let pk_part: Seq<Seq<char>> = match t@.primary_key {
            Some(pk) => seq!["  PRIMARY KEY ("@ + join(pk, ", "@) + ")"@],
            None => Seq::empty(),
        };
        assert(head =~= after_cols + pk_part);
    }
    let ghost cons = constraints_view(t.constraints@);
    let ghost hl = head.len();
    for i in 0..t.constraints.len()
        invariant
            cons == constraints_view(t.constraints@),
            items@.len() == hl + i,
            hl == head.len(),
            forall|k: int| 0 <= k < hl ==> (#[trigger] items@[k])@ == head[k],
            forall|k: int| 0 <= k < i ==> (#[trigger] items@[hl + k])@ == table_constraint_line(cons[k]),
    {
        let line = table_constraint_line_of(&t.constraints[i]);
        items.push(line);
    }
    proof {
        let rhs = head + cons.map_values(|c: ConstraintView| table_constraint_line(c));
        assert forall|k: int| 0 <= k < items@.len() implies strings_view(items@)[k] == rhs[k] by {
            if k >= hl {
                assert(items@[hl + (k - hl)] == items@[k]);
            }
        }
        assert(strings_view(items@) =~= table_items(d, t@));
    }
    items
}

fn append_v2_table(out: &mut String, d: Dialect, t: &V2Table)
    ensures
        final(out)@ == old(out)@ + v2_table_text(d, t@),
{
    let items = table_items_of(d, t);
    out.append("CREATE TABLE ");
    out.append(t.name.as_str());
    out.append(" (\n");
    append_joined(out, &items, ",\n");
    out.append("\n);\n\n");
    proof {
        assert(final(out)@ =~= old(out)@ + v2_table_text(d, t@));
    }
}

/// The DDL of a v2 schema in a dialect: one `CREATE TABLE` per table, in order.
pub fn emit_v2(schema: &V2Schema, d: Dialect) -> (out: String)
    ensures
        out@ == v2_schema_text(d, schema@.tables, schema@.tables.len()),
{
    let mut out = String::new();
    let n = schema.tables.len();
    for i in 0..n
        invariant
            n == schema.tables@.len(),
            out@ == v2_schema_text(d, schema@.tables, i as nat),
    {
        append_v2_table(&mut out, d, &schema.tables[i]);
        proof {
            assert(schema@.tables[i as int] == schema.tables@[i as int]@);
        }
    }
    out
}

/// MySQL DDL for a v2 schema: one `CREATE TABLE` per table, in order.
pub fn emit_mysql_v2(schema: &V2Schema) -> (out: String)
    ensures
        out@ == v2_schema_text(Dialect::Mysql, schema@.tables, schema@.tables.len()),
{
    emit_v2(schema, Dialect::Mysql)
}

/// PostgreSQL DDL for a v2 schema: one `CREATE TABLE` per table, in order.
pub fn emit_postgres_v2(schema: &V2Schema) -> (out: String)
    ensures
        out@ == v2_schema_text(Dialect::Postgres, schema@.tables, schema@.tables.len()),
{
    emit_v2(schema, Dialect::Postgres)
}

/// SQLite DDL for a v2 schema: one `CREATE TABLE` per table, in order.
pub fn emit_sqlite_v2(schema: &V2Schema) -> (out: String)
    ensures
        out@ == v2_schema_text(Dialect::Sqlite, schema@.tables, schema@.tables.len()),
{
    emit_v2(schema, Dialect::Sqlite)
}

// ---------------------------------------------------------------------------
// Warnings

/// The warning for a column whose type is dialect-specific (`Custom`): the emitters
/// write such a type as it is.
pub open spec fn custom_type_warning(table: Seq<char>, column: Seq<char>, ty: Seq<char>) -> Seq<char> {
    "warning: "@ + table + "."@ + column + " has the type "@ + ty + ", which is written as it is"@
}

/// The warnings for the first `n` columns of a table, in order.
pub open spec fn column_warnings(table: Seq<char>, cols: Seq<V2ColumnView>, n: nat) -> Seq<Seq<char>>
    decreases n,
{
    if n == 0 {
        Seq::empty()
    } else {
        let prev = column_warnings(table, cols, (n - 1) as nat);
        match cols[n - 1].data_type {
            V2DataTypeView::Custom(ty) => prev.push(custom_type_warning(table, cols[n - 1].name, ty)),
            _ => prev,
        }
    }
}

/// The warnings for the first `n` tables, in order.
pub open spec fn schema_warnings(ts: Seq<V2TableView>, n: nat) -> Seq<Seq<char>>
    decreases n,
{
    if n == 0 {
        Seq::empty()
    } else {
        schema_warnings(ts, (n - 1) as nat) + column_warnings(ts[n - 1].name, ts[n - 1].columns, ts[n - 1].columns.len())
    }
}

/// The warnings that emitting `schema` gives: one per column of a dialect-specific
/// type, in the order of tables and columns. A strict emit fails when there is any.
pub fn emit_warnings(schema: &V2Schema) -> (r: Vec<String>)
    ensures
        strings_view(r@) == schema_warnings(schema@.tables, schema@.tables.len()),
{
    let mut r: Vec<String> = Vec::new();
    for i in 0..schema.tables.len()
        invariant
            strings_view(r@) == schema_warnings(schema@.tables, i as nat),
    {
        let t = &schema.tables[i];
        let ghost tv = t@;
        let ghost before = strings_view(r@);
        for j in 0..t.columns.len()
            invariant
                tv == t@,
                strings_view(r@) == before + column_warnings(tv.name, tv.columns, j as nat),
        {
            let c = &t.columns[j];
            match &c.data_type {
                V2DataType::Custom(ty) => {
                    let mut w = String::new();
                    w.append("warning: ");
                    w.append(t.name.as_str());
                    w.append(".");
                    w.append(c.name.as_str());
                    w.append(" has the type ");
                    w.append(ty.as_str());
                    w.append(", which is written as it is");
                    let ghost r0 = strings_view(r@);
                    r.push(w);
                    proof {
                        assert(tv.columns[j as int] == c@);
                        assert(strings_view(r@) =~= r0.push(w@));
                        assert(strings_view(r@) =~= before + column_warnings(tv.name, tv.columns, (j + 1) as nat));
                    }
                },
                _ => {
                    proof {
                        assert(tv.columns[j as int] == c@);
                        assert(column_warnings(tv.name, tv.columns, (j + 1) as nat) == column_warnings(tv.name, tv.columns, j as nat));
                    }
                },
            }
        }
        proof {
            assert(schema@.tables[i as int] == tv);
        }
    }
    r
}

} // verus!
