//! Reading back what a writer wrote.
//!
//! What `sqlparser` makes of a script is named, not stated (`sqlmodel`). The laws here
//! therefore take as their hypothesis that `sqlparser` reads the DDL a writer wrote as
//! the statements that spell it (`statements_read_as`): one `CREATE TABLE` per table,
//! each column with the type its spelling names and the options the writer wrote, and
//! the table key as a `PRIMARY KEY` constraint. From there on everything is the
//! library's own mapping, and the laws show that it gives the schema back.

use vstd::prelude::*;
use crate::emit::{mysql_schema_text, sqlite_schema_text};
use crate::ir::{strings_view, ColumnView, DataType, TableView};
use crate::parse::{
    auto_increment_keyword, has_word, pk_from_constraints, v1_column, v1_options,
    v1_pk_from_columns, v1_table, v1_tables, V1ColumnState,
};
use crate::sqlmodel::{
    sqlparser_statements, SqlCharLength, SqlColumn, SqlColumnOption, SqlColumnOptionDef,
    SqlCreateTable, SqlDialect, SqlStatement, SqlTableConstraint, SqlType,
};

verus! {

/// A column option as a writer writes it.
pub enum WrittenOption {
    AutoIncrement,
    NotNull,
    Default(Seq<char>),
}

/// The column type that a writer's spelling of `t` is read as: MySQL writes `INT`,
/// `BIGINT`, `TINYINT(1)`, `FLOAT`, `DOUBLE`, `VARCHAR(n)` (255 when no length),
/// `TEXT` and `DATETIME`; SQLite writes `INTEGER` for integers and booleans and `TEXT`
/// for the rest.
pub open spec fn written_type(d: SqlDialect, t: DataType) -> SqlType {
    match d {
        SqlDialect::Sqlite => match t {
            DataType::Int | DataType::BigInt | DataType::Boolean => SqlType::Integer,
            _ => SqlType::Text,
        },
        _ => match t {
            DataType::Int => SqlType::Int,
            DataType::BigInt => SqlType::BigInt,
            DataType::Boolean => SqlType::TinyInt(Some(1)),
            DataType::Float => SqlType::Float,
            DataType::Double => SqlType::Double,
            DataType::Varchar(Some(n)) => SqlType::Varchar(Some(SqlCharLength::IntegerLength(n as u64))),
            DataType::Varchar(None) => SqlType::Varchar(Some(SqlCharLength::IntegerLength(255))),
            DataType::Text => SqlType::Text,
            DataType::Timestamp => SqlType::Datetime,
        },
    }
}

/// The options a writer writes for a column, in order: MySQL writes `AUTO_INCREMENT`,
/// `NOT NULL` and `DEFAULT`; SQLite (for a column that is not auto-increment) only
/// `NOT NULL`.
pub open spec fn written_options(d: SqlDialect, c: ColumnView) -> Seq<WrittenOption> {
    match d {
        SqlDialect::Sqlite => if c.nullable { Seq::empty() } else { seq![WrittenOption::NotNull] },
        _ => (if c.auto_increment { seq![WrittenOption::AutoIncrement] } else { Seq::empty() })
            + (if c.nullable { Seq::empty() } else { seq![WrittenOption::NotNull] })
            + (match c.default {
                Some(x) => seq![WrittenOption::Default(x)],
                None => Seq::empty(),
            }),
    }
}

/// Option `o` is how `w` reads.
pub open spec fn option_reads_as(d: SqlDialect, o: SqlColumnOption, w: WrittenOption) -> bool {
    match w {
        WrittenOption::AutoIncrement => o matches SqlColumnOption::DialectSpecific(ts) && has_word(ts@, auto_increment_keyword(d)),
        WrittenOption::NotNull => o is NotNull,
        WrittenOption::Default(x) => o matches SqlColumnOption::Default(e) && e@ == x,
    }
}

pub open spec fn options_read_as(d: SqlDialect, opts: Seq<SqlColumnOptionDef>, ws: Seq<WrittenOption>) -> bool {
    &&& opts.len() == ws.len()
    &&& forall|i: int| 0 <= i < opts.len() ==> option_reads_as(d, #[trigger] opts[i].option, ws[i])
}

/// The table constraints read for a table key: one `PRIMARY KEY` with its columns, or none.
pub open spec fn key_reads_as(cs: Seq<SqlTableConstraint>, key: Option<Seq<Seq<char>>>) -> bool {
    match key {
        Some(p) => cs.len() == 1 && (cs[0] matches SqlTableConstraint::Unique { columns, is_primary: true, .. } && strings_view(columns@) == p),
        None => cs.len() == 0,
    }
}

pub open spec fn column_reads_as(d: SqlDialect, c: SqlColumn, cv: ColumnView) -> bool {
    &&& c.name@ == cv.name
    &&& c.data_type == written_type(d, cv.data_type)
    &&& options_read_as(d, c.options@, written_options(d, cv))
}

/// Statement `t` is how the `CREATE TABLE` written for `tv` reads.
pub open spec fn table_reads_as(d: SqlDialect, t: SqlCreateTable, tv: TableView) -> bool {
    &&& t.name@ == tv.name
    &&& t.columns@.len() == tv.columns.len()
    &&& forall|j: int| 0 <= j < tv.columns.len() ==> column_reads_as(d, #[trigger] t.columns@[j], tv.columns[j])
    &&& key_reads_as(t.constraints@, tv.primary_key)
}

/// The statements are how the DDL written for `tables` reads: one `CREATE TABLE` per
/// table, in order.
pub open spec fn statements_read_as(d: SqlDialect, st: Seq<SqlStatement>, tables: Seq<TableView>) -> bool {
    &&& st.len() == tables.len()
    &&& forall|i: int| 0 <= i < st.len() ==> (#[trigger] st[i] matches SqlStatement::CreateTable(t) && table_reads_as(d, t, tables[i]))
}

/// A column as it comes back: MySQL gives a `VARCHAR` without length back as
/// `VARCHAR(255)`; SQLite gives integers and booleans back as `Int`, the rest as
/// `Text`, and no default.
pub open spec fn read_back_column(d: SqlDialect, c: ColumnView) -> ColumnView {
    match d {
        SqlDialect::Sqlite => ColumnView {
            data_type: match c.data_type {
                DataType::Int | DataType::BigInt | DataType::Boolean => DataType::Int,
                _ => DataType::Text,
            },
            default: None,
            ..c
        },
        _ => ColumnView {
            data_type: match c.data_type {
                DataType::Varchar(None) => DataType::Varchar(Some(255)),
                t => t,
            },
            ..c
        },
    }
}

pub open spec fn read_back_table(d: SqlDialect, t: TableView) -> TableView {
    TableView { columns: t.columns.map_values(|c: ColumnView| read_back_column(d, c)), ..t }
}

/// What the options written so far say.
pub open spec fn written_state(ws: Seq<WrittenOption>, n: nat) -> V1ColumnState
    decreases n,
{
    if n == 0 {
        V1ColumnState { auto_increment: false, nullable: true, default: None, primary: false }
    } else {
        let st = written_state(ws, (n - 1) as nat);
        match ws[n - 1] {
            WrittenOption::AutoIncrement => V1ColumnState { auto_increment: true, ..st },
            WrittenOption::NotNull => V1ColumnState { nullable: false, ..st },
            WrittenOption::Default(x) => V1ColumnState { default: Some(x), ..st },
        }
    }
}

proof fn lemma_options_read(d: SqlDialect, opts: Seq<SqlColumnOptionDef>, ws: Seq<WrittenOption>, n: nat)
    requires
        options_read_as(d, opts, ws),
        n <= opts.len(),
    ensures
        v1_options(d, opts, n) == written_state(ws, n),
    decreases n,
{
    if n > 0 {
        lemma_options_read(d, opts, ws, (n - 1) as nat);
        assert(option_reads_as(d, opts[n - 1].option, ws[n - 1]));
    }
}

proof fn lemma_written_state(d: SqlDialect, c: ColumnView)
    requires
        d is MySql || (d is Sqlite && !c.auto_increment),
    ensures
        ({
            let ws = written_options(d, c);
            let st = written_state(ws, ws.len());
            &&& st.auto_increment == c.auto_increment
            &&& st.nullable == c.nullable
            &&& st.default == (if d is Sqlite { None } else { c.default })
            &&& !st.primary
        }),
{
    let ws = written_options(d, c);
    reveal_with_fuel(written_state, 4);
    let a: Seq<WrittenOption> = if c.auto_increment { seq![WrittenOption::AutoIncrement] } else { Seq::empty() };
    let b: Seq<WrittenOption> = if c.nullable { Seq::empty() } else { seq![WrittenOption::NotNull] };
    let e: Seq<WrittenOption> = match c.default { Some(x) => seq![WrittenOption::Default(x)], None => Seq::empty() };
    if d is MySql {
        assert(ws == a + b + e);
        let ab = a + b;
        assert(written_state(ab, a.len()) == written_state(a, a.len())) by {
            assert(ab.take(a.len() as int) =~= a);
            lemma_written_state_prefix(ab, a, a.len());
        }
        assert(written_state(ws, ab.len()) == written_state(ab, ab.len())) by {
            lemma_written_state_prefix(ws, ab, ab.len());
        }
    }
}

/// The state after `n` options depends on those options alone.
proof fn lemma_written_state_prefix(ws: Seq<WrittenOption>, vs: Seq<WrittenOption>, n: nat)
    requires
        n <= ws.len(),
        n <= vs.len(),
        forall|i: int| 0 <= i < n ==> ws[i] == vs[i],
    ensures
        written_state(ws, n) == written_state(vs, n),
    decreases n,
{
    if n > 0 {
        lemma_written_state_prefix(ws, vs, (n - 1) as nat);
    }
}

proof fn lemma_column_read(d: SqlDialect, c: SqlColumn, cv: ColumnView)
    requires
        column_reads_as(d, c, cv),
        d is MySql || (d is Sqlite && !cv.auto_increment),
    ensures
        v1_column(d, c) == read_back_column(d, cv),
        !crate::parse::v1_column_state(d, c).primary,
{
    let ws = written_options(d, cv);
    lemma_options_read(d, c.options@, ws, c.options@.len());
    lemma_written_state(d, cv);
    match cv.data_type {
        DataType::Varchar(Some(n)) => {
            assert((n as u64) as u32 == n);
        },
        _ => {},
    }
}

proof fn lemma_no_column_key(d: SqlDialect, cols: Seq<SqlColumn>, n: nat)
    requires
        n <= cols.len(),
        forall|j: int| 0 <= j < n ==> !crate::parse::v1_column_state(d, #[trigger] cols[j]).primary,
    ensures
        v1_pk_from_columns(d, cols, n) is None,
    decreases n,
{
    if n > 0 {
        lemma_no_column_key(d, cols, (n - 1) as nat);
    }
}

proof fn lemma_table_read(d: SqlDialect, t: SqlCreateTable, tv: TableView)
    requires
        table_reads_as(d, t, tv),
        d is MySql || (d is Sqlite && forall|j: int| 0 <= j < tv.columns.len() ==> !(#[trigger] tv.columns[j]).auto_increment),
    ensures
        v1_table(d, t) == read_back_table(d, tv),
{
    assert forall|j: int| 0 <= j < tv.columns.len() implies
        v1_column(d, #[trigger] t.columns@[j]) == read_back_column(d, tv.columns[j])
        && !crate::parse::v1_column_state(d, t.columns@[j]).primary by {
        assert(column_reads_as(d, t.columns@[j], tv.columns[j]));
        lemma_column_read(d, t.columns@[j], tv.columns[j]);
    }
    lemma_no_column_key(d, t.columns@, t.columns@.len());
    let cs = t.constraints@;
    if tv.primary_key is Some {
        reveal_with_fuel(pk_from_constraints, 2);
    }
    assert(t.columns@.map_values(|c: SqlColumn| v1_column(d, c)) =~= tv.columns.map_values(|c: ColumnView| read_back_column(d, c)));
}

proof fn lemma_tables_read(d: SqlDialect, st: Seq<SqlStatement>, tables: Seq<TableView>, n: nat)
    requires
        statements_read_as(d, st, tables),
        n <= st.len(),
        d is MySql || (d is Sqlite && no_auto_increment(tables)),
    ensures
        v1_tables(d, st, n) == tables.take(n as int).map_values(|t: TableView| read_back_table(d, t)),
    decreases n,
{
    if n > 0 {
        lemma_tables_read(d, st, tables, (n - 1) as nat);
        let i = n - 1;
        assert(st[i] matches SqlStatement::CreateTable(t) && table_reads_as(d, t, tables[i]));
        if let SqlStatement::CreateTable(t) = st[i] {
            if d is Sqlite {
                assert forall|j: int| 0 <= j < tables[i].columns.len() implies !(#[trigger] tables[i].columns[j]).auto_increment by {
                    assert(no_auto_increment(tables));
                }
            }
            lemma_table_read(d, t, tables[i]);
        }
        assert(tables.take(n as int).map_values(|t: TableView| read_back_table(d, t))
            =~= tables.take(i).map_values(|t: TableView| read_back_table(d, t)).push(read_back_table(d, tables[i])));
    } else {
        assert(tables.take(0).map_values(|t: TableView| read_back_table(d, t)) =~= Seq::<TableView>::empty());
    }
}

/// No column of any table is auto-increment.
pub open spec fn no_auto_increment(tables: Seq<TableView>) -> bool {
    forall|i: int, j: int| 0 <= i < tables.len() && 0 <= j < tables[i].columns.len() ==> !(#[trigger] tables[i].columns[j]).auto_increment
}

/// Reading back what the MySQL writer wrote gives the schema back (a `VARCHAR` without
/// length comes back as `VARCHAR(255)`), when `sqlparser` reads the written DDL as the
/// statements that spell it.
pub proof fn law_mysql_round_trip(tables: Seq<TableView>)
    requires
        sqlparser_statements(SqlDialect::MySql, mysql_schema_text(tables, tables.len())) matches Some(st)
            && statements_read_as(SqlDialect::MySql, st, tables),
    ensures
        ({
            let st = sqlparser_statements(SqlDialect::MySql, mysql_schema_text(tables, tables.len()))->0;
            v1_tables(SqlDialect::MySql, st, st.len()) == tables.map_values(|t: TableView| read_back_table(SqlDialect::MySql, t))
        }),
{
    let st = sqlparser_statements(SqlDialect::MySql, mysql_schema_text(tables, tables.len()))->0;
    lemma_tables_read(SqlDialect::MySql, st, tables, st.len());
    assert(tables.take(st.len() as int) =~= tables);
}

/// Reading back what the SQLite writer wrote for tables without auto-increment columns
/// gives back the same tables, columns, nullability and keys, with integers and
/// booleans as `Int`, the other types as `Text`, and no defaults; when `sqlparser` reads
/// the written DDL as the statements that spell it.
pub proof fn law_sqlite_round_trip(tables: Seq<TableView>)
    requires
        no_auto_increment(tables),
        sqlparser_statements(SqlDialect::Sqlite, sqlite_schema_text(tables, tables.len())) matches Some(st)
            && statements_read_as(SqlDialect::Sqlite, st, tables),
    ensures
        ({
            let st = sqlparser_statements(SqlDialect::Sqlite, sqlite_schema_text(tables, tables.len()))->0;
            v1_tables(SqlDialect::Sqlite, st, st.len()) == tables.map_values(|t: TableView| read_back_table(SqlDialect::Sqlite, t))
        }),
{
    let st = sqlparser_statements(SqlDialect::Sqlite, sqlite_schema_text(tables, tables.len()))->0;
    lemma_tables_read(SqlDialect::Sqlite, st, tables, st.len());
    assert(tables.take(st.len() as int) =~= tables);
}

} // verus!
