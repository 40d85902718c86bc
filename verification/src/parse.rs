//! Reading `CREATE TABLE` statements into the IR (minimal and v2).
//!
//! `sqlparser` turns the script into statements (`sqlmodel::read_statements`); the
//! functions here map those statements to tables, columns, keys and constraints.

use vstd::prelude::*;
use crate::ir::{opt_string_view, strings_view, Column, ColumnView, DataType, Schema, Table, TableView};
use crate::sqlmodel::{
    action_string, opt_action_text, read_statements, parse_error_message, sqlparser_error, sqlparser_statements, SqlParseError, SqlCharLength, SqlColumn,
    SqlColumnOption, SqlColumnOptionDef, SqlCreateTable, SqlDialect, SqlStatement,
    SqlTableConstraint, SqlType,
};
use crate::text::{
    chars_contain, chars_of, contains, eq_ignore_ascii_case, first_u32_in, first_u32_run,
    str_eq_ignore_ascii_case, to_lowercase, unicode_lowercase,
};
use crate::v2::{
    copy_opt_string, copy_strings, ColumnConstraint, ColumnConstraintView, Constraint,
    ConstraintView, ForeignKey, ForeignKeyView, V2Column, V2ColumnView, V2DataType,
    V2DataTypeView, V2Schema, V2Table, V2TableView, v2_tables_view,
};

verus! {

// ---------------------------------------------------------------------------
// Shared pieces

/// The keyword that marks an auto-increment column in a dialect-specific column option.
pub open spec fn auto_increment_keyword(d: SqlDialect) -> Seq<char> {
    match d {
        SqlDialect::MySql => "auto_increment"@,
        _ => "autoincrement"@,
    }
}

/// Some token is a word equal to `kw` up to ASCII case.
pub open spec fn has_word(tokens: Seq<Option<String>>, kw: Seq<char>) -> bool {
    exists|i: int| 0 <= i < tokens.len() && (#[trigger] tokens[i]) is Some && eq_ignore_ascii_case(tokens[i]->0@, kw)
}

fn tokens_have_word(tokens: &Vec<Option<String>>, kw: &str) -> (r: bool)
    ensures
        r == has_word(tokens@, kw@),
{
    for i in 0..tokens.len()
        invariant
            forall|k: int| 0 <= k < i ==> !((#[trigger] tokens@[k]) is Some && eq_ignore_ascii_case(tokens@[k]->0@, kw@)),
    {
        if let Some(w) = &tokens[i] {
            if str_eq_ignore_ascii_case(w.as_str(), kw) {
                return true;
            }
        }
    }
    false
}

fn dialect_has_auto_increment(d: SqlDialect, tokens: &Vec<Option<String>>) -> (r: bool)
    ensures
        r == has_word(tokens@, auto_increment_keyword(d)),
{
    match d {
        SqlDialect::MySql => tokens_have_word(tokens, "auto_increment"),
        _ => tokens_have_word(tokens, "autoincrement"),
    }
}

// ---------------------------------------------------------------------------
// The minimal IR

/// The IR type of a column type. MySQL reads `TINYINT(1)` as a boolean; the other
/// dialects also know `INT8`, `CHARACTER VARYING`, `CHAR VARYING` and `STRING`.
/// Unknown types become `Text`.
pub open spec fn v1_type(d: SqlDialect, t: SqlType) -> DataType {
    match d {
        SqlDialect::MySql => match t {
            SqlType::TinyInt(Some(1)) => DataType::Boolean,
            SqlType::Int | SqlType::Integer => DataType::Int,
            SqlType::BigInt => DataType::BigInt,
            SqlType::Varchar(l) => DataType::Varchar(length_u32(l)),
            SqlType::Text => DataType::Text,
            SqlType::Datetime | SqlType::Timestamp => DataType::Timestamp,
            SqlType::Boolean | SqlType::Bool => DataType::Boolean,
            SqlType::Float | SqlType::Real | SqlType::Float4 => DataType::Float,
            SqlType::Double | SqlType::DoublePrecision | SqlType::Float8 => DataType::Double,
            _ => DataType::Text,
        },
        _ => match t {
            SqlType::Int | SqlType::Integer => DataType::Int,
            SqlType::BigInt | SqlType::Int8 => DataType::BigInt,
            SqlType::Boolean | SqlType::Bool => DataType::Boolean,
            SqlType::Real | SqlType::Float4 | SqlType::Float => DataType::Float,
            SqlType::Double | SqlType::DoublePrecision | SqlType::Float8 => DataType::Double,
            SqlType::Varchar(l) | SqlType::CharacterVarying(l) | SqlType::CharVarying(l) => DataType::Varchar(length_u32(l)),
            SqlType::Text | SqlType::String => DataType::Text,
            SqlType::Timestamp | SqlType::Datetime => DataType::Timestamp,
            _ => DataType::Text,
        },
    }
}

/// A numeric character length, truncated to 32 bits; `MAX` or no length gives `None`.
pub open spec fn length_u32(l: Option<SqlCharLength>) -> Option<u32> {
    match l {
        Some(SqlCharLength::IntegerLength(n)) => Some(n as u32),
        _ => None,
    }
}

fn length_to_u32(l: Option<SqlCharLength>) -> (r: Option<u32>)
    ensures
        r == length_u32(l),
{
    match l {
        Some(SqlCharLength::IntegerLength(n)) => Some(n as u32),
        _ => None,
    }
}

fn v1_type_of(d: SqlDialect, t: SqlType) -> (r: DataType)
    ensures
        r == v1_type(d, t),
{
    match d {
        SqlDialect::MySql => match t {
            SqlType::TinyInt(Some(1)) => DataType::Boolean,
            SqlType::Int | SqlType::Integer => DataType::Int,
            SqlType::BigInt => DataType::BigInt,
            SqlType::Varchar(l) => DataType::Varchar(length_to_u32(l)),
            SqlType::Text => DataType::Text,
            SqlType::Datetime | SqlType::Timestamp => DataType::Timestamp,
            SqlType::Boolean | SqlType::Bool => DataType::Boolean,
            SqlType::Float | SqlType::Real | SqlType::Float4 => DataType::Float,
            SqlType::Double | SqlType::DoublePrecision | SqlType::Float8 => DataType::Double,
            _ => DataType::Text,
        },
        _ => match t {
            SqlType::Int | SqlType::Integer => DataType::Int,
            SqlType::BigInt | SqlType::Int8 => DataType::BigInt,
            SqlType::Boolean | SqlType::Bool => DataType::Boolean,
            SqlType::Real | SqlType::Float4 | SqlType::Float => DataType::Float,
            SqlType::Double | SqlType::DoublePrecision | SqlType::Float8 => DataType::Double,
            SqlType::Varchar(l) | SqlType::CharacterVarying(l) | SqlType::CharVarying(l) => DataType::Varchar(length_to_u32(l)),
            SqlType::Text | SqlType::String => DataType::Text,
            SqlType::Timestamp | SqlType::Datetime => DataType::Timestamp,
            _ => DataType::Text,
        },
    }
}

/// What the options of a column have said so far.
pub struct V1ColumnState {
    pub auto_increment: bool,
    pub nullable: bool,
    pub default: Option<Seq<char>>,
    pub primary: bool,
}

pub open spec fn v1_initial_state() -> V1ColumnState {
    V1ColumnState { auto_increment: false, nullable: true, default: None, primary: false }
}

/// One option read in order: the auto-increment keyword sets `auto_increment`,
/// `NOT NULL`/`NULL` set nullability, `DEFAULT` replaces the default, and a column
/// `PRIMARY KEY` marks the column as key and not nullable. Other options change nothing.
pub open spec fn v1_step(d: SqlDialect, st: V1ColumnState, o: SqlColumnOption) -> V1ColumnState {
    match o {
        SqlColumnOption::DialectSpecific(ts) =>
            if has_word(ts@, auto_increment_keyword(d)) { V1ColumnState { auto_increment: true, ..st } } else { st },
        SqlColumnOption::NotNull => V1ColumnState { nullable: false, ..st },
        SqlColumnOption::Null => V1ColumnState { nullable: true, ..st },
        SqlColumnOption::Default(e) => V1ColumnState { default: Some(e@), ..st },
        SqlColumnOption::Unique { is_primary: true } => V1ColumnState { primary: true, nullable: false, ..st },
        _ => st,
    }
}

/// The state after the first `n` options.
pub open spec fn v1_options(d: SqlDialect, opts: Seq<SqlColumnOptionDef>, n: nat) -> V1ColumnState
    decreases n,
{
    if n == 0 {
        v1_initial_state()
    } else {
        v1_step(d, v1_options(d, opts, (n - 1) as nat), opts[n - 1].option)
    }
}

pub open spec fn v1_column_state(d: SqlDialect, c: SqlColumn) -> V1ColumnState {
    v1_options(d, c.options@, c.options@.len())
}

pub open spec fn v1_column(d: SqlDialect, c: SqlColumn) -> ColumnView {
    let st = v1_column_state(d, c);
    ColumnView {
        name: c.name@,
        data_type: v1_type(d, c.data_type),
        nullable: st.nullable,
        auto_increment: st.auto_increment,
        default: st.default,
    }
}

/// The primary key after the first `n` columns: the first column marked as key names it.
pub open spec fn v1_pk_from_columns(d: SqlDialect, cols: Seq<SqlColumn>, n: nat) -> Option<Seq<Seq<char>>>
    decreases n,
{
    if n == 0 {
        None
    } else {
        let prev = v1_pk_from_columns(d, cols, (n - 1) as nat);
        if v1_column_state(d, cols[n - 1]).primary && prev is None {
            Some(seq![cols[n - 1].name@])
        } else {
            prev
        }
    }
}

/// The primary key after the first `n` table constraints, starting from `init`: each
/// table-level `PRIMARY KEY` replaces it.
pub open spec fn pk_from_constraints(cs: Seq<SqlTableConstraint>, n: nat, init: Option<Seq<Seq<char>>>) -> Option<Seq<Seq<char>>>
    decreases n,
{
    if n == 0 {
        init
    } else {
        match cs[n - 1] {
            SqlTableConstraint::Unique { columns, is_primary: true, .. } => Some(strings_view(columns@)),
            _ => pk_from_constraints(cs, (n - 1) as nat, init),
        }
    }
}

pub open spec fn v1_table(d: SqlDialect, t: SqlCreateTable) -> TableView {
    TableView {
        name: t.name@,
        columns: t.columns@.map_values(|c: SqlColumn| v1_column(d, c)),
        primary_key: pk_from_constraints(
            t.constraints@,
            t.constraints@.len(),
            v1_pk_from_columns(d, t.columns@, t.columns@.len()),
        ),
    }
}

/// The tables of the first `n` statements: one per `CREATE TABLE`, in order.
pub open spec fn v1_tables(d: SqlDialect, stmts: Seq<SqlStatement>, n: nat) -> Seq<TableView>
    decreases n,
{
    if n == 0 {
        Seq::empty()
    } else {
        let prev = v1_tables(d, stmts, (n - 1) as nat);
        match stmts[n - 1] {
            SqlStatement::CreateTable(t) => prev.push(v1_table(d, t)),
            SqlStatement::Other => prev,
        }
    }
}

fn v1_column_of(d: SqlDialect, c: &SqlColumn) -> (r: (Column, bool))
    ensures
        r.0@ == v1_column(d, *c),
        r.1 == v1_column_state(d, *c).primary,
{
    let mut auto_increment = false;
    let mut nullable = true;
    let mut default: Option<String> = None;
    let mut primary = false;
    for i in 0..c.options.len()
        invariant
            ({
                let st = v1_options(d, c.options@, i as nat);
                &&& st.auto_increment == auto_increment
                &&& st.nullable == nullable
                &&& st.default == opt_string_view(default)
                &&& st.primary == primary
            }),
    {
        match &c.options[i].option {
            SqlColumnOption::DialectSpecific(ts) => {
                if dialect_has_auto_increment(d, ts) {
                    auto_increment = true;
                }
            },
            SqlColumnOption::NotNull => nullable = false,
            SqlColumnOption::Null => nullable = true,
            SqlColumnOption::Default(e) => default = Some(e.clone()),
            SqlColumnOption::Unique { is_primary } => {
                if *is_primary {
                    primary = true;
                    nullable = false;
                }
            },
            _ => {},
        }
    }
    let col = Column {
        name: c.name.clone(),
        data_type: v1_type_of(d, c.data_type),
        nullable,
        auto_increment,
        default,
    };
    (col, primary)
}

fn pk_of_constraints(cs: &Vec<SqlTableConstraint>, init: Option<Vec<String>>) -> (r: Option<Vec<String>>)
    ensures
        crate::ir::opt_strings_view(r) == pk_from_constraints(cs@, cs@.len(), crate::ir::opt_strings_view(init)),
{
    let mut pk = init;
    let ghost init_v = crate::ir::opt_strings_view(init);
    for i in 0..cs.len()
        invariant
            crate::ir::opt_strings_view(pk) == pk_from_constraints(cs@, i as nat, init_v),
    {
        match &cs[i] {
            SqlTableConstraint::Unique { columns, is_primary, .. } => {
                if *is_primary {
                    pk = Some(copy_strings(columns));
                }
            },
            _ => {},
        }
    }
    pk
}

fn v1_table_of(d: SqlDialect, t: &SqlCreateTable) -> (r: Table)
    ensures
        r@ == v1_table(d, *t),
{
    let mut columns: Vec<Column> = Vec::new();
    let mut pk: Option<Vec<String>> = None;
    for i in 0..t.columns.len()
        invariant
            columns@.len() == i,
            forall|k: int| 0 <= k < i ==> (#[trigger] columns@[k])@ == v1_column(d, t.columns@[k]),
            crate::ir::opt_strings_view(pk) == v1_pk_from_columns(d, t.columns@, i as nat),
    {
        let (col, primary) = v1_column_of(d, &t.columns[i]);
        if primary && pk.is_none() {
            let mut key: Vec<String> = Vec::new();
            key.push(col.name.clone());
            pk = Some(key);
            proof {
                assert(strings_view(key@) =~= seq![t.columns@[i as int].name@]);
            }
        }
        columns.push(col);
    }
    let primary_key = pk_of_constraints(&t.constraints, pk);
    let table = Table { name: t.name.clone(), columns, primary_key };
    proof {
        assert(crate::ir::columns_view(table.columns@) =~= t.columns@.map_values(|c: SqlColumn| v1_column(d, c)));
    }
    table
}

/// The minimal-IR schema of a list of statements: one table per `CREATE TABLE`, in order.
pub fn schema_from_statements(d: SqlDialect, stmts: &Vec<SqlStatement>) -> (r: Schema)
    ensures
        r@ == v1_tables(d, stmts@, stmts@.len()),
{
    let mut tables: Vec<Table> = Vec::new();
    for i in 0..stmts.len()
        invariant
            crate::ir::tables_view(tables@) == v1_tables(d, stmts@, i as nat),
    {
        match &stmts[i] {
            SqlStatement::CreateTable(t) => {
                let table = v1_table_of(d, t);
                let ghost before = tables@;
                tables.push(table);
                proof {
                    assert(crate::ir::tables_view(tables@) =~= crate::ir::tables_view(before).push(table@));
                }
            },
            SqlStatement::Other => {},
        }
    }
    Schema { tables }
}

/// Reads a MySQL script into the minimal IR. It fails exactly when the script is refused
/// (`sqlguard`) or `sqlparser` rejects it; otherwise the schema has one table per `CREATE TABLE`.
pub fn parse_mysql_schema(sql: &str) -> (r: Result<Schema, SqlParseError>)
    ensures
        r is Ok <==> sqlparser_statements(SqlDialect::MySql, sql@) is Some,
        r matches Ok(s) ==> ({
            let st = sqlparser_statements(SqlDialect::MySql, sql@)->0;
            s@ == v1_tables(SqlDialect::MySql, st, st.len())
        }),
        r matches Err(e) ==> e@ == sqlparser_error(SqlDialect::MySql, sql@),
{
    match read_statements(SqlDialect::MySql, sql) {
        Ok(stmts) => Ok(schema_from_statements(SqlDialect::MySql, &stmts)),
        Err(e) => Err(e),
    }
}

/// Reads a SQLite script into the minimal IR. It fails exactly when the script is refused
/// (`sqlguard`) or `sqlparser` rejects it; otherwise the schema has one table per `CREATE TABLE`.
pub fn parse_sqlite_schema(sql: &str) -> (r: Result<Schema, SqlParseError>)
    ensures
        r is Ok <==> sqlparser_statements(SqlDialect::Sqlite, sql@) is Some,
        r matches Ok(s) ==> ({
            let st = sqlparser_statements(SqlDialect::Sqlite, sql@)->0;
            s@ == v1_tables(SqlDialect::Sqlite, st, st.len())
        }),
        r matches Err(e) ==> e@ == sqlparser_error(SqlDialect::Sqlite, sql@),
{
    match read_statements(SqlDialect::Sqlite, sql) {
        Ok(stmts) => Ok(schema_from_statements(SqlDialect::Sqlite, &stmts)),
        Err(e) => Err(e),
    }
}

/// Reads a PostgreSQL script into the minimal IR, with the type mapping of the
/// non-MySQL dialects. It fails exactly when the script is refused (`sqlguard`)
/// or `sqlparser` rejects it.
pub fn parse_postgres_schema(sql: &str) -> (r: Result<Schema, SqlParseError>)
    ensures
        r is Ok <==> sqlparser_statements(SqlDialect::Postgres, sql@) is Some,
        r matches Ok(s) ==> ({
            let st = sqlparser_statements(SqlDialect::Postgres, sql@)->0;
            s@ == v1_tables(SqlDialect::Postgres, st, st.len())
        }),
        r matches Err(e) ==> e@ == sqlparser_error(SqlDialect::Postgres, sql@),
{
    match read_statements(SqlDialect::Postgres, sql) {
        Ok(stmts) => Ok(schema_from_statements(SqlDialect::Postgres, &stmts)),
        Err(e) => Err(e),
    }
}

// ---------------------------------------------------------------------------
// IR v2

/// The annotation kept for a column option that has no v2 constraint.
pub open spec fn unhandled_option(debug: Seq<char>) -> Seq<char> {
    "unhandled column option: "@ + debug
}

/// What one column option contributes to a v2 column.
pub enum OptionEffect {
    Nothing,
    Constrain(ColumnConstraintView),
    Annotate(Seq<char>),
}

/// `NOT NULL`, `DEFAULT` and `CHECK` become constraints; `NULL` and a column
/// `PRIMARY KEY` add nothing. PostgreSQL reads a generated column as auto-increment;
/// MySQL and SQLite read their auto-increment keyword among dialect-specific tokens
/// instead. Any other option is kept as an annotation.
pub open spec fn v2_option_effect(d: SqlDialect, o: SqlColumnOptionDef) -> OptionEffect {
    let note = OptionEffect::Annotate(unhandled_option(o.debug@));
    match o.option {
        SqlColumnOption::NotNull => OptionEffect::Constrain(ColumnConstraintView::NotNull),
        SqlColumnOption::Null => OptionEffect::Nothing,
        SqlColumnOption::Default(e) => OptionEffect::Constrain(ColumnConstraintView::Default(e@)),
        SqlColumnOption::Unique { is_primary } => if is_primary { OptionEffect::Nothing } else { note },
        SqlColumnOption::Generated =>
            if d is Postgres { OptionEffect::Constrain(ColumnConstraintView::AutoIncrement) } else { note },
        SqlColumnOption::DialectSpecific(ts) =>
            if d is Postgres {
                note
            } else if has_word(ts@, auto_increment_keyword(d)) {
                OptionEffect::Constrain(ColumnConstraintView::AutoIncrement)
            } else {
                OptionEffect::Nothing
            },
        SqlColumnOption::Check(e) => OptionEffect::Constrain(ColumnConstraintView::Check(e@)),
        SqlColumnOption::Other => note,
    }
}

/// The constraints of the first `n` options, in order.
pub open spec fn v2_constraints_of(d: SqlDialect, opts: Seq<SqlColumnOptionDef>, n: nat) -> Seq<ColumnConstraintView>
    decreases n,
{
    if n == 0 {
        Seq::empty()
    } else {
        let prev = v2_constraints_of(d, opts, (n - 1) as nat);
        match v2_option_effect(d, opts[n - 1]) {
            OptionEffect::Constrain(c) => prev.push(c),
            _ => prev,
        }
    }
}

/// The annotations of the first `n` options, in order.
pub open spec fn v2_annotations_of(d: SqlDialect, opts: Seq<SqlColumnOptionDef>, n: nat) -> Seq<Seq<char>>
    decreases n,
{
    if n == 0 {
        Seq::empty()
    } else {
        let prev = v2_annotations_of(d, opts, (n - 1) as nat);
        match v2_option_effect(d, opts[n - 1]) {
            OptionEffect::Annotate(a) => prev.push(a),
            _ => prev,
        }
    }
}

/// The v2 type of a column type, read from the lower-cased type text `l` by the first
/// keyword it contains; `text` itself is kept when none matches.
pub open spec fn v2_type_from_lower(d: SqlDialect, l: Seq<char>, text: Seq<char>) -> V2DataTypeView {
    let varchar = V2DataTypeView::Varchar(first_u32_run(l));
    match d {
        SqlDialect::Postgres =>
            if contains(l, "tinyint(1)"@) { V2DataTypeView::Boolean }
            else if contains(l, "bigint"@) { V2DataTypeView::Integer { bits: Some(64) } }
            else if contains(l, "smallint"@) { V2DataTypeView::Integer { bits: Some(16) } }
            else if contains(l, "int"@) { V2DataTypeView::Integer { bits: Some(32) } }
            else if contains(l, "double"@) || contains(l, "float8"@) || contains(l, "double precision"@) { V2DataTypeView::Double }
            else if contains(l, "float"@) || contains(l, "real"@) { V2DataTypeView::Float }
            else if contains(l, "varchar"@) || contains(l, "character varying"@) || contains(l, "char"@) { varchar }
            else if contains(l, "text"@) { V2DataTypeView::Text }
            else if contains(l, "timestamp"@) || contains(l, "datetime"@) { V2DataTypeView::Timestamp }
            else { V2DataTypeView::Custom(text) },
        SqlDialect::MySql =>
            if contains(l, "tinyint(1)"@) { V2DataTypeView::Boolean }
            else if contains(l, "bigint"@) { V2DataTypeView::Integer { bits: Some(64) } }
            else if contains(l, "int"@) { V2DataTypeView::Integer { bits: Some(32) } }
            else if contains(l, "varchar"@) { varchar }
            else if contains(l, "text"@) { V2DataTypeView::Text }
            else if contains(l, "timestamp"@) || contains(l, "datetime"@) { V2DataTypeView::Timestamp }
            else if contains(l, "double"@) { V2DataTypeView::Double }
            else if contains(l, "float"@) || contains(l, "real"@) { V2DataTypeView::Float }
            else if contains(l, "bool"@) { V2DataTypeView::Boolean }
            else { V2DataTypeView::Custom(text) },
        SqlDialect::Sqlite =>
            if contains(l, "bigint"@) { V2DataTypeView::Integer { bits: Some(64) } }
            else if contains(l, "int"@) { V2DataTypeView::Integer { bits: Some(32) } }
            else if contains(l, "bool"@) || contains(l, "tinyint(1)"@) { V2DataTypeView::Boolean }
            else if contains(l, "double"@) { V2DataTypeView::Double }
            else if contains(l, "float"@) || contains(l, "real"@) { V2DataTypeView::Float }
            else if contains(l, "varchar"@) || contains(l, "character varying"@) { varchar }
            else if contains(l, "text"@) || contains(l, "string"@) { V2DataTypeView::Text }
            else if contains(l, "timestamp"@) || contains(l, "datetime"@) { V2DataTypeView::Timestamp }
            else { V2DataTypeView::Custom(text) },
    }
}

/// The v2 type of a column whose type `sqlparser` renders as `text`.
pub open spec fn v2_type(d: SqlDialect, text: Seq<char>) -> V2DataTypeView {
    v2_type_from_lower(d, unicode_lowercase(text), text)
}

pub open spec fn v2_column(d: SqlDialect, c: SqlColumn) -> V2ColumnView {
    V2ColumnView {
        name: c.name@,
        data_type: v2_type(d, c.type_text@),
        constraints: v2_constraints_of(d, c.options@, c.options@.len()),
        annotations: v2_annotations_of(d, c.options@, c.options@.len()),
    }
}

/// The table-level constraints of the first `n` table constraints: `UNIQUE` groups,
/// foreign keys (with their actions as text) and checks, in order; primary keys and other
/// constraints are left out.
pub open spec fn v2_table_constraints(cs: Seq<SqlTableConstraint>, n: nat) -> Seq<ConstraintView>
    decreases n,
{
    if n == 0 {
        Seq::empty()
    } else {
        let prev = v2_table_constraints(cs, (n - 1) as nat);
        match cs[n - 1] {
            SqlTableConstraint::Unique { name, columns, is_primary } =>
                if is_primary { prev } else {
                    prev.push(ConstraintView::Unique { name: opt_string_view(name), columns: strings_view(columns@) })
                },
            SqlTableConstraint::ForeignKey { name, columns, foreign_table, referred_columns, on_delete, on_update } =>
                prev.push(ConstraintView::ForeignKey(ForeignKeyView {
                    name: opt_string_view(name),
                    columns: strings_view(columns@),
                    referenced_table: foreign_table@,
                    referenced_columns: strings_view(referred_columns@),
                    on_update: opt_action_text(on_update),
                    on_delete: opt_action_text(on_delete),
                })),
            SqlTableConstraint::Check { name, expr } =>
                prev.push(ConstraintView::Check { name: opt_string_view(name), expr: expr@ }),
            SqlTableConstraint::Other => prev,
        }
    }
}

pub open spec fn v2_table(d: SqlDialect, t: SqlCreateTable) -> V2TableView {
    V2TableView {
        name: t.name@,
        columns: t.columns@.map_values(|c: SqlColumn| v2_column(d, c)),
        primary_key: pk_from_constraints(t.constraints@, t.constraints@.len(), None),
        constraints: v2_table_constraints(t.constraints@, t.constraints@.len()),
    }
}

/// The v2 tables of the first `n` statements: one per `CREATE TABLE`, in order.
pub open spec fn v2_tables(d: SqlDialect, stmts: Seq<SqlStatement>, n: nat) -> Seq<V2TableView>
    decreases n,
{
    if n == 0 {
        Seq::empty()
    } else {
        let prev = v2_tables(d, stmts, (n - 1) as nat);
        match stmts[n - 1] {
            SqlStatement::CreateTable(t) => prev.push(v2_table(d, t)),
            SqlStatement::Other => prev,
        }
    }
}

fn v2_type_of(d: SqlDialect, text: &String) -> (r: V2DataType)
    ensures
        r@ == v2_type(d, text@),
{
    let lower = to_lowercase(text.as_str());
    let l = chars_of(lower.as_str());
    match d {
        SqlDialect::Postgres => {
            if chars_contain(&l, "tinyint(1)") { V2DataType::Boolean }
            else if chars_contain(&l, "bigint") { V2DataType::Integer { bits: Some(64) } }
            else if chars_contain(&l, "smallint") { V2DataType::Integer { bits: Some(16) } }
            else if chars_contain(&l, "int") { V2DataType::Integer { bits: Some(32) } }
            else if chars_contain(&l, "double") || chars_contain(&l, "float8") || chars_contain(&l, "double precision") { V2DataType::Double }
            else if chars_contain(&l, "float") || chars_contain(&l, "real") { V2DataType::Float }
            else if chars_contain(&l, "varchar") || chars_contain(&l, "character varying") || chars_contain(&l, "char") { V2DataType::Varchar(first_u32_in(&l)) }
            else if chars_contain(&l, "text") { V2DataType::Text }
            else if chars_contain(&l, "timestamp") || chars_contain(&l, "datetime") { V2DataType::Timestamp }
            else { V2DataType::Custom(text.clone()) }
        },
        SqlDialect::MySql => {
            if chars_contain(&l, "tinyint(1)") { V2DataType::Boolean }
            else if chars_contain(&l, "bigint") { V2DataType::Integer { bits: Some(64) } }
            else if chars_contain(&l, "int") { V2DataType::Integer { bits: Some(32) } }
            else if chars_contain(&l, "varchar") { V2DataType::Varchar(first_u32_in(&l)) }
            else if chars_contain(&l, "text") { V2DataType::Text }
            else if chars_contain(&l, "timestamp") || chars_contain(&l, "datetime") { V2DataType::Timestamp }
            else if chars_contain(&l, "double") { V2DataType::Double }
            else if chars_contain(&l, "float") || chars_contain(&l, "real") { V2DataType::Float }
            else if chars_contain(&l, "bool") { V2DataType::Boolean }
            else { V2DataType::Custom(text.clone()) }
        },
        SqlDialect::Sqlite => {
            if chars_contain(&l, "bigint") { V2DataType::Integer { bits: Some(64) } }
            else if chars_contain(&l, "int") { V2DataType::Integer { bits: Some(32) } }
            else if chars_contain(&l, "bool") || chars_contain(&l, "tinyint(1)") { V2DataType::Boolean }
            else if chars_contain(&l, "double") { V2DataType::Double }
            else if chars_contain(&l, "float") || chars_contain(&l, "real") { V2DataType::Float }
            else if chars_contain(&l, "varchar") || chars_contain(&l, "character varying") { V2DataType::Varchar(first_u32_in(&l)) }
            else if chars_contain(&l, "text") || chars_contain(&l, "string") { V2DataType::Text }
            else if chars_contain(&l, "timestamp") || chars_contain(&l, "datetime") { V2DataType::Timestamp }
            else { V2DataType::Custom(text.clone()) }
        },
    }
}

fn unhandled_option_text(debug: &String) -> (r: String)
    ensures
        r@ == unhandled_option(debug@),
{
    let mut s = String::new();
    s.append("unhandled column option: ");
    s.append(debug.as_str());
    s
}

fn v2_column_of(d: SqlDialect, c: &SqlColumn) -> (r: V2Column)
    ensures
        r@ == v2_column(d, *c),
{
    let mut constraints: Vec<ColumnConstraint> = Vec::new();
    let mut annotations: Vec<String> = Vec::new();
    for i in 0..c.options.len()
        invariant
            crate::v2::column_constraints_view(constraints@) == v2_constraints_of(d, c.options@, i as nat),
            strings_view(annotations@) == v2_annotations_of(d, c.options@, i as nat),
    {
        let o = &c.options[i];
        let ghost cs0 = constraints@;
        let ghost an0 = annotations@;
        let mut note = false;
        match &o.option {
            SqlColumnOption::NotNull => constraints.push(ColumnConstraint::NotNull),
            SqlColumnOption::Null => {},
            SqlColumnOption::Default(e) => constraints.push(ColumnConstraint::Default(e.clone())),
            SqlColumnOption::Unique { is_primary } => {
                if !*is_primary {
                    note = true;
                }
            },
            SqlColumnOption::Generated => {
                if d == SqlDialect::Postgres {
                    constraints.push(ColumnConstraint::AutoIncrement);
                } else {
                    note = true;
                }
            },
            SqlColumnOption::DialectSpecific(ts) => {
                if d == SqlDialect::Postgres {
                    note = true;
                } else if dialect_has_auto_increment(d, ts) {
                    constraints.push(ColumnConstraint::AutoIncrement);
                }
            },
            SqlColumnOption::Check(e) => constraints.push(ColumnConstraint::Check(e.clone())),
            SqlColumnOption::Other => note = true,
        }
        if note {
            annotations.push(unhandled_option_text(&o.debug));
        }
        proof {
            assert(crate::v2::column_constraints_view(constraints@) =~= v2_constraints_of(d, c.options@, (i + 1) as nat));
            assert(strings_view(annotations@) =~= v2_annotations_of(d, c.options@, (i + 1) as nat));
        }
    }
    V2Column {
        name: c.name.clone(),
        data_type: v2_type_of(d, &c.type_text),
        constraints,
        annotations,
    }
}

fn v2_table_constraints_of(cs: &Vec<SqlTableConstraint>) -> (r: Vec<Constraint>)
    ensures
        crate::v2::constraints_view(r@) == v2_table_constraints(cs@, cs@.len()),
{
    let mut out: Vec<Constraint> = Vec::new();
    for i in 0..cs.len()
        invariant
            crate::v2::constraints_view(out@) == v2_table_constraints(cs@, i as nat),
    {
        let ghost before = out@;
        match &cs[i] {
            SqlTableConstraint::Unique { name, columns, is_primary } => {
                if !*is_primary {
                    out.push(Constraint::Unique { name: copy_opt_string(name), columns: copy_strings(columns) });
                }
            },
            SqlTableConstraint::ForeignKey { name, columns, foreign_table, referred_columns, on_delete, on_update } => {
                out.push(Constraint::ForeignKey(ForeignKey {
                    name: copy_opt_string(name),
                    columns: copy_strings(columns),
                    referenced_table: foreign_table.clone(),
                    referenced_columns: copy_strings(referred_columns),
                    on_update: action_string(*on_update),
                    on_delete: action_string(*on_delete),
                }));
            },
            SqlTableConstraint::Check { name, expr } => {
                out.push(Constraint::Check { name: copy_opt_string(name), expr: expr.clone() });
            },
            SqlTableConstraint::Other => {},
        }
        proof {
            assert(crate::v2::constraints_view(out@) =~= v2_table_constraints(cs@, (i + 1) as nat));
        }
    }
    out
}

fn v2_table_of(d: SqlDialect, t: &SqlCreateTable) -> (r: V2Table)
    ensures
        r@ == v2_table(d, *t),
{
    let mut columns: Vec<V2Column> = Vec::new();
    for i in 0..t.columns.len()
        invariant
            columns@.len() == i,
            forall|k: int| 0 <= k < i ==> (#[trigger] columns@[k])@ == v2_column(d, t.columns@[k]),
    {
        columns.push(v2_column_of(d, &t.columns[i]));
    }
    let primary_key = pk_of_constraints(&t.constraints, None);
    let constraints = v2_table_constraints_of(&t.constraints);
    let table = V2Table { name: t.name.clone(), columns, primary_key, constraints };
    proof {
        assert(crate::v2::v2_columns_view(table.columns@) =~= t.columns@.map_values(|c: SqlColumn| v2_column(d, c)));
    }
    table
}

/// The v2 schema of a list of statements: one table per `CREATE TABLE`, in order, and
/// no metadata.
pub fn schema_v2_from_statements(d: SqlDialect, stmts: &Vec<SqlStatement>) -> (r: V2Schema)
    ensures
        r@.tables == v2_tables(d, stmts@, stmts@.len()),
        r@.metadata == Map::<String, String>::empty(),
{
    let mut schema = V2Schema::new();
    for i in 0..stmts.len()
        invariant
            v2_tables_view(schema.tables@) == v2_tables(d, stmts@, i as nat),
            schema.metadata@ == Map::<String, String>::empty(),
    {
        match &stmts[i] {
            SqlStatement::CreateTable(t) => {
                let table = v2_table_of(d, t);
                let ghost before = schema.tables@;
                schema.tables.push(table);
                proof {
                    assert(v2_tables_view(schema.tables@) =~= v2_tables_view(before).push(table@));
                }
            },
            SqlStatement::Other => {},
        }
    }
    schema
}

fn parse_schema_v2(d: SqlDialect, sql: &str) -> (r: Result<V2Schema, String>)
    ensures
        r is Ok <==> sqlparser_statements(d, sql@) is Some,
        r matches Ok(s) ==> ({
            let st = sqlparser_statements(d, sql@)->0;
            &&& s@.tables == v2_tables(d, st, st.len())
            &&& s@.metadata == Map::<String, String>::empty()
        }),
        r matches Err(m) ==> m@ == parse_error_message(sqlparser_error(d, sql@)),
{
    match read_statements(d, sql) {
        Ok(stmts) => Ok(schema_v2_from_statements(d, &stmts)),
        Err(e) => Err(e.message()),
    }
}

/// Reads a PostgreSQL script into IR v2. It fails, with `sqlparser`'s message, exactly
/// when the script is refused (`sqlguard`) or `sqlparser` rejects it.
pub fn parse_postgres_schema_v2(sql: &str) -> (r: Result<V2Schema, String>)
    ensures
        r is Ok <==> sqlparser_statements(SqlDialect::Postgres, sql@) is Some,
        r matches Ok(s) ==> ({
            let st = sqlparser_statements(SqlDialect::Postgres, sql@)->0;
            &&& s@.tables == v2_tables(SqlDialect::Postgres, st, st.len())
            &&& s@.metadata == Map::<String, String>::empty()
        }),
        r matches Err(m) ==> m@ == parse_error_message(sqlparser_error(SqlDialect::Postgres, sql@)),
{
    parse_schema_v2(SqlDialect::Postgres, sql)
}

/// Reads a MySQL script into IR v2. It fails, with `sqlparser`'s message, exactly when
/// the script is refused (`sqlguard`) or `sqlparser` rejects it.
pub fn parse_mysql_schema_v2(sql: &str) -> (r: Result<V2Schema, String>)
    ensures
        r is Ok <==> sqlparser_statements(SqlDialect::MySql, sql@) is Some,
        r matches Ok(s) ==> ({
            let st = sqlparser_statements(SqlDialect::MySql, sql@)->0;
            &&& s@.tables == v2_tables(SqlDialect::MySql, st, st.len())
            &&& s@.metadata == Map::<String, String>::empty()
        }),
        r matches Err(m) ==> m@ == parse_error_message(sqlparser_error(SqlDialect::MySql, sql@)),
{
    parse_schema_v2(SqlDialect::MySql, sql)
}

/// Reads a SQLite script into IR v2. It fails, with `sqlparser`'s message, exactly when
/// the script is refused (`sqlguard`) or `sqlparser` rejects it.
pub fn parse_sqlite_schema_v2(sql: &str) -> (r: Result<V2Schema, String>)
    ensures
        r is Ok <==> sqlparser_statements(SqlDialect::Sqlite, sql@) is Some,
        r matches Ok(s) ==> ({
            let st = sqlparser_statements(SqlDialect::Sqlite, sql@)->0;
            &&& s@.tables == v2_tables(SqlDialect::Sqlite, st, st.len())
            &&& s@.metadata == Map::<String, String>::empty()
        }),
        r matches Err(m) ==> m@ == parse_error_message(sqlparser_error(SqlDialect::Sqlite, sql@)),
{
    parse_schema_v2(SqlDialect::Sqlite, sql)
}

// ---------------------------------------------------------------------------
// The two readers agree

/// The minimal-IR tables and the v2 tables list the same tables: as many, with the
/// same names in the same order, and in each the same column names in the same order.
pub open spec fn readers_agree(ts1: Seq<TableView>, ts2: Seq<V2TableView>) -> bool {
    &&& ts1.len() == ts2.len()
    &&& forall|i: int| 0 <= i < ts1.len() ==> {
        &&& (#[trigger] ts1[i]).name == ts2[i].name
        &&& ts1[i].columns.map_values(|c: ColumnView| c.name) == ts2[i].columns.map_values(|c: V2ColumnView| c.name)
    }
}

/// Whatever the statements, both readers list the same tables and columns.
pub proof fn law_readers_agree_on_statements(d: SqlDialect, stmts: Seq<SqlStatement>, n: nat)
    requires
        n <= stmts.len(),
    ensures
        readers_agree(v1_tables(d, stmts, n), v2_tables(d, stmts, n)),
    decreases n,
{
    if n > 0 {
        law_readers_agree_on_statements(d, stmts, (n - 1) as nat);
        match stmts[n - 1] {
            SqlStatement::CreateTable(t) => {
                let c1 = v1_table(d, t).columns.map_values(|c: ColumnView| c.name);
                let c2 = v2_table(d, t).columns.map_values(|c: V2ColumnView| c.name);
                assert(c1 =~= c2);
            },
            SqlStatement::Other => {},
        }
    }
}

/// The SQLite reader of the minimal IR and that of IR v2 read the same tables and
/// columns from any script (and, by their contracts, succeed on the same scripts).
pub proof fn law_sqlite_readers_agree(sql: Seq<char>)
    ensures
        sqlparser_statements(SqlDialect::Sqlite, sql) matches Some(st) ==>
            readers_agree(v1_tables(SqlDialect::Sqlite, st, st.len()), v2_tables(SqlDialect::Sqlite, st, st.len())),
{
    if let Some(st) = sqlparser_statements(SqlDialect::Sqlite, sql) {
        law_readers_agree_on_statements(SqlDialect::Sqlite, st, st.len());
    }
}

} // verus!
