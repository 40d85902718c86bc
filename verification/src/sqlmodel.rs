//! The part of a parsed SQL script that schema extraction reads, as plain values.
//!
//! Parsing itself is done by the `sqlparser` crate. `parse_sql_model` calls it and
//! hands back, for each statement, the facts about `CREATE TABLE` statements that
//! the mappers in `parse` use; everything else about a statement is dropped.

use vstd::prelude::*;
use sqlparser::ast::{CharacterLength, ColumnDef, ColumnOption, ColumnOptionDef, Ident, ReferentialAction};
use sqlparser::ast::DataType as ParsedDataType;
use sqlparser::ast::{Statement, TableConstraint};
use sqlparser::dialect::{MySqlDialect, PostgreSqlDialect, SQLiteDialect};
use sqlparser::parser::{Parser, ParserError};
use sqlparser::tokenizer::Token;
use crate::sqlguard::{spec_sqlparser_safe, sqlparser_accepts_safely};

verus! {

/// Which of `sqlparser`'s dialects a script is read with.
#[derive(Debug, Clone, Copy, PartialEq, Eq, Structural)]
pub enum SqlDialect {
    Postgres,
    MySql,
    Sqlite,
}

/// The length given to a character type.
#[derive(Debug, Clone, Copy, PartialEq, Eq, Structural)]
pub enum SqlCharLength {
    IntegerLength(u64),
    Max,
}

/// The column types that the mappers tell apart; `Other` stands for every other type.
#[derive(Debug, Clone, Copy, PartialEq, Eq, Structural)]
pub enum SqlType {
    TinyInt(Option<u64>),
    Int,
    Integer,
    BigInt,
    Int8,
    Varchar(Option<SqlCharLength>),
    CharacterVarying(Option<SqlCharLength>),
    CharVarying(Option<SqlCharLength>),
    Text,
    String,
    Datetime,
    Timestamp,
    Bool,
    Boolean,
    Float,
    Real,
    Float4,
    Double,
    DoublePrecision,
    Float8,
    Unspecified,
    Other,
}

/// A column option. Expressions are kept as the text `sqlparser` renders for them;
/// a dialect-specific option keeps, for each of its tokens, the word's value when
/// the token is a word.
#[derive(Debug)]
pub enum SqlColumnOption {
    Null,
    NotNull,
    Default(String),
    Unique { is_primary: bool },
    Generated,
    Check(String),
    DialectSpecific(Vec<Option<String>>),
    Other,
}

/// A column option together with the debug rendering of its whole definition.
#[derive(Debug)]
pub struct SqlColumnOptionDef {
    pub option: SqlColumnOption,
    pub debug: String,
}

/// A column definition; `type_text` is the type as `sqlparser` renders it.
#[derive(Debug)]
pub struct SqlColumn {
    pub name: String,
    pub data_type: SqlType,
    pub type_text: String,
    pub options: Vec<SqlColumnOptionDef>,
}

/// A referential action of a foreign key (`ON DELETE` / `ON UPDATE`).
#[derive(Debug, Clone, Copy, PartialEq, Eq, Structural)]
pub enum SqlAction {
    Restrict,
    Cascade,
    SetNull,
    NoAction,
    SetDefault,
}

/// The text of an action, as `sqlparser` renders it.
pub open spec fn action_text(a: SqlAction) -> Seq<char> {
    match a {
        SqlAction::Restrict => "RESTRICT"@,
        SqlAction::Cascade => "CASCADE"@,
        SqlAction::SetNull => "SET NULL"@,
        SqlAction::NoAction => "NO ACTION"@,
        SqlAction::SetDefault => "SET DEFAULT"@,
    }
}

pub open spec fn opt_action_text(a: Option<SqlAction>) -> Option<Seq<char>> {
    match a {
        Some(a) => Some(action_text(a)),
        None => None,
    }
}

/// The text of an optional action.
pub fn action_string(a: Option<SqlAction>) -> (r: Option<String>)
    ensures
        crate::ir::opt_string_view(r) == opt_action_text(a),
{
    match a {
        Some(SqlAction::Restrict) => Some(String::from_str("RESTRICT")),
        Some(SqlAction::Cascade) => Some(String::from_str("CASCADE")),
        Some(SqlAction::SetNull) => Some(String::from_str("SET NULL")),
        Some(SqlAction::NoAction) => Some(String::from_str("NO ACTION")),
        Some(SqlAction::SetDefault) => Some(String::from_str("SET DEFAULT")),
        None => None,
    }
}

#[derive(Debug)]
pub enum SqlTableConstraint {
    Unique { name: Option<String>, columns: Vec<String>, is_primary: bool },
    ForeignKey {
        name: Option<String>,
        columns: Vec<String>,
        foreign_table: String,
        referred_columns: Vec<String>,
        on_delete: Option<SqlAction>,
        on_update: Option<SqlAction>,
    },
    Check { name: Option<String>, expr: String },
    Other,
}

#[derive(Debug)]
pub struct SqlCreateTable {
    pub name: String,
    pub columns: Vec<SqlColumn>,
    pub constraints: Vec<SqlTableConstraint>,
}

#[derive(Debug)]
pub enum SqlStatement {
    CreateTable(SqlCreateTable),
    Other,
}

// The `sqlparser` types that the conversion below handles; opaque to proofs.
#[verifier::external_type_specification]
#[verifier::external_body]
pub struct ExParserError(sqlparser::parser::ParserError);

#[verifier::external_type_specification]
#[verifier::external_body]
pub struct ExStatement(sqlparser::ast::Statement);

#[verifier::external_type_specification]
#[verifier::external_body]
pub struct ExColumnDef(sqlparser::ast::ColumnDef);

#[verifier::external_type_specification]
#[verifier::external_body]
pub struct ExColumnOptionDef(sqlparser::ast::ColumnOptionDef);

#[verifier::external_type_specification]
#[verifier::external_body]
pub struct ExToken(sqlparser::tokenizer::Token);

#[verifier::external_type_specification]
#[verifier::external_body]
pub struct ExIdent(sqlparser::ast::Ident);

#[verifier::external_type_specification]
#[verifier::external_body]
pub struct ExTableConstraint(sqlparser::ast::TableConstraint);

#[verifier::external_type_specification]
#[verifier::external_body]
pub struct ExReferentialAction(sqlparser::ast::ReferentialAction);

#[verifier::external_type_specification]
#[verifier::external_body]
pub struct ExCharacterLength(sqlparser::ast::CharacterLength);

#[verifier::external_type_specification]
#[verifier::external_body]
pub struct ExDataType(ParsedDataType);

/// Why a script was not read: the variants of `sqlparser`'s `ParserError` with their
/// messages, or `Refused` for a script that is not handed to `sqlparser` because it
/// could make it panic (see `sqlguard`).
#[derive(Debug)]
pub enum SqlParseError {
    TokenizerError(String),
    ParserError(String),
    RecursionLimitExceeded,
    Refused,
}

pub enum SqlParseErrorView {
    TokenizerError(Seq<char>),
    ParserError(Seq<char>),
    RecursionLimitExceeded,
    Refused,
}

impl View for SqlParseError {
    type V = SqlParseErrorView;

    open spec fn view(&self) -> SqlParseErrorView {
        match self {
            SqlParseError::TokenizerError(m) => SqlParseErrorView::TokenizerError(m@),
            SqlParseError::ParserError(m) => SqlParseErrorView::ParserError(m@),
            SqlParseError::RecursionLimitExceeded => SqlParseErrorView::RecursionLimitExceeded,
            SqlParseError::Refused => SqlParseErrorView::Refused,
        }
    }
}

/// The text of an error: a `sqlparser` error as its `Display` writes it, and a fixed
/// text for a refused script.
pub open spec fn parse_error_message(e: SqlParseErrorView) -> Seq<char> {
    "sql parser error: "@ + match e {
        SqlParseErrorView::TokenizerError(m) => m,
        SqlParseErrorView::ParserError(m) => m,
        SqlParseErrorView::RecursionLimitExceeded => "recursion limit exceeded"@,
        SqlParseErrorView::Refused => "unsupported statement (TOP, FLUSH, GRANTED BY, REPLACE or a table AUTO_INCREMENT value)"@,
    }
}

impl SqlParseError {
    /// The error's text: `sql parser error: ` and its message.
    pub fn message(&self) -> (r: String)
        ensures
            r@ == parse_error_message(self@),
    {
        let mut r = String::new();
        r.append("sql parser error: ");
        match self {
            SqlParseError::TokenizerError(m) => r.append(m.as_str()),
            SqlParseError::ParserError(m) => r.append(m.as_str()),
            SqlParseError::RecursionLimitExceeded => r.append("recursion limit exceeded"),
            SqlParseError::Refused => r.append("unsupported statement (TOP, FLUSH, GRANTED BY, REPLACE or a table AUTO_INCREMENT value)"),
        }
        r
    }
}

/// What `sqlparser` makes of `sql` in the given dialect: the statements it reads, or
/// the error with which it rejects the script. This names the outcome of
/// `Parser::parse_sql` together with the conversion to plain values, including the
/// `Display` and `Debug` texts that the conversion keeps; it depends on the dialect and
/// the script alone.
pub uninterp spec fn sqlparser_result(dialect: SqlDialect, sql: Seq<char>) -> Result<Seq<SqlStatement>, SqlParseErrorView>;

/// What reading `sql` gives: `Refused` for a script that could make `sqlparser` panic,
/// otherwise what `sqlparser` makes of it.
pub open spec fn script_result(dialect: SqlDialect, sql: Seq<char>) -> Result<Seq<SqlStatement>, SqlParseErrorView> {
    if spec_sqlparser_safe(dialect, sql) {
        sqlparser_result(dialect, sql)
    } else {
        Err(SqlParseErrorView::Refused)
    }
}

/// The statements read from `sql`, or `None` when the script is refused or `sqlparser`
/// rejects it.
pub open spec fn sqlparser_statements(dialect: SqlDialect, sql: Seq<char>) -> Option<Seq<SqlStatement>> {
    match script_result(dialect, sql) {
        Ok(st) => Some(st),
        Err(_) => None,
    }
}

/// The error with which reading `sql` fails, when it does.
pub open spec fn sqlparser_error(dialect: SqlDialect, sql: Seq<char>) -> SqlParseErrorView {
    script_result(dialect, sql)->Err_0
}

/// Calls `sqlparser::parser::Parser::parse_sql` with the dialect's `sqlparser` dialect
/// and converts each statement, or the error, to plain values. Trusted: the outcome is
/// `sqlparser_result` of the dialect and the script, a function of these alone. Only
/// scripts that pass `sqlguard`'s test are admitted, as `sqlparser` panics on some others.
#[verifier::external_body]
fn parse_sql_model(dialect: SqlDialect, sql: &str) -> (r: Result<Vec<SqlStatement>, SqlParseError>)
    requires
        spec_sqlparser_safe(dialect, sql@),
    ensures
        match sqlparser_result(dialect, sql@) {
            Ok(st) => r matches Ok(v) && v@ == st,
            Err(e) => r matches Err(x) && x@ == e,
        },
{
    let parsed = match dialect {
        SqlDialect::Postgres => Parser::parse_sql(&PostgreSqlDialect {}, sql),
        SqlDialect::MySql => Parser::parse_sql(&MySqlDialect {}, sql),
        SqlDialect::Sqlite => Parser::parse_sql(&SQLiteDialect {}, sql),
    };
    match parsed {
        Ok(ast) => Ok(ast.into_iter().map(statement_model).collect()),
        Err(e) => Err(parse_error_model(e)),
    }
}

/// Reads the statements of a script: refuses a script that could make `sqlparser`
/// panic, and hands any other to `sqlparser`.
pub(crate) fn read_statements(dialect: SqlDialect, sql: &str) -> (r: Result<Vec<SqlStatement>, SqlParseError>)
    ensures
        match script_result(dialect, sql@) {
            Ok(st) => r matches Ok(v) && v@ == st,
            Err(e) => r matches Err(x) && x@ == e,
        },
{
    if sqlparser_accepts_safely(dialect, sql) {
        parse_sql_model(dialect, sql)
    } else {
        Err(SqlParseError::Refused)
    }
}

/// Converts a `sqlparser` error, variant by variant.
#[verifier::external_body]
fn parse_error_model(e: ParserError) -> SqlParseError {
    match e {
        ParserError::TokenizerError(m) => SqlParseError::TokenizerError(m),
        ParserError::ParserError(m) => SqlParseError::ParserError(m),
        ParserError::RecursionLimitExceeded => SqlParseError::RecursionLimitExceeded,
    }
}

/// Converts one statement: `CREATE TABLE` keeps its name (rendered), columns and
/// table constraints; any other statement becomes `Other`.
#[verifier::external_body]
fn statement_model(s: Statement) -> SqlStatement {
    match s {
        Statement::CreateTable { name, columns, constraints, .. } => SqlStatement::CreateTable(SqlCreateTable {
            name: name.to_string(),
            columns: columns.into_iter().map(column_model).collect(),
            constraints: constraints.into_iter().map(table_constraint_model).collect(),
        }),
        _ => SqlStatement::Other,
    }
}

/// Converts a column definition.
#[verifier::external_body]
fn column_model(c: ColumnDef) -> SqlColumn {
    SqlColumn {
        name: c.name.value,
        data_type: data_type_model(&c.data_type),
        type_text: c.data_type.to_string(),
        options: c.options.into_iter().map(option_model).collect(),
    }
}

/// Converts a column option definition, keeping its debug rendering.
#[verifier::external_body]
fn option_model(o: ColumnOptionDef) -> SqlColumnOptionDef {
    let debug = format!("{o:?}");
    let option = match o.option {
        ColumnOption::Null => SqlColumnOption::Null,
        ColumnOption::NotNull => SqlColumnOption::NotNull,
        ColumnOption::Default(e) => SqlColumnOption::Default(e.to_string()),
        ColumnOption::Unique { is_primary, .. } => SqlColumnOption::Unique { is_primary },
        ColumnOption::Generated { .. } => SqlColumnOption::Generated,
        ColumnOption::Check(e) => SqlColumnOption::Check(e.to_string()),
        ColumnOption::DialectSpecific(ts) => SqlColumnOption::DialectSpecific(ts.into_iter().map(token_word).collect()),
        _ => SqlColumnOption::Other,
    };
    SqlColumnOptionDef { option, debug }
}

/// The value of a word token; `None` for any other token.
#[verifier::external_body]
fn token_word(t: Token) -> Option<String> {
    match t {
        Token::Word(w) => Some(w.value),
        _ => None,
    }
}

/// The value of each identifier.
#[verifier::external_body]
fn ident_values(v: Vec<Ident>) -> Vec<String> {
    v.into_iter().map(|i| i.value).collect()
}

/// Converts a table constraint; table names and expressions are rendered as text.
#[verifier::external_body]
fn table_constraint_model(c: TableConstraint) -> SqlTableConstraint {
    match c {
        TableConstraint::Unique { name, columns, is_primary, .. } => SqlTableConstraint::Unique {
            name: name.map(|n| n.value), columns: ident_values(columns), is_primary },
        TableConstraint::ForeignKey { name, columns, foreign_table, referred_columns, on_delete, on_update, .. } =>
            SqlTableConstraint::ForeignKey { name: name.map(|n| n.value), columns: ident_values(columns),
            foreign_table: foreign_table.to_string(), referred_columns: ident_values(referred_columns),
            on_delete: on_delete.map(action_model), on_update: on_update.map(action_model) },
        TableConstraint::Check { name, expr } => SqlTableConstraint::Check { name: name.map(|n| n.value), expr: expr.to_string() },
        _ => SqlTableConstraint::Other,
    }
}

/// Converts a referential action, variant by variant.
#[verifier::external_body]
fn action_model(a: ReferentialAction) -> SqlAction {
    match a {
        ReferentialAction::Restrict => SqlAction::Restrict,
        ReferentialAction::Cascade => SqlAction::Cascade,
        ReferentialAction::SetNull => SqlAction::SetNull,
        ReferentialAction::NoAction => SqlAction::NoAction,
        ReferentialAction::SetDefault => SqlAction::SetDefault,
    }
}

/// Converts a character length.
#[verifier::external_body]
fn char_length_model(l: &Option<CharacterLength>) -> Option<SqlCharLength> {
    match l {
        Some(CharacterLength::IntegerLength { length, .. }) => Some(SqlCharLength::IntegerLength(*length)),
        Some(CharacterLength::Max) => Some(SqlCharLength::Max),
        None => None,
    }
}

/// Converts the integer, character and text types; the others go to `other_type_model`.
#[verifier::external_body]
fn data_type_model(d: &ParsedDataType) -> SqlType {
    match d {
        ParsedDataType::TinyInt(n) => SqlType::TinyInt(*n), ParsedDataType::Int(_) => SqlType::Int,
        ParsedDataType::Integer(_) => SqlType::Integer, ParsedDataType::BigInt(_) => SqlType::BigInt,
        ParsedDataType::Int8(_) => SqlType::Int8, ParsedDataType::Varchar(l) => SqlType::Varchar(char_length_model(l)),
        ParsedDataType::CharacterVarying(l) => SqlType::CharacterVarying(char_length_model(l)),
        ParsedDataType::CharVarying(l) => SqlType::CharVarying(char_length_model(l)),
        ParsedDataType::Text => SqlType::Text, ParsedDataType::String(_) => SqlType::String,
        _ => other_type_model(d),
    }
}

/// Converts the time, boolean and floating-point types and `Unspecified`.
#[verifier::external_body]
fn other_type_model(d: &ParsedDataType) -> SqlType {
    match d {
        ParsedDataType::Datetime(_) => SqlType::Datetime, ParsedDataType::Timestamp(_, _) => SqlType::Timestamp,
        ParsedDataType::Bool => SqlType::Bool, ParsedDataType::Boolean => SqlType::Boolean,
        ParsedDataType::Float(_) => SqlType::Float, ParsedDataType::Real => SqlType::Real,
        ParsedDataType::Float4 => SqlType::Float4, ParsedDataType::Double => SqlType::Double,
        ParsedDataType::DoublePrecision => SqlType::DoublePrecision, ParsedDataType::Float8 => SqlType::Float8,
        ParsedDataType::Unspecified => SqlType::Unspecified,
        _ => SqlType::Other,
    }
}

} // verus!
