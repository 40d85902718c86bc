//! IR v2: richer intermediate representation for schema portability.
//!
//! It sits beside the minimal `Schema`/`Table`/`Column` types and adds
//! constraints, foreign keys, unique groups and checks, for linting,
//! diffing and ALTER generation.

use std::collections::HashMap;
use vstd::prelude::*;
use crate::ir::{strings_view, opt_string_view, opt_strings_view};

verus! {

#[derive(Debug, Clone)]
pub struct V2Schema {
    pub tables: Vec<V2Table>,
    /// Optional free-form metadata (key/value) for tools.
    pub metadata: HashMap<String, String>,
}

#[derive(Debug)]
pub struct V2Table {
    pub name: String,
    pub columns: Vec<V2Column>,
    pub primary_key: Option<Vec<String>>,
    /// Table-level constraints (unique groups, foreign keys, checks)
    pub constraints: Vec<Constraint>,
}

#[derive(Debug)]
pub struct V2Column {
    pub name: String,
    pub data_type: V2DataType,
    /// Column-level constraints (NOT NULL, DEFAULT, AUTO INCREMENT)
    pub constraints: Vec<ColumnConstraint>,
    /// Annotations for things that cannot be represented losslessly
    pub annotations: Vec<String>,
}

/// A small set of portable data types. Emitters map these to dialect types;
/// parsers map dialect types into these where possible.
#[derive(Debug)]
pub enum V2DataType {
    Integer { bits: Option<u8> },
    Boolean,
    Float,
    Double,
    Varchar(Option<u32>),
    Text,
    Timestamp,
    /// Fallback for unrecognized or vendor-specific types.
    Custom(String),
}

/// Column-level constraints that are common across dialects.
#[derive(Debug)]
pub enum ColumnConstraint {
    NotNull,
    Default(String),
    AutoIncrement,
    /// A CHECK expression stored as text.
    Check(String),
}

/// Table-level constraints and foreign keys.
#[derive(Debug)]
pub enum Constraint {
    Unique { name: Option<String>, columns: Vec<String> },
    ForeignKey(ForeignKey),
    Check { name: Option<String>, expr: String },
}

#[derive(Debug)]
pub struct ForeignKey {
    pub name: Option<String>,
    pub columns: Vec<String>,
    pub referenced_table: String,
    pub referenced_columns: Vec<String>,
    /// Action on update/delete (e.g., CASCADE, SET NULL), kept as text.
    pub on_update: Option<String>,
    pub on_delete: Option<String>,
}

// ---------------------------------------------------------------------------
// Mathematical views: every string taken as its character sequence.
#[verifier::ext_equal]
pub enum V2DataTypeView {
    Integer { bits: Option<u8> },
    Boolean,
    Float,
    Double,
    Varchar(Option<u32>),
    Text,
    Timestamp,
    Custom(Seq<char>),
}

#[verifier::ext_equal]
pub enum ColumnConstraintView {
    NotNull,
    Default(Seq<char>),
    AutoIncrement,
    Check(Seq<char>),
}

#[verifier::ext_equal]
pub struct ForeignKeyView {
    pub name: Option<Seq<char>>,
    pub columns: Seq<Seq<char>>,
    pub referenced_table: Seq<char>,
    pub referenced_columns: Seq<Seq<char>>,
    pub on_update: Option<Seq<char>>,
    pub on_delete: Option<Seq<char>>,
}

#[verifier::ext_equal]
pub enum ConstraintView {
    Unique { name: Option<Seq<char>>, columns: Seq<Seq<char>> },
    ForeignKey(ForeignKeyView),
    Check { name: Option<Seq<char>>, expr: Seq<char> },
}

#[verifier::ext_equal]
pub struct V2ColumnView {
    pub name: Seq<char>,
    pub data_type: V2DataTypeView,
    pub constraints: Seq<ColumnConstraintView>,
    pub annotations: Seq<Seq<char>>,
}

#[verifier::ext_equal]
pub struct V2TableView {
    pub name: Seq<char>,
    pub columns: Seq<V2ColumnView>,
    pub primary_key: Option<Seq<Seq<char>>>,
    pub constraints: Seq<ConstraintView>,
}

pub struct V2SchemaView {
    pub tables: Seq<V2TableView>,
    pub metadata: Map<String, String>,
}

impl View for V2DataType {
    type V = V2DataTypeView;

    open spec fn view(&self) -> V2DataTypeView {
        match self {
            V2DataType::Integer { bits } => V2DataTypeView::Integer { bits: *bits },
            V2DataType::Boolean => V2DataTypeView::Boolean,
            V2DataType::Float => V2DataTypeView::Float,
            V2DataType::Double => V2DataTypeView::Double,
            V2DataType::Varchar(n) => V2DataTypeView::Varchar(*n),
            V2DataType::Text => V2DataTypeView::Text,
            V2DataType::Timestamp => V2DataTypeView::Timestamp,
            V2DataType::Custom(s) => V2DataTypeView::Custom(s@),
        }
    }
}

impl View for ColumnConstraint {
    type V = ColumnConstraintView;

    open spec fn view(&self) -> ColumnConstraintView {
        match self {
            ColumnConstraint::NotNull => ColumnConstraintView::NotNull,
            ColumnConstraint::Default(s) => ColumnConstraintView::Default(s@),
            ColumnConstraint::AutoIncrement => ColumnConstraintView::AutoIncrement,
            ColumnConstraint::Check(s) => ColumnConstraintView::Check(s@),
        }
    }
}

impl View for ForeignKey {
    type V = ForeignKeyView;

    open spec fn view(&self) -> ForeignKeyView {
        ForeignKeyView {
            name: opt_string_view(self.name),
            columns: strings_view(self.columns@),
            referenced_table: self.referenced_table@,
            referenced_columns: strings_view(self.referenced_columns@),
            on_update: opt_string_view(self.on_update),
            on_delete: opt_string_view(self.on_delete),
        }
    }
}

impl View for Constraint {
    type V = ConstraintView;

    open spec fn view(&self) -> ConstraintView {
        match self {
            Constraint::Unique { name, columns } => ConstraintView::Unique {
                name: opt_string_view(*name),
                columns: strings_view(columns@),
            },
            Constraint::ForeignKey(fk) => ConstraintView::ForeignKey(fk@),
            Constraint::Check { name, expr } => ConstraintView::Check {
                name: opt_string_view(*name),
                expr: expr@,
            },
        }
    }
}

pub open spec fn column_constraints_view(v: Seq<ColumnConstraint>) -> Seq<ColumnConstraintView> {
    v.map_values(|c: ColumnConstraint| c@)
}

pub open spec fn constraints_view(v: Seq<Constraint>) -> Seq<ConstraintView> {
    v.map_values(|c: Constraint| c@)
}

impl View for V2Column {
    type V = V2ColumnView;

    open spec fn view(&self) -> V2ColumnView {
        V2ColumnView {
            name: self.name@,
            data_type: self.data_type@,
            constraints: column_constraints_view(self.constraints@),
            annotations: strings_view(self.annotations@),
        }
    }
}

pub open spec fn v2_columns_view(v: Seq<V2Column>) -> Seq<V2ColumnView> {
    v.map_values(|c: V2Column| c@)
}

impl View for V2Table {
    type V = V2TableView;

    open spec fn view(&self) -> V2TableView {
        V2TableView {
            name: self.name@,
            columns: v2_columns_view(self.columns@),
            primary_key: opt_strings_view(self.primary_key),
            constraints: constraints_view(self.constraints@),
        }
    }
}

pub open spec fn v2_tables_view(v: Seq<V2Table>) -> Seq<V2TableView> {
    v.map_values(|t: V2Table| t@)
}

impl View for V2Schema {
    type V = V2SchemaView;

    open spec fn view(&self) -> V2SchemaView {
        V2SchemaView { tables: v2_tables_view(self.tables@), metadata: self.metadata@ }
    }
}

impl V2Schema {
    /// An empty schema: no tables, no metadata.
    pub fn new() -> (r: Self)
        ensures
            r.tables@.len() == 0,
            r.metadata@ == Map::<String, String>::empty(),
    {
        V2Schema { tables: Vec::new(), metadata: HashMap::new() }
    }
}

impl Default for V2Schema {
    fn default() -> (r: Self)
        ensures
            r.tables@.len() == 0,
            r.metadata@ == Map::<String, String>::empty(),
    {
        Self::new()
    }
}

// ---------------------------------------------------------------------------
// Copies whose result is known to equal their source.

pub fn copy_string(s: &String) -> (r: String)
    ensures
        r@ == s@,
{
    s.clone()
}

pub fn copy_opt_string(s: &Option<String>) -> (r: Option<String>)
    ensures
        opt_string_view(r) == opt_string_view(*s),
{
    match s {
        Some(x) => Some(x.clone()),
        None => None,
    }
}

pub fn copy_strings(v: &Vec<String>) -> (r: Vec<String>)
    ensures
        strings_view(r@) == strings_view(v@),
{
    let mut r: Vec<String> = Vec::new();
    for i in 0..v.len()
        invariant
            r@.len() == i,
            forall|k: int| 0 <= k < i ==> r@[k]@ == v@[k]@,
    {
        r.push(v[i].clone());
    }
    proof {
        assert(strings_view(r@) =~= strings_view(v@));
    }
    r
}

pub fn copy_opt_strings(o: &Option<Vec<String>>) -> (r: Option<Vec<String>>)
    ensures
        opt_strings_view(r) == opt_strings_view(*o),
{
    match o {
        Some(v) => Some(copy_strings(v)),
        None => None,
    }
}

impl Clone for V2DataType {
    fn clone(&self) -> (r: Self)
        ensures
            r@ == self@,
    {
        match self {
            V2DataType::Integer { bits } => V2DataType::Integer { bits: *bits },
            V2DataType::Boolean => V2DataType::Boolean,
            V2DataType::Float => V2DataType::Float,
            V2DataType::Double => V2DataType::Double,
            V2DataType::Varchar(n) => V2DataType::Varchar(*n),
            V2DataType::Text => V2DataType::Text,
            V2DataType::Timestamp => V2DataType::Timestamp,
            V2DataType::Custom(s) => V2DataType::Custom(s.clone()),
        }
    }
}

impl Clone for ColumnConstraint {
    fn clone(&self) -> (r: Self)
        ensures
            r@ == self@,
    {
        match self {
            ColumnConstraint::NotNull => ColumnConstraint::NotNull,
            ColumnConstraint::Default(s) => ColumnConstraint::Default(s.clone()),
            ColumnConstraint::AutoIncrement => ColumnConstraint::AutoIncrement,
            ColumnConstraint::Check(s) => ColumnConstraint::Check(s.clone()),
        }
    }
}

impl Clone for ForeignKey {
    fn clone(&self) -> (r: Self)
        ensures
            r@ == self@,
    {
        ForeignKey {
            name: copy_opt_string(&self.name),
            columns: copy_strings(&self.columns),
            referenced_table: self.referenced_table.clone(),
            referenced_columns: copy_strings(&self.referenced_columns),
            on_update: copy_opt_string(&self.on_update),
            on_delete: copy_opt_string(&self.on_delete),
        }
    }
}

impl Clone for Constraint {
    fn clone(&self) -> (r: Self)
        ensures
            r@ == self@,
    {
        match self {
            Constraint::Unique { name, columns } => Constraint::Unique {
                name: copy_opt_string(name),
                columns: copy_strings(columns),
            },
            Constraint::ForeignKey(fk) => Constraint::ForeignKey(fk.clone()),
            Constraint::Check { name, expr } => Constraint::Check {
                name: copy_opt_string(name),
                expr: expr.clone(),
            },
        }
    }
}

fn copy_column_constraints(v: &Vec<ColumnConstraint>) -> (r: Vec<ColumnConstraint>)
    ensures
        column_constraints_view(r@) == column_constraints_view(v@),
{
    let mut r: Vec<ColumnConstraint> = Vec::new();
    for i in 0..v.len()
        invariant
            r@.len() == i,
            forall|k: int| 0 <= k < i ==> r@[k]@ == v@[k]@,
    {
        r.push(v[i].clone());
    }
    proof {
        assert(column_constraints_view(r@) =~= column_constraints_view(v@));
    }
    r
}

fn copy_constraints(v: &Vec<Constraint>) -> (r: Vec<Constraint>)
    ensures
        constraints_view(r@) == constraints_view(v@),
{
    let mut r: Vec<Constraint> = Vec::new();
    for i in 0..v.len()
        invariant
            r@.len() == i,
            forall|k: int| 0 <= k < i ==> r@[k]@ == v@[k]@,
    {
        r.push(v[i].clone());
    }
    proof {
        assert(constraints_view(r@) =~= constraints_view(v@));
    }
    r
}

impl Clone for V2Column {
    fn clone(&self) -> (r: Self)
        ensures
            r@ == self@,
    {
        V2Column {
            name: self.name.clone(),
            data_type: self.data_type.clone(),
            constraints: copy_column_constraints(&self.constraints),
            annotations: copy_strings(&self.annotations),
        }
    }
}

fn copy_columns(v: &Vec<V2Column>) -> (r: Vec<V2Column>)
    ensures
        v2_columns_view(r@) == v2_columns_view(v@),
{
    let mut r: Vec<V2Column> = Vec::new();
    for i in 0..v.len()
        invariant
            r@.len() == i,
            forall|k: int| 0 <= k < i ==> r@[k]@ == v@[k]@,
    {
        r.push(v[i].clone());
    }
    proof {
        assert(v2_columns_view(r@) =~= v2_columns_view(v@));
    }
    r
}

impl Clone for V2Table {
    fn clone(&self) -> (r: Self)
        ensures
            r@ == self@,
    {
        V2Table {
            name: self.name.clone(),
            columns: copy_columns(&self.columns),
            primary_key: copy_opt_strings(&self.primary_key),
            constraints: copy_constraints(&self.constraints),
        }
    }
}

} // verus!
