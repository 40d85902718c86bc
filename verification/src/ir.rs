//! The minimal intermediate representation: tables, columns and their types.

use vstd::prelude::*;

verus! {

/// The characters of each string of a sequence.
pub open spec fn strings_view(v: Seq<String>) -> Seq<Seq<char>> {
    v.map_values(|s: String| s@)
}

pub open spec fn opt_string_view(o: Option<String>) -> Option<Seq<char>> {
    match o {
        Some(s) => Some(s@),
        None => None,
    }
}

pub open spec fn opt_strings_view(o: Option<Vec<String>>) -> Option<Seq<Seq<char>>> {
    match o {
        Some(v) => Some(strings_view(v@)),
        None => None,
    }
}

#[derive(Debug, Clone)]
pub struct Schema {
    pub tables: Vec<Table>,
}

#[derive(Debug, Clone)]
pub struct Table {
    pub name: String,
    pub columns: Vec<Column>,
    pub primary_key: Option<Vec<String>>,
}

#[derive(Debug, Clone)]
pub struct Column {
    pub name: String,
    pub data_type: DataType,
    pub nullable: bool,
    pub auto_increment: bool,
    pub default: Option<String>,
}

#[derive(Debug, Clone, Copy, PartialEq, Eq, Structural)]
pub enum DataType {
    Int,
    BigInt,
    Boolean,
    Float,
    Double,
    Varchar(Option<u32>),
    Text,
    Timestamp,
}

/// A column, with its strings taken as character sequences.
pub struct ColumnView {
    pub name: Seq<char>,
    pub data_type: DataType,
    pub nullable: bool,
    pub auto_increment: bool,
    pub default: Option<Seq<char>>,
}

pub struct TableView {
    pub name: Seq<char>,
    pub columns: Seq<ColumnView>,
    pub primary_key: Option<Seq<Seq<char>>>,
}

impl View for Column {
    type V = ColumnView;

    open spec fn view(&self) -> ColumnView {
        ColumnView {
            name: self.name@,
            data_type: self.data_type,
            nullable: self.nullable,
            auto_increment: self.auto_increment,
            default: opt_string_view(self.default),
        }
    }
}

pub open spec fn columns_view(v: Seq<Column>) -> Seq<ColumnView> {
    v.map_values(|c: Column| c@)
}

impl View for Table {
    type V = TableView;

    open spec fn view(&self) -> TableView {
        TableView {
            name: self.name@,
            columns: columns_view(self.columns@),
            primary_key: opt_strings_view(self.primary_key),
        }
    }
}

pub open spec fn tables_view(v: Seq<Table>) -> Seq<TableView> {
    v.map_values(|t: Table| t@)
}

impl View for Schema {
    type V = Seq<TableView>;

    open spec fn view(&self) -> Seq<TableView> {
        tables_view(self.tables@)
    }
}

} // verus!
