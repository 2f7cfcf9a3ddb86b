//! Columnar tables, the library's output shape.
//!
//! A table is an ordered list of named columns; every column holds one value
//! per record, in record order.  Assembling zero records yields the canonical
//! empty table: zero columns and zero rows, not typed-but-empty columns.

use vstd::prelude::*;
use crate::num::Decimal;

verus! {

/// One column's values.  Textual and numeric columns are never coerced into
/// each other; absent optional values stay absent.
#[derive(Debug)]
pub enum ColumnData {
    /// Required text values.
    Text(Vec<String>),
    /// Optional text values.
    OptText(Vec<Option<String>>),
    /// Optional unsigned integers.
    UInt(Vec<Option<u64>>),
    /// Optional exact decimals.
    Dec(Vec<Option<Decimal>>),
}

/// A named column.
#[derive(Debug)]
pub struct Column {
    pub name: String,
    pub data: ColumnData,
}

/// An ordered list of named columns of equal length.
#[derive(Debug)]
pub struct Table {
    pub columns: Vec<Column>,
}

/// How many values a column holds.
pub open spec fn data_len(d: ColumnData) -> nat {
    match d {
        ColumnData::Text(v) => v@.len(),
        ColumnData::OptText(v) => v@.len(),
        ColumnData::UInt(v) => v@.len(),
        ColumnData::Dec(v) => v@.len(),
    }
}

/// Every column of the table holds the same number of values.
pub open spec fn table_wf(t: Table) -> bool {
    forall|i: int|
        0 <= i < t.columns@.len() ==> data_len(#[trigger] t.columns@[i].data) == data_len(
            t.columns@[0].data,
        )
}

/// `c` is the required-text column `name` holding exactly `vals`.
pub open spec fn col_text(c: Column, name: Seq<char>, vals: Seq<Seq<char>>) -> bool {
    c.name@ == name && match c.data {
        ColumnData::Text(v) => v.deep_view() == vals,
        _ => false,
    }
}

/// `c` is the optional-text column `name` holding exactly `vals`.
pub open spec fn col_opt_text(c: Column, name: Seq<char>, vals: Seq<Option<Seq<char>>>) -> bool {
    c.name@ == name && match c.data {
        ColumnData::OptText(v) => v.deep_view() == vals,
        _ => false,
    }
}

/// `c` is the optional-integer column `name` holding exactly `vals`.
pub open spec fn col_uint(c: Column, name: Seq<char>, vals: Seq<Option<u64>>) -> bool {
    c.name@ == name && match c.data {
        ColumnData::UInt(v) => v@ == vals,
        _ => false,
    }
}

/// `c` is the optional-decimal column `name` holding exactly `vals`.
pub open spec fn col_dec(c: Column, name: Seq<char>, vals: Seq<Option<Decimal>>) -> bool {
    c.name@ == name && match c.data {
        ColumnData::Dec(v) => v@ == vals,
        _ => false,
    }
}

impl Column {
    /// The required-text values of the column, if it is one.
    pub fn text(&self) -> (r: Option<&Vec<String>>)
        ensures
            r matches Some(v) ==> self.data matches ColumnData::Text(w) && w == v,
            r is None ==> !(self.data matches ColumnData::Text(_)),
    {
        match &self.data {
            ColumnData::Text(v) => Some(v),
            _ => None,
        }
    }

    /// The optional-text values of the column, if it is one.
    pub fn opt_text(&self) -> (r: Option<&Vec<Option<String>>>)
        ensures
            r matches Some(v) ==> self.data matches ColumnData::OptText(w) && w == v,
            r is None ==> !(self.data matches ColumnData::OptText(_)),
    {
        match &self.data {
            ColumnData::OptText(v) => Some(v),
            _ => None,
        }
    }

    /// The optional-integer values of the column, if it is one.
    pub fn uint(&self) -> (r: Option<&Vec<Option<u64>>>)
        ensures
            r matches Some(v) ==> self.data matches ColumnData::UInt(w) && w == v,
            r is None ==> !(self.data matches ColumnData::UInt(_)),
    {
        match &self.data {
            ColumnData::UInt(v) => Some(v),
            _ => None,
        }
    }

    /// The optional-decimal values of the column, if it is one.
    pub fn dec(&self) -> (r: Option<&Vec<Option<Decimal>>>)
        ensures
            r matches Some(v) ==> self.data matches ColumnData::Dec(w) && w == v,
            r is None ==> !(self.data matches ColumnData::Dec(_)),
    {
        match &self.data {
            ColumnData::Dec(v) => Some(v),
            _ => None,
        }
    }

    /// How many values the column holds.
    pub fn len(&self) -> (r: usize)
        ensures
            r == data_len(self.data),
    {
        match &self.data {
            ColumnData::Text(v) => v.len(),
            ColumnData::OptText(v) => v.len(),
            ColumnData::UInt(v) => v.len(),
            ColumnData::Dec(v) => v.len(),
        }
    }
}

impl Table {
    /// How many rows the table has.
    pub open spec fn spec_rows(&self) -> nat {
        if self.columns@.len() == 0 {
            0
        } else {
            data_len(self.columns@[0].data)
        }
    }

    /// The table of zero columns and zero rows.
    pub fn empty() -> (t: Table)
        ensures
            t.columns@.len() == 0,
            t.spec_rows() == 0,
    {
        Table { columns: Vec::new() }
    }

    /// How many columns the table has.
    pub fn num_columns(&self) -> (r: usize)
        ensures
            r == self.columns@.len(),
    {
        self.columns.len()
    }

    /// How many rows the table has: the length of its first column, or zero
    /// for the empty table.
    pub fn num_rows(&self) -> (r: usize)
        ensures
            r == self.spec_rows(),
    {
        if self.columns.len() == 0 {
            0
        } else {
            self.columns[0].len()
        }
    }

    /// `(rows, columns)` of the table.
    pub fn shape(&self) -> (r: (usize, usize))
        ensures
            r.0 == self.spec_rows(),
            r.1 == self.columns@.len(),
    {
        (self.num_rows(), self.num_columns())
    }

    /// The first column named `name`, if any.
    pub fn column(&self, name: &str) -> (r: Option<&Column>)
        ensures
            r matches Some(c) ==> exists|i: int|
                0 <= i < self.columns@.len() && self.columns@[i] == *c && c.name@ == name@,
            r is None ==> forall|i: int|
                0 <= i < self.columns@.len() ==> (#[trigger] self.columns@[i]).name@ != name@,
    {
        let mut i: usize = 0;
        while i < self.columns.len()
            invariant
                0 <= i <= self.columns@.len(),
                forall|k: int| 0 <= k < i ==> (#[trigger] self.columns@[k]).name@ != name@,
            decreases self.columns@.len() - i,
        {
            if crate::data::str_eq(self.columns[i].name.as_str(), name) {
                return Some(&self.columns[i]);
            }
            i += 1;
        }
        None
    }
}

} // verus!
