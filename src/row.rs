//! A captured row image: named, typed cells with typed lookup by name.
use vstd::prelude::*;

verus! {

/// One cell of a row image. A null reads as absent whatever type is asked
/// for; any other value only as its own type.
pub enum Cell {
    Null,
    Int4(i32),
    Int8(i64),
    Bool(bool),
    Text(String),
    /// A non-null value of a type that no lookup here reads.
    Other,
}

pub struct RowColumn {
    pub name: String,
    pub value: Cell,
}

/// The row as seen by a trigger: its columns in table order.
pub struct RowImage {
    pub columns: Vec<RowColumn>,
}

/// Why a typed lookup by name failed.
#[derive(PartialEq, Eq, Structural, Debug, Clone, Copy)]
pub enum LookupError {
    NoSuchColumn,
    WrongType,
}

/// Index of the first column named `name` at or after `i`.
pub open spec fn position_from(cols: Seq<RowColumn>, name: Seq<char>, i: int) -> Option<int>
    decreases cols.len() - i,
{
    if i < 0 || i >= cols.len() {
        None
    } else if cols[i].name@ == name {
        Some(i)
    } else {
        position_from(cols, name, i + 1)
    }
}

/// Index of the first column named `name`, if any.
pub open spec fn column_position(row: RowImage, name: Seq<char>) -> Option<int> {
    position_from(row.columns@, name, 0)
}

pub open spec fn lookup_i32(row: RowImage, name: Seq<char>) -> Result<Option<i32>, LookupError> {
    match column_position(row, name) {
        None => Err(LookupError::NoSuchColumn),
        Some(i) => match row.columns@[i].value {
            Cell::Null => Ok(None),
            Cell::Int4(v) => Ok(Some(v)),
            _ => Err(LookupError::WrongType),
        },
    }
}

pub open spec fn lookup_i64(row: RowImage, name: Seq<char>) -> Result<Option<i64>, LookupError> {
    match column_position(row, name) {
        None => Err(LookupError::NoSuchColumn),
        Some(i) => match row.columns@[i].value {
            Cell::Null => Ok(None),
            Cell::Int8(v) => Ok(Some(v)),
            _ => Err(LookupError::WrongType),
        },
    }
}

pub open spec fn lookup_bool(row: RowImage, name: Seq<char>) -> Result<Option<bool>, LookupError> {
    match column_position(row, name) {
        None => Err(LookupError::NoSuchColumn),
        Some(i) => match row.columns@[i].value {
            Cell::Null => Ok(None),
            Cell::Bool(v) => Ok(Some(v)),
            _ => Err(LookupError::WrongType),
        },
    }
}

pub open spec fn lookup_text(row: RowImage, name: Seq<char>) -> Result<Option<Seq<char>>, LookupError> {
    match column_position(row, name) {
        None => Err(LookupError::NoSuchColumn),
        Some(i) => match row.columns@[i].value {
            Cell::Null => Ok(None),
            Cell::Text(s) => Ok(Some(s@)),
            _ => Err(LookupError::WrongType),
        },
    }
}

impl RowImage {
    /// Position of the first column named `name`.
    pub fn find_column(&self, name: &String) -> (r: Option<usize>)
        ensures
            match r {
                Some(i) => i < self.columns@.len() && column_position(*self, name@) == Some(i as int),
                None => column_position(*self, name@) is None,
            },
    {
        let mut i: usize = 0;
        while i < self.columns.len()
            invariant
                0 <= i <= self.columns@.len(),
                position_from(self.columns@, name@, 0) == position_from(self.columns@, name@, i as int),
            decreases self.columns@.len() - i,
        {
            if self.columns[i].name == *name {
                return Some(i);
            }
            i += 1;
        }
        None
    }

    /// Reads a 32-bit integer column; `Ok(None)` when it is null.
    pub fn get_i32(&self, name: &String) -> (r: Result<Option<i32>, LookupError>)
        ensures
            r == lookup_i32(*self, name@),
    {
        match self.find_column(name) {
            None => Err(LookupError::NoSuchColumn),
            Some(i) => match &self.columns[i].value {
                Cell::Null => Ok(None),
                Cell::Int4(v) => Ok(Some(*v)),
                _ => Err(LookupError::WrongType),
            },
        }
    }

    /// Reads a 64-bit integer column; `Ok(None)` when it is null.
    pub fn get_i64(&self, name: &String) -> (r: Result<Option<i64>, LookupError>)
        ensures
            r == lookup_i64(*self, name@),
    {
        match self.find_column(name) {
            None => Err(LookupError::NoSuchColumn),
            Some(i) => match &self.columns[i].value {
                Cell::Null => Ok(None),
                Cell::Int8(v) => Ok(Some(*v)),
                _ => Err(LookupError::WrongType),
            },
        }
    }

    /// Reads a boolean column; `Ok(None)` when it is null.
    pub fn get_bool(&self, name: &String) -> (r: Result<Option<bool>, LookupError>)
        ensures
            r == lookup_bool(*self, name@),
    {
        match self.find_column(name) {
            None => Err(LookupError::NoSuchColumn),
            Some(i) => match &self.columns[i].value {
                Cell::Null => Ok(None),
                Cell::Bool(v) => Ok(Some(*v)),
                _ => Err(LookupError::WrongType),
            },
        }
    }

    /// Reads a text column; `Ok(None)` when it is null.
    pub fn get_text(&self, name: &String) -> (r: Result<Option<String>, LookupError>)
        ensures
            match (r, lookup_text(*self, name@)) {
                (Ok(Some(s)), Ok(Some(t))) => s@ == t,
                (Ok(None), Ok(None)) => true,
                (Err(e), Err(f)) => e == f,
                _ => false,
            },
    {
        match self.find_column(name) {
            None => Err(LookupError::NoSuchColumn),
            Some(i) => match &self.columns[i].value {
                Cell::Null => Ok(None),
                Cell::Text(s) => Ok(Some(s.clone())),
                _ => Err(LookupError::WrongType),
            },
        }
    }
}

} // verus!
