//! Rows handed back by the record store, and typed reads of their columns.
use vstd::prelude::*;
use crate::router::HandlerError;

verus! {

/// One stored value. Times are milliseconds since the Unix epoch, in UTC.
pub enum Cell {
    Null,
    Text(String),
    Int(i64),
    Time(i64),
}

/// A named value of a row.
pub struct Column {
    pub name: String,
    pub value: Cell,
}

/// One row of a query result, its columns in select order.
pub struct Row {
    pub columns: Vec<Column>,
}

/// `k` is the first column of `cols` named `name`.
pub open spec fn first_named(cols: Seq<Column>, name: Seq<char>, k: int) -> bool {
    0 <= k < cols.len() && cols[k].name@ == name && forall|j: int|
        0 <= j < k ==> #[trigger] cols[j].name@ != name
}

/// The value of the first column named `name`, if the row has one.
pub open spec fn named_spec(row: Row, name: Seq<char>) -> Option<Cell> {
    if exists|k: int| first_named(row.columns@, name, k) {
        Some(row.columns@[choose|k: int| first_named(row.columns@, name, k)].value)
    } else {
        None
    }
}

/// The text of column `name`, if it holds text.
pub open spec fn text_spec(row: Row, name: Seq<char>) -> Option<String> {
    match named_spec(row, name) {
        Some(Cell::Text(s)) => Some(s),
        _ => None,
    }
}

/// The time of column `name`, if it holds one.
pub open spec fn time_spec(row: Row, name: Seq<char>) -> Option<i64> {
    match named_spec(row, name) {
        Some(Cell::Time(t)) => Some(t),
        _ => None,
    }
}

/// The nullable time of column `name`: `Some(None)` for a null.
pub open spec fn opt_time_spec(row: Row, name: Seq<char>) -> Option<Option<i64>> {
    match named_spec(row, name) {
        Some(Cell::Time(t)) => Some(Some(t)),
        Some(Cell::Null) => Some(None),
        _ => None,
    }
}

/// The nullable text of column `name`: `Some(None)` for a null.
pub open spec fn opt_text_spec(row: Row, name: Seq<char>) -> Option<Option<String>> {
    match named_spec(row, name) {
        Some(Cell::Text(s)) => Some(Some(s)),
        Some(Cell::Null) => Some(None),
        _ => None,
    }
}

/// The 32-bit integer of column `name`, if it holds one in that range.
pub open spec fn int32_spec(row: Row, name: Seq<char>) -> Option<i32> {
    match named_spec(row, name) {
        Some(Cell::Int(v)) => if i32::MIN <= v <= i32::MAX {
            Some(v as i32)
        } else {
            None
        },
        _ => None,
    }
}

/// The text at position `i`, if that column holds text.
pub open spec fn text_at_spec(row: Row, i: int) -> Option<String> {
    if 0 <= i < row.columns@.len() {
        match row.columns@[i].value {
            Cell::Text(s) => Some(s),
            _ => None,
        }
    } else {
        None
    }
}

/// The time at position `i`, if that column holds one.
pub open spec fn time_at_spec(row: Row, i: int) -> Option<i64> {
    if 0 <= i < row.columns@.len() {
        match row.columns@[i].value {
            Cell::Time(t) => Some(t),
            _ => None,
        }
    } else {
        None
    }
}

/// The error a failed typed read is reported as.
pub open spec fn read_result<T>(v: Option<T>) -> Result<T, HandlerError> {
    match v {
        Some(x) => Ok(x),
        None => Err(HandlerError::Record),
    }
}

impl Row {
    /// The first column named `name`.
    pub fn named(&self, name: &str) -> (r: Option<&Cell>)
        ensures
            r matches Some(c) ==> named_spec(*self, name@) == Some(*c),
            r is None ==> named_spec(*self, name@) is None,
    {
        let wanted = name.to_owned();
        let mut i: usize = 0;
        while i < self.columns.len()
            invariant
                i <= self.columns@.len(),
                wanted@ == name@,
                forall|j: int| 0 <= j < i ==> #[trigger] self.columns@[j].name@ != name@,
            decreases self.columns@.len() - i,
        {
            if self.columns[i].name == wanted {
                proof {
                    assert(first_named(self.columns@, name@, i as int));
                    let k = choose|k: int| first_named(self.columns@, name@, k);
                    assert(k == i) by {
                        if k < i {
                            assert(self.columns@[k].name@ != name@);
                        } else if k > i {
                            assert(self.columns@[i as int].name@ != name@);
                        }
                    }
                }
                return Some(&self.columns[i].value);
            }
            i = i + 1;
        }
        None
    }

    /// The text of column `name`; a missing column or another type is a
    /// record error.
    pub fn text(&self, name: &str) -> (r: Result<String, HandlerError>)
        ensures
            r == read_result(text_spec(*self, name@)),
    {
        match self.named(name) {
            Some(Cell::Text(s)) => Ok(s.clone()),
            _ => Err(HandlerError::Record),
        }
    }

    /// The time of column `name`.
    pub fn time(&self, name: &str) -> (r: Result<i64, HandlerError>)
        ensures
            r == read_result(time_spec(*self, name@)),
    {
        match self.named(name) {
            Some(Cell::Time(t)) => Ok(*t),
            _ => Err(HandlerError::Record),
        }
    }

    /// The nullable time of column `name`.
    pub fn opt_time(&self, name: &str) -> (r: Result<Option<i64>, HandlerError>)
        ensures
            r == read_result(opt_time_spec(*self, name@)),
    {
        match self.named(name) {
            Some(Cell::Time(t)) => Ok(Some(*t)),
            Some(Cell::Null) => Ok(None),
            _ => Err(HandlerError::Record),
        }
    }

    /// The nullable text of column `name`.
    pub fn opt_text(&self, name: &str) -> (r: Result<Option<String>, HandlerError>)
        ensures
            r == read_result(opt_text_spec(*self, name@)),
    {
        match self.named(name) {
            Some(Cell::Text(s)) => Ok(Some(s.clone())),
            Some(Cell::Null) => Ok(None),
            _ => Err(HandlerError::Record),
        }
    }

    /// The 32-bit integer of column `name`.
    pub fn int32(&self, name: &str) -> (r: Result<i32, HandlerError>)
        ensures
            r == read_result(int32_spec(*self, name@)),
    {
        match self.named(name) {
            Some(Cell::Int(v)) => {
                if i32::MIN as i64 <= *v && *v <= i32::MAX as i64 {
                    Ok(*v as i32)
                } else {
                    Err(HandlerError::Record)
                }
            },
            _ => Err(HandlerError::Record),
        }
    }

    /// The text at position `i`.
    pub fn text_at(&self, i: usize) -> (r: Option<String>)
        ensures
            r == text_at_spec(*self, i as int),
    {
        if i < self.columns.len() {
            match &self.columns[i].value {
                Cell::Text(s) => Some(s.clone()),
                _ => None,
            }
        } else {
            None
        }
    }

    /// The time at position `i`.
    pub fn time_at(&self, i: usize) -> (r: Option<i64>)
        ensures
            r == time_at_spec(*self, i as int),
    {
        if i < self.columns.len() {
            match &self.columns[i].value {
                Cell::Time(t) => Some(*t),
                _ => None,
            }
        } else {
            None
        }
    }
}

} // verus!
