//! The values that travel between the library and the database: statement
//! parameters on the way in, columns of a row on the way out.

use crate::timestamp::Timestamp;
use vstd::prelude::*;

verus! {

/// One statement parameter or one column of a row.
#[derive(Debug, PartialEq, Eq)]
pub enum Value {
    /// SQL `NULL`.
    Null,
    /// An integer column of any width.
    Int(i64),
    /// A text column.
    Text(String),
    /// A date-and-time column.
    Time(Timestamp),
}

/// A `Value` with its text as a sequence of characters.
pub enum ValueView {
    Null,
    Int(i64),
    Text(Seq<char>),
    Time(Timestamp),
}

impl View for Value {
    type V = ValueView;

    open spec fn view(&self) -> ValueView {
        match self {
            Value::Null => ValueView::Null,
            Value::Int(n) => ValueView::Int(*n),
            Value::Text(s) => ValueView::Text(s@),
            Value::Time(t) => ValueView::Time(*t),
        }
    }
}

impl Clone for Value {
    fn clone(&self) -> (r: Value)
        ensures
            r@ == self@,
    {
        match self {
            Value::Null => Value::Null,
            Value::Int(n) => Value::Int(*n),
            Value::Text(s) => Value::Text(s.clone()),
            Value::Time(t) => Value::Time(*t),
        }
    }
}

/// The columns of a row, each by its view.
pub open spec fn row_view(row: Seq<Value>) -> Seq<ValueView> {
    Seq::new(row.len(), |i: int| row[i]@)
}

/// An optional text by its view.
pub open spec fn opt_text_view(text: Option<String>) -> Option<Seq<char>> {
    match text {
        Some(s) => Some(s@),
        None => None,
    }
}

/// An optional text as a column: absent is `NULL`.
pub open spec fn opt_text_value(text: Option<Seq<char>>) -> ValueView {
    match text {
        Some(s) => ValueView::Text(s),
        None => ValueView::Null,
    }
}

/// An optional integer as a column: absent is `NULL`.
pub open spec fn opt_int_value(n: Option<int>) -> ValueView {
    match n {
        Some(n) => ValueView::Int(n as i64),
        None => ValueView::Null,
    }
}

/// An optional instant as a column: absent is `NULL`.
pub open spec fn opt_time_value(t: Option<Timestamp>) -> ValueView {
    match t {
        Some(t) => ValueView::Time(t),
        None => ValueView::Null,
    }
}

/// The integer in a column that must hold one in the range `lo..=hi`.
pub open spec fn int_in(v: ValueView, lo: int, hi: int) -> Option<int> {
    match v {
        ValueView::Int(n) => if lo <= n <= hi {
            Some(n as int)
        } else {
            None
        },
        _ => None,
    }
}

/// The integer in a column that may be `NULL`: the outer option is the
/// failure, the inner one the absence.
pub open spec fn opt_int_in(v: ValueView, lo: int, hi: int) -> Option<Option<int>> {
    match v {
        ValueView::Null => Some(None),
        ValueView::Int(n) => if lo <= n <= hi {
            Some(Some(n as int))
        } else {
            None
        },
        _ => None,
    }
}

/// The text in a column that must hold one.
pub open spec fn text_in(v: ValueView) -> Option<Seq<char>> {
    match v {
        ValueView::Text(s) => Some(s),
        _ => None,
    }
}

/// The text in a column that may be `NULL`.
pub open spec fn opt_text_in(v: ValueView) -> Option<Option<Seq<char>>> {
    match v {
        ValueView::Null => Some(None),
        ValueView::Text(s) => Some(Some(s)),
        _ => None,
    }
}

/// The instant in a column that must hold one.
pub open spec fn time_in(v: ValueView) -> Option<Timestamp> {
    match v {
        ValueView::Time(t) => Some(t),
        _ => None,
    }
}

/// The instant in a column that may be `NULL`.
pub open spec fn opt_time_in(v: ValueView) -> Option<Option<Timestamp>> {
    match v {
        ValueView::Null => Some(None),
        ValueView::Time(t) => Some(Some(t)),
        _ => None,
    }
}

impl Value {
    /// A column for an optional text.
    pub fn from_opt_text(text: &Option<String>) -> (v: Value)
        ensures
            v@ == opt_text_value(opt_text_view(*text)),
    {
        match text {
            Some(s) => Value::Text(s.clone()),
            None => Value::Null,
        }
    }

    /// A column for an optional instant.
    pub fn from_opt_time(t: Option<Timestamp>) -> (v: Value)
        ensures
            v@ == opt_time_value(t),
    {
        match t {
            Some(t) => Value::Time(t),
            None => Value::Null,
        }
    }

    /// Reads a 64-bit integer column.
    pub fn as_i64(&self) -> (n: Option<i64>)
        ensures
            match int_in(self@, i64::MIN as int, i64::MAX as int) {
                Some(m) => n == Some(m as i64),
                None => n is None,
            },
    {
        match self {
            Value::Int(n) => Some(*n),
            _ => None,
        }
    }

    /// Reads a 32-bit integer column; a stored integer outside the 32-bit
    /// range is refused.
    pub fn as_i32(&self) -> (n: Option<i32>)
        ensures
            match int_in(self@, i32::MIN as int, i32::MAX as int) {
                Some(m) => n == Some(m as i32),
                None => n is None,
            },
    {
        match self {
            Value::Int(n) => {
                if -2147483648 <= *n && *n <= 2147483647 {
                    Some(*n as i32)
                } else {
                    None
                }
            },
            _ => None,
        }
    }

    /// Reads a nullable column of small unsigned integers.
    pub fn as_opt_u8(&self) -> (n: Option<Option<u8>>)
        ensures
            match opt_int_in(self@, 0, u8::MAX as int) {
                Some(Some(m)) => n == Some(Some(m as u8)),
                Some(None) => n == Some(None::<u8>),
                None => n is None,
            },
    {
        match self {
            Value::Null => Some(None),
            Value::Int(n) => {
                if 0 <= *n && *n <= 255 {
                    Some(Some(*n as u8))
                } else {
                    None
                }
            },
            _ => None,
        }
    }

    /// Reads a nullable column of unsigned 32-bit integers.
    pub fn as_opt_u32(&self) -> (n: Option<Option<u32>>)
        ensures
            match opt_int_in(self@, 0, u32::MAX as int) {
                Some(Some(m)) => n == Some(Some(m as u32)),
                Some(None) => n == Some(None::<u32>),
                None => n is None,
            },
    {
        match self {
            Value::Null => Some(None),
            Value::Int(n) => {
                if 0 <= *n && *n <= 4294967295 {
                    Some(Some(*n as u32))
                } else {
                    None
                }
            },
            _ => None,
        }
    }

    /// Reads a text column.
    pub fn as_text(&self) -> (s: Option<String>)
        ensures
            match text_in(self@) {
                Some(t) => s is Some && s->0@ == t,
                None => s is None,
            },
    {
        match self {
            Value::Text(s) => Some(s.clone()),
            _ => None,
        }
    }

    /// Reads a nullable text column.
    pub fn as_opt_text(&self) -> (s: Option<Option<String>>)
        ensures
            match opt_text_in(self@) {
                Some(t) => s is Some && opt_text_view(s->0) == t,
                None => s is None,
            },
    {
        match self {
            Value::Null => Some(None),
            Value::Text(s) => Some(Some(s.clone())),
            _ => None,
        }
    }

    /// Reads a date-and-time column.
    pub fn as_time(&self) -> (t: Option<Timestamp>)
        ensures
            t == time_in(self@),
    {
        match self {
            Value::Time(t) => Some(*t),
            _ => None,
        }
    }

    /// Reads a nullable date-and-time column.
    pub fn as_opt_time(&self) -> (t: Option<Option<Timestamp>>)
        ensures
            t == opt_time_in(self@),
    {
        match self {
            Value::Null => Some(None),
            Value::Time(t) => Some(Some(*t)),
            _ => None,
        }
    }
}

} // verus!
