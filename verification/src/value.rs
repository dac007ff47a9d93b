//! Dynamically typed values, as a relational store hands them out per column.

use vstd::prelude::*;

verus! {

/// One cell of a row: the store decides its kind per value, not per column.
#[derive(Debug, PartialEq)]
pub enum Value {
    /// Binary data.
    Binary(Vec<u8>),
    /// A floating-point number, carried as the 64 bits of its IEEE 754 form.
    Real(u64),
    /// An integer number.
    Integer(i64),
    /// A character string.
    Text(String),
    /// The absence of a value.
    Null,
}

/// The mathematical content of a [`Value`].
pub ghost enum ValueView {
    Binary(Seq<u8>),
    Real(u64),
    Integer(int),
    Text(Seq<char>),
    Null,
}

impl View for Value {
    type V = ValueView;

    open spec fn view(&self) -> ValueView {
        match self {
            Value::Binary(bytes) => ValueView::Binary(bytes@),
            Value::Real(bits) => ValueView::Real(*bits),
            Value::Integer(number) => ValueView::Integer(*number as int),
            Value::Text(text) => ValueView::Text(text@),
            Value::Null => ValueView::Null,
        }
    }
}

impl DeepView for Value {
    type V = ValueView;

    open spec fn deep_view(&self) -> ValueView {
        self@
    }
}

impl Clone for Value {
    /// Copies the value; the copy has the same content.
    fn clone(&self) -> (copy: Value)
        ensures
            copy@ == self@,
    {
        match self {
            Value::Binary(bytes) => {
                let copied = bytes.clone();
                assert(copied@ =~= bytes@);
                Value::Binary(copied)
            },
            Value::Real(bits) => Value::Real(*bits),
            Value::Integer(number) => Value::Integer(*number),
            Value::Text(text) => Value::Text(text.clone()),
            Value::Null => Value::Null,
        }
    }
}

impl Value {
    /// The integer, if the value is an integer; nothing for any other kind.
    pub fn as_integer(&self) -> (number: Option<i64>)
        ensures
            match self@ {
                ValueView::Integer(n) => number == Some(n as i64),
                _ => number.is_none(),
            },
    {
        match self {
            Value::Integer(number) => Some(*number),
            _ => None,
        }
    }

    /// The text, if the value is a string; nothing for any other kind.
    pub fn as_string(&self) -> (text: Option<&str>)
        ensures
            match self@ {
                ValueView::Text(s) => text.is_some() && text.unwrap()@ == s,
                _ => text.is_none(),
            },
    {
        match self {
            Value::Text(text) => Some(text.as_str()),
            _ => None,
        }
    }

    /// The bytes, if the value is binary data; nothing for any other kind.
    pub fn as_binary(&self) -> (bytes: Option<&Vec<u8>>)
        ensures
            match self@ {
                ValueView::Binary(b) => bytes.is_some() && bytes.unwrap()@ == b,
                _ => bytes.is_none(),
            },
    {
        match self {
            Value::Binary(bytes) => Some(bytes),
            _ => None,
        }
    }
}

} // verus!
