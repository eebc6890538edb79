//! Database values and statement parameters.
//!
//! A real number is carried as its IEEE-754 bit pattern so that value
//! logic stays exact; converting to and from a host float happens at the
//! crate's edge.

use vstd::prelude::*;

verus! {

/// The type tag of a database value.
#[derive(Clone, Copy, Debug, PartialEq, Eq, Structural)]
pub enum ValueType {
    Integer,
    Real,
    Blob,
    Text,
    Null,
}

/// One database value.
#[derive(Debug)]
pub enum Value {
    Null,
    Integer(i64),
    /// IEEE-754 bit pattern of a 64-bit real.
    Real(u64),
    Text(String),
    Blob(Vec<u8>),
}

/// Mathematical image of a [`Value`].
pub ghost enum ValueModel {
    Null,
    Integer(i64),
    Real(u64),
    Text(Seq<char>),
    Blob(Seq<u8>),
}

impl View for Value {
    type V = ValueModel;

    open spec fn view(&self) -> ValueModel {
        match self {
            Value::Null => ValueModel::Null,
            Value::Integer(i) => ValueModel::Integer(*i),
            Value::Real(b) => ValueModel::Real(*b),
            Value::Text(s) => ValueModel::Text(s@),
            Value::Blob(b) => ValueModel::Blob(b@),
        }
    }
}

impl DeepView for Value {
    type V = ValueModel;

    open spec fn deep_view(&self) -> ValueModel {
        self.view()
    }
}

/// The type tag a value carries.
pub open spec fn type_of_value(v: ValueModel) -> ValueType {
    match v {
        ValueModel::Null => ValueType::Null,
        ValueModel::Integer(_) => ValueType::Integer,
        ValueModel::Real(_) => ValueType::Real,
        ValueModel::Text(_) => ValueType::Text,
        ValueModel::Blob(_) => ValueType::Blob,
    }
}

impl Value {
    /// The type tag of this value.
    pub fn value_type(&self) -> (r: ValueType)
        ensures
            r == type_of_value(self@),
    {
        match self {
            Value::Null => ValueType::Null,
            Value::Integer(_) => ValueType::Integer,
            Value::Real(_) => ValueType::Real,
            Value::Text(_) => ValueType::Text,
            Value::Blob(_) => ValueType::Blob,
        }
    }
}

impl Clone for Value {
    /// A clone denotes the same database value.
    fn clone(&self) -> (r: Self)
        ensures
            r@ == self@,
    {
        match self {
            Value::Null => Value::Null,
            Value::Integer(i) => Value::Integer(*i),
            Value::Real(b) => Value::Real(*b),
            Value::Text(s) => Value::Text(s.clone()),
            Value::Blob(b) => {
                let c = b.clone();
                proof {
                    assert(c@ =~= b@);
                }
                Value::Blob(c)
            },
        }
    }
}

/// A borrowed view of one database value.
#[derive(Debug)]
pub enum ValueRef<'a> {
    Null,
    Integer(i64),
    /// IEEE-754 bit pattern of a 64-bit real.
    Real(u64),
    Text(&'a str),
    Blob(&'a [u8]),
}

/// Parameters handed to statement execution. Encoding host types into
/// values is outside this crate; callers supply values directly.
#[derive(Debug)]
pub enum Params {
    Empty,
    Positional(Vec<Value>),
}

} // verus!
