use crate::error::Error;
use vstd::prelude::*;

verus! {

/// A handle to a box of a [`crate::heap::Heap`]: the box's index there.
#[derive(PartialEq, Eq, Structural, Clone, Copy, Debug)]
pub struct AnyUserData {
    pub index: usize,
}

/// Dynamic value of the script runtime, as far as this layer sees it.
#[derive(Debug, Clone, PartialEq, Eq)]
pub enum Value {
    Nil,
    Boolean(bool),
    Integer(i64),
    Str(String),
    /// A script function, by its runtime reference.
    Function(u64),
    UserData(AnyUserData),
}

/// The descriptive name of a value's kind, as it appears in error messages.
pub open spec fn spec_kind_name(v: Value) -> Seq<char> {
    match v {
        Value::Nil => "nil"@,
        Value::Boolean(_) => "boolean"@,
        Value::Integer(_) => "integer"@,
        Value::Str(_) => "string"@,
        Value::Function(_) => "function"@,
        Value::UserData(_) => "userdata"@,
    }
}

impl Value {
    pub fn kind_name(&self) -> (r: &'static str)
        ensures
            r@ == spec_kind_name(*self),
    {
        match self {
            Value::Nil => "nil",
            Value::Boolean(_) => "boolean",
            Value::Integer(_) => "integer",
            Value::Str(_) => "string",
            Value::Function(_) => "function",
            Value::UserData(_) => "userdata",
        }
    }

    /// A copy of the value.
    pub fn duplicate(&self) -> (r: Value)
        ensures
            r == *self,
    {
        match self {
            Value::Nil => Value::Nil,
            Value::Boolean(b) => Value::Boolean(*b),
            Value::Integer(n) => Value::Integer(*n),
            Value::Str(s) => Value::Str(s.clone()),
            Value::Function(f) => Value::Function(*f),
            Value::UserData(u) => Value::UserData(*u),
        }
    }

    pub fn is_function(&self) -> (r: bool)
        ensures
            r == (*self is Function),
    {
        matches!(self, Value::Function(_))
    }

    /// Reads the value as a 64-bit integer.
    pub fn to_integer(&self) -> (r: Result<i64, Error>)
        ensures
            match *self {
                Value::Integer(n) => r == Ok::<i64, Error>(n),
                _ => r matches Err(Error::FromValueConversion { from, to }) && from@
                    == spec_kind_name(*self) && to@ == "integer"@,
            },
    {
        match self {
            Value::Integer(n) => Ok(*n),
            _ => Err(Error::FromValueConversion {
                from: self.kind_name().to_owned(),
                to: "integer".to_owned(),
            }),
        }
    }

    /// Reads the value as an unsigned 32-bit integer; an integer out of range is refused.
    pub fn to_u32(&self) -> (r: Result<u32, Error>)
        ensures
            match *self {
                Value::Integer(n) => if 0 <= n <= u32::MAX {
                    r == Ok::<u32, Error>(n as u32)
                } else {
                    r matches Err(Error::FromValueConversion { from, to }) && from@ == "integer"@
                        && to@ == "u32"@
                },
                _ => r matches Err(Error::FromValueConversion { from, to }) && from@
                    == spec_kind_name(*self) && to@ == "u32"@,
            },
    {
        match self {
            Value::Integer(n) => {
                if 0 <= *n && *n <= u32::MAX as i64 {
                    Ok(*n as u32)
                } else {
                    Err(Error::FromValueConversion { from: "integer".to_owned(), to: "u32".to_owned() })
                }
            },
            _ => Err(Error::FromValueConversion {
                from: self.kind_name().to_owned(),
                to: "u32".to_owned(),
            }),
        }
    }

    /// Reads the value as a string.
    pub fn to_string_value(&self) -> (r: Result<String, Error>)
        ensures
            match *self {
                Value::Str(s) => r matches Ok(t) && t@ == s@,
                _ => r matches Err(Error::FromValueConversion { from, to }) && from@
                    == spec_kind_name(*self) && to@ == "string"@,
            },
    {
        match self {
            Value::Str(s) => Ok(s.clone()),
            _ => Err(Error::FromValueConversion {
                from: self.kind_name().to_owned(),
                to: "string".to_owned(),
            }),
        }
    }
}

} // verus!
