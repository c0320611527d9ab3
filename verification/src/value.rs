//! Untyped field values, as a raw report carries them.

use vstd::prelude::*;
use vstd::std_specs::vec::axiom_vec_index_decreases;

verus! {

/// One untyped value of a raw report.
///
/// The remote service sends JSON. The engine reads a value as text, as a
/// whole number, as a timestamp or as a list of texts, so a number is held by
/// what those readings need: an integer as it stands, any other number by
/// its whole part.
#[derive(Debug, PartialEq, Eq)]
pub enum Value {
    Null,
    Bool(bool),
    /// A whole number within the 64-bit signed range.
    Integer(i64),
    /// A whole number above the 64-bit signed range. Where it holds a
    /// smaller number, that number is read as from `Integer`.
    Unsigned(u64),
    /// A number written with a fraction or an exponent, held by its whole
    /// part: the number cut off toward zero, and kept within the 64-bit
    /// signed range.
    Fraction(i64),
    Text(String),
    List(Vec<Value>),
    /// A JSON object. No field of a report is read as one.
    Object,
}

impl Value {
    /// The characters of a text value.
    pub open spec fn text(self) -> Option<Seq<char>> {
        match self {
            Value::Text(s) => Some(s@),
            _ => None,
        }
    }

    /// The number of a whole-number value, where 64 signed bits hold it.
    pub open spec fn integer(self) -> Option<i64> {
        match self {
            Value::Integer(n) => Some(n),
            Value::Unsigned(n) => if n <= i64::MAX {
                Some(n as i64)
            } else {
                None
            },
            _ => None,
        }
    }

    /// The elements of a list value.
    pub open spec fn list(self) -> Option<Seq<Value>> {
        match self {
            Value::List(items) => Some(items@),
            _ => None,
        }
    }
}

impl Clone for Value {
    /// A copy of the value, lists copied element by element.
    fn clone(&self) -> (copy: Value)
        decreases self,
    {
        match self {
            Value::Null => Value::Null,
            Value::Bool(flag) => Value::Bool(*flag),
            Value::Integer(n) => Value::Integer(*n),
            Value::Unsigned(n) => Value::Unsigned(*n),
            Value::Fraction(n) => Value::Fraction(*n),
            Value::Text(s) => Value::Text(s.clone()),
            Value::List(items) => {
                let mut copies: Vec<Value> = Vec::new();
                let mut i: usize = 0;
                while i < items.len()
                    invariant
                        i <= items@.len(),
                        *self == Value::List(*items),
                    decreases items@.len() - i,
                {
                    proof {
                        axiom_vec_index_decreases(*items, i as int);
                        assert(decreases_to!(*self => self->List_0));
                        assert(decreases_to!(*items => items[i as int]));
                    }
                    copies.push(items[i].clone());
                    i = i + 1;
                }
                Value::List(copies)
            },
            Value::Object => Value::Object,
        }
    }
}

} // verus!
