//! The closed set of numeric representations that can be converted.

use vstd::prelude::*;

use crate::text::{push_str, text_eq};

verus! {

/// A numeric representation, each with its own text form.
#[derive(Clone, Copy, Debug, PartialEq, Eq, Structural)]
pub enum ValueType {
    /// IEEE single precision: 8 hex digits of its bit pattern.
    Float32,
    /// IEEE half precision: 4 hex digits of its bit pattern.
    Float16,
    /// A decimal numeral.
    Float,
    /// A complex number packed as two half precision patterns, the real part
    /// in the high 16 bits: 8 hex digits.
    Complex16,
    /// A complex number written `<real> + <imag>i`.
    Complex,
    /// Q-format fixed point in a 32-bit container: 8 hex digits.
    Fix32,
    /// Q-format fixed point in a 16-bit container: 4 hex digits.
    Fix16,
}

impl ValueType {
    /// The name that selects this representation.
    pub open spec fn spec_name(self) -> Seq<char> {
        match self {
            ValueType::Float32 => "float32"@,
            ValueType::Float16 => "float16"@,
            ValueType::Float => "float"@,
            ValueType::Complex16 => "complex16"@,
            ValueType::Complex => "complex"@,
            ValueType::Fix32 => "fix32"@,
            ValueType::Fix16 => "fix16"@,
        }
    }

    /// Whether the text form is hexadecimal digits (as opposed to decimal).
    pub open spec fn spec_is_hex(self) -> bool {
        !(self == ValueType::Float || self == ValueType::Complex)
    }

    /// Whether the representation is fixed point, and so has a fractional width.
    pub open spec fn spec_is_fixed(self) -> bool {
        self == ValueType::Fix32 || self == ValueType::Fix16
    }

    /// The representation that `name` selects, if any.
    pub open spec fn spec_from_name(name: Seq<char>) -> Option<ValueType> {
        if name == "float32"@ {
            Some(ValueType::Float32)
        } else if name == "float16"@ {
            Some(ValueType::Float16)
        } else if name == "float"@ {
            Some(ValueType::Float)
        } else if name == "fix32"@ {
            Some(ValueType::Fix32)
        } else if name == "fix16"@ {
            Some(ValueType::Fix16)
        } else if name == "complex16"@ {
            Some(ValueType::Complex16)
        } else if name == "complex"@ {
            Some(ValueType::Complex)
        } else {
            None
        }
    }

    /// Looks a representation up by its name; nothing for an unknown name.
    pub fn get_value_type(string: &str) -> (r: Option<ValueType>)
        ensures
            r == Self::spec_from_name(string@),
    {
        if text_eq(string, "float32") {
            Some(ValueType::Float32)
        } else if text_eq(string, "float16") {
            Some(ValueType::Float16)
        } else if text_eq(string, "float") {
            Some(ValueType::Float)
        } else if text_eq(string, "fix32") {
            Some(ValueType::Fix32)
        } else if text_eq(string, "fix16") {
            Some(ValueType::Fix16)
        } else if text_eq(string, "complex16") {
            Some(ValueType::Complex16)
        } else if text_eq(string, "complex") {
            Some(ValueType::Complex)
        } else {
            None
        }
    }

    /// The name of this representation.
    pub fn name(&self) -> (r: String)
        ensures
            r@ == self.spec_name(),
    {
        let mut out = String::new();
        let s = match self {
            ValueType::Float32 => "float32",
            ValueType::Float16 => "float16",
            ValueType::Float => "float",
            ValueType::Complex16 => "complex16",
            ValueType::Complex => "complex",
            ValueType::Fix32 => "fix32",
            ValueType::Fix16 => "fix16",
        };
        push_str(&mut out, s);
        out
    }

    pub fn is_hex(&self) -> (r: bool)
        ensures
            r == self.spec_is_hex(),
    {
        !matches!(self, ValueType::Float | ValueType::Complex)
    }

    pub fn is_fixed(&self) -> (r: bool)
        ensures
            r == self.spec_is_fixed(),
    {
        matches!(self, ValueType::Fix32 | ValueType::Fix16)
    }
}

/// Every representation is found again by its own name.
pub proof fn lemma_name_round_trip(t: ValueType)
    ensures
        ValueType::spec_from_name(t.spec_name()) == Some(t),
{
    reveal_strlit("float32");
    reveal_strlit("float16");
    reveal_strlit("float");
    reveal_strlit("complex16");
    reveal_strlit("complex");
    reveal_strlit("fix32");
    reveal_strlit("fix16");
    assert("float16"@[5] != "float32"@[5]);
    assert("float"@.len() != "float32"@.len() && "float"@.len() != "float16"@.len());
    assert("fix32"@.len() != "float32"@.len() && "fix32"@.len() != "float16"@.len());
    assert("fix32"@[1] != "float"@[1]);
    assert("fix16"@.len() != "float32"@.len() && "fix16"@.len() != "float16"@.len());
    assert("fix16"@[1] != "float"@[1] && "fix16"@[3] != "fix32"@[3]);
    assert("complex16"@.len() != "float32"@.len() && "complex16"@.len() != "float16"@.len());
    assert("complex16"@.len() != "float"@.len() && "complex16"@.len() != "fix32"@.len());
    assert("complex16"@.len() != "fix16"@.len());
    assert("complex"@[0] != "float32"@[0] && "complex"@[0] != "float16"@[0]);
    assert("complex"@.len() != "float"@.len() && "complex"@.len() != "fix32"@.len());
    assert("complex"@.len() != "fix16"@.len() && "complex"@.len() != "complex16"@.len());
}

} // verus!
