//! The error that construction of a field element can report.

use vstd::prelude::*;
use vstd::string::StringExecFns;
use crate::decimal::{decimal, to_decimal};

verus! {

/// Why a value could not be made into a field element.
#[derive(Debug, Clone, Copy, PartialEq, Eq, Structural)]
pub enum FiniteFieldError {
    /// The number is not below the modulus of the field it was meant for.
    NotInFiniteField(u32),
}

impl FiniteFieldError {
    /// The text of the error message.
    pub open spec fn message_spec(&self) -> Seq<char> {
        match *self {
            FiniteFieldError::NotInFiniteField(num) => "The number "@ + decimal(num as nat)
                + " is not in the finite field"@,
        }
    }

    /// Renders the error for a human reader, naming the offending number.
    pub fn message(&self) -> (s: String)
        ensures
            s@ == self.message_spec(),
    {
        match *self {
            FiniteFieldError::NotInFiniteField(num) => {
                let mut s = String::from_str("The number ");
                let digits = to_decimal(num);
                s.append(digits.as_str());
                s.append(" is not in the finite field");
                s
            },
        }
    }
}

} // verus!
