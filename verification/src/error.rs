//! The crate's error type for misused sign conventions, with a fully
//! specified message renderer.

use vstd::prelude::*;
use vstd::string::StringExecFns;
use crate::decimal::{append_dec_signed, spec_dec_signed};

verus! {

/// A negative value was handed to an operation that expects a positive
/// one; `suggestion` names the operation that takes the opposite sign.
#[derive(Debug, PartialEq)]
pub enum TempusError {
    NegativeValue { unit: String, suggestion: String, value: i64 },
}

impl TempusError {
    /// The error text: "<unit> must be positive. Did you mean
    /// <suggestion>(<value>)?".
    pub open spec fn spec_message(&self) -> Seq<char> {
        match self {
            TempusError::NegativeValue { unit, suggestion, value } => unit@
                + " must be positive. Did you mean "@ + suggestion@ + "("@ + spec_dec_signed(
                *value as int,
            ) + ")?"@,
        }
    }

    /// Renders the error text.
    pub fn message(&self) -> (r: String)
        ensures
            r@ == self.spec_message(),
    {
        match self {
            TempusError::NegativeValue { unit, suggestion, value } => {
                let mut s = unit.clone();
                s.append(" must be positive. Did you mean ");
                s.append(suggestion.as_str());
                s.append("(");
                append_dec_signed(&mut s, *value);
                s.append(")?");
                proof {
                    assert(s@ =~= self.spec_message());
                }
                s
            },
        }
    }
}

} // verus!
