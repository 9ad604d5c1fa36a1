//! The failures a checked decimal operation can report.
use vstd::prelude::*;
use vstd::string::*;

verus! {

/// Why a checked decimal operation produced no value.
#[derive(Debug, Clone, Copy, PartialEq, Eq, Structural)]
pub enum DecimalOperationError {
    /// A scale factor, an intermediate result or the result itself does not fit
    /// the magnitude type.
    Overflow,
    /// The divisor of a division or remainder is zero.
    DivisionByZero,
}

impl DecimalOperationError {
    /// The text of [`DecimalOperationError::message`] for each failure.
    pub open spec fn message_text(self) -> Seq<char> {
        match self {
            DecimalOperationError::Overflow => "An overflow occurred during the operation."@,
            DecimalOperationError::DivisionByZero => "A division by zero occurred during the operation."@,
        }
    }

    /// A sentence describing the failure, for display to a person.
    pub fn message(&self) -> (text: String)
        ensures
            text@ == self.message_text(),
    {
        match self {
            DecimalOperationError::Overflow => String::from_str(
                "An overflow occurred during the operation.",
            ),
            DecimalOperationError::DivisionByZero => String::from_str(
                "A division by zero occurred during the operation.",
            ),
        }
    }
}

} // verus!
