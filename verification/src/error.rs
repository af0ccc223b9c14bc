//! Error types shared by the cell and BOC operations.

use vstd::prelude::*;

verus! {

/// Errors of cell construction, encoding and decoding.
#[derive(Debug, Clone, Copy, PartialEq, Eq, Structural)]
pub enum CellError {
    TooManyReferences,
    InvalidData,
    DataTooLarge,
    UnexpectedEof,
}

/// The kinds of system errors.
#[derive(Debug, Clone, Copy, PartialEq, Eq, Structural)]
pub enum SystemErrorType {
    NoRootCell,
    InvalidOperation,
    InvalidTransaction,
    InvalidAmount,
    InvalidProof,
    InsufficientBalance,
    DataNotFound,
    SpendingLimitExceeded,
    InvalidStake,
    BatterySystemError,
}

/// The text that introduces a system error of kind `t`.
pub open spec fn system_error_type_text(t: SystemErrorType) -> Seq<char> {
    match t {
        SystemErrorType::NoRootCell => "No root cell"@,
        SystemErrorType::InvalidOperation => "Invalid operation"@,
        SystemErrorType::InvalidTransaction => "Invalid transaction"@,
        SystemErrorType::InvalidAmount => "Invalid amount"@,
        SystemErrorType::InvalidProof => "Invalid proof"@,
        SystemErrorType::InsufficientBalance => "Insufficient balance"@,
        SystemErrorType::DataNotFound => "Data not found"@,
        SystemErrorType::SpendingLimitExceeded => "Spending limit exceeded"@,
        SystemErrorType::InvalidStake => "Invalid stake"@,
        SystemErrorType::BatterySystemError => "Battery system error"@,
    }
}

/// A system error: its kind and a message.
#[derive(Debug, Clone)]
pub struct SystemError {
    pub error_type: SystemErrorType,
    pub message: String,
}

impl SystemError {
    /// Creates an error of the given kind with the given message.
    pub fn new(error_type: SystemErrorType, message: String) -> (r: SystemError)
        ensures
            r.error_type == error_type,
            r.message@ == message@,
    {
        SystemError { error_type, message }
    }

    /// The error's text: the kind's text, a colon and a space, then the message.
    pub fn to_string(&self) -> (r: String)
        ensures
            r@ == system_error_type_text(self.error_type) + ": "@ + self.message@,
    {
        let mut s = system_error_type_string(self.error_type);
        s.append(": ");
        s.append(self.message.as_str());
        s
    }
}

/// The text of a kind of system error.
pub fn system_error_type_string(t: SystemErrorType) -> (r: String)
    ensures
        r@ == system_error_type_text(t),
{
    match t {
        SystemErrorType::NoRootCell => String::from_str("No root cell"),
        SystemErrorType::InvalidOperation => String::from_str("Invalid operation"),
        SystemErrorType::InvalidTransaction => String::from_str("Invalid transaction"),
        SystemErrorType::InvalidAmount => String::from_str("Invalid amount"),
        SystemErrorType::InvalidProof => String::from_str("Invalid proof"),
        SystemErrorType::InsufficientBalance => String::from_str("Insufficient balance"),
        SystemErrorType::DataNotFound => String::from_str("Data not found"),
        SystemErrorType::SpendingLimitExceeded => String::from_str("Spending limit exceeded"),
        SystemErrorType::InvalidStake => String::from_str("Invalid stake"),
        SystemErrorType::BatterySystemError => String::from_str("Battery system error"),
    }
}

} // verus!
