use vstd::prelude::*;
use crate::validate::InsufficientFunds;

verus! {

/// The closed set of failures the workflow can surface. Callers branch on
/// the kind; presentation is left to the surrounding program.
#[derive(Debug)]
pub enum ErrorKind {
    /// A missing or malformed configuration input, such as a transfer amount
    /// that is not a well-formed display quantity.
    Configuration,
    /// A recipient or contract address string that is not canonical; carries
    /// the offending string.
    InvalidAddress(String),
    /// A transport or node failure on a network operation.
    Network,
    /// The sender cannot afford the transfer; carries the exact accounting.
    InsufficientFunds(InsufficientFunds),
    /// A malformed ABI description for a read-only contract call.
    InvalidAbi,
    /// A contract-call response that does not match the expected return
    /// shape.
    Decoding,
    /// A caller-imposed time bound elapsed before a response arrived.
    Timeout,
}

} // verus!
