use vstd::prelude::*;

verus! {

/// Why an encode or decode call failed.
#[derive(Debug, Clone, PartialEq, Eq, Structural)]
pub enum Error {
    /// The input slice held fewer bytes than the type being decoded needs.
    /// `required` is the number of leading bytes the type reads and `actual`
    /// the number of bytes that were available.
    InsufficientInput { required: usize, actual: usize },
    /// Bytes were present but could not be reinterpreted as the target type.
    /// No codec of this crate can raise it once length is validated; the
    /// variant keeps the contract open for implementations that can.
    MalformedConversion,
}

} // verus!
