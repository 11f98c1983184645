use crate::error::Error;
use vstd::prelude::*;

verus! {

/// The decoding side of the codec contract.
///
/// `spec_deserialize` says, for every input byte string, either which value
/// the string's prefix stands for and how many bytes that prefix holds, or
/// which error the input is refused with. The executable method is proved
/// to agree with it on every input.
pub trait Deserializable: Sized {
    /// The value the prefix of `data` stands for and the prefix's length,
    /// or the error `data` is refused with.
    spec fn spec_deserialize(data: Seq<u8>) -> Result<(Self, nat), Error>;

    /// Reconstructs a value from the prefix of `data`. Trailing bytes are
    /// not an error: they belong to whatever is decoded next. When the
    /// remaining input is too short the call fails rather than read out of
    /// bounds.
    fn deserialize(data: &[u8]) -> (r: Result<(Self, usize), Error>)
        ensures
            r matches Ok((v, n)) ==> Self::spec_deserialize(data@) == Ok::<(Self, nat), Error>(
                (v, n as nat),
            ) && n <= data@.len(),
            r matches Err(e) ==> Self::spec_deserialize(data@) == Err::<(Self, nat), Error>(e),
    ;
}

} // verus!
