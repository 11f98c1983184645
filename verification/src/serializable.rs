use crate::error::Error;
use vstd::prelude::*;

verus! {

/// The encoding side of the codec contract.
///
/// `wire_form` is the type's wire format as a mathematical byte string;
/// the two executable methods are proved to produce exactly those bytes.
/// Encoding never removes or reorders bytes already in the buffer, and for
/// every implementation of this crate it cannot fail.
pub trait Serializable: Sized {
    /// The exact byte string that stands for `self` on the wire.
    spec fn wire_form(&self) -> Seq<u8>;

    /// Appends the wire form of `self` to `v` and returns the buffer:
    /// nothing but the bytes of `self` is appended, and the existing
    /// content is kept in place.
    fn serialize_append(&self, v: Vec<u8>) -> (r: Result<Vec<u8>, Error>)
        ensures
            r matches Ok(out) && out@ == v@ + self.wire_form(),
    ;

    /// Encodes `self` into a fresh buffer holding exactly its wire form.
    fn serialize(&self) -> (r: Result<Vec<u8>, Error>)
        ensures
            r matches Ok(out) && out@ == self.wire_form(),
    {
        let v: Vec<u8> = Vec::new();
        let r = self.serialize_append(v);
        proof {
            let out = r->Ok_0;
            assert(out@ =~= self.wire_form());
        }
        r
    }
}

} // verus!
