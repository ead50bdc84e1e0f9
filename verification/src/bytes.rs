//! The buffer itself: construction, unwrapping, read-only access, equality.
use std::ops::Deref;
use vstd::prelude::*;
use vstd::std_specs::cmp::PartialEqSpecImpl;
use vstd::std_specs::convert::FromSpecImpl;

verus! {

/// An owned sequence of bytes.
///
/// The mathematical value of a `Bytes` is the sequence of its bytes, `self@`.
/// Nothing is ever added to it, cut from it or reordered.
#[derive(Debug)]
pub struct Bytes {
    pub val: Vec<u8>,
}

impl View for Bytes {
    type V = Seq<u8>;

    open spec fn view(&self) -> Seq<u8> {
        self.val@
    }
}

impl Deref for Bytes {
    type Target = [u8];

    /// The bytes as a slice over the buffer that `self` owns.
    fn deref(&self) -> (slice: &[u8])
        ensures
            slice@ == self@,
    {
        self.val.as_slice()
    }
}

impl FromSpecImpl<Vec<u8>> for Bytes {
    open spec fn obeys_from_spec() -> bool {
        true
    }

    open spec fn from_spec(val: Vec<u8>) -> Bytes {
        Bytes { val }
    }
}

impl From<Vec<u8>> for Bytes {
    /// Wraps `val` without touching its contents.
    fn from(val: Vec<u8>) -> (bytes: Bytes)
        ensures
            bytes.val == val,
            bytes@ == val@,
    {
        Bytes { val }
    }
}

impl FromSpecImpl<Bytes> for Vec<u8> {
    open spec fn obeys_from_spec() -> bool {
        true
    }

    open spec fn from_spec(bytes: Bytes) -> Vec<u8> {
        bytes.val
    }
}

impl From<Bytes> for Vec<u8> {
    /// Gives the buffer back to the caller.
    fn from(bytes: Bytes) -> (val: Vec<u8>)
        ensures
            val == bytes.val,
            val@ == bytes@,
    {
        bytes.val
    }
}

impl Default for Bytes {
    /// The empty buffer.
    fn default() -> (bytes: Bytes)
        ensures
            bytes@ == Seq::<u8>::empty(),
    {
        Bytes { val: Vec::new() }
    }
}

impl Clone for Bytes {
    /// A second buffer with the same bytes.
    fn clone(&self) -> (copy: Bytes)
        ensures
            copy@ == self@,
    {
        Bytes { val: self.val.clone() }
    }
}

impl PartialEqSpecImpl for Bytes {
    open spec fn obeys_eq_spec() -> bool {
        true
    }

    open spec fn eq_spec(&self, other: &Bytes) -> bool {
        self@ == other@
    }
}

impl PartialEq for Bytes {
    /// Two buffers are equal when they hold the same bytes in the same order.
    fn eq(&self, other: &Bytes) -> (equal: bool) {
        let equal = self.val == other.val;
        proof {
            if equal {
                assert(self.val@ =~= other.val@);
            }
        }
        equal
    }
}

impl Eq for Bytes {}

} // verus!
