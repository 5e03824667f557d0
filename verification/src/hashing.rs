use std::collections::hash_map::DefaultHasher;
use std::hash::Hash;
use std::hash::Hasher;
use vstd::prelude::*;
use vstd::std_specs::hash::DefaultHasherAdditionalSpecFns;
use crate::buffer::Str;

verus! {

/// The hash of a content: what the default hasher yields after one write of
/// exactly these bytes.
pub open spec fn content_hash(content: Seq<u8>) -> u64 {
    DefaultHasher::spec_finish(seq![content])
}

impl Str<u8> {
    /// The hash of the content. Neither the size class nor the padding enters
    /// it, so buffers that are equal hash alike.
    pub fn hash_value(&self) -> (hash: u64)
        ensures
            hash == content_hash(self@),
    {
        let mut state = DefaultHasher::new();
        state.write(self.as_slice());
        assert(state@ =~= seq![self@]);
        state.finish()
    }
}

impl<E: Hash> Hash for Str<E> {
    /// Feeds the occupied elements to the hasher: neither the class nor the
    /// padding reaches it.
    fn hash<H: Hasher>(&self, state: &mut H) {
        feed(self.as_slice(), state)
    }
}

/// `Hash::hash` of a slice. What the hasher makes of the elements is its own
/// affair, so nothing is stated of its state after the call.
#[verifier::external_body]
fn feed<E: Hash, H: Hasher>(content: &[E], state: &mut H) {
    content.hash(state)
}

} // verus!
