//! Change detection by content fingerprints.

use std::collections::hash_map::DefaultHasher;
use std::hash::Hasher;
use vstd::prelude::*;
use vstd::std_specs::hash::DefaultHasherAdditionalSpecFns;
use vstd::string::StringSliceAdditionalSpecFns;

verus! {

/// The digest of a text: what the default hasher yields after it has been fed
/// the text's UTF-8 bytes and the terminator byte `0xff`.
pub open spec fn fingerprint(text: Seq<char>) -> u64 {
    DefaultHasher::spec_finish(seq![vstd::utf8::encode_utf8(text), seq![0xffu8]])
}

/// Computes the fingerprint of `text`.
pub fn calculate_hash(text: &str) -> (digest: u64)
    ensures
        digest == fingerprint(text@),
{
    let mut state = DefaultHasher::new();
    state.write(text.as_bytes());
    let terminator: [u8; 1] = [0xffu8];
    let tail = terminator.as_slice();
    assert(tail@ =~= seq![0xffu8]);
    state.write(tail);
    assert(state@ =~= seq![vstd::utf8::encode_utf8(text@), seq![0xffu8]]);
    state.finish()
}

/// Tells whether two successive observations differ, judged by their digests.
pub fn changed(old_digest: u64, new_digest: u64) -> (differs: bool)
    ensures
        differs == (old_digest != new_digest),
{
    old_digest != new_digest
}

} // verus!
