//! The validator: is a candidate destination on the allow-list?

use crate::text::matches_at;
use vstd::prelude::*;
use vstd::utf8::encode_utf8;

verus! {

/// The texts of a list of strings.
pub open spec fn texts(list: Seq<String>) -> Seq<Seq<char>> {
    Seq::new(list.len(), |i: int| list[i]@)
}

/// `bytes` are `text` as it travels in a request: byte for byte, case and all.
pub open spec fn spells(bytes: Seq<u8>, text: Seq<char>) -> bool {
    bytes == encode_utf8(text)
}

/// `at` is the first place of `allow` whose entry `candidate` spells.
pub open spec fn listed_at(allow: Seq<Seq<char>>, candidate: Seq<u8>, at: int) -> bool {
    &&& 0 <= at < allow.len()
    &&& spells(candidate, allow[at])
    &&& forall|j: int| 0 <= j < at ==> !spells(candidate, allow[j])
}

/// `candidate` spells an entry of `allow`.
pub open spec fn listed(allow: Seq<Seq<char>>, candidate: Seq<u8>) -> bool {
    exists|i: int| 0 <= i < allow.len() && spells(candidate, #[trigger] allow[i])
}

/// Whether the two byte strings are the same.
pub fn same_bytes(left: &[u8], right: &[u8]) -> (same: bool)
    ensures
        same == (left@ == right@),
{
    if left.len() != right.len() {
        return false;
    }
    let same = matches_at(left, right, 0);
    proof {
        assert(left@.subrange(0, right@.len() as int) =~= left@);
    }
    same
}

/// The first place of `allow` whose entry `candidate` spells.
pub fn position(candidate: &[u8], allow: &Vec<String>) -> (place: Option<usize>)
    ensures
        place is Some == listed(texts(allow@), candidate@),
        place matches Some(at) ==> listed_at(texts(allow@), candidate@, at as int),
{
    let mut at: usize = 0;
    while at < allow.len()
        invariant
            at <= allow@.len(),
            forall|j: int| 0 <= j < at ==> !spells(candidate@, #[trigger] texts(allow@)[j]),
        decreases allow@.len() - at,
    {
        if same_bytes(candidate, allow[at].as_str().as_bytes()) {
            assert(spells(candidate@, texts(allow@)[at as int]));
            return Some(at);
        }
        at += 1;
    }
    None
}

/// Whether `candidate` is on the allow-list: an exact, case-sensitive match
/// with one of its entries.
pub fn is_valid(candidate: &[u8], allow: &Vec<String>) -> (valid: bool)
    ensures
        valid == listed(texts(allow@), candidate@),
{
    position(candidate, allow).is_some()
}

} // verus!
