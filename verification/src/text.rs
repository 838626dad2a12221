//! Searching byte strings.

use vstd::prelude::*;

verus! {

/// `needle` stands in `hay` at offset `at`.
pub open spec fn occurs_at(hay: Seq<u8>, needle: Seq<u8>, at: int) -> bool {
    &&& 0 <= at
    &&& at + needle.len() <= hay.len()
    &&& hay.subrange(at, at + needle.len()) == needle
}

/// `at` is the least offset at which `needle` stands in `hay`.
pub open spec fn first_at(hay: Seq<u8>, needle: Seq<u8>, at: int) -> bool {
    &&& occurs_at(hay, needle, at)
    &&& forall|j: int| 0 <= j < at ==> !occurs_at(hay, needle, j)
}

/// The least offset at which `needle` stands in `hay`, if it stands there at all.
pub open spec fn find(hay: Seq<u8>, needle: Seq<u8>) -> Option<int> {
    if exists|at: int| occurs_at(hay, needle, at) {
        Some(choose|at: int| first_at(hay, needle, at))
    } else {
        None
    }
}

/// A least offset is the only one: `find` gives it.
pub proof fn lemma_find_first(hay: Seq<u8>, needle: Seq<u8>, at: int)
    requires
        first_at(hay, needle, at),
    ensures
        find(hay, needle) == Some(at),
{
    let chosen = choose|k: int| first_at(hay, needle, k);
    assert(first_at(hay, needle, chosen));
    if chosen < at {
        assert(!occurs_at(hay, needle, chosen));
    }
    if at < chosen {
        assert(!occurs_at(hay, needle, at));
    }
}

/// Where `needle` stands nowhere, `find` gives nothing.
pub proof fn lemma_find_none(hay: Seq<u8>, needle: Seq<u8>)
    requires
        forall|j: int| 0 <= j && j + needle.len() <= hay.len() ==> !occurs_at(hay, needle, j),
    ensures
        find(hay, needle) is None,
{
}

/// Where `needle` stands at `at`, there is a least offset at which it stands.
proof fn lemma_least_exists(hay: Seq<u8>, needle: Seq<u8>, at: int)
    requires
        occurs_at(hay, needle, at),
    ensures
        exists|k: int| first_at(hay, needle, k),
    decreases at,
{
    if exists|j: int| 0 <= j < at && occurs_at(hay, needle, j) {
        let j = choose|j: int| 0 <= j < at && occurs_at(hay, needle, j);
        lemma_least_exists(hay, needle, j);
    } else {
        assert(first_at(hay, needle, at));
    }
}

/// What `find` gives is the least offset at which `needle` stands, and it
/// gives nothing only where `needle` stands nowhere.
pub proof fn lemma_find(hay: Seq<u8>, needle: Seq<u8>)
    ensures
        match find(hay, needle) {
            Some(at) => first_at(hay, needle, at),
            None => forall|j: int| !occurs_at(hay, needle, j),
        },
{
    if exists|at: int| occurs_at(hay, needle, at) {
        let at = choose|at: int| occurs_at(hay, needle, at);
        lemma_least_exists(hay, needle, at);
    }
}

/// The bytes that an optional byte string holds.
pub open spec fn bytes_of(value: Option<Vec<u8>>) -> Option<Seq<u8>> {
    match value {
        Some(bytes) => Some(bytes@),
        None => None,
    }
}

/// Whether `needle` stands in `hay` at offset `at`.
pub fn matches_at(hay: &[u8], needle: &[u8], at: usize) -> (found: bool)
    requires
        at + needle.len() <= hay.len(),
    ensures
        found == occurs_at(hay@, needle@, at as int),
{
    let mut k: usize = 0;
    while k < needle.len()
        invariant
            k <= needle.len(),
            at + needle.len() <= hay.len(),
            forall|i: int| 0 <= i < k ==> hay@[at + i] == needle@[i],
        decreases needle.len() - k,
    {
        if hay[at + k] != needle[k] {
            proof {
                let window = hay@.subrange(at as int, at + needle@.len());
                assert(window[k as int] == hay@[at + k]);
            }
            return false;
        }
        k += 1;
    }
    assert(hay@.subrange(at as int, at + needle@.len()) =~= needle@);
    true
}

/// The least offset at which `needle` stands in `hay`.
pub fn find_bytes(hay: &[u8], needle: &[u8]) -> (found: Option<usize>)
    ensures
        match found {
            Some(at) => find(hay@, needle@) == Some(at as int),
            None => find(hay@, needle@) is None,
        },
{
    if needle.len() > hay.len() {
        proof {
            lemma_find_none(hay@, needle@);
        }
        return None;
    }
    let last: usize = hay.len() - needle.len();
    let mut at: usize = 0;
    loop
        invariant
            last + needle.len() == hay.len(),
            at <= last,
            forall|j: int| 0 <= j < at ==> !occurs_at(hay@, needle@, j),
        decreases last - at,
    {
        if matches_at(hay, needle, at) {
            proof {
                lemma_find_first(hay@, needle@, at as int);
            }
            return Some(at);
        }
        if at == last {
            proof {
                lemma_find_none(hay@, needle@);
            }
            return None;
        }
        at += 1;
    }
}

} // verus!
