//! The current destination, and how a request changes it.

use crate::text::bytes_of;
use crate::validator::{listed, position, spells, texts};
use vstd::prelude::*;
use vstd::utf8::{decode_utf8, encode_utf8_decode_utf8};

verus! {

/// The destination at start, and the one that a rejected request falls back to.
pub open spec fn default_destination() -> Seq<char> {
    "brazil"@
}

/// What became of a request. `T` is the text of a destination: a `String`
/// where the service runs, a `Seq<char>` in specifications.
pub enum Outcome<T> {
    /// The request named no destination.
    NoQuery,
    /// The request named this destination, which is on the allow-list.
    Accepted(T),
    /// The request named a destination that is not on the allow-list.
    RejectedFallback,
}

impl View for Outcome<String> {
    type V = Outcome<Seq<char>>;

    open spec fn view(&self) -> Outcome<Seq<char>> {
        match *self {
            Outcome::NoQuery => Outcome::NoQuery,
            Outcome::Accepted(destination) => Outcome::Accepted(destination@),
            Outcome::RejectedFallback => Outcome::RejectedFallback,
        }
    }
}

/// What becomes of a request that asks for `candidate`, under `allow`.
pub open spec fn verdict(candidate: Option<Seq<u8>>, allow: Seq<Seq<char>>) -> Outcome<Seq<char>> {
    match candidate {
        None => Outcome::NoQuery,
        Some(bytes) => if listed(allow, bytes) {
            Outcome::Accepted(decode_utf8(bytes))
        } else {
            Outcome::RejectedFallback
        },
    }
}

/// The current destination after a request with this outcome, where it was
/// `current` before: an accepted destination takes its place, a rejected one
/// resets it to the default whatever it was, and no query leaves it alone.
pub open spec fn state_after(current: Seq<char>, outcome: Outcome<Seq<char>>) -> Seq<char> {
    match outcome {
        Outcome::NoQuery => current,
        Outcome::Accepted(destination) => destination,
        Outcome::RejectedFallback => default_destination(),
    }
}

/// `text` may be the current destination under `allow`: it is the default or
/// an entry of the list.
pub open spec fn admitted(allow: Seq<Seq<char>>, text: Seq<char>) -> bool {
    text == default_destination() || allow.contains(text)
}

/// `current` can be the current destination right after a request with this
/// outcome has had its effect, under `allow`: it is what the outcome makes of
/// some destination that `allow` admits.
pub open spec fn left_by(allow: Seq<Seq<char>>, outcome: Outcome<Seq<char>>, current: Seq<char>) -> bool {
    exists|before: Seq<char>|
        admitted(allow, before) && current == #[trigger] state_after(before, outcome)
}

/// `outcome` is one that `allow` can give: what it accepts is on the list.
pub open spec fn fits(allow: Seq<Seq<char>>, outcome: Outcome<Seq<char>>) -> bool {
    outcome matches Outcome::Accepted(destination) ==> allow.contains(destination)
}

/// A candidate that spells an entry of the list decodes to that entry.
pub proof fn lemma_listed_decodes(allow: Seq<Seq<char>>, candidate: Seq<u8>, at: int)
    requires
        0 <= at < allow.len(),
        spells(candidate, allow[at]),
    ensures
        listed(allow, candidate),
        decode_utf8(candidate) == allow[at],
        verdict(Some(candidate), allow) == Outcome::Accepted(allow[at]),
{
    encode_utf8_decode_utf8(allow[at]);
}

/// The verdict on a request fits the list it was reached under.
pub proof fn lemma_verdict_fits(candidate: Option<Seq<u8>>, allow: Seq<Seq<char>>)
    ensures
        fits(allow, verdict(candidate, allow)),
{
    if candidate is Some && listed(allow, candidate->0) {
        let bytes = candidate->0;
        let at = choose|i: int| 0 <= i < allow.len() && spells(bytes, #[trigger] allow[i]);
        lemma_listed_decodes(allow, bytes, at);
    }
}

/// Decides what becomes of a request that asks for `candidate`.
pub fn decide(candidate: &Option<Vec<u8>>, allow: &Vec<String>) -> (outcome: Outcome<String>)
    ensures
        outcome@ == verdict(bytes_of(*candidate), texts(allow@)),
        fits(texts(allow@), outcome@),
{
    proof {
        lemma_verdict_fits(bytes_of(*candidate), texts(allow@));
    }
    match candidate {
        None => Outcome::NoQuery,
        Some(bytes) => match position(bytes.as_slice(), allow) {
            Some(at) => {
                proof {
                    lemma_listed_decodes(texts(allow@), bytes@, at as int);
                }
                Outcome::Accepted(allow[at].clone())
            },
            None => Outcome::RejectedFallback,
        },
    }
}

/// Gives the current destination the value that follows from `outcome`.
pub fn apply(outcome: &Outcome<String>, state: &mut String)
    ensures
        final(state)@ == state_after(old(state)@, outcome@),
{
    match outcome {
        Outcome::NoQuery => {},
        Outcome::Accepted(destination) => {
            *state = destination.clone();
        },
        Outcome::RejectedFallback => {
            *state = "brazil".to_owned();
        },
    }
}

} // verus!
