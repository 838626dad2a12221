//! What holds of the service whatever the request and whatever the state.

use crate::controller::{country_not_found, going_to, response_with, TravelController};
use crate::handler::{
    answers, lemma_travel_controller_renders, outcome_of, rendered, travel_response,
};
use crate::request::{query_mark, travel_to_key, travel_to_of};
use crate::state::{
    admitted, default_destination, left_by, lemma_listed_decodes, lemma_verdict_fits, state_after,
    Outcome,
};
use crate::text::{first_at, lemma_find_first, occurs_at};
use crate::validator::{listed, spells};
use vstd::prelude::*;
use vstd::utf8::{encode_utf8, encode_utf8_decode_utf8};

verus! {

/// The query mark is the one byte `?`.
pub proof fn lemma_query_mark()
    ensures
        query_mark() == seq![0x3fu8],
{
    reveal_strlit("?");
    vstd::string::is_ascii_spec_bytes("?");
    assert(query_mark() =~= seq![0x3fu8]);
}

/// A path of the plain shape, a prefix without `?`, then `?travel_to=` and a
/// value, asks for that value, whatever the value is.
pub proof fn law_plain_request_asks_for_its_value(prefix: Seq<u8>, value: Seq<u8>)
    requires
        !prefix.contains(0x3fu8),
    ensures
        travel_to_of(prefix + query_mark() + travel_to_key() + value) == Some(value),
{
    lemma_query_mark();
    let mark = query_mark();
    let key = travel_to_key();
    let path = prefix + mark + key + value;
    let query = key + value;
    let at = prefix.len() as int;
    assert(path.subrange(at, at + 1) =~= mark);
    assert forall|j: int| 0 <= j < at implies !occurs_at(path, mark, j) by {
        assert(prefix.contains(prefix[j]));
        assert(path.subrange(j, j + 1)[0] == prefix[j]);
    }
    assert(first_at(path, mark, at));
    lemma_find_first(path, mark, at);
    assert(path.subrange(at + 1, path.len() as int) =~= query);
    assert(query.subrange(0, key.len() as int) =~= key);
    assert(first_at(query, key, 0));
    lemma_find_first(query, key, 0);
    assert(query.subrange(key.len() as int, query.len() as int) =~= value);
}

/// A text that is not on the list is spelled by no candidate that is.
pub proof fn lemma_unlisted_text(allow: Seq<Seq<char>>, text: Seq<char>)
    requires
        !allow.contains(text),
    ensures
        !listed(allow, encode_utf8(text)),
{
    if listed(allow, encode_utf8(text)) {
        let i = choose|i: int| 0 <= i < allow.len() && spells(encode_utf8(text), #[trigger] allow[i]);
        encode_utf8_decode_utf8(text);
        encode_utf8_decode_utf8(allow[i]);
        assert(allow[i] == text);
    }
}

/// What the travel controller answers to the request in `path` is its
/// response for some current destination that the allow-list admits.
pub proof fn lemma_travel_controller_answers(
    controller: &TravelController,
    allow: Seq<Seq<char>>,
    path: Seq<u8>,
    text: String,
)
    requires
        answers(controller, allow, path, text),
    ensures
        exists|before: Seq<char>|
            admitted(allow, before) && text@ == #[trigger] travel_response(before, path, allow),
{
    let outcome = outcome_of(path, allow);
    let current = choose|current: &str|
        left_by(allow, outcome, current@) && #[trigger] rendered(
            controller,
            outcome,
            current,
            text,
        );
    lemma_travel_controller_renders(controller, outcome, current, text);
    let before = choose|before: Seq<char>|
        admitted(allow, before) && current@ == #[trigger] state_after(before, outcome);
    assert(text@ == travel_response(before, path, allow));
}

/// A request for a destination on the allow-list is accepted: the response
/// reports that destination, and it is the current destination afterwards,
/// whatever it was before.
pub proof fn law_listed_destination_is_accepted(
    before: Seq<char>,
    path: Seq<u8>,
    allow: Seq<Seq<char>>,
    destination: Seq<char>,
)
    requires
        allow.contains(destination),
        travel_to_of(path) == Some(encode_utf8(destination)),
    ensures
        outcome_of(path, allow) == Outcome::Accepted(destination),
        state_after(before, outcome_of(path, allow)) == destination,
        travel_response(before, path, allow) == response_with(going_to(destination)),
{
    let at = choose|i: int| 0 <= i < allow.len() && allow[i] == destination;
    lemma_listed_decodes(allow, encode_utf8(destination), at);
}

/// A request for a destination that is not on the allow-list is rejected:
/// the response is the fixed rejection, and the current destination is the
/// default afterwards, whatever it was before.
pub proof fn law_unlisted_destination_falls_back(
    before: Seq<char>,
    path: Seq<u8>,
    allow: Seq<Seq<char>>,
    candidate: Seq<u8>,
)
    requires
        travel_to_of(path) == Some(candidate),
        !listed(allow, candidate),
    ensures
        outcome_of(path, allow) == Outcome::<Seq<char>>::RejectedFallback,
        state_after(before, outcome_of(path, allow)) == default_destination(),
        travel_response(before, path, allow) == response_with(country_not_found()),
{
}

/// A request for a text that is not on the allow-list is rejected likewise.
pub proof fn law_unlisted_text_falls_back(
    before: Seq<char>,
    path: Seq<u8>,
    allow: Seq<Seq<char>>,
    destination: Seq<char>,
)
    requires
        !allow.contains(destination),
        travel_to_of(path) == Some(encode_utf8(destination)),
    ensures
        outcome_of(path, allow) == Outcome::<Seq<char>>::RejectedFallback,
        state_after(before, outcome_of(path, allow)) == default_destination(),
        travel_response(before, path, allow) == response_with(country_not_found()),
{
    lemma_unlisted_text(allow, destination);
}

/// A request that names no destination changes nothing: the current
/// destination stays what it was, and the response reports it.
pub proof fn law_no_query_reports_the_state(
    before: Seq<char>,
    path: Seq<u8>,
    allow: Seq<Seq<char>>,
)
    requires
        travel_to_of(path) is None,
    ensures
        outcome_of(path, allow) == Outcome::<Seq<char>>::NoQuery,
        state_after(before, outcome_of(path, allow)) == before,
        travel_response(before, path, allow) == response_with(going_to(before)),
{
}

/// A request made twice in a row has the effect of making it once: the
/// second leaves the current destination as the first left it, and gets the
/// same response.
pub proof fn law_repeated_request_changes_nothing(
    before: Seq<char>,
    path: Seq<u8>,
    allow: Seq<Seq<char>>,
)
    ensures
        ({
            let between = state_after(before, outcome_of(path, allow));
            &&& state_after(between, outcome_of(path, allow)) == between
            &&& travel_response(between, path, allow) == travel_response(before, path, allow)
        }),
{
}

/// No request lets anything into the current destination but the default
/// and the entries of the allow-list. Where the default is itself on the
/// list, the current destination is an entry of the list at all times.
pub proof fn law_state_stays_admitted(before: Seq<char>, path: Seq<u8>, allow: Seq<Seq<char>>)
    requires
        admitted(allow, before),
    ensures
        admitted(allow, state_after(before, outcome_of(path, allow))),
        allow.contains(default_destination()) ==> allow.contains(
            state_after(before, outcome_of(path, allow)),
        ),
{
    lemma_verdict_fits(travel_to_of(path), allow);
}

/// The current destination after the requests for `paths` have taken effect
/// one after the other, in this order.
pub open spec fn state_after_all(before: Seq<char>, paths: Seq<Seq<u8>>, allow: Seq<Seq<char>>) -> Seq<
    char,
>
    decreases paths.len(),
{
    if paths.len() == 0 {
        before
    } else {
        state_after(
            state_after_all(before, paths.drop_last(), allow),
            outcome_of(paths.last(), allow),
        )
    }
}

/// Connections take hold of the shared state one at a time, so requests made
/// at once take effect in some order. Whatever that order, after requests
/// that each ask for a destination on the allow-list the current destination
/// is the one asked for by the request that came last: one of those asked
/// for, whole, and no other.
pub proof fn law_last_valid_request_wins(
    before: Seq<char>,
    paths: Seq<Seq<u8>>,
    destinations: Seq<Seq<char>>,
    allow: Seq<Seq<char>>,
)
    requires
        paths.len() == destinations.len(),
        paths.len() > 0,
        forall|i: int|
            0 <= i < paths.len() ==> allow.contains(#[trigger] destinations[i]) && travel_to_of(
                paths[i],
            ) == Some(encode_utf8(destinations[i])),
    ensures
        state_after_all(before, paths, allow) == destinations.last(),
        destinations.contains(state_after_all(before, paths, allow)),
{
    let last = paths.len() - 1;
    assert(allow.contains(destinations[last]));
    law_listed_destination_is_accepted(
        state_after_all(before, paths.drop_last(), allow),
        paths.last(),
        allow,
        destinations.last(),
    );
}

} // verus!
