//! The connection handler: from the bytes that a connection sent to the text
//! that it gets back.

use crate::cell::SharedState;
use crate::controller::{country_not_found, going_to, response_with, Controller, TravelController};
use crate::request::{extract, path_of, travel_to_of};
use crate::state::{decide, left_by, state_after, verdict, Outcome};
use crate::validator::texts;
use vstd::prelude::*;

verus! {

/// `text` is a response of `controller` to a request with this outcome,
/// where `current` is the current destination once the request has had its
/// effect: what `error_response` gave if the request was rejected, and else
/// what `index` gave for `current`.
pub open spec fn rendered<C: Controller>(
    controller: &C,
    outcome: Outcome<Seq<char>>,
    current: &str,
    text: String,
) -> bool {
    match outcome {
        Outcome::RejectedFallback => call_ensures(C::error_response, (controller,), text),
        _ => call_ensures(C::index, (controller, current), text),
    }
}

/// What becomes of the request in `path` under the list `allow`.
pub open spec fn outcome_of(path: Seq<u8>, allow: Seq<Seq<char>>) -> Outcome<Seq<char>> {
    verdict(travel_to_of(path), allow)
}

/// The response of the travel controller to a request with this outcome,
/// where `current` is the current destination once the request has had its
/// effect.
pub open spec fn travel_reply(outcome: Outcome<Seq<char>>, current: Seq<char>) -> Seq<char> {
    match outcome {
        Outcome::RejectedFallback => response_with(country_not_found()),
        _ => response_with(going_to(current)),
    }
}

/// The response of the travel controller to the request in `path`, where the
/// current destination was `before` as the request took effect.
pub open spec fn travel_response(before: Seq<char>, path: Seq<u8>, allow: Seq<Seq<char>>) -> Seq<
    char,
> {
    travel_reply(outcome_of(path, allow), state_after(before, outcome_of(path, allow)))
}

/// What the travel controller renders is its reply, to the letter.
pub proof fn lemma_travel_controller_renders(
    controller: &TravelController,
    outcome: Outcome<Seq<char>>,
    current: &str,
    text: String,
)
    requires
        rendered(controller, outcome, current, text),
    ensures
        text@ == travel_reply(outcome, current@),
{
}

/// `text` is a response that `controller` owes to the request in `path`: the
/// one it renders for the outcome of the request and for some destination
/// `current` that this outcome can have left in the shared state.
pub open spec fn answers<C: Controller>(
    controller: &C,
    allow: Seq<Seq<char>>,
    path: Seq<u8>,
    text: String,
) -> bool {
    exists|current: &str|
        left_by(allow, outcome_of(path, allow), current@) && #[trigger] rendered(
            controller,
            outcome_of(path, allow),
            current,
            text,
        )
}

/// Renders the response to a request with this outcome, where `current` is
/// the current destination once the request has had its effect.
pub fn respond<C: Controller>(controller: &C, outcome: &Outcome<String>, current: &str) -> (response:
    String)
    ensures
        rendered(controller, outcome@, current, response),
{
    match outcome {
        Outcome::RejectedFallback => controller.error_response(),
        _ => controller.index(current),
    }
}

/// Handles one connection, given the bytes read from it: `None` where they
/// are no request, and nothing is to be sent; otherwise the response, after
/// the request has had its effect on the shared state.
///
/// The shared state is what it is when this connection gets hold of it, so
/// the response is owed to some destination that the outcome can have left
/// there.
pub fn handle_connection<C: Controller>(
    buffer: &[u8],
    controller: &C,
    state: &SharedState,
    valid_countries: &Vec<String>,
) -> (response: Option<String>)
    requires
        state.allow() == texts(valid_countries@),
    ensures
        response is Some == path_of(buffer@) is Some,
        response matches Some(text) ==> answers(
            controller,
            texts(valid_countries@),
            path_of(buffer@)->0,
            text,
        ),
{
    match extract(buffer) {
        None => None,
        Some(request) => {
            let outcome = decide(&request.travel_to, valid_countries);
            let reached = state.step(&outcome);
            let current = reached.as_str();
            let text = respond(controller, &outcome, current);
            proof {
                let allow = texts(valid_countries@);
                let path = path_of(buffer@)->0;
                assert(left_by(allow, outcome_of(path, allow), current@) && rendered(
                    controller,
                    outcome_of(path, allow),
                    current,
                    text,
                ));
            }
            Some(text)
        },
    }
}

} // verus!
