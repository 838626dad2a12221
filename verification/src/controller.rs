//! Controllers: what turns the outcome of a request into the text sent back.

use vstd::prelude::*;
use vstd::string::StringExecFns;

verus! {

/// What renders the responses of the service.
///
/// Nothing is asked of an implementation: the service sends whatever the
/// two methods return, and says which method it called and with what.
pub trait Controller {
    /// Renders the response that reports `state` as the current destination.
    fn index(&self, state: &str) -> String;

    /// Renders the response to a destination that is not on the allow-list.
    fn error_response(&self) -> String;
}

/// The status line and headers that open every response.
pub open spec fn response_head() -> Seq<char> {
    "HTTP/1.1 200 OK\r\nContent-Type: text/plain\r\n\r\n"@
}

/// A response with the given body: the head, the body, a line feed.
pub open spec fn response_with(body: Seq<char>) -> Seq<char> {
    response_head() + body + "\n"@
}

/// The body that reports `state` as the current destination.
pub open spec fn going_to(state: Seq<char>) -> Seq<char> {
    "You are going to "@ + state
}

/// The body that reports a rejected destination and the fallback.
pub open spec fn country_not_found() -> Seq<char> {
    "Country not found. You are going to brazil"@
}

/// The controller of the travel service.
pub struct TravelController;

impl Controller for TravelController {
    fn index(&self, state: &str) -> (response: String)
        ensures
            response@ == response_with(going_to(state@)),
    {
        let mut response = "HTTP/1.1 200 OK\r\nContent-Type: text/plain\r\n\r\n".to_owned();
        response.append("You are going to ");
        response.append(state);
        response.append("\n");
        assert(response@ =~= response_with(going_to(state@)));
        response
    }

    fn error_response(&self) -> (response: String)
        ensures
            response@ == response_with(country_not_found()),
    {
        let mut response = "HTTP/1.1 200 OK\r\nContent-Type: text/plain\r\n\r\n".to_owned();
        response.append("Country not found. You are going to brazil");
        response.append("\n");
        response
    }
}

} // verus!
