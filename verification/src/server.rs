//! The server: where it listens, what it admits, and the state it shares.

use crate::cell::SharedState;
use crate::controller::Controller;
use crate::handler::{answers, handle_connection};
use crate::request::path_of;
use crate::validator::texts;
use std::sync::Arc;
use vstd::prelude::*;

verus! {

/// The texts of a list of string slices.
pub open spec fn slice_texts(list: Seq<&str>) -> Seq<Seq<char>> {
    Seq::new(list.len(), |i: int| list[i]@)
}

/// A travel service: its address, its allow-list, and the current
/// destination that its connections share.
pub struct Server {
    address: String,
    state: Arc<SharedState>,
    valid_countries: Vec<String>,
}

impl Server {
    #[verifier::type_invariant]
    spec fn well_formed(self) -> bool {
        self.state.allow() == texts(self.valid_countries@)
    }

    /// The address that the server is to listen on.
    pub closed spec fn address_text(self) -> Seq<char> {
        self.address@
    }

    /// The allow-list of the server.
    pub closed spec fn allow_list(self) -> Seq<Seq<char>> {
        texts(self.valid_countries@)
    }

    /// A server for `address` that admits `valid_countries`. Its current
    /// destination is the default.
    pub fn new(address: &str, valid_countries: Vec<&str>) -> (server: Self)
        ensures
            server.address_text() == address@,
            server.allow_list() == slice_texts(valid_countries@),
    {
        let mut countries: Vec<String> = Vec::new();
        let mut at: usize = 0;
        while at < valid_countries.len()
            invariant
                at <= valid_countries@.len(),
                countries@.len() == at,
                forall|i: int| 0 <= i < at ==> (#[trigger] countries@[i])@ == valid_countries@[i]@,
            decreases valid_countries@.len() - at,
        {
            countries.push(valid_countries[at].to_owned());
            at += 1;
        }
        assert(texts(countries@) =~= slice_texts(valid_countries@));
        let state = Arc::new(SharedState::new(&countries));
        Server { address: address.to_owned(), state, valid_countries: countries }
    }

    /// The address that the server is to listen on.
    pub fn address(&self) -> (address: &str)
        ensures
            address@ == self.address_text(),
    {
        self.address.as_str()
    }

    /// The allow-list.
    pub fn valid_countries(&self) -> (list: &Vec<String>)
        ensures
            texts(list@) == self.allow_list(),
    {
        &self.valid_countries
    }

    /// The shared state.
    pub fn state(&self) -> (state: &Arc<SharedState>)
        ensures
            state.allow() == self.allow_list(),
    {
        proof {
            use_type_invariant(self);
        }
        &self.state
    }

    /// Handles one connection of this server, given the bytes read from it:
    /// `None` where they are no request, and nothing is to be sent; otherwise
    /// the response, after the request has had its effect on the shared state.
    pub fn handle<C: Controller>(&self, buffer: &[u8], controller: &C) -> (response: Option<String>)
        ensures
            response is Some == path_of(buffer@) is Some,
            response matches Some(text) ==> answers(
                controller,
                self.allow_list(),
                path_of(buffer@)->0,
                text,
            ),
    {
        proof {
            use_type_invariant(self);
        }
        handle_connection(buffer, controller, &self.state, &self.valid_countries)
    }
}

} // verus!
