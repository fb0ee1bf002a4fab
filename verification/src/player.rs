//! One player's view of the client: the identifier is given once.

use crate::client::{Client, ClientView};
use crate::ids::{Id, IdView};
use crate::request::Request;
use vstd::prelude::*;

verus! {

/// A player together with the client that asks for the player's data.
#[derive(Debug)]
pub struct Player<'a> {
    id: Id,
    client: &'a Client,
}

/// What a [`Player`] stands for: the identifier and the client it is bound
/// to.
pub struct PlayerView {
    pub id: IdView,
    pub client: ClientView,
}

impl<'a> View for Player<'a> {
    type V = PlayerView;

    closed spec fn view(&self) -> PlayerView {
        PlayerView { id: self.id@, client: self.client@ }
    }
}

impl<'a> Player<'a> {
    /// Binds an identifier to a client.
    pub fn new(id: Id, client: &'a Client) -> (r: Self)
        ensures
            r@ == (PlayerView { id: id@, client: client@ }),
    {
        Player { id, client }
    }

    /// The player's identifier.
    pub fn id(&self) -> (r: &Id)
        ensures
            r@ == self@.id,
    {
        &self.id
    }

    /// The request for the player's profile: the one that the client makes
    /// for the player's identifier.
    pub fn profile_request(&self) -> (r: Request)
        ensures
            r@ == self@.client.profile_request(self@.id),
    {
        self.client.profile_request(&self.id)
    }

    /// The request for the player's matches: the one that the client makes
    /// for the player's identifier.
    pub fn matches_request(&self) -> (r: Request)
        ensures
            r@ == self@.client.profile_matches_request(self@.id),
    {
        self.client.profile_matches_request(&self.id)
    }
}

impl Client {
    /// The player with the identifier `id`, asking through this client.
    pub fn player(&self, id: Id) -> (r: Player<'_>)
        ensures
            r@ == (PlayerView { id: id@, client: self@ }),
    {
        Player::new(id, self)
    }
}

} // verus!
