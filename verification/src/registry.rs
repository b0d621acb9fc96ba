use std::collections::HashMap;
use vstd::prelude::*;
use crate::types::{Address, Error, TokenId};

verus! {

broadcast use vstd::std_specs::hash::group_hash_axioms;

/// Who owns which token, and the counter that allocates identifiers.
#[derive(Clone, Debug)]
pub struct TokenRegistry {
    owners: HashMap<TokenId, Address>,
    next_id: TokenId,
}

impl TokenRegistry {
    /// The owner of each minted token.
    pub closed spec fn owners(&self) -> Map<TokenId, Address> {
        self.owners@
    }

    /// The identifier that the counter hands out next.
    pub closed spec fn counter(&self) -> TokenId {
        self.next_id
    }

    /// No token, and a counter at zero.
    pub fn new() -> (r: TokenRegistry)
        ensures
            r.owners() == Map::<TokenId, Address>::empty(),
            r.counter() == 0,
    {
        TokenRegistry { owners: HashMap::new(), next_id: 0 }
    }

    /// Whether `token_id` was minted.
    pub fn token_exists(&self, token_id: &TokenId) -> (r: bool)
        ensures
            r == self.owners().contains_key(*token_id),
    {
        self.owners.contains_key(token_id)
    }

    /// Records `owner` as the owner of `token_id`, whether or not the token
    /// had one.
    pub fn save_token_owner(&mut self, token_id: &TokenId, owner: &Address)
        ensures
            final(self).owners() == old(self).owners().insert(*token_id, *owner),
            final(self).counter() == old(self).counter(),
    {
        self.owners.insert(*token_id, *owner);
    }

    /// The owner of `token_id`, or `TokenNotFound` where it was never minted.
    pub fn get_token_owner(&self, token_id: &TokenId) -> (r: Result<Address, Error>)
        ensures
            r == (if self.owners().contains_key(*token_id) {
                Ok::<Address, Error>(self.owners()[*token_id])
            } else {
                Err(Error::TokenNotFound)
            }),
    {
        match self.owners.get(token_id) {
            Some(owner) => Ok(*owner),
            None => Err(Error::TokenNotFound),
        }
    }

    /// Sets the counter: for a host that brings back what it kept of it.
    pub fn save_counter(&mut self, next: TokenId)
        ensures
            final(self).counter() == next,
            final(self).owners() == old(self).owners(),
    {
        self.next_id = next;
    }

    /// The identifier that `next_token_id` would hand out.
    pub fn peek_token_id(&self) -> (id: TokenId)
        ensures
            id == self.counter(),
    {
        self.next_id
    }

    /// Hands out the counter's value and advances the counter, so that no
    /// identifier is handed out twice.
    pub fn next_token_id(&mut self) -> (id: TokenId)
        requires
            old(self).counter() < u64::MAX,
        ensures
            id == old(self).counter(),
            final(self).counter() == id + 1,
            final(self).owners() == old(self).owners(),
    {
        let id: TokenId = self.next_id;
        self.next_id = id + 1;
        id
    }
}

} // verus!
