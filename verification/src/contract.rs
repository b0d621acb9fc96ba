use vstd::prelude::*;
use crate::access::{check_owner, AccessControl};
use crate::events::EventLog;
use crate::metadata::{achievement_record, MetadataStore};
use crate::model::{achievement_metadata, RegistryState};
use crate::registry::TokenRegistry;
use crate::types::{Address, Error, Event, Metadata, MetadataView, TokenId};

verus! {

/// The registry of reputation tokens, with its roles and its notifications.
///
/// Every operation takes as `caller` (or `from`) an identity that the host has
/// already authenticated. An operation that is turned down changes nothing.
#[derive(Clone, Debug)]
pub struct ReputationNFTContract {
    access: AccessControl,
    registry: TokenRegistry,
    metadata: MetadataStore,
    events: EventLog,
}

impl View for ReputationNFTContract {
    type V = RegistryState;

    closed spec fn view(&self) -> RegistryState {
        RegistryState {
            admin: self.access.admin(),
            minters: self.access.minters(),
            owners: self.registry.owners(),
            metadata: self.metadata.records(),
            next_token_id: self.registry.counter(),
            events: self.events.entries(),
        }
    }
}

impl ReputationNFTContract {
    /// A token has a record exactly where it has an owner.
    pub open spec fn wf(&self) -> bool {
        self@.consistent()
    }

    /// The registry before anything happened: no administrator, no minter,
    /// no token, no notification, the counter at zero.
    pub fn new() -> (c: ReputationNFTContract)
        ensures
            c.wf(),
            c@ == RegistryState::empty(),
    {
        ReputationNFTContract {
            access: AccessControl::new(),
            registry: TokenRegistry::new(),
            metadata: MetadataStore::new(),
            events: EventLog::new(),
        }
    }

    /// Sets the administrator. Nothing guards a second call: it replaces the
    /// administrator and keeps everything else.
    pub fn init(&mut self, admin: Address) -> (r: Result<(), Error>)
        requires
            old(self).wf(),
        ensures
            final(self).wf(),
            r == Ok::<(), Error>(()),
            final(self)@ == old(self)@.init(admin),
    {
        self.access.save_admin(&admin);
        Ok(())
    }

    /// A minter creates the token `token_id` for `to`, with the record given.
    /// A caller who is no minter gets `Unauthorized`; an identifier that is
    /// taken gets `TokenAlreadyExists`; either way nothing changes.
    pub fn mint(
        &mut self,
        caller: Address,
        to: Address,
        token_id: TokenId,
        name: String,
        description: String,
        uri: String,
    ) -> (r: Result<(), Error>)
        requires
            old(self).wf(),
        ensures
            final(self).wf(),
            r == old(self)@.mint_outcome(caller, token_id),
            final(self)@ == old(self)@.mint(
                caller,
                to,
                token_id,
                (MetadataView { name: name@, description: description@, uri: uri@ }),
            ),
            r is Err ==> *final(self) == *old(self),
    {
        self.access.check_minter(&caller)?;
        if self.registry.token_exists(&token_id) {
            return Err(Error::TokenAlreadyExists);
        }
        self.registry.save_token_owner(&token_id, &to);
        self.metadata.store_metadata(&token_id, name, description, uri);
        self.events.emit_minted(&to, &token_id);
        Ok(())
    }

    /// A minter creates a token for `to` from the catalog of achievements.
    /// The token takes the counter's value as its identifier, and the counter
    /// advances; a symbol that the catalog does not know gets the generic
    /// record. A caller who is no minter gets `Unauthorized` and nothing
    /// changes. A minter must not ask once the counter has reached the
    /// largest identifier.
    pub fn mint_achv(&mut self, caller: Address, to: Address, nft_type: String) -> (r: Result<
        (),
        Error,
    >)
        requires
            old(self).wf(),
            old(self)@.can_mint_achv(caller),
        ensures
            final(self).wf(),
            r == old(self)@.check_minter(caller),
            final(self)@ == old(self)@.mint_achv(caller, to, nft_type@),
            r is Err ==> *final(self) == *old(self),
            r is Ok ==> {
                let token_id = old(self)@.next_token_id;
                &&& final(self)@.next_token_id == token_id + 1
                &&& final(self)@.get_owner(token_id) == Ok::<Address, Error>(to)
                &&& final(self)@.get_metadata(token_id) == Ok::<MetadataView, Error>(
                    achievement_metadata(nft_type@),
                )
            },
    {
        self.access.check_minter(&caller)?;
        let token_id: TokenId = self.registry.next_token_id();
        let record: Metadata = achievement_record(&nft_type);
        self.registry.save_token_owner(&token_id, &to);
        self.metadata.store_metadata(&token_id, record.name, record.description, record.uri);
        self.events.emit_achievement_minted(&to, nft_type, &token_id);
        Ok(())
    }

    /// The owner `from` hands `token_id` to `to`. A token that was never
    /// minted gets `TokenNotFound`; a `from` that is not the owner gets
    /// `Unauthorized`; either way nothing changes.
    pub fn transfer(&mut self, from: Address, to: Address, token_id: TokenId) -> (r: Result<
        (),
        Error,
    >)
        requires
            old(self).wf(),
        ensures
            final(self).wf(),
            r == old(self)@.transfer_outcome(from, token_id),
            final(self)@ == old(self)@.transfer(from, to, token_id),
            r is Err ==> *final(self) == *old(self),
    {
        let owner: Address = self.registry.get_token_owner(&token_id)?;
        check_owner(&from, &owner)?;
        self.registry.save_token_owner(&token_id, &to);
        self.events.emit_transferred(&from, &to, &token_id);
        Ok(())
    }

    /// The owner of `token_id`, or `TokenNotFound`.
    pub fn get_owner(&self, token_id: TokenId) -> (r: Result<Address, Error>)
        ensures
            r == self@.get_owner(token_id),
    {
        self.registry.get_token_owner(&token_id)
    }

    /// The record of `token_id`, or `TokenNotFound`. In a well-formed
    /// registry the record is there exactly where the owner is.
    pub fn get_metadata(&self, token_id: TokenId) -> (r: Result<Metadata, Error>)
        ensures
            match r {
                Ok(m) => self@.get_metadata(token_id) == Ok::<MetadataView, Error>(m@),
                Err(e) => self@.get_metadata(token_id) == Err::<MetadataView, Error>(e),
            },
            self.wf() ==> (r is Ok <==> self@.get_owner(token_id) is Ok),
    {
        self.metadata.get_metadata(&token_id)
    }

    /// The administrator adds `minter` to the minters; any other caller gets
    /// `Unauthorized` and nothing changes.
    pub fn add_minter(&mut self, caller: Address, minter: Address) -> (r: Result<(), Error>)
        requires
            old(self).wf(),
        ensures
            final(self).wf(),
            r == old(self)@.check_admin(caller),
            final(self)@ == old(self)@.add_minter(caller, minter),
            r is Err ==> *final(self) == *old(self),
    {
        self.access.add_minter(&caller, &minter)
    }

    /// The administrator takes `minter` out of the minters; any other caller
    /// gets `Unauthorized` and nothing changes.
    pub fn remove_minter(&mut self, caller: Address, minter: Address) -> (r: Result<(), Error>)
        requires
            old(self).wf(),
        ensures
            final(self).wf(),
            r == old(self)@.check_admin(caller),
            final(self)@ == old(self)@.remove_minter(caller, minter),
            r is Err ==> *final(self) == *old(self),
    {
        self.access.remove_minter(&caller, &minter)
    }

    /// Whether `address` is among the minters.
    pub fn is_minter(&self, address: Address) -> (r: Result<bool, Error>)
        ensures
            r == Ok::<bool, Error>(self@.minters.contains(address)),
    {
        Ok(self.access.is_minter(&address))
    }

    /// Whether an administrator was set.
    pub fn is_initialized(&self) -> (r: bool)
        ensures
            r == self@.admin is Some,
    {
        self.access.has_admin()
    }

    /// The administrator.
    pub fn get_admin(&self) -> (r: Result<Address, Error>)
        requires
            self@.admin is Some,
        ensures
            r is Ok,
            self@.admin == Some(r->Ok_0),
    {
        Ok(self.access.get_admin())
    }

    /// The administrator hands the role to `new_admin`; any other caller gets
    /// `Unauthorized` and nothing changes.
    pub fn transfer_admin(&mut self, caller: Address, new_admin: Address) -> (r: Result<
        (),
        Error,
    >)
        requires
            old(self).wf(),
        ensures
            final(self).wf(),
            r == old(self)@.check_admin(caller),
            final(self)@ == old(self)@.transfer_admin(caller, new_admin),
            r is Err ==> *final(self) == *old(self),
    {
        self.access.transfer_admin(&caller, &new_admin)
    }

    /// Puts `minter` among the minters with no check of any role and no
    /// notification: for a host that brings back what it kept of the minters.
    pub fn restore_minter(&mut self, minter: Address)
        requires
            old(self).wf(),
        ensures
            final(self).wf(),
            final(self)@ == (RegistryState {
                minters: old(self)@.minters.insert(minter),
                ..old(self)@
            }),
    {
        self.access.save_minter(&minter);
    }

    /// Puts back the token `token_id` with its owner and its record, with no
    /// check of any role and no notification: for a host that brings back
    /// what it kept of a token.
    pub fn restore_token(&mut self, token_id: TokenId, owner: Address, record: Metadata)
        requires
            old(self).wf(),
        ensures
            final(self).wf(),
            final(self)@ == old(self)@.with_token(token_id, owner, record@),
    {
        self.registry.save_token_owner(&token_id, &owner);
        self.metadata.store_metadata(&token_id, record.name, record.description, record.uri);
    }

    /// Sets the counter with no check of any role: for a host that brings
    /// back what it kept of it.
    pub fn restore_counter(&mut self, next: TokenId)
        requires
            old(self).wf(),
        ensures
            final(self).wf(),
            final(self)@ == (RegistryState { next_token_id: next, ..old(self)@ }),
    {
        self.registry.save_counter(next);
    }

    /// The identifier that the next achievement mint will take.
    pub fn next_token_id(&self) -> (id: TokenId)
        ensures
            id == self@.next_token_id,
    {
        self.registry.peek_token_id()
    }

    /// How many notifications were recorded.
    pub fn event_count(&self) -> (n: usize)
        ensures
            n == self@.events.len(),
    {
        self.events.len()
    }

    /// The notification at place `index`, counted from the oldest.
    pub fn event(&self, index: usize) -> (e: Option<Event>)
        ensures
            match e {
                Some(event) => index < self@.events.len() && event@ == self@.events[index as int],
                None => index >= self@.events.len(),
            },
    {
        self.events.get(index)
    }
}

} // verus!
