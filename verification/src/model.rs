use vstd::prelude::*;
use crate::types::{Address, Error, EventView, MetadataView, TokenId};

verus! {

/// The registry as a mathematical value: the contracts of every operation
/// are stated over it.
pub struct RegistryState {
    /// The administrator, once one was set.
    pub admin: Option<Address>,
    /// The identities that may mint.
    pub minters: Set<Address>,
    /// The owner of each minted token.
    pub owners: Map<TokenId, Address>,
    /// The record of each token.
    pub metadata: Map<TokenId, MetadataView>,
    /// The identifier that the next achievement mint will take.
    pub next_token_id: TokenId,
    /// The notifications recorded so far, oldest first.
    pub events: Seq<EventView>,
}

/// The record that the catalog of achievements holds for a symbol; a symbol
/// that the catalog does not know gets the generic record.
pub open spec fn achievement_metadata(nft_type: Seq<char>) -> MetadataView {
    if nft_type == "tencontr"@ {
        MetadataView {
            name: "10 Completed Contracts"@,
            description: "Awarded for completing 10 contracts successfully."@,
            uri: "ipfs://10-completed-contracts"@,
        }
    } else if nft_type == "5stars5x"@ {
        MetadataView {
            name: "5 Stars 5 Times"@,
            description: "Awarded for receiving five 5-star reviews."@,
            uri: "ipfs://5-stars-5-times"@,
        }
    } else if nft_type == "toprated"@ {
        MetadataView {
            name: "Top Rated Freelancer"@,
            description: "Awarded for being a top-rated freelancer."@,
            uri: "ipfs://top-rated-freelancer"@,
        }
    } else {
        MetadataView {
            name: "Achievement NFT"@,
            description: "Awarded for a special achievement."@,
            uri: "ipfs://achievement-generic"@,
        }
    }
}

/// `Ok` where `allowed` holds, `Unauthorized` where it does not.
pub open spec fn authorized(allowed: bool) -> Result<(), Error> {
    if allowed {
        Ok(())
    } else {
        Err(Error::Unauthorized)
    }
}

impl RegistryState {
    /// The registry before anything happened.
    pub open spec fn empty() -> RegistryState {
        RegistryState {
            admin: None,
            minters: Set::empty(),
            owners: Map::empty(),
            metadata: Map::empty(),
            next_token_id: 0,
            events: Seq::empty(),
        }
    }

    /// Owner and record go together: a token has a record exactly where it
    /// has an owner.
    pub open spec fn consistent(self) -> bool {
        &&& forall|t: TokenId| #[trigger]
            self.owners.contains_key(t) ==> self.metadata.contains_key(t)
        &&& forall|t: TokenId| #[trigger]
            self.metadata.contains_key(t) ==> self.owners.contains_key(t)
    }

    /// What a check of the minter role answers to `caller`.
    pub open spec fn check_minter(self, caller: Address) -> Result<(), Error> {
        authorized(self.minters.contains(caller))
    }

    /// What a check of the administrator role answers to `caller`.
    pub open spec fn check_admin(self, caller: Address) -> Result<(), Error> {
        authorized(self.admin == Some(caller))
    }

    /// What a read of the owner of `token_id` answers.
    pub open spec fn get_owner(self, token_id: TokenId) -> Result<Address, Error> {
        if self.owners.contains_key(token_id) {
            Ok(self.owners[token_id])
        } else {
            Err(Error::TokenNotFound)
        }
    }

    /// What a read of the record of `token_id` answers.
    pub open spec fn get_metadata(self, token_id: TokenId) -> Result<MetadataView, Error> {
        if self.metadata.contains_key(token_id) {
            Ok(self.metadata[token_id])
        } else {
            Err(Error::TokenNotFound)
        }
    }

    /// The registry after `admin` was set as administrator.
    pub open spec fn init(self, admin: Address) -> RegistryState {
        RegistryState { admin: Some(admin), ..self }
    }

    /// What a mint of `token_id` by `caller` answers.
    pub open spec fn mint_outcome(self, caller: Address, token_id: TokenId) -> Result<(), Error> {
        if !self.minters.contains(caller) {
            Err(Error::Unauthorized)
        } else if self.owners.contains_key(token_id) {
            Err(Error::TokenAlreadyExists)
        } else {
            Ok(())
        }
    }

    /// The registry with `token_id` owned by `to` and described by `record`.
    pub open spec fn with_token(
        self,
        token_id: TokenId,
        to: Address,
        record: MetadataView,
    ) -> RegistryState {
        RegistryState {
            owners: self.owners.insert(token_id, to),
            metadata: self.metadata.insert(token_id, record),
            ..self
        }
    }

    /// The registry with one more notification.
    pub open spec fn with_event(self, event: EventView) -> RegistryState {
        RegistryState { events: self.events.push(event), ..self }
    }

    /// The registry after `caller` asked to mint `token_id` for `to`.
    pub open spec fn mint(
        self,
        caller: Address,
        to: Address,
        token_id: TokenId,
        record: MetadataView,
    ) -> RegistryState {
        if self.mint_outcome(caller, token_id) is Ok {
            self.with_token(token_id, to, record).with_event(EventView::Minted { to, token_id })
        } else {
            self
        }
    }

    /// Whether the counter can hand out one more identifier.
    pub open spec fn can_allocate(self) -> bool {
        self.next_token_id < u64::MAX
    }

    /// Whether an achievement mint asked for by `caller` can be served: a
    /// minter needs a counter that can hand out one more identifier, and
    /// anyone else is turned down whatever the counter holds.
    pub open spec fn can_mint_achv(self, caller: Address) -> bool {
        self.minters.contains(caller) ==> self.can_allocate()
    }

    /// The registry after `caller` asked to mint the achievement `nft_type`
    /// for `to`: the token takes the counter's value, whatever that
    /// identifier held before.
    pub open spec fn mint_achv(
        self,
        caller: Address,
        to: Address,
        nft_type: Seq<char>,
    ) -> RegistryState
        recommends
            self.can_mint_achv(caller),
    {
        if self.minters.contains(caller) {
            let token_id = self.next_token_id;
            RegistryState { next_token_id: (token_id + 1) as TokenId, ..self }.with_token(
                token_id,
                to,
                achievement_metadata(nft_type),
            ).with_event(EventView::AchievementMinted { to, nft_type, token_id })
        } else {
            self
        }
    }

    /// What a transfer of `token_id` by `from` answers.
    pub open spec fn transfer_outcome(self, from: Address, token_id: TokenId) -> Result<
        (),
        Error,
    > {
        if !self.owners.contains_key(token_id) {
            Err(Error::TokenNotFound)
        } else if self.owners[token_id] != from {
            Err(Error::Unauthorized)
        } else {
            Ok(())
        }
    }

    /// The registry after `from` asked to hand `token_id` to `to`.
    pub open spec fn transfer(self, from: Address, to: Address, token_id: TokenId) -> RegistryState {
        if self.transfer_outcome(from, token_id) is Ok {
            RegistryState { owners: self.owners.insert(token_id, to), ..self }.with_event(
                EventView::Transferred { from, to, token_id },
            )
        } else {
            self
        }
    }

    /// The registry after `caller` asked to add `minter` to the minters.
    pub open spec fn add_minter(self, caller: Address, minter: Address) -> RegistryState {
        if self.admin == Some(caller) {
            RegistryState { minters: self.minters.insert(minter), ..self }
        } else {
            self
        }
    }

    /// The registry after `caller` asked to take `minter` out of the minters.
    pub open spec fn remove_minter(self, caller: Address, minter: Address) -> RegistryState {
        if self.admin == Some(caller) {
            RegistryState { minters: self.minters.remove(minter), ..self }
        } else {
            self
        }
    }

    /// The registry after `caller` asked to make `new_admin` the administrator.
    pub open spec fn transfer_admin(self, caller: Address, new_admin: Address) -> RegistryState {
        if self.admin == Some(caller) {
            RegistryState { admin: Some(new_admin), ..self }
        } else {
            self
        }
    }
}

} // verus!
