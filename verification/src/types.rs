use vstd::prelude::*;

verus! {

/// Identifier of one registry entry.
pub type TokenId = u64;

/// The two sorts of identity a host can authenticate.
#[derive(Clone, Copy, Debug, PartialEq, Eq, Structural, Hash)]
pub enum AddressKind {
    Account,
    Contract,
}

/// An identity that the host has already authenticated: its sort and its
/// 256-bit key, held as two halves.
#[derive(Clone, Copy, Debug, PartialEq, Eq, Structural, Hash)]
pub struct Address {
    pub kind: AddressKind,
    pub hi: u128,
    pub lo: u128,
}

impl Address {
    /// The account identity with the given key.
    pub fn account(hi: u128, lo: u128) -> (a: Address)
        ensures
            a == (Address { kind: AddressKind::Account, hi, lo }),
    {
        Address { kind: AddressKind::Account, hi, lo }
    }

    /// The contract identity with the given key.
    pub fn contract(hi: u128, lo: u128) -> (a: Address)
        ensures
            a == (Address { kind: AddressKind::Contract, hi, lo }),
    {
        Address { kind: AddressKind::Contract, hi, lo }
    }
}

/// Why an operation was turned down.
#[derive(Clone, Copy, Debug, PartialEq, Eq, Structural, Hash)]
pub enum Error {
    /// The caller lacks the role, or is not the identity, that the operation asks for.
    Unauthorized,
    /// A mint named a token identifier that is already taken.
    TokenAlreadyExists,
    /// A read or a transfer named a token identifier that was never minted.
    TokenNotFound,
}

/// What a metadata record holds, as mathematical text.
pub struct MetadataView {
    pub name: Seq<char>,
    pub description: Seq<char>,
    pub uri: Seq<char>,
}

/// The fixed-shape record kept for each token.
#[derive(Clone, Debug, PartialEq, Eq)]
pub struct Metadata {
    pub name: String,
    pub description: String,
    pub uri: String,
}

impl View for Metadata {
    type V = MetadataView;

    open spec fn view(&self) -> MetadataView {
        MetadataView { name: self.name@, description: self.description@, uri: self.uri@ }
    }
}

impl Metadata {
    /// A record made of the three texts.
    pub fn new(name: String, description: String, uri: String) -> (m: Metadata)
        ensures
            m == (Metadata { name, description, uri }),
    {
        Metadata { name, description, uri }
    }

    /// A second record with the same three texts.
    pub fn duplicate(&self) -> (m: Metadata)
        ensures
            m == *self,
    {
        Metadata {
            name: self.name.clone(),
            description: self.description.clone(),
            uri: self.uri.clone(),
        }
    }
}

/// What a notification holds, as mathematical values.
pub enum EventView {
    Minted { to: Address, token_id: TokenId },
    AchievementMinted { to: Address, nft_type: Seq<char>, token_id: TokenId },
    Transferred { from: Address, to: Address, token_id: TokenId },
}

/// A notification that the host is to publish.
#[derive(Clone, Debug, PartialEq, Eq)]
pub enum Event {
    Minted { to: Address, token_id: TokenId },
    AchievementMinted { to: Address, nft_type: String, token_id: TokenId },
    Transferred { from: Address, to: Address, token_id: TokenId },
}

impl View for Event {
    type V = EventView;

    open spec fn view(&self) -> EventView {
        match *self {
            Event::Minted { to, token_id } => EventView::Minted { to, token_id },
            Event::AchievementMinted { to, nft_type, token_id } => EventView::AchievementMinted {
                to,
                nft_type: nft_type@,
                token_id,
            },
            Event::Transferred { from, to, token_id } => EventView::Transferred {
                from,
                to,
                token_id,
            },
        }
    }
}

impl Event {
    /// A second notification with the same content.
    pub fn duplicate(&self) -> (e: Event)
        ensures
            e == *self,
    {
        match self {
            Event::Minted { to, token_id } => Event::Minted { to: *to, token_id: *token_id },
            Event::AchievementMinted { to, nft_type, token_id } => Event::AchievementMinted {
                to: *to,
                nft_type: nft_type.clone(),
                token_id: *token_id,
            },
            Event::Transferred { from, to, token_id } => Event::Transferred {
                from: *from,
                to: *to,
                token_id: *token_id,
            },
        }
    }
}

} // verus!
