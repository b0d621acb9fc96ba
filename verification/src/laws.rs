use vstd::prelude::*;
use crate::model::{achievement_metadata, RegistryState};
use crate::types::{Address, Error, EventView, MetadataView, TokenId};

verus! {

/// A minter who mints an identifier that is not taken succeeds, and the
/// token is then owned by the identity it was minted for and carries the
/// record it was minted with.
pub proof fn mint_of_fresh_token_sets_owner(
    s: RegistryState,
    caller: Address,
    to: Address,
    token_id: TokenId,
    record: MetadataView,
)
    requires
        s.minters.contains(caller),
        !s.owners.contains_key(token_id),
    ensures
        s.mint_outcome(caller, token_id) is Ok,
        s.mint(caller, to, token_id, record).get_owner(token_id) == Ok::<Address, Error>(to),
        s.mint(caller, to, token_id, record).get_metadata(token_id) == Ok::<MetadataView, Error>(
            record,
        ),
{
}

/// After a mint that succeeded, a second mint of the same identifier, by
/// any caller who is a minter and for any identity, fails with
/// `TokenAlreadyExists`, changes nothing, and the owner is still the first.
pub proof fn second_mint_is_refused(
    s: RegistryState,
    caller: Address,
    to: Address,
    token_id: TokenId,
    record: MetadataView,
    caller2: Address,
    to2: Address,
    record2: MetadataView,
)
    requires
        s.mint_outcome(caller, token_id) is Ok,
        s.minters.contains(caller2),
    ensures
        ({
            let once = s.mint(caller, to, token_id, record);
            &&& once.mint_outcome(caller2, token_id) == Err::<(), Error>(Error::TokenAlreadyExists)
            &&& once.mint(caller2, to2, token_id, record2) == once
            &&& once.get_owner(token_id) == Ok::<Address, Error>(to)
        }),
{
}

/// A transfer succeeds exactly when the token's owner is `from`, and after
/// a transfer that succeeded the owner is `to`.
pub proof fn transfer_moves_ownership(
    s: RegistryState,
    from: Address,
    to: Address,
    token_id: TokenId,
)
    ensures
        s.transfer_outcome(from, token_id) is Ok <==> s.get_owner(token_id) == Ok::<
            Address,
            Error,
        >(from),
        s.transfer_outcome(from, token_id) is Ok ==> s.transfer(from, to, token_id).get_owner(
            token_id,
        ) == Ok::<Address, Error>(to),
{
}

/// A transfer touches no token but the one it names.
pub proof fn transfer_keeps_other_tokens(
    s: RegistryState,
    from: Address,
    to: Address,
    token_id: TokenId,
    other: TokenId,
)
    requires
        other != token_id,
    ensures
        s.transfer(from, to, token_id).get_owner(other) == s.get_owner(other),
        s.transfer(from, to, token_id).metadata == s.metadata,
{
}

/// A transfer of a minted token by anyone but its owner fails with
/// `Unauthorized` and changes nothing; a transfer of a token that was never
/// minted fails with `TokenNotFound` and changes nothing.
pub proof fn transfer_by_stranger_is_refused(
    s: RegistryState,
    from: Address,
    to: Address,
    token_id: TokenId,
)
    requires
        s.get_owner(token_id) != Ok::<Address, Error>(from),
    ensures
        s.owners.contains_key(token_id) ==> s.transfer_outcome(from, token_id) == Err::<(), Error>(
            Error::Unauthorized,
        ),
        !s.owners.contains_key(token_id) ==> s.transfer_outcome(from, token_id) == Err::<
            (),
            Error,
        >(Error::TokenNotFound),
        s.transfer(from, to, token_id) == s,
        s.transfer(from, to, token_id).get_owner(token_id) == s.get_owner(token_id),
{
}

/// A caller who is no minter cannot mint, by identifier or from the
/// catalog: the answer is `Unauthorized` and nothing changes.
pub proof fn mint_by_stranger_is_refused(
    s: RegistryState,
    caller: Address,
    to: Address,
    token_id: TokenId,
    record: MetadataView,
    nft_type: Seq<char>,
)
    requires
        !s.minters.contains(caller),
    ensures
        s.mint_outcome(caller, token_id) == Err::<(), Error>(Error::Unauthorized),
        s.mint(caller, to, token_id, record) == s,
        s.check_minter(caller) == Err::<(), Error>(Error::Unauthorized),
        s.mint_achv(caller, to, nft_type) == s,
{
}

/// A caller who is not the administrator cannot add or remove a minter nor
/// hand the administration on: the answer is `Unauthorized` and nothing
/// changes.
pub proof fn role_change_by_stranger_is_refused(
    s: RegistryState,
    caller: Address,
    subject: Address,
)
    requires
        s.admin != Some(caller),
    ensures
        s.check_admin(caller) == Err::<(), Error>(Error::Unauthorized),
        s.add_minter(caller, subject) == s,
        s.remove_minter(caller, subject) == s,
        s.transfer_admin(caller, subject) == s,
{
}

/// What the administrator changes can be read back: a minter added is a
/// minter, a minter removed is none, and the new administrator is the
/// administrator, who alone now passes the check; no other identity gains or
/// loses the minter role.
pub proof fn role_change_by_admin_is_observable(
    s: RegistryState,
    caller: Address,
    subject: Address,
    other: Address,
)
    requires
        s.admin == Some(caller),
        other != subject,
    ensures
        s.check_admin(caller) is Ok,
        s.add_minter(caller, subject).minters.contains(subject),
        !s.remove_minter(caller, subject).minters.contains(subject),
        s.add_minter(caller, subject).minters.contains(other) == s.minters.contains(other),
        s.remove_minter(caller, subject).minters.contains(other) == s.minters.contains(other),
        s.transfer_admin(caller, subject).admin == Some(subject),
        s.transfer_admin(caller, subject).check_admin(subject) is Ok,
        s.transfer_admin(caller, subject).check_admin(other) is Err,
{
}

/// The administrator is not a minter by office: setting or replacing the
/// administrator leaves the minters as they were.
pub proof fn admin_is_no_minter_by_office(s: RegistryState, caller: Address, admin: Address)
    ensures
        s.init(admin).minters == s.minters,
        s.transfer_admin(caller, admin).minters == s.minters,
        RegistryState::empty().init(admin).check_minter(admin) is Err,
{
}

/// An achievement mint by a minter gives the token the counter's value,
/// owned by `to` and described by the catalog's record, and advances the
/// counter by one, so that the next such mint takes the next identifier.
pub proof fn achievement_mint_allocates_in_turn(
    s: RegistryState,
    caller: Address,
    to: Address,
    nft_type: Seq<char>,
)
    requires
        s.minters.contains(caller),
        s.can_allocate(),
    ensures
        ({
            let after = s.mint_achv(caller, to, nft_type);
            &&& after.next_token_id == s.next_token_id + 1
            &&& after.get_owner(s.next_token_id) == Ok::<Address, Error>(to)
            &&& after.get_metadata(s.next_token_id) == Ok::<MetadataView, Error>(
                achievement_metadata(nft_type),
            )
            &&& after.events == s.events.push(
                EventView::AchievementMinted { to, nft_type, token_id: s.next_token_id },
            )
        }),
{
}

/// The counter never goes back: no operation lowers it, and only an
/// achievement mint raises it.
pub proof fn counter_never_goes_back(
    s: RegistryState,
    a: Address,
    b: Address,
    token_id: TokenId,
    record: MetadataView,
    nft_type: Seq<char>,
)
    requires
        s.can_mint_achv(a),
    ensures
        s.init(a).next_token_id == s.next_token_id,
        s.mint(a, b, token_id, record).next_token_id == s.next_token_id,
        s.transfer(a, b, token_id).next_token_id == s.next_token_id,
        s.add_minter(a, b).next_token_id == s.next_token_id,
        s.remove_minter(a, b).next_token_id == s.next_token_id,
        s.transfer_admin(a, b).next_token_id == s.next_token_id,
        s.mint_achv(a, b, nft_type).next_token_id >= s.next_token_id,
{
}

/// In a consistent registry a read of the record succeeds exactly where a
/// read of the owner does, and fails with `TokenNotFound` exactly where that
/// one does.
pub proof fn record_is_there_where_owner_is(s: RegistryState, token_id: TokenId)
    requires
        s.consistent(),
    ensures
        s.get_metadata(token_id) is Ok <==> s.get_owner(token_id) is Ok,
        s.get_metadata(token_id) == Err::<MetadataView, Error>(Error::TokenNotFound)
            <==> s.get_owner(token_id) == Err::<Address, Error>(Error::TokenNotFound),
        s.owners.dom() =~= s.metadata.dom(),
{
    assert forall|t: TokenId| s.owners.dom().contains(t) <==> s.metadata.dom().contains(t) by {
        if s.owners.contains_key(t) {
            assert(s.metadata.contains_key(t));
        }
        if s.metadata.contains_key(t) {
            assert(s.owners.contains_key(t));
        }
    }
}

/// A transfer leaves the record of every token as it was: the record that a
/// mint wrote is the record that is read after any number of transfers.
pub proof fn transfer_keeps_records(
    s: RegistryState,
    from: Address,
    to: Address,
    token_id: TokenId,
    t: TokenId,
)
    ensures
        s.transfer(from, to, token_id).get_metadata(t) == s.get_metadata(t),
{
}

/// Two achievement mints in a row, by minters, take two identifiers in a
/// row: the second takes the one after the first's, whatever its symbol and
/// whoever it is for, and leaves the first token's owner and record alone.
pub proof fn achievement_mints_take_identifiers_in_a_row(
    s: RegistryState,
    caller: Address,
    to: Address,
    nft_type: Seq<char>,
    caller2: Address,
    to2: Address,
    nft_type2: Seq<char>,
)
    requires
        s.minters.contains(caller),
        s.minters.contains(caller2),
        s.next_token_id + 1 < u64::MAX,
    ensures
        ({
            let k = s.next_token_id;
            let once = s.mint_achv(caller, to, nft_type);
            let twice = once.mint_achv(caller2, to2, nft_type2);
            &&& once.can_mint_achv(caller2)
            &&& once.check_minter(caller2) is Ok
            &&& once.next_token_id == k + 1
            &&& twice.next_token_id == k + 2
            &&& twice.get_owner((k + 1) as TokenId) == Ok::<Address, Error>(to2)
            &&& twice.get_metadata((k + 1) as TokenId) == Ok::<MetadataView, Error>(
                achievement_metadata(nft_type2),
            )
            &&& twice.get_owner(k) == Ok::<Address, Error>(to)
            &&& twice.get_metadata(k) == Ok::<MetadataView, Error>(achievement_metadata(nft_type))
        }),
{
}

/// The catalog holds three achievements, and every symbol that is none of
/// the three gets the generic record.
pub proof fn catalog_entries(nft_type: Seq<char>)
    ensures
        achievement_metadata("tencontr"@) == (MetadataView {
            name: "10 Completed Contracts"@,
            description: "Awarded for completing 10 contracts successfully."@,
            uri: "ipfs://10-completed-contracts"@,
        }),
        achievement_metadata("5stars5x"@) == (MetadataView {
            name: "5 Stars 5 Times"@,
            description: "Awarded for receiving five 5-star reviews."@,
            uri: "ipfs://5-stars-5-times"@,
        }),
        achievement_metadata("toprated"@) == (MetadataView {
            name: "Top Rated Freelancer"@,
            description: "Awarded for being a top-rated freelancer."@,
            uri: "ipfs://top-rated-freelancer"@,
        }),
        nft_type != "tencontr"@ && nft_type != "5stars5x"@ && nft_type != "toprated"@
            ==> achievement_metadata(nft_type) == (MetadataView {
            name: "Achievement NFT"@,
            description: "Awarded for a special achievement."@,
            uri: "ipfs://achievement-generic"@,
        }),
{
    reveal_strlit("tencontr");
    reveal_strlit("5stars5x");
    reveal_strlit("toprated");
    assert("5stars5x"@[0] != "tencontr"@[0]);
    assert("toprated"@[1] != "tencontr"@[1]);
    assert("toprated"@[0] != "5stars5x"@[0]);
}

/// An achievement mint by a minter for a symbol that the catalog does not
/// know succeeds all the same and stores the generic record under the
/// counter's value.
pub proof fn unknown_symbol_gets_generic_record(
    s: RegistryState,
    caller: Address,
    to: Address,
    nft_type: Seq<char>,
)
    requires
        s.minters.contains(caller),
        s.can_allocate(),
        nft_type != "tencontr"@,
        nft_type != "5stars5x"@,
        nft_type != "toprated"@,
    ensures
        s.check_minter(caller) is Ok,
        s.mint_achv(caller, to, nft_type).get_owner(s.next_token_id) == Ok::<Address, Error>(to),
        s.mint_achv(caller, to, nft_type).get_metadata(s.next_token_id) == Ok::<
            MetadataView,
            Error,
        >(
            MetadataView {
                name: "Achievement NFT"@,
                description: "Awarded for a special achievement."@,
                uri: "ipfs://achievement-generic"@,
            },
        ),
{
}

/// Every operation keeps the rule that a token has a record exactly where
/// it has an owner, and the empty registry meets it.
pub proof fn operations_keep_consistency(
    s: RegistryState,
    a: Address,
    b: Address,
    token_id: TokenId,
    record: MetadataView,
    nft_type: Seq<char>,
)
    requires
        s.consistent(),
    ensures
        RegistryState::empty().consistent(),
        s.init(a).consistent(),
        s.mint(a, b, token_id, record).consistent(),
        s.mint_achv(a, b, nft_type).consistent(),
        s.transfer(a, b, token_id).consistent(),
        s.add_minter(a, b).consistent(),
        s.remove_minter(a, b).consistent(),
        s.transfer_admin(a, b).consistent(),
{
}

/// A token, once minted, keeps an owner and its record through every
/// operation: none deletes a token, and none but an achievement mint that
/// lands on its identifier rewrites its record.
pub proof fn minted_token_stays(
    s: RegistryState,
    t: TokenId,
    a: Address,
    b: Address,
    token_id: TokenId,
    record: MetadataView,
    nft_type: Seq<char>,
)
    requires
        s.owners.contains_key(t),
        s.metadata.contains_key(t),
    ensures
        s.mint(a, b, token_id, record).owners.contains_key(t),
        s.mint(a, b, token_id, record).get_metadata(t) == s.get_metadata(t),
        s.mint(a, b, token_id, record).get_owner(t) == s.get_owner(t),
        s.transfer(a, b, token_id).owners.contains_key(t),
        s.transfer(a, b, token_id).get_metadata(t) == s.get_metadata(t),
        s.mint_achv(a, b, nft_type).owners.contains_key(t),
        t != s.next_token_id ==> s.mint_achv(a, b, nft_type).get_metadata(t) == s.get_metadata(t),
        t != s.next_token_id ==> s.mint_achv(a, b, nft_type).get_owner(t) == s.get_owner(t),
{
}

} // verus!
