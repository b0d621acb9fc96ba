use reputation_nft::{Address, Error, Event, Metadata, ReputationNFTContract};

fn admin() -> Address {
    Address::account(0, 1)
}

fn minter() -> Address {
    Address::account(0, 2)
}

fn user() -> Address {
    Address::account(7, 3)
}

fn other() -> Address {
    Address::contract(7, 3)
}

fn text(s: &str) -> String {
    s.to_string()
}

fn ready() -> ReputationNFTContract {
    let mut c = ReputationNFTContract::new();
    assert_eq!(c.init(admin()), Ok(()));
    assert_eq!(c.add_minter(admin(), minter()), Ok(()));
    c
}

#[test]
fn new_registry_is_empty() {
    let c = ReputationNFTContract::new();
    assert!(!c.is_initialized());
    assert_eq!(c.is_minter(admin()), Ok(false));
    assert_eq!(c.get_owner(0), Err(Error::TokenNotFound));
    assert_eq!(c.get_metadata(0), Err(Error::TokenNotFound));
    assert_eq!(c.next_token_id(), 0);
    assert_eq!(c.event_count(), 0);
    assert_eq!(c.event(0), None);
}

#[test]
fn init_sets_admin() {
    let mut c = ReputationNFTContract::new();
    assert_eq!(c.init(admin()), Ok(()));
    assert!(c.is_initialized());
    assert_eq!(c.get_admin(), Ok(admin()));
}

#[test]
fn second_init_replaces_admin_and_keeps_the_rest() {
    let mut c = ready();
    assert_eq!(c.mint(minter(), user(), 4, text("n"), text("d"), text("u")), Ok(()));
    assert_eq!(c.init(other()), Ok(()));
    assert_eq!(c.get_admin(), Ok(other()));
    assert_eq!(c.is_minter(minter()), Ok(true));
    assert_eq!(c.get_owner(4), Ok(user()));
    assert_eq!(c.add_minter(admin(), user()), Err(Error::Unauthorized));
    assert_eq!(c.add_minter(other(), user()), Ok(()));
}

#[test]
fn admin_adds_minter_who_mints_once() {
    let mut c = ReputationNFTContract::new();
    assert_eq!(c.init(admin()), Ok(()));
    assert_eq!(c.add_minter(admin(), minter()), Ok(()));
    assert_eq!(c.mint(minter(), user(), 1, text("n"), text("d"), text("u")), Ok(()));
    assert_eq!(c.get_owner(1), Ok(user()));
    assert_eq!(
        c.mint(minter(), user(), 1, text("n"), text("d"), text("u")),
        Err(Error::TokenAlreadyExists)
    );
}

#[test]
fn mint_of_fresh_token_sets_owner_and_record() {
    let mut c = ready();
    assert_eq!(c.get_owner(99), Err(Error::TokenNotFound));
    assert_eq!(c.mint(minter(), user(), 99, text("Name"), text("Desc"), text("ipfs://x")), Ok(()));
    assert_eq!(c.get_owner(99), Ok(user()));
    assert_eq!(
        c.get_metadata(99),
        Ok(Metadata::new(text("Name"), text("Desc"), text("ipfs://x")))
    );
    assert_eq!(c.get_owner(98), Err(Error::TokenNotFound));
    assert_eq!(c.event_count(), 1);
    assert_eq!(c.event(0), Some(Event::Minted { to: user(), token_id: 99 }));
    assert_eq!(c.next_token_id(), 0);
}

#[test]
fn mint_accepts_the_largest_identifier() {
    let mut c = ready();
    assert_eq!(c.mint(minter(), user(), u64::MAX, text("n"), text("d"), text("u")), Ok(()));
    assert_eq!(c.get_owner(u64::MAX), Ok(user()));
}

#[test]
fn second_mint_keeps_first_owner_and_record() {
    let mut c = ready();
    assert_eq!(c.mint(minter(), user(), 5, text("a"), text("b"), text("c")), Ok(()));
    assert_eq!(
        c.mint(minter(), other(), 5, text("x"), text("y"), text("z")),
        Err(Error::TokenAlreadyExists)
    );
    assert_eq!(c.get_owner(5), Ok(user()));
    assert_eq!(c.get_metadata(5), Ok(Metadata::new(text("a"), text("b"), text("c"))));
    assert_eq!(c.event_count(), 1);
}

#[test]
fn mint_by_non_minter_writes_nothing() {
    let mut c = ready();
    assert_eq!(
        c.mint(user(), user(), 1, text("n"), text("d"), text("u")),
        Err(Error::Unauthorized)
    );
    assert_eq!(c.get_owner(1), Err(Error::TokenNotFound));
    assert_eq!(c.get_metadata(1), Err(Error::TokenNotFound));
    assert_eq!(c.event_count(), 0);
}

#[test]
fn mint_checks_the_role_before_the_identifier() {
    let mut c = ready();
    assert_eq!(c.mint(minter(), user(), 1, text("n"), text("d"), text("u")), Ok(()));
    assert_eq!(
        c.mint(user(), user(), 1, text("n"), text("d"), text("u")),
        Err(Error::Unauthorized)
    );
}

#[test]
fn admin_is_no_minter_unless_added() {
    let mut c = ReputationNFTContract::new();
    assert_eq!(c.init(admin()), Ok(()));
    assert_eq!(c.is_minter(admin()), Ok(false));
    assert_eq!(
        c.mint(admin(), user(), 1, text("n"), text("d"), text("u")),
        Err(Error::Unauthorized)
    );
    assert_eq!(c.add_minter(admin(), admin()), Ok(()));
    assert_eq!(c.mint(admin(), user(), 1, text("n"), text("d"), text("u")), Ok(()));
}

#[test]
fn achievement_mint_by_non_minter_writes_nothing() {
    let mut c = ready();
    assert_eq!(c.mint_achv(user(), user(), text("tencontr")), Err(Error::Unauthorized));
    assert_eq!(c.next_token_id(), 0);
    assert_eq!(c.get_owner(0), Err(Error::TokenNotFound));
    assert_eq!(c.event_count(), 0);
}

#[test]
fn achievement_mints_allocate_in_turn() {
    let mut c = ready();
    let k = c.next_token_id();
    assert_eq!(c.mint_achv(minter(), user(), text("tencontr")), Ok(()));
    assert_eq!(c.get_owner(k), Ok(user()));
    assert_eq!(c.get_metadata(k).unwrap().name, "10 Completed Contracts");
    assert_eq!(c.next_token_id(), k + 1);
    assert_eq!(c.mint_achv(minter(), user(), text("bogus")), Ok(()));
    assert_eq!(c.get_owner(k + 1), Ok(user()));
    assert_eq!(
        c.get_metadata(k + 1),
        Ok(Metadata::new(
            text("Achievement NFT"),
            text("Awarded for a special achievement."),
            text("ipfs://achievement-generic")
        ))
    );
    assert_eq!(c.next_token_id(), k + 2);
    assert_eq!(
        c.event(0),
        Some(Event::AchievementMinted { to: user(), nft_type: text("tencontr"), token_id: k })
    );
    assert_eq!(
        c.event(1),
        Some(Event::AchievementMinted { to: user(), nft_type: text("bogus"), token_id: k + 1 })
    );
    assert_eq!(c.event(2), None);
}

#[test]
fn achievement_mint_takes_the_counter_value_even_if_taken() {
    let mut c = ready();
    assert_eq!(c.mint(minter(), user(), 0, text("n"), text("d"), text("u")), Ok(()));
    assert_eq!(c.mint_achv(minter(), other(), text("toprated")), Ok(()));
    assert_eq!(c.get_owner(0), Ok(other()));
    assert_eq!(c.get_metadata(0).unwrap().name, "Top Rated Freelancer");
    assert_eq!(c.next_token_id(), 1);
}

#[test]
fn achievement_mint_from_the_last_free_counter_value() {
    let mut c = ready();
    c.restore_counter(u64::MAX - 1);
    assert_eq!(c.mint_achv(minter(), user(), text("5stars5x")), Ok(()));
    assert_eq!(c.get_owner(u64::MAX - 1), Ok(user()));
    assert_eq!(c.next_token_id(), u64::MAX);
}

#[test]
fn transfer_moves_ownership() {
    let mut c = ready();
    assert_eq!(c.mint(minter(), user(), 3, text("n"), text("d"), text("u")), Ok(()));
    assert_eq!(c.transfer(user(), other(), 3), Ok(()));
    assert_eq!(c.get_owner(3), Ok(other()));
    assert_eq!(c.get_metadata(3), Ok(Metadata::new(text("n"), text("d"), text("u"))));
    assert_eq!(
        c.event(1),
        Some(Event::Transferred { from: user(), to: other(), token_id: 3 })
    );
    assert_eq!(c.transfer(user(), admin(), 3), Err(Error::Unauthorized));
    assert_eq!(c.transfer(other(), user(), 3), Ok(()));
    assert_eq!(c.get_owner(3), Ok(user()));
}

#[test]
fn transfer_to_oneself_keeps_ownership() {
    let mut c = ready();
    assert_eq!(c.mint(minter(), user(), 3, text("n"), text("d"), text("u")), Ok(()));
    assert_eq!(c.transfer(user(), user(), 3), Ok(()));
    assert_eq!(c.get_owner(3), Ok(user()));
    assert_eq!(c.event_count(), 2);
}

#[test]
fn transfer_by_non_owner_changes_nothing() {
    let mut c = ready();
    assert_eq!(c.mint(minter(), user(), 3, text("n"), text("d"), text("u")), Ok(()));
    assert_eq!(c.transfer(other(), other(), 3), Err(Error::Unauthorized));
    assert_eq!(c.transfer(minter(), other(), 3), Err(Error::Unauthorized));
    assert_eq!(c.transfer(admin(), other(), 3), Err(Error::Unauthorized));
    assert_eq!(c.get_owner(3), Ok(user()));
    assert_eq!(c.event_count(), 1);
}

#[test]
fn transfer_of_unknown_token_is_not_found() {
    let mut c = ready();
    assert_eq!(c.transfer(user(), other(), 3), Err(Error::TokenNotFound));
    assert_eq!(c.get_owner(3), Err(Error::TokenNotFound));
    assert_eq!(c.event_count(), 0);
}

#[test]
fn identities_differ_by_kind() {
    let mut c = ready();
    assert_eq!(c.mint(minter(), Address::account(1, 1), 3, text("n"), text("d"), text("u")), Ok(()));
    assert_eq!(c.transfer(Address::contract(1, 1), other(), 3), Err(Error::Unauthorized));
    assert_eq!(c.transfer(Address::account(1, 0), other(), 3), Err(Error::Unauthorized));
    assert_eq!(c.transfer(Address::account(0, 1), other(), 3), Err(Error::Unauthorized));
    assert_eq!(c.transfer(Address::account(1, 1), other(), 3), Ok(()));
}

#[test]
fn role_changes_by_non_admin_are_refused() {
    let mut c = ready();
    assert_eq!(c.add_minter(minter(), user()), Err(Error::Unauthorized));
    assert_eq!(c.is_minter(user()), Ok(false));
    assert_eq!(c.remove_minter(user(), minter()), Err(Error::Unauthorized));
    assert_eq!(c.is_minter(minter()), Ok(true));
    assert_eq!(c.transfer_admin(minter(), minter()), Err(Error::Unauthorized));
    assert_eq!(c.get_admin(), Ok(admin()));
}

#[test]
fn role_changes_before_init_are_refused() {
    let mut c = ReputationNFTContract::new();
    assert_eq!(c.add_minter(admin(), minter()), Err(Error::Unauthorized));
    assert_eq!(c.remove_minter(admin(), minter()), Err(Error::Unauthorized));
    assert_eq!(c.transfer_admin(admin(), minter()), Err(Error::Unauthorized));
    assert!(!c.is_initialized());
    assert_eq!(c.is_minter(minter()), Ok(false));
}

#[test]
fn role_changes_by_admin_are_observable() {
    let mut c = ready();
    assert_eq!(c.add_minter(admin(), user()), Ok(()));
    assert_eq!(c.is_minter(user()), Ok(true));
    assert_eq!(c.is_minter(minter()), Ok(true));
    assert_eq!(c.remove_minter(admin(), minter()), Ok(()));
    assert_eq!(c.is_minter(minter()), Ok(false));
    assert_eq!(c.is_minter(user()), Ok(true));
    assert_eq!(
        c.mint(minter(), user(), 1, text("n"), text("d"), text("u")),
        Err(Error::Unauthorized)
    );
    assert_eq!(c.transfer_admin(admin(), other()), Ok(()));
    assert_eq!(c.get_admin(), Ok(other()));
    assert_eq!(c.add_minter(admin(), minter()), Err(Error::Unauthorized));
    assert_eq!(c.add_minter(other(), minter()), Ok(()));
    assert_eq!(c.is_minter(minter()), Ok(true));
}

#[test]
fn adding_a_minter_twice_and_removing_once_removes() {
    let mut c = ready();
    assert_eq!(c.add_minter(admin(), minter()), Ok(()));
    assert_eq!(c.is_minter(minter()), Ok(true));
    assert_eq!(c.remove_minter(admin(), minter()), Ok(()));
    assert_eq!(c.is_minter(minter()), Ok(false));
    assert_eq!(c.remove_minter(admin(), minter()), Ok(()));
    assert_eq!(c.is_minter(minter()), Ok(false));
}

#[test]
fn restored_state_behaves_as_minted_state() {
    let mut c = ReputationNFTContract::new();
    c.restore_minter(minter());
    c.restore_token(8, user(), Metadata::new(text("n"), text("d"), text("u")));
    c.restore_counter(41);
    assert_eq!(c.event_count(), 0);
    assert!(!c.is_initialized());
    assert_eq!(c.is_minter(minter()), Ok(true));
    assert_eq!(c.get_owner(8), Ok(user()));
    assert_eq!(c.get_metadata(8), Ok(Metadata::new(text("n"), text("d"), text("u"))));
    assert_eq!(
        c.mint(minter(), other(), 8, text("x"), text("y"), text("z")),
        Err(Error::TokenAlreadyExists)
    );
    assert_eq!(c.mint_achv(minter(), other(), text("5stars5x")), Ok(()));
    assert_eq!(c.get_owner(41), Ok(other()));
    assert_eq!(c.get_metadata(41).unwrap().uri, "ipfs://5-stars-5-times");
    assert_eq!(c.next_token_id(), 42);
}

#[test]
fn achievement_mint_by_non_minter_is_refused_at_the_last_counter_value() {
    let mut c = ready();
    c.restore_counter(u64::MAX);
    assert_eq!(c.mint_achv(user(), user(), text("toprated")), Err(Error::Unauthorized));
    assert_eq!(c.next_token_id(), u64::MAX);
    assert_eq!(c.get_owner(u64::MAX), Err(Error::TokenNotFound));
}

#[test]
fn record_is_there_exactly_where_owner_is() {
    let mut c = ready();
    assert_eq!(c.mint(minter(), user(), 10, text("n"), text("d"), text("u")), Ok(()));
    assert_eq!(c.mint_achv(minter(), user(), text("toprated")), Ok(()));
    c.restore_token(20, other(), Metadata::new(text("a"), text("b"), text("c")));
    assert_eq!(c.transfer(user(), other(), 10), Ok(()));
    assert_eq!(
        c.mint(user(), user(), 30, text("n"), text("d"), text("u")),
        Err(Error::Unauthorized)
    );
    for token_id in [0, 1, 9, 10, 11, 20, 21, 30, u64::MAX] {
        assert_eq!(c.get_metadata(token_id).is_ok(), c.get_owner(token_id).is_ok());
        if c.get_owner(token_id).is_err() {
            assert_eq!(c.get_owner(token_id), Err(Error::TokenNotFound));
            assert_eq!(c.get_metadata(token_id), Err(Error::TokenNotFound));
        }
    }
    assert!(c.get_owner(0).is_ok());
    assert!(c.get_owner(10).is_ok());
    assert!(c.get_owner(20).is_ok());
    assert!(c.get_owner(30).is_err());
}

#[test]
fn second_achievement_mint_leaves_the_first_token() {
    let mut c = ready();
    c.restore_counter(100);
    assert_eq!(c.mint_achv(minter(), user(), text("tencontr")), Ok(()));
    assert_eq!(c.mint_achv(minter(), other(), text("tencont")), Ok(()));
    assert_eq!(c.get_owner(100), Ok(user()));
    assert_eq!(c.get_metadata(100).unwrap().name, "10 Completed Contracts");
    assert_eq!(c.get_owner(101), Ok(other()));
    assert_eq!(c.get_metadata(101).unwrap().name, "Achievement NFT");
    assert_eq!(c.next_token_id(), 102);
}

#[test]
fn record_survives_transfers() {
    let mut c = ready();
    assert_eq!(c.mint(minter(), user(), 3, text("n"), text("d"), text("u")), Ok(()));
    assert_eq!(c.transfer(user(), other(), 3), Ok(()));
    assert_eq!(c.transfer(other(), admin(), 3), Ok(()));
    assert_eq!(c.get_metadata(3), Ok(Metadata::new(text("n"), text("d"), text("u"))));
}
