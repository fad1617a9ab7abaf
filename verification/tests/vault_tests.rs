use citychests_vault::errors::CityChestsError;
use citychests_vault::events::EventRecord;
use citychests_vault::keys::{key_eq, Pubkey};
use citychests_vault::ledger::{
    confirm_mint, create_mint_record, initialize_config, ConfirmMint, CreateMintRecord,
    InitializeConfig, Ledger,
};
use citychests_vault::state::TokenAccountInfo;

fn key(n: u8) -> Pubkey {
    Pubkey::new([n; 32])
}

fn initialized(admin: Pubkey, vault: Pubkey) -> Ledger {
    let mut ledger = Ledger::new();
    let r = initialize_config(&mut ledger, InitializeConfig { admin, bump: 255 }, vault);
    assert_eq!(r, Ok(()));
    ledger
}

#[test]
fn initialize_config_records_admin_vault_and_bump() {
    let admin = key(1);
    let vault = key(2);
    let mut ledger = Ledger::new();
    let r = initialize_config(&mut ledger, InitializeConfig { admin, bump: 254 }, vault);
    assert_eq!(r, Ok(()));
    let config = ledger.config.expect("config must exist");
    assert!(key_eq(&config.admin, &admin));
    assert!(key_eq(&config.vault, &vault));
    assert_eq!(config.bump, 254);
}

#[test]
fn initialize_config_twice_fails_and_keeps_fields() {
    let admin = key(1);
    let vault = key(2);
    let mut ledger = initialized(admin, vault);
    let r = initialize_config(
        &mut ledger,
        InitializeConfig { admin: key(9), bump: 7 },
        key(8),
    );
    assert_eq!(r, Err(CityChestsError::RecordAlreadyExists));
    let config = ledger.config.expect("config must survive");
    assert!(key_eq(&config.admin, &admin));
    assert!(key_eq(&config.vault, &vault));
    assert_eq!(config.bump, 255);
}

#[test]
fn create_mint_record_writes_a_pending_record() {
    let admin = key(1);
    let recipient = key(3);
    let mut ledger = initialized(admin, key(2));
    let r = create_mint_record(
        &mut ledger,
        CreateMintRecord { admin, now: 123 },
        recipient,
        3,
        7,
    );
    assert_eq!(r, Ok(()));
    let rec = ledger.get_record(&recipient, 7).expect("record must exist");
    assert!(key_eq(&rec.recipient, &recipient));
    assert_eq!(rec.rarity, 3);
    assert!(!rec.minted);
    assert!(key_eq(&rec.mint, &Pubkey::zero()));
    assert_eq!(rec.client_nonce, 7);
    assert_eq!(rec.created_at, 123);
}

#[test]
fn create_mint_record_emits_creation_event() {
    let admin = key(1);
    let recipient = key(3);
    let mut ledger = initialized(admin, key(2));
    create_mint_record(
        &mut ledger,
        CreateMintRecord { admin, now: 5 },
        recipient,
        9,
        44,
    )
    .unwrap();
    assert_eq!(ledger.events.len(), 1);
    match &ledger.events[0] {
        EventRecord::Created(e) => {
            assert!(key_eq(&e.recipient, &recipient));
            assert_eq!(e.rarity, 9);
            assert_eq!(e.client_nonce, 44);
        }
        other => panic!("expected a creation event, got {:?}", other),
    }
}

#[test]
fn create_mint_record_without_config_fails() {
    let mut ledger = Ledger::new();
    let r = create_mint_record(
        &mut ledger,
        CreateMintRecord { admin: key(1), now: 0 },
        key(3),
        0,
        1,
    );
    assert_eq!(r, Err(CityChestsError::RecordNotFound));
    assert!(ledger.records.is_empty());
}

#[test]
fn create_mint_record_succeeds_at_most_once_per_pair() {
    let admin = key(1);
    let recipient = key(3);
    let mut ledger = initialized(admin, key(2));
    let first = create_mint_record(
        &mut ledger,
        CreateMintRecord { admin, now: 1 },
        recipient,
        3,
        7,
    );
    assert_eq!(first, Ok(()));
    // A second attempt with the same pair fails, whatever rarity it brings.
    let second = create_mint_record(
        &mut ledger,
        CreateMintRecord { admin, now: 2 },
        recipient,
        200,
        7,
    );
    assert_eq!(second, Err(CityChestsError::RecordAlreadyExists));
    assert_eq!(ledger.records.len(), 1);
    assert_eq!(ledger.records[0].rarity, 3);
    assert_eq!(ledger.events.len(), 1);
}

#[test]
fn same_recipient_may_hold_several_pending_records() {
    let admin = key(1);
    let recipient = key(3);
    let mut ledger = initialized(admin, key(2));
    create_mint_record(&mut ledger, CreateMintRecord { admin, now: 1 }, recipient, 0, 7).unwrap();
    create_mint_record(&mut ledger, CreateMintRecord { admin, now: 2 }, recipient, 1, 8).unwrap();
    assert_eq!(ledger.records.len(), 2);
    assert!(ledger.get_record(&recipient, 7).is_some());
    assert!(ledger.get_record(&recipient, 8).is_some());
}

#[test]
fn create_mint_record_by_non_admin_is_unauthorized() {
    let admin = key(1);
    let intruder = key(9);
    let recipient = key(3);
    let mut ledger = initialized(admin, key(2));
    let r = create_mint_record(
        &mut ledger,
        CreateMintRecord { admin: intruder, now: 1 },
        recipient,
        3,
        7,
    );
    assert_eq!(r, Err(CityChestsError::Unauthorized));
    assert!(ledger.records.is_empty());
    assert!(ledger.events.is_empty());
    assert!(ledger.get_record(&recipient, 7).is_none());
}

#[test]
fn confirm_mint_by_non_admin_is_unauthorized() {
    let admin = key(1);
    let vault = key(2);
    let recipient = key(3);
    let mint = key(4);
    let mut ledger = initialized(admin, vault);
    create_mint_record(&mut ledger, CreateMintRecord { admin, now: 1 }, recipient, 3, 7).unwrap();
    let ata = TokenAccountInfo { owner: vault, mint, amount: 1 };
    let r = confirm_mint(
        &mut ledger,
        ConfirmMint { admin: key(9), vault_ata: ata },
        recipient,
        7,
        mint,
    );
    assert_eq!(r, Err(CityChestsError::Unauthorized));
    assert!(!ledger.get_record(&recipient, 7).unwrap().minted);
}

#[test]
fn confirm_mint_checks_owner_then_mint_then_amount() {
    let admin = key(1);
    let vault = key(2);
    let recipient = key(3);
    let mint = key(4);
    let mut ledger = initialized(admin, vault);
    create_mint_record(&mut ledger, CreateMintRecord { admin, now: 1 }, recipient, 3, 7).unwrap();

    // Wrong owner is reported first, even when mint and amount are wrong too.
    let bad_owner = TokenAccountInfo { owner: key(8), mint: key(5), amount: 0 };
    let r = confirm_mint(
        &mut ledger,
        ConfirmMint { admin, vault_ata: bad_owner },
        recipient,
        7,
        mint,
    );
    assert_eq!(r, Err(CityChestsError::WrongVaultOwner));

    // With the owner right, a wrong asset is reported next.
    let bad_mint = TokenAccountInfo { owner: vault, mint: key(5), amount: 0 };
    let r = confirm_mint(
        &mut ledger,
        ConfirmMint { admin, vault_ata: bad_mint },
        recipient,
        7,
        mint,
    );
    assert_eq!(r, Err(CityChestsError::WrongMint));

    // With owner and asset right, a balance other than one is reported last.
    let bad_amount = TokenAccountInfo { owner: vault, mint, amount: 2 };
    let r = confirm_mint(
        &mut ledger,
        ConfirmMint { admin, vault_ata: bad_amount },
        recipient,
        7,
        mint,
    );
    assert_eq!(r, Err(CityChestsError::WrongAmount));

    // Each failed check left the record untouched.
    let rec = ledger.get_record(&recipient, 7).unwrap();
    assert!(!rec.minted);
    assert!(key_eq(&rec.mint, &Pubkey::zero()));
    assert_eq!(ledger.events.len(), 1);
}

#[test]
fn confirm_mint_of_missing_record_fails() {
    let admin = key(1);
    let vault = key(2);
    let mint = key(4);
    let mut ledger = initialized(admin, vault);
    let ata = TokenAccountInfo { owner: vault, mint, amount: 1 };
    let r = confirm_mint(
        &mut ledger,
        ConfirmMint { admin, vault_ata: ata },
        key(3),
        7,
        mint,
    );
    assert_eq!(r, Err(CityChestsError::RecordNotFound));
}

#[test]
fn full_lifecycle_create_then_confirm() {
    let admin = key(1);
    let vault = key(2);
    let recipient = key(3);
    let mint = key(4);
    let mut ledger = initialized(admin, vault);

    create_mint_record(&mut ledger, CreateMintRecord { admin, now: 10 }, recipient, 3, 7).unwrap();
    let rec = ledger.get_record(&recipient, 7).unwrap();
    assert!(!rec.minted);
    assert!(key_eq(&rec.mint, &Pubkey::zero()));

    let ata = TokenAccountInfo { owner: vault, mint, amount: 1 };
    let r = confirm_mint(
        &mut ledger,
        ConfirmMint { admin, vault_ata: ata },
        recipient,
        7,
        mint,
    );
    assert_eq!(r, Ok(()));

    let rec = ledger.get_record(&recipient, 7).unwrap();
    assert!(rec.minted);
    assert!(key_eq(&rec.mint, &mint));
    assert_eq!(rec.rarity, 3);
    assert_eq!(rec.created_at, 10);

    assert_eq!(ledger.events.len(), 2);
    match &ledger.events[1] {
        EventRecord::Confirmed(e) => {
            assert!(key_eq(&e.recipient, &recipient));
            assert!(key_eq(&e.mint, &mint));
            assert_eq!(e.client_nonce, 7);
        }
        other => panic!("expected a confirmation event, got {:?}", other),
    }
}

#[test]
fn confirmed_state_is_stable_under_repeated_reads() {
    let admin = key(1);
    let vault = key(2);
    let recipient = key(3);
    let mint = key(4);
    let mut ledger = initialized(admin, vault);
    create_mint_record(&mut ledger, CreateMintRecord { admin, now: 1 }, recipient, 3, 7).unwrap();
    let ata = TokenAccountInfo { owner: vault, mint, amount: 1 };
    confirm_mint(&mut ledger, ConfirmMint { admin, vault_ata: ata }, recipient, 7, mint).unwrap();
    for _ in 0..3 {
        let rec = ledger.get_record(&recipient, 7).unwrap();
        assert!(rec.minted);
        assert!(key_eq(&rec.mint, &mint));
    }
}

#[test]
fn repeated_confirmation_rewrites_the_recorded_mint() {
    // The confirm step carries no idempotency guard: invoked again after
    // success with a valid vault account it rewrites the recorded value and
    // emits another notification.
    let admin = key(1);
    let vault = key(2);
    let recipient = key(3);
    let mut ledger = initialized(admin, vault);
    create_mint_record(&mut ledger, CreateMintRecord { admin, now: 1 }, recipient, 3, 7).unwrap();
    let first = key(4);
    let ata = TokenAccountInfo { owner: vault, mint: first, amount: 1 };
    confirm_mint(&mut ledger, ConfirmMint { admin, vault_ata: ata }, recipient, 7, first).unwrap();
    let second = key(5);
    let ata = TokenAccountInfo { owner: vault, mint: second, amount: 1 };
    let r = confirm_mint(
        &mut ledger,
        ConfirmMint { admin, vault_ata: ata },
        recipient,
        7,
        second,
    );
    assert_eq!(r, Ok(()));
    let rec = ledger.get_record(&recipient, 7).unwrap();
    assert!(key_eq(&rec.mint, &second));
    assert_eq!(ledger.events.len(), 3);
}

#[test]
fn key_eq_compares_all_bytes() {
    assert!(key_eq(&key(1), &key(1)));
    assert!(!key_eq(&key(1), &key(2)));
    let mut bytes = [7u8; 32];
    bytes[31] = 8;
    assert!(!key_eq(&Pubkey::new(bytes), &Pubkey::new([7u8; 32])));
    assert!(key_eq(&Pubkey::zero(), &Pubkey::new([0u8; 32])));
}

#[test]
fn persisted_record_widths() {
    assert_eq!(citychests_vault::state::Config::LEN, 65);
    assert_eq!(citychests_vault::state::MintRecord::LEN, 82);
}
