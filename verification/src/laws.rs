//! The laws of the state machine, each proved over the spec transition
//! functions that the operations' contracts are stated with.

use vstd::prelude::*;
use crate::errors::CityChestsError;
use crate::ledger::{
    has_record, record_has_key, record_index, records_unique, spec_confirm_mint,
    spec_create_mint_record, spec_initialize_config, spec_validate_vault_account,
    lemma_record_index_unique, LedgerView,
};
use crate::state::TokenAccountView;

verus! {

/// Law: initialization happens once. After `initialize_config` succeeds, a
/// second initialization at the same deployment fails with the
/// duplicate-record error and changes nothing, whatever caller, vault key
/// or salt it brings; the configuration's fields stay those of the first
/// call.
pub proof fn lemma_initialize_config_once(
    l: LedgerView,
    caller1: Seq<u8>,
    bump1: u8,
    vault1: Seq<u8>,
    caller2: Seq<u8>,
    bump2: u8,
    vault2: Seq<u8>,
)
    requires
        spec_initialize_config(l, caller1, bump1, vault1).1 is Ok,
    ensures
        ({
            let l1 = spec_initialize_config(l, caller1, bump1, vault1).0;
            &&& spec_initialize_config(l1, caller2, bump2, vault2).0 == l1
            &&& spec_initialize_config(l1, caller2, bump2, vault2).1 == Err::<
                (),
                CityChestsError,
            >(CityChestsError::RecordAlreadyExists)
        }),
{
}

/// Law: the configuration is immutable once written. Neither
/// `create_mint_record` nor `confirm_mint` changes it, whether they succeed
/// or fail.
pub proof fn lemma_config_immutable(
    l: LedgerView,
    caller: Seq<u8>,
    recipient: Seq<u8>,
    rarity: u8,
    client_nonce: u64,
    now: i64,
    vault_ata: TokenAccountView,
    mint: Seq<u8>,
)
    ensures
        spec_create_mint_record(l, caller, recipient, rarity, client_nonce, now).0.config
            == l.config,
        spec_confirm_mint(l, caller, vault_ata, recipient, client_nonce, mint).0.config
            == l.config,
{
}

/// Law: a mint record is created at most once per `(recipient, nonce)`
/// pair. After one create succeeds, any further create for the same pair
/// fails and leaves the state unchanged, whatever rarity, caller or
/// timestamp it carries: with the duplicate-record error for the
/// administrator, and `Unauthorized` for anyone else.
pub proof fn lemma_create_mint_record_at_most_once(
    l: LedgerView,
    caller1: Seq<u8>,
    recipient: Seq<u8>,
    rarity1: u8,
    client_nonce: u64,
    now1: i64,
    caller2: Seq<u8>,
    rarity2: u8,
    now2: i64,
)
    requires
        spec_create_mint_record(l, caller1, recipient, rarity1, client_nonce, now1).1 is Ok,
    ensures
        ({
            let l1 = spec_create_mint_record(l, caller1, recipient, rarity1, client_nonce, now1).0;
            &&& spec_create_mint_record(l1, caller2, recipient, rarity2, client_nonce, now2).0
                == l1
            &&& spec_create_mint_record(l1, caller2, recipient, rarity2, client_nonce, now2).1
                == Err::<(), CityChestsError>(
                if caller2 == caller1 {
                    CityChestsError::RecordAlreadyExists
                } else {
                    CityChestsError::Unauthorized
                },
            )
        }),
{
    let l1 = spec_create_mint_record(l, caller1, recipient, rarity1, client_nonce, now1).0;
    assert(record_has_key(l1.records[l.records.len() as int], recipient, client_nonce));
    assert(has_record(l1.records, recipient, client_nonce));
}

/// Law: the authorization gate is the sole access path. With the
/// configuration initialized, `create_mint_record` and `confirm_mint`
/// invoked by any caller other than the recorded administrator fail with
/// `Unauthorized` and change nothing, whatever the other inputs are.
pub proof fn lemma_non_admin_rejected(
    l: LedgerView,
    caller: Seq<u8>,
    recipient: Seq<u8>,
    rarity: u8,
    client_nonce: u64,
    now: i64,
    vault_ata: TokenAccountView,
    mint: Seq<u8>,
)
    requires
        l.config is Some,
        caller != l.config->0.admin,
    ensures
        spec_create_mint_record(l, caller, recipient, rarity, client_nonce, now) == (
            l,
            Err::<(), CityChestsError>(CityChestsError::Unauthorized),
        ),
        spec_confirm_mint(l, caller, vault_ata, recipient, client_nonce, mint) == (
            l,
            Err::<(), CityChestsError>(CityChestsError::Unauthorized),
        ),
{
}

/// Law: the confirm step's vault checks fail independently and in order —
/// wrong owner first, then wrong asset, then wrong balance — each aborting
/// with no effect; and when the caller is the administrator, the record
/// exists and all three pass, the confirmation succeeds.
pub proof fn lemma_confirm_mint_vault_checks(
    l: LedgerView,
    caller: Seq<u8>,
    vault_ata: TokenAccountView,
    recipient: Seq<u8>,
    client_nonce: u64,
    mint: Seq<u8>,
)
    requires
        l.config is Some,
        caller == l.config->0.admin,
        has_record(l.records, recipient, client_nonce),
    ensures
        ({
            let vault = l.config->0.vault;
            let outcome = spec_confirm_mint(l, caller, vault_ata, recipient, client_nonce, mint);
            &&& vault_ata.owner != vault ==> outcome == (
                l,
                Err::<(), CityChestsError>(CityChestsError::WrongVaultOwner),
            )
            &&& vault_ata.owner == vault && vault_ata.mint != mint ==> outcome == (
                l,
                Err::<(), CityChestsError>(CityChestsError::WrongMint),
            )
            &&& vault_ata.owner == vault && vault_ata.mint == mint && vault_ata.amount != 1
                ==> outcome == (l, Err::<(), CityChestsError>(CityChestsError::WrongAmount))
            &&& spec_validate_vault_account(vault_ata, vault, mint) is Ok ==> outcome.1 == Ok::<
                (),
                CityChestsError,
            >(())
        }),
{
}

/// Law: existing records only move forward. `create_mint_record` leaves
/// every existing record exactly as it is, and `confirm_mint` keeps every
/// record's recipient, nonce, rarity and creation time and never takes the
/// minted flag back — whether the operation succeeds or fails.
pub proof fn lemma_records_evolve_monotonically(
    l: LedgerView,
    caller: Seq<u8>,
    recipient: Seq<u8>,
    rarity: u8,
    client_nonce: u64,
    now: i64,
    vault_ata: TokenAccountView,
    mint: Seq<u8>,
)
    ensures
        forall|i: int|
            0 <= i < l.records.len() ==> #[trigger] spec_create_mint_record(
                l,
                caller,
                recipient,
                rarity,
                client_nonce,
                now,
            ).0.records[i] == l.records[i],
        forall|i: int|
            #![trigger l.records[i]]
            0 <= i < l.records.len() ==> {
                let r0 = l.records[i];
                let r1 = spec_confirm_mint(
                    l,
                    caller,
                    vault_ata,
                    recipient,
                    client_nonce,
                    mint,
                ).0.records[i];
                &&& r1.recipient == r0.recipient
                &&& r1.client_nonce == r0.client_nonce
                &&& r1.rarity == r0.rarity
                &&& r1.created_at == r0.created_at
                &&& (r0.minted ==> r1.minted)
            },
{
}

/// Law: a successful confirmation records the asserted asset. After
/// `confirm_mint` succeeds, the record keyed by `(recipient, nonce)` is
/// marked minted, carries the asserted mint, and keeps its recipient,
/// rarity, nonce and creation time; every read of the new state sees that
/// same record.
pub proof fn lemma_confirm_mint_records_asset(
    l: LedgerView,
    caller: Seq<u8>,
    vault_ata: TokenAccountView,
    recipient: Seq<u8>,
    client_nonce: u64,
    mint: Seq<u8>,
)
    requires
        l.wf(),
        spec_confirm_mint(l, caller, vault_ata, recipient, client_nonce, mint).1 is Ok,
    ensures
        ({
            let l1 = spec_confirm_mint(l, caller, vault_ata, recipient, client_nonce, mint).0;
            let old_rec = l.records[record_index(l.records, recipient, client_nonce)];
            let rec = l1.records[record_index(l1.records, recipient, client_nonce)];
            &&& l1.wf()
            &&& has_record(l1.records, recipient, client_nonce)
            &&& rec.minted
            &&& rec.mint == mint
            &&& rec.recipient == recipient
            &&& rec.client_nonce == client_nonce
            &&& rec.rarity == old_rec.rarity
            &&& rec.created_at == old_rec.created_at
        }),
{
    let l1 = spec_confirm_mint(l, caller, vault_ata, recipient, client_nonce, mint).0;
    let i = record_index(l.records, recipient, client_nonce);
    assert(0 <= i < l.records.len() && record_has_key(l.records[i], recipient, client_nonce));
    assert forall|a: int, b: int|
        0 <= a < l1.records.len() && 0 <= b < l1.records.len() && a != b implies !(
    l1.records[a].recipient == l1.records[b].recipient && l1.records[a].client_nonce
        == l1.records[b].client_nonce) by {
        assert(records_unique(l.records));
        assert(l1.records[a].recipient == l.records[a].recipient && l1.records[a].client_nonce
            == l.records[a].client_nonce);
        assert(l1.records[b].recipient == l.records[b].recipient && l1.records[b].client_nonce
            == l.records[b].client_nonce);
    }
    assert(record_has_key(l1.records[i], recipient, client_nonce));
    lemma_record_index_unique(l1.records, recipient, client_nonce, i);
}

} // verus!
