//! The state machine itself: the deployment's persistent state, the
//! authorization gate, the vault post-condition validator, and the three
//! operations `initialize_config`, `create_mint_record` and `confirm_mint`.
//!
//! Each operation is an atomic transaction: it either applies its whole
//! effect and returns `Ok`, or returns an error and leaves the state
//! untouched. The contracts state both outcomes exactly, through the spec
//! transition functions `spec_initialize_config`, `spec_create_mint_record`
//! and `spec_confirm_mint`.

use vstd::prelude::*;
use crate::errors::CityChestsError;
use crate::events::{EventRecord, EventView, MintConfirmed, MintConfirmedView, MintRecordCreated, MintRecordCreatedView};
use crate::keys::{key_eq, zero_key, Pubkey};
use crate::state::{Config, ConfigView, MintRecord, RecordView, TokenAccountInfo, TokenAccountView};

verus! {

/// The persistent state of one deployment: the configuration singleton,
/// the mint records (one per `(recipient, client_nonce)` pair), and the
/// append-only event log.
///
/// On the ledger each record lives at its own derived address and the log
/// is the transaction log; here the records stand in one store whose
/// well-formedness captures the uniqueness the derived addresses enforce.
#[derive(Debug)]
pub struct Ledger {
    /// The configuration record; `None` until `initialize_config` ran.
    pub config: Option<Config>,
    /// All mint records ever created, in creation order.
    pub records: Vec<MintRecord>,
    /// All notifications ever emitted, in emission order.
    pub events: Vec<EventRecord>,
}

/// The mathematical view of a [`Ledger`].
#[verifier::ext_equal]
pub struct LedgerView {
    pub config: Option<ConfigView>,
    pub records: Seq<RecordView>,
    pub events: Seq<EventView>,
}

impl View for Ledger {
    type V = LedgerView;

    open spec fn view(&self) -> LedgerView {
        LedgerView {
            config: match self.config {
                Some(c) => Some(c@),
                None => None,
            },
            records: self.records@.map_values(|r: MintRecord| r@),
            events: self.events@.map_values(|e: EventRecord| e@),
        }
    }
}

/// Whether record `r` is keyed by the pair `(recipient, nonce)`.
pub open spec fn record_has_key(r: RecordView, recipient: Seq<u8>, nonce: u64) -> bool {
    r.recipient == recipient && r.client_nonce == nonce
}

/// Whether some record in `records` is keyed by `(recipient, nonce)`.
pub open spec fn has_record(records: Seq<RecordView>, recipient: Seq<u8>, nonce: u64) -> bool {
    exists|i: int|
        0 <= i < records.len() && #[trigger] record_has_key(records[i], recipient, nonce)
}

/// The index of the record keyed by `(recipient, nonce)`; meaningful only
/// when `has_record` holds, and unique when the records are well-formed.
pub open spec fn record_index(records: Seq<RecordView>, recipient: Seq<u8>, nonce: u64) -> int {
    choose|i: int|
        0 <= i < records.len() && #[trigger] record_has_key(records[i], recipient, nonce)
}

/// Whether no two records share a `(recipient, nonce)` key. On the ledger
/// this is what derived-address uniqueness enforces.
pub open spec fn records_unique(records: Seq<RecordView>) -> bool {
    forall|i: int, j: int|
        #![trigger records[i], records[j]]
        0 <= i < records.len() && 0 <= j < records.len() && i != j ==> !(
        records[i].recipient == records[j].recipient && records[i].client_nonce
            == records[j].client_nonce)
}

impl LedgerView {
    /// Well-formedness: each `(recipient, nonce)` pair keys at most one
    /// record, and a record not yet confirmed holds the null asset
    /// identity.
    pub open spec fn wf(self) -> bool {
        &&& records_unique(self.records)
        &&& forall|i: int|
            0 <= i < self.records.len() && !(#[trigger] self.records[i]).minted
                ==> self.records[i].mint == zero_key()
    }
}

/// What `initialize_config` does: if the configuration record already
/// exists the call fails with the duplicate-record error and changes
/// nothing; otherwise the caller becomes the administrator and the given
/// vault and salt are recorded.
pub open spec fn spec_initialize_config(
    l: LedgerView,
    caller: Seq<u8>,
    bump: u8,
    vault: Seq<u8>,
) -> (LedgerView, Result<(), CityChestsError>) {
    if l.config is Some {
        (l, Err(CityChestsError::RecordAlreadyExists))
    } else {
        (
            LedgerView {
                config: Some(ConfigView { admin: caller, vault: vault, bump: bump }),
                records: l.records,
                events: l.events,
            },
            Ok(()),
        )
    }
}

/// What `create_mint_record` does: it needs the configuration record, the
/// caller must be the administrator, and the `(recipient, nonce)` pair must
/// be unused; then a pending record (null asset, not minted, created now)
/// is appended and a creation notification emitted. On any failure the
/// state is unchanged.
pub open spec fn spec_create_mint_record(
    l: LedgerView,
    caller: Seq<u8>,
    recipient: Seq<u8>,
    rarity: u8,
    client_nonce: u64,
    now: i64,
) -> (LedgerView, Result<(), CityChestsError>) {
    match l.config {
        None => (l, Err(CityChestsError::RecordNotFound)),
        Some(c) => if caller != c.admin {
            (l, Err(CityChestsError::Unauthorized))
        } else if has_record(l.records, recipient, client_nonce) {
            (l, Err(CityChestsError::RecordAlreadyExists))
        } else {
            (
                LedgerView {
                    config: l.config,
                    records: l.records.push(
                        RecordView {
                            recipient: recipient,
                            rarity: rarity,
                            mint: zero_key(),
                            minted: false,
                            client_nonce: client_nonce,
                            created_at: now,
                        },
                    ),
                    events: l.events.push(
                        EventView::Created(
                            MintRecordCreatedView {
                                recipient: recipient,
                                rarity: rarity,
                                client_nonce: client_nonce,
                            },
                        ),
                    ),
                },
                Ok(()),
            )
        },
    }
}

/// The vault post-condition: the token account must be owned by the
/// configured vault, hold the asserted asset, and hold exactly one unit,
/// checked in that order.
pub open spec fn spec_validate_vault_account(
    ata: TokenAccountView,
    vault: Seq<u8>,
    mint: Seq<u8>,
) -> Result<(), CityChestsError> {
    if ata.owner != vault {
        Err(CityChestsError::WrongVaultOwner)
    } else if ata.mint != mint {
        Err(CityChestsError::WrongMint)
    } else if ata.amount != 1 {
        Err(CityChestsError::WrongAmount)
    } else {
        Ok(())
    }
}

/// What `confirm_mint` does: it needs the configuration record, the caller
/// must be the administrator, the `(recipient, nonce)` record must exist,
/// and the vault token account must pass `spec_validate_vault_account`;
/// then the record's asset becomes the asserted mint, its lifecycle flag is
/// set, and a confirmation notification emitted. On any failure the state
/// is unchanged.
pub open spec fn spec_confirm_mint(
    l: LedgerView,
    caller: Seq<u8>,
    vault_ata: TokenAccountView,
    recipient: Seq<u8>,
    client_nonce: u64,
    mint: Seq<u8>,
) -> (LedgerView, Result<(), CityChestsError>) {
    match l.config {
        None => (l, Err(CityChestsError::RecordNotFound)),
        Some(c) => if caller != c.admin {
            (l, Err(CityChestsError::Unauthorized))
        } else if !has_record(l.records, recipient, client_nonce) {
            (l, Err(CityChestsError::RecordNotFound))
        } else {
            match spec_validate_vault_account(vault_ata, c.vault, mint) {
                Err(e) => (l, Err(e)),
                Ok(_) => {
                    let i = record_index(l.records, recipient, client_nonce);
                    let rec = l.records[i];
                    (
                        LedgerView {
                            config: l.config,
                            records: l.records.update(
                                i,
                                RecordView {
                                    recipient: rec.recipient,
                                    rarity: rec.rarity,
                                    mint: mint,
                                    minted: true,
                                    client_nonce: rec.client_nonce,
                                    created_at: rec.created_at,
                                },
                            ),
                            events: l.events.push(
                                EventView::Confirmed(
                                    MintConfirmedView {
                                        recipient: recipient,
                                        mint: mint,
                                        client_nonce: client_nonce,
                                    },
                                ),
                            ),
                        },
                        Ok(()),
                    )
                },
            }
        },
    }
}

/// The implicit inputs of `initialize_config`: the identity of the caller
/// paying for and signing the transaction, and the derivation salt the
/// runtime found for the configuration record's address.
#[derive(Clone, Copy, Debug)]
pub struct InitializeConfig {
    pub admin: Pubkey,
    pub bump: u8,
}

/// The implicit inputs of `create_mint_record`: the caller's identity and
/// the current timestamp read from the ledger's clock service.
#[derive(Clone, Copy, Debug)]
pub struct CreateMintRecord {
    pub admin: Pubkey,
    pub now: i64,
}

/// The implicit inputs of `confirm_mint`: the caller's identity and what
/// the external token ledger shows of the vault's token account.
#[derive(Clone, Copy, Debug)]
pub struct ConfirmMint {
    pub admin: Pubkey,
    pub vault_ata: TokenAccountInfo,
}

/// The authorization gate: succeeds exactly when the caller is the
/// administrator recorded in the configuration. Both mutating operations
/// after initialization go through this single check.
pub fn check_admin(config: &Config, caller: &Pubkey) -> (r: Result<(), CityChestsError>)
    ensures
        r is Ok <==> caller@ == config.admin@,
        r is Err ==> r->Err_0 == CityChestsError::Unauthorized,
{
    if key_eq(caller, &config.admin) {
        Ok(())
    } else {
        Err(CityChestsError::Unauthorized)
    }
}

/// The vault post-condition validator of the confirm step; see
/// [`spec_validate_vault_account`].
pub fn validate_vault_account(vault_ata: &TokenAccountInfo, vault: &Pubkey, mint: &Pubkey) -> (r:
    Result<(), CityChestsError>)
    ensures
        r == spec_validate_vault_account(vault_ata@, vault@, mint@),
{
    if !key_eq(&vault_ata.owner, vault) {
        Err(CityChestsError::WrongVaultOwner)
    } else if !key_eq(&vault_ata.mint, mint) {
        Err(CityChestsError::WrongMint)
    } else if vault_ata.amount != 1 {
        Err(CityChestsError::WrongAmount)
    } else {
        Ok(())
    }
}

impl Ledger {
    /// A fresh deployment: no configuration, no records, no events.
    pub fn new() -> (r: Ledger)
        ensures
            r@.wf(),
            r@.config is None,
            r@.records == Seq::<RecordView>::empty(),
            r@.events == Seq::<EventView>::empty(),
    {
        let r = Ledger { config: None, records: Vec::new(), events: Vec::new() };
        proof {
            assert(r@.records =~= Seq::<RecordView>::empty());
            assert(r@.events =~= Seq::<EventView>::empty());
        }
        r
    }

    /// The index of the record keyed by `(recipient, client_nonce)`, if
    /// any: the lookup that on the ledger is the derived-address lookup.
    pub fn find_record(&self, recipient: &Pubkey, client_nonce: u64) -> (r: Option<usize>)
        ensures
            match r {
                Some(i) => i < self@.records.len() && record_has_key(
                    self@.records[i as int],
                    recipient@,
                    client_nonce,
                ) && has_record(self@.records, recipient@, client_nonce),
                None => !has_record(self@.records, recipient@, client_nonce),
            },
    {
        let mut i: usize = 0;
        while i < self.records.len()
            invariant
                i <= self.records.len(),
                forall|j: int|
                    0 <= j < i ==> !#[trigger] record_has_key(
                        self@.records[j],
                        recipient@,
                        client_nonce,
                    ),
            decreases self.records.len() - i,
        {
            let rec = &self.records[i];
            if key_eq(&rec.recipient, recipient) && rec.client_nonce == client_nonce {
                proof {
                    assert(record_has_key(self@.records[i as int], recipient@, client_nonce));
                }
                return Some(i);
            }
            i += 1;
        }
        None
    }

    /// The mint record keyed by `(recipient, client_nonce)`, if any.
    pub fn get_record(&self, recipient: &Pubkey, client_nonce: u64) -> (r: Option<MintRecord>)
        requires
            self@.wf(),
        ensures
            match r {
                Some(rec) => has_record(self@.records, recipient@, client_nonce) && rec@
                    == self@.records[record_index(self@.records, recipient@, client_nonce)],
                None => !has_record(self@.records, recipient@, client_nonce),
            },
    {
        match self.find_record(recipient, client_nonce) {
            Some(i) => {
                proof {
                    lemma_record_index_unique(self@.records, recipient@, client_nonce, i as int);
                }
                Some(self.records[i])
            },
            None => None,
        }
    }
}

/// In a well-formed record store, any index holding the `(recipient,
/// nonce)` key is the `record_index`.
pub proof fn lemma_record_index_unique(
    records: Seq<RecordView>,
    recipient: Seq<u8>,
    nonce: u64,
    i: int,
)
    requires
        records_unique(records),
        0 <= i < records.len(),
        record_has_key(records[i], recipient, nonce),
    ensures
        record_index(records, recipient, nonce) == i,
{
    let k = record_index(records, recipient, nonce);
    assert(0 <= k < records.len() && record_has_key(records[k], recipient, nonce));
    if k != i {
        assert(records[i].recipient == records[k].recipient && records[i].client_nonce
            == records[k].client_nonce);
        assert(false);
    }
}

/// Creates the configuration record once. Fails with the duplicate-record
/// error if it already exists; otherwise records the caller as the
/// administrator together with the given vault key and derivation salt.
pub fn initialize_config(ledger: &mut Ledger, ctx: InitializeConfig, vault: Pubkey) -> (r: Result<
    (),
    CityChestsError,
>)
    requires
        old(ledger)@.wf(),
    ensures
        final(ledger)@.wf(),
        final(ledger)@ == spec_initialize_config(old(ledger)@, ctx.admin@, ctx.bump, vault@).0,
        r == spec_initialize_config(old(ledger)@, ctx.admin@, ctx.bump, vault@).1,
{
    if ledger.config.is_some() {
        return Err(CityChestsError::RecordAlreadyExists);
    }
    ledger.config = Some(Config { admin: ctx.admin, vault: vault, bump: ctx.bump });
    proof {
        assert(ledger@ =~= spec_initialize_config(old(ledger)@, ctx.admin@, ctx.bump, vault@).0);
    }
    Ok(())
}

/// Creates the mint record for `(recipient, client_nonce)`: administrator
/// only, at most once per pair. The new record is pending (null asset, not
/// minted) and carries the given rarity and the clock's timestamp; a
/// creation notification is appended to the log.
pub fn create_mint_record(
    ledger: &mut Ledger,
    ctx: CreateMintRecord,
    recipient: Pubkey,
    rarity: u8,
    client_nonce: u64,
) -> (r: Result<(), CityChestsError>)
    requires
        old(ledger)@.wf(),
    ensures
        final(ledger)@.wf(),
        final(ledger)@ == spec_create_mint_record(
            old(ledger)@,
            ctx.admin@,
            recipient@,
            rarity,
            client_nonce,
            ctx.now,
        ).0,
        r == spec_create_mint_record(
            old(ledger)@,
            ctx.admin@,
            recipient@,
            rarity,
            client_nonce,
            ctx.now,
        ).1,
{
    let config = match ledger.config {
        None => { return Err(CityChestsError::RecordNotFound) },
        Some(c) => c,
    };
    match check_admin(&config, &ctx.admin) {
        Err(e) => { return Err(e) },
        Ok(_) => {},
    }
    if ledger.find_record(&recipient, client_nonce).is_some() {
        return Err(CityChestsError::RecordAlreadyExists);
    }
    let record = MintRecord {
        recipient: recipient,
        rarity: rarity,
        mint: Pubkey::zero(),
        minted: false,
        client_nonce: client_nonce,
        created_at: ctx.now,
    };
    ledger.records.push(record);
    ledger.events.push(
        EventRecord::Created(
            MintRecordCreated { recipient: recipient, rarity: rarity, client_nonce: client_nonce },
        ),
    );
    proof {
        let spec0 = spec_create_mint_record(
            old(ledger)@,
            ctx.admin@,
            recipient@,
            rarity,
            client_nonce,
            ctx.now,
        ).0;
        assert(ledger@.records =~= spec0.records);
        assert(ledger@.events =~= spec0.events);
        assert(ledger@ =~= spec0);
        let rs = ledger@.records;
        let old_rs = old(ledger)@.records;
        assert forall|i: int, j: int|
            0 <= i < rs.len() && 0 <= j < rs.len() && i != j implies !(rs[i].recipient
            == rs[j].recipient && rs[i].client_nonce == rs[j].client_nonce) by {
            if i < old_rs.len() && j < old_rs.len() {
                assert(records_unique(old_rs));
            } else if j == old_rs.len() {
                assert(!record_has_key(old_rs[i], recipient@, client_nonce));
            } else {
                assert(!record_has_key(old_rs[j], recipient@, client_nonce));
            }
        }
    }
    Ok(())
}

/// Confirms the mint for `(recipient, client_nonce)`: administrator only,
/// and only while the vault's token account is owned by the configured
/// vault, holds the asserted asset, and holds exactly one unit. The record
/// then carries the asserted mint and is marked minted, and a confirmation
/// notification is appended to the log.
pub fn confirm_mint(
    ledger: &mut Ledger,
    ctx: ConfirmMint,
    recipient: Pubkey,
    client_nonce: u64,
    mint: Pubkey,
) -> (r: Result<(), CityChestsError>)
    requires
        old(ledger)@.wf(),
    ensures
        final(ledger)@.wf(),
        final(ledger)@ == spec_confirm_mint(
            old(ledger)@,
            ctx.admin@,
            ctx.vault_ata@,
            recipient@,
            client_nonce,
            mint@,
        ).0,
        r == spec_confirm_mint(
            old(ledger)@,
            ctx.admin@,
            ctx.vault_ata@,
            recipient@,
            client_nonce,
            mint@,
        ).1,
{
    let config = match ledger.config {
        None => { return Err(CityChestsError::RecordNotFound) },
        Some(c) => c,
    };
    match check_admin(&config, &ctx.admin) {
        Err(e) => { return Err(e) },
        Ok(_) => {},
    }
    let idx = match ledger.find_record(&recipient, client_nonce) {
        None => { return Err(CityChestsError::RecordNotFound) },
        Some(i) => i,
    };
    match validate_vault_account(&ctx.vault_ata, &config.vault, &mint) {
        Err(e) => { return Err(e) },
        Ok(_) => {},
    }
    proof {
        lemma_record_index_unique(old(ledger)@.records, recipient@, client_nonce, idx as int);
    }
    let rec = ledger.records[idx];
    let updated = MintRecord {
        recipient: rec.recipient,
        rarity: rec.rarity,
        mint: mint,
        minted: true,
        client_nonce: rec.client_nonce,
        created_at: rec.created_at,
    };
    ledger.records.set(idx, updated);
    ledger.events.push(
        EventRecord::Confirmed(
            MintConfirmed { recipient: recipient, mint: mint, client_nonce: client_nonce },
        ),
    );
    proof {
        let spec0 = spec_confirm_mint(
            old(ledger)@,
            ctx.admin@,
            ctx.vault_ata@,
            recipient@,
            client_nonce,
            mint@,
        ).0;
        assert(ledger@.records =~= spec0.records);
        assert(ledger@.events =~= spec0.events);
        assert(ledger@ =~= spec0);
        let rs = ledger@.records;
        let old_rs = old(ledger)@.records;
        assert forall|i: int, j: int|
            0 <= i < rs.len() && 0 <= j < rs.len() && i != j implies !(rs[i].recipient
            == rs[j].recipient && rs[i].client_nonce == rs[j].client_nonce) by {
            assert(records_unique(old_rs));
            assert(rs[i].recipient == old_rs[i].recipient && rs[i].client_nonce
                == old_rs[i].client_nonce);
            assert(rs[j].recipient == old_rs[j].recipient && rs[j].client_nonce
                == old_rs[j].client_nonce);
        }
    }
    Ok(())
}

} // verus!
