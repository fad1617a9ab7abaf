//! The persistent records of the state machine and the read-only token
//! account data that the confirm step inspects.

use vstd::prelude::*;
use crate::keys::Pubkey;

verus! {

/// The global configuration record: a singleton, created once per
/// deployment and immutable afterwards.
#[derive(Clone, Copy, Debug)]
pub struct Config {
    /// The identity key of the controlling authority. Every mutating
    /// operation after initialization must be invoked by this key.
    pub admin: Pubkey,
    /// The identity key expected to own the token account that holds a
    /// minted asset.
    pub vault: Pubkey,
    /// The derivation salt that produced this record's address, retained so
    /// later lookups can recompute the same address.
    pub bump: u8,
}

/// The mathematical view of a [`Config`].
#[verifier::ext_equal]
pub struct ConfigView {
    pub admin: Seq<u8>,
    pub vault: Seq<u8>,
    pub bump: u8,
}

impl View for Config {
    type V = ConfigView;

    open spec fn view(&self) -> ConfigView {
        ConfigView { admin: self.admin@, vault: self.vault@, bump: self.bump }
    }
}

impl Config {
    /// The persisted width of a configuration record, in bytes, before the
    /// host runtime's type discriminator: admin, vault, then bump.
    pub const LEN: usize = 32 + 32 + 1;
}

/// One mint record, keyed by the pair `(recipient, client_nonce)`. It is
/// created pending (`minted == false`, `mint` the all-zero key) and
/// confirmed at most later (`minted == true`, `mint` the asset's key).
#[derive(Clone, Copy, Debug)]
pub struct MintRecord {
    /// The identity key of the intended token owner.
    pub recipient: Pubkey,
    /// An 8-bit tier classifier, opaque to this state machine.
    pub rarity: u8,
    /// The identity of the minted asset; the all-zero key until confirmed.
    pub mint: Pubkey,
    /// The lifecycle flag: `false` at creation, `true` after confirmation.
    pub minted: bool,
    /// The caller-supplied value that, together with `recipient`, keys this
    /// record.
    pub client_nonce: u64,
    /// The ledger timestamp at creation, set once and never modified.
    pub created_at: i64,
}

/// The mathematical view of a [`MintRecord`].
#[verifier::ext_equal]
pub struct RecordView {
    pub recipient: Seq<u8>,
    pub rarity: u8,
    pub mint: Seq<u8>,
    pub minted: bool,
    pub client_nonce: u64,
    pub created_at: i64,
}

impl MintRecord {
    /// The persisted width of a mint record, in bytes, before the host
    /// runtime's type discriminator: recipient, rarity, mint, minted,
    /// client_nonce, then created_at.
    pub const LEN: usize = 32 + 1 + 32 + 1 + 8 + 8;
}

impl View for MintRecord {
    type V = RecordView;

    open spec fn view(&self) -> RecordView {
        RecordView {
            recipient: self.recipient@,
            rarity: self.rarity,
            mint: self.mint@,
            minted: self.minted,
            client_nonce: self.client_nonce,
            created_at: self.created_at,
        }
    }
}

/// What the confirm step reads of the vault's token-holding account, as
/// plain values: its owner, the asset it holds, and its balance. The
/// account itself lives on the external token ledger and is read-only here.
#[derive(Clone, Copy, Debug)]
pub struct TokenAccountInfo {
    /// The identity key that owns the token account.
    pub owner: Pubkey,
    /// The identity key of the asset the token account holds.
    pub mint: Pubkey,
    /// The balance of the token account.
    pub amount: u64,
}

/// The mathematical view of a [`TokenAccountInfo`].
#[verifier::ext_equal]
pub struct TokenAccountView {
    pub owner: Seq<u8>,
    pub mint: Seq<u8>,
    pub amount: u64,
}

impl View for TokenAccountInfo {
    type V = TokenAccountView;

    open spec fn view(&self) -> TokenAccountView {
        TokenAccountView { owner: self.owner@, mint: self.mint@, amount: self.amount }
    }
}

} // verus!
