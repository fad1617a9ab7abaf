//! The notifications appended to the ledger's log for each successful
//! mutating operation, for off-chain observers.

use vstd::prelude::*;
use crate::keys::Pubkey;

verus! {

/// The notification emitted when a mint record is created.
#[derive(Clone, Copy, Debug)]
pub struct MintRecordCreated {
    pub recipient: Pubkey,
    pub rarity: u8,
    pub client_nonce: u64,
}

/// The mathematical view of a [`MintRecordCreated`].
#[verifier::ext_equal]
pub struct MintRecordCreatedView {
    pub recipient: Seq<u8>,
    pub rarity: u8,
    pub client_nonce: u64,
}

impl View for MintRecordCreated {
    type V = MintRecordCreatedView;

    open spec fn view(&self) -> MintRecordCreatedView {
        MintRecordCreatedView {
            recipient: self.recipient@,
            rarity: self.rarity,
            client_nonce: self.client_nonce,
        }
    }
}

/// The notification emitted when a mint record is confirmed.
#[derive(Clone, Copy, Debug)]
pub struct MintConfirmed {
    pub recipient: Pubkey,
    pub mint: Pubkey,
    pub client_nonce: u64,
}

/// The mathematical view of a [`MintConfirmed`].
#[verifier::ext_equal]
pub struct MintConfirmedView {
    pub recipient: Seq<u8>,
    pub mint: Seq<u8>,
    pub client_nonce: u64,
}

impl View for MintConfirmed {
    type V = MintConfirmedView;

    open spec fn view(&self) -> MintConfirmedView {
        MintConfirmedView {
            recipient: self.recipient@,
            mint: self.mint@,
            client_nonce: self.client_nonce,
        }
    }
}

/// One entry of the append-only event log.
#[derive(Clone, Copy, Debug)]
pub enum EventRecord {
    Created(MintRecordCreated),
    Confirmed(MintConfirmed),
}

/// The mathematical view of an [`EventRecord`].
#[verifier::ext_equal]
pub enum EventView {
    Created(MintRecordCreatedView),
    Confirmed(MintConfirmedView),
}

impl View for EventRecord {
    type V = EventView;

    open spec fn view(&self) -> EventView {
        match *self {
            EventRecord::Created(e) => EventView::Created(e@),
            EventRecord::Confirmed(e) => EventView::Confirmed(e@),
        }
    }
}

} // verus!
