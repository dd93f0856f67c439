//! One handler for each kind of event: from a record to the values of the
//! row that is inserted for it.
//!
//! A handler reads and normalises; it does not touch the store. Whoever
//! runs it inserts the row it returns, once, and reports how that went.
//!
//! A row carries a block's time as seconds and nanoseconds. Where the
//! seconds do not fit 64 signed bits, or the calendar has no such instant,
//! the row carries no time at all: a count is never wrapped into another.
//! A transfer's missing price is stored as zero.

use vstd::prelude::*;
use crate::amount::{
    changes_rendered, optional_denotes, optional_storable, prices_denote, prices_storable,
    storable,
};
use crate::amount::{normalize_prices, render_changes, Amount};
use crate::events::{
    NftBurnEvent, NftEventContext, NftMintEvent, NftTransferEvent, PotlockDonationEvent,
    PotlockEventContext, PotlockPotDonationEvent, PotlockPotProjectDonationEvent,
    TradeBalanceChangeSwapEvent, TradeContext, TradePoolChangeEvent, TradeRawPoolSwapEvent,
};
use crate::json::Json;
use crate::record::{DecodeError, Record};
use crate::time::{stored_timestamp, timestamp_for_storage, Timestamp};

verus! {

/// Why a handler has no row for a record.
#[derive(Debug, Clone, Copy, PartialEq, Eq, Structural)]
pub enum HandleError {
    /// The record is no event of the handler's kind, and never will be.
    Decode(DecodeError),
    /// An amount of the event did not come back unchanged from the store's
    /// decimal type. The two decimal formats disagree: nothing to recover
    /// from.
    Precision,
}

/// The values of one row of the table `nft_mint`: a mint of tokens.
#[derive(Debug, PartialEq, Eq)]
pub struct NftMintRow {
    pub timestamp: Option<Timestamp>,
    pub transaction_id: String,
    pub receipt_id: String,
    pub block_height: u64,
    pub contract_id: String,
    pub owner_id: String,
    pub token_ids: Vec<String>,
    pub memo: Option<String>,
}

impl NftMintRow {
    /// The row is the one that is stored for the event `e` with the context `c`.
    pub open spec fn holds(self, c: NftEventContext, e: NftMintEvent) -> bool {
        &&& self.timestamp == stored_timestamp(c.block_timestamp_nanosec)
        &&& self.transaction_id == c.transaction_id
        &&& self.receipt_id == c.receipt_id
        &&& self.block_height == c.block_height
        &&& self.contract_id == c.contract_id
        &&& self.owner_id == e.owner_id
        &&& self.token_ids == e.token_ids
        &&& self.memo == e.memo
    }

    /// Normalises an event into its row.
    pub fn build(c: NftEventContext, e: NftMintEvent) -> (r: Self)
        ensures
            r.holds(c, e),
    {
        let timestamp = timestamp_for_storage(c.block_timestamp_nanosec);
        NftMintRow {
            timestamp,
            transaction_id: c.transaction_id,
            receipt_id: c.receipt_id,
            block_height: c.block_height,
            contract_id: c.contract_id,
            owner_id: e.owner_id,
            token_ids: e.token_ids,
            memo: e.memo,
        }
    }
}

/// Reads records of the stream `nft_mint` into rows of the table of that name.
#[derive(Debug, Clone, Copy, PartialEq, Eq, Structural)]
pub struct NftMintHandler;

impl NftMintHandler {
    /// What `handle` returns for the record: the error of the first of the
    /// fields `context` and `mint` that carries no JSON; else a row that holds
    /// what the two write, or the reason why there is none.
    pub open spec fn handled(record: Record, r: Result<NftMintRow, HandleError>) -> bool {
        match (record.payload("context"@), record.payload("mint"@)) {
            (Err(d), _) => r matches Err(HandleError::Decode(x)) && x == d,
            (Ok(_), Err(d)) => r matches Err(HandleError::Decode(x)) && x == d,
            (Ok(cj), Ok(ej)) => match r {
                Ok(row) => exists|c: NftEventContext, e: NftMintEvent|
                    c.decodes(cj) && e.decodes(ej) && #[trigger] row.holds(c, e),
                Err(HandleError::Decode(d)) => d == DecodeError::WrongShape && ((forall|
                    c: NftEventContext,
                | !c.decodes(cj)) || (forall|
                    e: NftMintEvent,
                | !e.decodes(ej))),
                Err(HandleError::Precision) => false,
            },
        }
    }

    /// Decodes a record of the stream and normalises it into the row to insert.
    pub fn handle(&self, record: &Record) -> (r: Result<NftMintRow, HandleError>)
        ensures
            Self::handled(*record, r),
    {
        let cj = match record.read_payload("context") {
            Ok(j) => j,
            Err(d) => {
                return Err(HandleError::Decode(d));
            },
        };
        let ej = match record.read_payload("mint") {
            Ok(j) => j,
            Err(d) => {
                return Err(HandleError::Decode(d));
            },
        };
        let c = match NftEventContext::decode(&cj) {
            Some(c) => c,
            None => {
                return Err(HandleError::Decode(DecodeError::WrongShape));
            },
        };
        let e = match NftMintEvent::decode(&ej) {
            Some(e) => e,
            None => {
                return Err(HandleError::Decode(DecodeError::WrongShape));
            },
        };
        let ghost witness = (c, e);
        let row = NftMintRow::build(c, e);
        assert(row.holds(witness.0, witness.1));
        Ok(row)
    }
}

/// The values of one row of the table `nft_transfer`: a transfer of tokens.
#[derive(Debug, PartialEq, Eq)]
pub struct NftTransferRow {
    pub timestamp: Option<Timestamp>,
    pub transaction_id: String,
    pub receipt_id: String,
    pub block_height: u64,
    pub contract_id: String,
    pub old_owner_id: String,
    pub new_owner_id: String,
    pub token_ids: Vec<String>,
    pub memo: Option<String>,
    pub token_prices_near: Vec<String>,
}

impl NftTransferRow {
    /// Every amount of the event survives the store's decimal type.
    pub open spec fn storable(e: NftTransferEvent) -> bool {
        &&& prices_storable(e.token_prices_near@)
    }

    /// The row is the one that is stored for the event `e` with the context `c`.
    pub open spec fn holds(self, c: NftEventContext, e: NftTransferEvent) -> bool {
        &&& self.timestamp == stored_timestamp(c.block_timestamp_nanosec)
        &&& self.transaction_id == c.transaction_id
        &&& self.receipt_id == c.receipt_id
        &&& self.block_height == c.block_height
        &&& self.contract_id == c.contract_id
        &&& self.old_owner_id == e.old_owner_id
        &&& self.new_owner_id == e.new_owner_id
        &&& self.token_ids == e.token_ids
        &&& self.memo == e.memo
        &&& prices_denote(self.token_prices_near@, e.token_prices_near@)
        &&& Self::storable(e)
    }

    /// Normalises an event into its row. There is none exactly where an
    /// amount does not survive the store's decimal type.
    pub fn build(c: NftEventContext, e: NftTransferEvent) -> (r: Option<Self>)
        ensures
            match r {
                Some(row) => row.holds(c, e),
                None => !Self::storable(e),
            },
    {
        let timestamp = timestamp_for_storage(c.block_timestamp_nanosec);
        let token_prices_near = normalize_prices(&e.token_prices_near)?;
        Some(NftTransferRow {
            timestamp,
            transaction_id: c.transaction_id,
            receipt_id: c.receipt_id,
            block_height: c.block_height,
            contract_id: c.contract_id,
            old_owner_id: e.old_owner_id,
            new_owner_id: e.new_owner_id,
            token_ids: e.token_ids,
            memo: e.memo,
            token_prices_near,
        })
    }
}

/// Reads records of the stream `nft_transfer` into rows of the table of that name.
#[derive(Debug, Clone, Copy, PartialEq, Eq, Structural)]
pub struct NftTransferHandler;

impl NftTransferHandler {
    /// What `handle` returns for the record: the error of the first of the
    /// fields `context` and `transfer` that carries no JSON; else a row that holds
    /// what the two write, or the reason why there is none.
    pub open spec fn handled(record: Record, r: Result<NftTransferRow, HandleError>) -> bool {
        match (record.payload("context"@), record.payload("transfer"@)) {
            (Err(d), _) => r matches Err(HandleError::Decode(x)) && x == d,
            (Ok(_), Err(d)) => r matches Err(HandleError::Decode(x)) && x == d,
            (Ok(cj), Ok(ej)) => match r {
                Ok(row) => exists|c: NftEventContext, e: NftTransferEvent|
                    c.decodes(cj) && e.decodes(ej) && #[trigger] row.holds(c, e),
                Err(HandleError::Decode(d)) => d == DecodeError::WrongShape && ((forall|
                    c: NftEventContext,
                | !c.decodes(cj)) || (forall|
                    e: NftTransferEvent,
                | !e.decodes(ej))),
                Err(HandleError::Precision) => exists|c: NftEventContext, e: NftTransferEvent|
                    #![trigger c.decodes(cj), e.decodes(ej)]
                    c.decodes(cj) && e.decodes(ej) && !NftTransferRow::storable(e),
            },
        }
    }

    /// Decodes a record of the stream and normalises it into the row to insert.
    pub fn handle(&self, record: &Record) -> (r: Result<NftTransferRow, HandleError>)
        ensures
            Self::handled(*record, r),
    {
        let cj = match record.read_payload("context") {
            Ok(j) => j,
            Err(d) => {
                return Err(HandleError::Decode(d));
            },
        };
        let ej = match record.read_payload("transfer") {
            Ok(j) => j,
            Err(d) => {
                return Err(HandleError::Decode(d));
            },
        };
        let c = match NftEventContext::decode(&cj) {
            Some(c) => c,
            None => {
                return Err(HandleError::Decode(DecodeError::WrongShape));
            },
        };
        let e = match NftTransferEvent::decode(&ej) {
            Some(e) => e,
            None => {
                return Err(HandleError::Decode(DecodeError::WrongShape));
            },
        };
        let ghost witness = (c, e);
        match NftTransferRow::build(c, e) {
            Some(row) => {
                assert(row.holds(witness.0, witness.1));
                Ok(row)
            },
            None => {
                assert(witness.0.decodes(cj) && witness.1.decodes(ej) && !NftTransferRow::storable(witness.1));
                Err(HandleError::Precision)
            },
        }
    }
}

/// The values of one row of the table `nft_burn`: a burn of tokens.
#[derive(Debug, PartialEq, Eq)]
pub struct NftBurnRow {
    pub timestamp: Option<Timestamp>,
    pub transaction_id: String,
    pub receipt_id: String,
    pub block_height: u64,
    pub contract_id: String,
    pub owner_id: String,
    pub token_ids: Vec<String>,
    pub memo: Option<String>,
}

impl NftBurnRow {
    /// The row is the one that is stored for the event `e` with the context `c`.
    pub open spec fn holds(self, c: NftEventContext, e: NftBurnEvent) -> bool {
        &&& self.timestamp == stored_timestamp(c.block_timestamp_nanosec)
        &&& self.transaction_id == c.transaction_id
        &&& self.receipt_id == c.receipt_id
        &&& self.block_height == c.block_height
        &&& self.contract_id == c.contract_id
        &&& self.owner_id == e.owner_id
        &&& self.token_ids == e.token_ids
        &&& self.memo == e.memo
    }

    /// Normalises an event into its row.
    pub fn build(c: NftEventContext, e: NftBurnEvent) -> (r: Self)
        ensures
            r.holds(c, e),
    {
        let timestamp = timestamp_for_storage(c.block_timestamp_nanosec);
        NftBurnRow {
            timestamp,
            transaction_id: c.transaction_id,
            receipt_id: c.receipt_id,
            block_height: c.block_height,
            contract_id: c.contract_id,
            owner_id: e.owner_id,
            token_ids: e.token_ids,
            memo: e.memo,
        }
    }
}

/// Reads records of the stream `nft_burn` into rows of the table of that name.
#[derive(Debug, Clone, Copy, PartialEq, Eq, Structural)]
pub struct NftBurnHandler;

impl NftBurnHandler {
    /// What `handle` returns for the record: the error of the first of the
    /// fields `context` and `burn` that carries no JSON; else a row that holds
    /// what the two write, or the reason why there is none.
    pub open spec fn handled(record: Record, r: Result<NftBurnRow, HandleError>) -> bool {
        match (record.payload("context"@), record.payload("burn"@)) {
            (Err(d), _) => r matches Err(HandleError::Decode(x)) && x == d,
            (Ok(_), Err(d)) => r matches Err(HandleError::Decode(x)) && x == d,
            (Ok(cj), Ok(ej)) => match r {
                Ok(row) => exists|c: NftEventContext, e: NftBurnEvent|
                    c.decodes(cj) && e.decodes(ej) && #[trigger] row.holds(c, e),
                Err(HandleError::Decode(d)) => d == DecodeError::WrongShape && ((forall|
                    c: NftEventContext,
                | !c.decodes(cj)) || (forall|
                    e: NftBurnEvent,
                | !e.decodes(ej))),
                Err(HandleError::Precision) => false,
            },
        }
    }

    /// Decodes a record of the stream and normalises it into the row to insert.
    pub fn handle(&self, record: &Record) -> (r: Result<NftBurnRow, HandleError>)
        ensures
            Self::handled(*record, r),
    {
        let cj = match record.read_payload("context") {
            Ok(j) => j,
            Err(d) => {
                return Err(HandleError::Decode(d));
            },
        };
        let ej = match record.read_payload("burn") {
            Ok(j) => j,
            Err(d) => {
                return Err(HandleError::Decode(d));
            },
        };
        let c = match NftEventContext::decode(&cj) {
            Some(c) => c,
            None => {
                return Err(HandleError::Decode(DecodeError::WrongShape));
            },
        };
        let e = match NftBurnEvent::decode(&ej) {
            Some(e) => e,
            None => {
                return Err(HandleError::Decode(DecodeError::WrongShape));
            },
        };
        let ghost witness = (c, e);
        let row = NftBurnRow::build(c, e);
        assert(row.holds(witness.0, witness.1));
        Ok(row)
    }
}

/// The values of one row of the table `potlock_donation`: a donation to a project.
#[derive(Debug, PartialEq, Eq)]
pub struct PotlockDonationRow {
    pub timestamp: Option<Timestamp>,
    pub transaction_id: String,
    pub receipt_id: String,
    pub block_height: u64,
    pub donation_id: u64,
    pub donor_id: String,
    pub total_amount: Amount,
    pub message: Option<String>,
    pub donated_at: i64,
    pub project_id: String,
    pub protocol_fee: Amount,
    pub referrer_id: Option<String>,
    pub referrer_fee: Option<Amount>,
}

impl PotlockDonationRow {
    /// Every amount of the event survives the store's decimal type.
    pub open spec fn storable(e: PotlockDonationEvent) -> bool {
        &&& storable(e.total_amount)
        &&& storable(e.protocol_fee)
        &&& optional_storable(e.referrer_fee)
    }

    /// The row is the one that is stored for the event `e` with the context `c`.
    pub open spec fn holds(self, c: PotlockEventContext, e: PotlockDonationEvent) -> bool {
        &&& self.timestamp == stored_timestamp(c.block_timestamp_nanosec)
        &&& self.transaction_id == c.transaction_id
        &&& self.receipt_id == c.receipt_id
        &&& self.block_height == c.block_height
        &&& self.donation_id == e.donation_id
        &&& self.donor_id == e.donor_id
        &&& self.total_amount.denotes(e.total_amount)
        &&& self.message == e.message
        &&& self.donated_at == e.donated_at
        &&& self.project_id == e.project_id
        &&& self.protocol_fee.denotes(e.protocol_fee)
        &&& self.referrer_id == e.referrer_id
        &&& optional_denotes(self.referrer_fee, e.referrer_fee)
        &&& Self::storable(e)
    }

    /// Normalises an event into its row. There is none exactly where an
    /// amount does not survive the store's decimal type.
    pub fn build(c: PotlockEventContext, e: PotlockDonationEvent) -> (r: Option<Self>)
        ensures
            match r {
                Some(row) => row.holds(c, e),
                None => !Self::storable(e),
            },
    {
        let timestamp = timestamp_for_storage(c.block_timestamp_nanosec);
        let total_amount = Amount::normalize(e.total_amount)?;
        let protocol_fee = Amount::normalize(e.protocol_fee)?;
        let referrer_fee = Amount::normalize_optional(e.referrer_fee)?;
        Some(PotlockDonationRow {
            timestamp,
            transaction_id: c.transaction_id,
            receipt_id: c.receipt_id,
            block_height: c.block_height,
            donation_id: e.donation_id,
            donor_id: e.donor_id,
            total_amount,
            message: e.message,
            donated_at: e.donated_at,
            project_id: e.project_id,
            protocol_fee,
            referrer_id: e.referrer_id,
            referrer_fee,
        })
    }
}

/// Reads records of the stream `potlock_donation` into rows of the table of that name.
#[derive(Debug, Clone, Copy, PartialEq, Eq, Structural)]
pub struct PotlockDonationHandler;

impl PotlockDonationHandler {
    /// What `handle` returns for the record: the error of the first of the
    /// fields `context` and `donation` that carries no JSON; else a row that holds
    /// what the two write, or the reason why there is none.
    pub open spec fn handled(record: Record, r: Result<PotlockDonationRow, HandleError>) -> bool {
        match (record.payload("context"@), record.payload("donation"@)) {
            (Err(d), _) => r matches Err(HandleError::Decode(x)) && x == d,
            (Ok(_), Err(d)) => r matches Err(HandleError::Decode(x)) && x == d,
            (Ok(cj), Ok(ej)) => match r {
                Ok(row) => exists|c: PotlockEventContext, e: PotlockDonationEvent|
                    c.decodes(cj) && e.decodes(ej) && #[trigger] row.holds(c, e),
                Err(HandleError::Decode(d)) => d == DecodeError::WrongShape && ((forall|
                    c: PotlockEventContext,
                | !c.decodes(cj)) || (forall|
                    e: PotlockDonationEvent,
                | !e.decodes(ej))),
                Err(HandleError::Precision) => exists|c: PotlockEventContext, e: PotlockDonationEvent|
                    #![trigger c.decodes(cj), e.decodes(ej)]
                    c.decodes(cj) && e.decodes(ej) && !PotlockDonationRow::storable(e),
            },
        }
    }

    /// Decodes a record of the stream and normalises it into the row to insert.
    pub fn handle(&self, record: &Record) -> (r: Result<PotlockDonationRow, HandleError>)
        ensures
            Self::handled(*record, r),
    {
        let cj = match record.read_payload("context") {
            Ok(j) => j,
            Err(d) => {
                return Err(HandleError::Decode(d));
            },
        };
        let ej = match record.read_payload("donation") {
            Ok(j) => j,
            Err(d) => {
                return Err(HandleError::Decode(d));
            },
        };
        let c = match PotlockEventContext::decode(&cj) {
            Some(c) => c,
            None => {
                return Err(HandleError::Decode(DecodeError::WrongShape));
            },
        };
        let e = match PotlockDonationEvent::decode(&ej) {
            Some(e) => e,
            None => {
                return Err(HandleError::Decode(DecodeError::WrongShape));
            },
        };
        let ghost witness = (c, e);
        match PotlockDonationRow::build(c, e) {
            Some(row) => {
                assert(row.holds(witness.0, witness.1));
                Ok(row)
            },
            None => {
                assert(witness.0.decodes(cj) && witness.1.decodes(ej) && !PotlockDonationRow::storable(witness.1));
                Err(HandleError::Precision)
            },
        }
    }
}

/// The values of one row of the table `potlock_pot_project_donation`: a donation to a project through a pot.
#[derive(Debug, PartialEq, Eq)]
pub struct PotlockPotProjectDonationRow {
    pub timestamp: Option<Timestamp>,
    pub transaction_id: String,
    pub receipt_id: String,
    pub block_height: u64,
    pub donation_id: u64,
    pub pot_id: String,
    pub donor_id: String,
    pub total_amount: Amount,
    pub net_amount: Amount,
    pub message: Option<String>,
    pub donated_at: i64,
    pub project_id: String,
    pub referrer_id: Option<String>,
    pub referrer_fee: Option<Amount>,
    pub protocol_fee: Amount,
    pub chef_id: Option<String>,
    pub chef_fee: Option<Amount>,
}

impl PotlockPotProjectDonationRow {
    /// Every amount of the event survives the store's decimal type.
    pub open spec fn storable(e: PotlockPotProjectDonationEvent) -> bool {
        &&& storable(e.total_amount)
        &&& storable(e.net_amount)
        &&& optional_storable(e.referrer_fee)
        &&& storable(e.protocol_fee)
        &&& optional_storable(e.chef_fee)
    }

    /// The row is the one that is stored for the event `e` with the context `c`.
    pub open spec fn holds(self, c: PotlockEventContext, e: PotlockPotProjectDonationEvent) -> bool {
        &&& self.timestamp == stored_timestamp(c.block_timestamp_nanosec)
        &&& self.transaction_id == c.transaction_id
        &&& self.receipt_id == c.receipt_id
        &&& self.block_height == c.block_height
        &&& self.donation_id == e.donation_id
        &&& self.pot_id == e.pot_id
        &&& self.donor_id == e.donor_id
        &&& self.total_amount.denotes(e.total_amount)
        &&& self.net_amount.denotes(e.net_amount)
        &&& self.message == e.message
        &&& self.donated_at == e.donated_at
        &&& self.project_id == e.project_id
        &&& self.referrer_id == e.referrer_id
        &&& optional_denotes(self.referrer_fee, e.referrer_fee)
        &&& self.protocol_fee.denotes(e.protocol_fee)
        &&& self.chef_id == e.chef_id
        &&& optional_denotes(self.chef_fee, e.chef_fee)
        &&& Self::storable(e)
    }

    /// Normalises an event into its row. There is none exactly where an
    /// amount does not survive the store's decimal type.
    pub fn build(c: PotlockEventContext, e: PotlockPotProjectDonationEvent) -> (r: Option<Self>)
        ensures
            match r {
                Some(row) => row.holds(c, e),
                None => !Self::storable(e),
            },
    {
        let timestamp = timestamp_for_storage(c.block_timestamp_nanosec);
        let total_amount = Amount::normalize(e.total_amount)?;
        let net_amount = Amount::normalize(e.net_amount)?;
        let referrer_fee = Amount::normalize_optional(e.referrer_fee)?;
        let protocol_fee = Amount::normalize(e.protocol_fee)?;
        let chef_fee = Amount::normalize_optional(e.chef_fee)?;
        Some(PotlockPotProjectDonationRow {
            timestamp,
            transaction_id: c.transaction_id,
            receipt_id: c.receipt_id,
            block_height: c.block_height,
            donation_id: e.donation_id,
            pot_id: e.pot_id,
            donor_id: e.donor_id,
            total_amount,
            net_amount,
            message: e.message,
            donated_at: e.donated_at,
            project_id: e.project_id,
            referrer_id: e.referrer_id,
            referrer_fee,
            protocol_fee,
            chef_id: e.chef_id,
            chef_fee,
        })
    }
}

/// Reads records of the stream `potlock_pot_project_donation` into rows of the table of that name.
#[derive(Debug, Clone, Copy, PartialEq, Eq, Structural)]
pub struct PotlockPotProjectDonationHandler;

impl PotlockPotProjectDonationHandler {
    /// What `handle` returns for the record: the error of the first of the
    /// fields `context` and `pot_project_donation` that carries no JSON; else a row that holds
    /// what the two write, or the reason why there is none.
    pub open spec fn handled(record: Record, r: Result<PotlockPotProjectDonationRow, HandleError>) -> bool {
        match (record.payload("context"@), record.payload("pot_project_donation"@)) {
            (Err(d), _) => r matches Err(HandleError::Decode(x)) && x == d,
            (Ok(_), Err(d)) => r matches Err(HandleError::Decode(x)) && x == d,
            (Ok(cj), Ok(ej)) => match r {
                Ok(row) => exists|c: PotlockEventContext, e: PotlockPotProjectDonationEvent|
                    c.decodes(cj) && e.decodes(ej) && #[trigger] row.holds(c, e),
                Err(HandleError::Decode(d)) => d == DecodeError::WrongShape && ((forall|
                    c: PotlockEventContext,
                | !c.decodes(cj)) || (forall|
                    e: PotlockPotProjectDonationEvent,
                | !e.decodes(ej))),
                Err(HandleError::Precision) => exists|c: PotlockEventContext, e: PotlockPotProjectDonationEvent|
                    #![trigger c.decodes(cj), e.decodes(ej)]
                    c.decodes(cj) && e.decodes(ej) && !PotlockPotProjectDonationRow::storable(e),
            },
        }
    }

    /// Decodes a record of the stream and normalises it into the row to insert.
    pub fn handle(&self, record: &Record) -> (r: Result<PotlockPotProjectDonationRow, HandleError>)
        ensures
            Self::handled(*record, r),
    {
        let cj = match record.read_payload("context") {
            Ok(j) => j,
            Err(d) => {
                return Err(HandleError::Decode(d));
            },
        };
        let ej = match record.read_payload("pot_project_donation") {
            Ok(j) => j,
            Err(d) => {
                return Err(HandleError::Decode(d));
            },
        };
        let c = match PotlockEventContext::decode(&cj) {
            Some(c) => c,
            None => {
                return Err(HandleError::Decode(DecodeError::WrongShape));
            },
        };
        let e = match PotlockPotProjectDonationEvent::decode(&ej) {
            Some(e) => e,
            None => {
                return Err(HandleError::Decode(DecodeError::WrongShape));
            },
        };
        let ghost witness = (c, e);
        match PotlockPotProjectDonationRow::build(c, e) {
            Some(row) => {
                assert(row.holds(witness.0, witness.1));
                Ok(row)
            },
            None => {
                assert(witness.0.decodes(cj) && witness.1.decodes(ej) && !PotlockPotProjectDonationRow::storable(witness.1));
                Err(HandleError::Precision)
            },
        }
    }
}

/// The values of one row of the table `potlock_pot_donation`: a donation to a pot.
#[derive(Debug, PartialEq, Eq)]
pub struct PotlockPotDonationRow {
    pub timestamp: Option<Timestamp>,
    pub transaction_id: String,
    pub receipt_id: String,
    pub block_height: u64,
    pub donation_id: u64,
    pub pot_id: String,
    pub donor_id: String,
    pub total_amount: Amount,
    pub net_amount: Amount,
    pub message: Option<String>,
    pub donated_at: i64,
    pub referrer_id: Option<String>,
    pub referrer_fee: Option<Amount>,
    pub protocol_fee: Amount,
    pub chef_id: Option<String>,
    pub chef_fee: Option<Amount>,
}

impl PotlockPotDonationRow {
    /// Every amount of the event survives the store's decimal type.
    pub open spec fn storable(e: PotlockPotDonationEvent) -> bool {
        &&& storable(e.total_amount)
        &&& storable(e.net_amount)
        &&& optional_storable(e.referrer_fee)
        &&& storable(e.protocol_fee)
        &&& optional_storable(e.chef_fee)
    }

    /// The row is the one that is stored for the event `e` with the context `c`.
    pub open spec fn holds(self, c: PotlockEventContext, e: PotlockPotDonationEvent) -> bool {
        &&& self.timestamp == stored_timestamp(c.block_timestamp_nanosec)
        &&& self.transaction_id == c.transaction_id
        &&& self.receipt_id == c.receipt_id
        &&& self.block_height == c.block_height
        &&& self.donation_id == e.donation_id
        &&& self.pot_id == e.pot_id
        &&& self.donor_id == e.donor_id
        &&& self.total_amount.denotes(e.total_amount)
        &&& self.net_amount.denotes(e.net_amount)
        &&& self.message == e.message
        &&& self.donated_at == e.donated_at
        &&& self.referrer_id == e.referrer_id
        &&& optional_denotes(self.referrer_fee, e.referrer_fee)
        &&& self.protocol_fee.denotes(e.protocol_fee)
        &&& self.chef_id == e.chef_id
        &&& optional_denotes(self.chef_fee, e.chef_fee)
        &&& Self::storable(e)
    }

    /// Normalises an event into its row. There is none exactly where an
    /// amount does not survive the store's decimal type.
    pub fn build(c: PotlockEventContext, e: PotlockPotDonationEvent) -> (r: Option<Self>)
        ensures
            match r {
                Some(row) => row.holds(c, e),
                None => !Self::storable(e),
            },
    {
        let timestamp = timestamp_for_storage(c.block_timestamp_nanosec);
        let total_amount = Amount::normalize(e.total_amount)?;
        let net_amount = Amount::normalize(e.net_amount)?;
        let referrer_fee = Amount::normalize_optional(e.referrer_fee)?;
        let protocol_fee = Amount::normalize(e.protocol_fee)?;
        let chef_fee = Amount::normalize_optional(e.chef_fee)?;
        Some(PotlockPotDonationRow {
            timestamp,
            transaction_id: c.transaction_id,
            receipt_id: c.receipt_id,
            block_height: c.block_height,
            donation_id: e.donation_id,
            pot_id: e.pot_id,
            donor_id: e.donor_id,
            total_amount,
            net_amount,
            message: e.message,
            donated_at: e.donated_at,
            referrer_id: e.referrer_id,
            referrer_fee,
            protocol_fee,
            chef_id: e.chef_id,
            chef_fee,
        })
    }
}

/// Reads records of the stream `potlock_pot_donation` into rows of the table of that name.
#[derive(Debug, Clone, Copy, PartialEq, Eq, Structural)]
pub struct PotlockPotDonationHandler;

impl PotlockPotDonationHandler {
    /// What `handle` returns for the record: the error of the first of the
    /// fields `context` and `pot_donation` that carries no JSON; else a row that holds
    /// what the two write, or the reason why there is none.
    pub open spec fn handled(record: Record, r: Result<PotlockPotDonationRow, HandleError>) -> bool {
        match (record.payload("context"@), record.payload("pot_donation"@)) {
            (Err(d), _) => r matches Err(HandleError::Decode(x)) && x == d,
            (Ok(_), Err(d)) => r matches Err(HandleError::Decode(x)) && x == d,
            (Ok(cj), Ok(ej)) => match r {
                Ok(row) => exists|c: PotlockEventContext, e: PotlockPotDonationEvent|
                    c.decodes(cj) && e.decodes(ej) && #[trigger] row.holds(c, e),
                Err(HandleError::Decode(d)) => d == DecodeError::WrongShape && ((forall|
                    c: PotlockEventContext,
                | !c.decodes(cj)) || (forall|
                    e: PotlockPotDonationEvent,
                | !e.decodes(ej))),
                Err(HandleError::Precision) => exists|c: PotlockEventContext, e: PotlockPotDonationEvent|
                    #![trigger c.decodes(cj), e.decodes(ej)]
                    c.decodes(cj) && e.decodes(ej) && !PotlockPotDonationRow::storable(e),
            },
        }
    }

    /// Decodes a record of the stream and normalises it into the row to insert.
    pub fn handle(&self, record: &Record) -> (r: Result<PotlockPotDonationRow, HandleError>)
        ensures
            Self::handled(*record, r),
    {
        let cj = match record.read_payload("context") {
            Ok(j) => j,
            Err(d) => {
                return Err(HandleError::Decode(d));
            },
        };
        let ej = match record.read_payload("pot_donation") {
            Ok(j) => j,
            Err(d) => {
                return Err(HandleError::Decode(d));
            },
        };
        let c = match PotlockEventContext::decode(&cj) {
            Some(c) => c,
            None => {
                return Err(HandleError::Decode(DecodeError::WrongShape));
            },
        };
        let e = match PotlockPotDonationEvent::decode(&ej) {
            Some(e) => e,
            None => {
                return Err(HandleError::Decode(DecodeError::WrongShape));
            },
        };
        let ghost witness = (c, e);
        match PotlockPotDonationRow::build(c, e) {
            Some(row) => {
                assert(row.holds(witness.0, witness.1));
                Ok(row)
            },
            None => {
                assert(witness.0.decodes(cj) && witness.1.decodes(ej) && !PotlockPotDonationRow::storable(witness.1));
                Err(HandleError::Precision)
            },
        }
    }
}

/// The values of one row of the table `trade_pool`: a swap against a pool.
#[derive(Debug, PartialEq, Eq)]
pub struct TradeRawPoolSwapRow {
    pub timestamp: Option<Timestamp>,
    pub trader: String,
    pub transaction_id: String,
    pub receipt_id: String,
    pub block_height: u64,
    pub pool: String,
    pub token_in: String,
    pub token_out: String,
    pub amount_in: Amount,
    pub amount_out: Amount,
}

impl TradeRawPoolSwapRow {
    /// Every amount of the event survives the store's decimal type.
    pub open spec fn storable(e: TradeRawPoolSwapEvent) -> bool {
        &&& storable(e.0.amount_in)
        &&& storable(e.0.amount_out)
    }

    /// The row is the one that is stored for the event `e` with the context `c`.
    pub open spec fn holds(self, c: TradeContext, e: TradeRawPoolSwapEvent) -> bool {
        &&& self.timestamp == stored_timestamp(c.block_timestamp_nanosec)
        &&& self.trader == c.trader
        &&& self.transaction_id == c.transaction_id
        &&& self.receipt_id == c.receipt_id
        &&& self.block_height == c.block_height
        &&& self.pool == e.0.pool
        &&& self.token_in == e.0.token_in
        &&& self.token_out == e.0.token_out
        &&& self.amount_in.denotes(e.0.amount_in)
        &&& self.amount_out.denotes(e.0.amount_out)
        &&& Self::storable(e)
    }

    /// Normalises an event into its row. There is none exactly where an
    /// amount does not survive the store's decimal type.
    pub fn build(c: TradeContext, e: TradeRawPoolSwapEvent) -> (r: Option<Self>)
        ensures
            match r {
                Some(row) => row.holds(c, e),
                None => !Self::storable(e),
            },
    {
        let timestamp = timestamp_for_storage(c.block_timestamp_nanosec);
        let amount_in = Amount::normalize(e.0.amount_in)?;
        let amount_out = Amount::normalize(e.0.amount_out)?;
        Some(TradeRawPoolSwapRow {
            timestamp,
            trader: c.trader,
            transaction_id: c.transaction_id,
            receipt_id: c.receipt_id,
            block_height: c.block_height,
            pool: e.0.pool,
            token_in: e.0.token_in,
            token_out: e.0.token_out,
            amount_in,
            amount_out,
        })
    }
}

/// Reads records of the stream `trade_pool` into rows of the table of that name.
#[derive(Debug, Clone, Copy, PartialEq, Eq, Structural)]
pub struct TradeRawPoolSwapHandler;

impl TradeRawPoolSwapHandler {
    /// What `handle` returns for the record: the error of the first of the
    /// fields `context` and `swap` that carries no JSON; else a row that holds
    /// what the two write, or the reason why there is none.
    pub open spec fn handled(record: Record, r: Result<TradeRawPoolSwapRow, HandleError>) -> bool {
        match (record.payload("context"@), record.payload("swap"@)) {
            (Err(d), _) => r matches Err(HandleError::Decode(x)) && x == d,
            (Ok(_), Err(d)) => r matches Err(HandleError::Decode(x)) && x == d,
            (Ok(cj), Ok(ej)) => match r {
                Ok(row) => exists|c: TradeContext, e: TradeRawPoolSwapEvent|
                    c.decodes(cj) && e.decodes(ej) && #[trigger] row.holds(c, e),
                Err(HandleError::Decode(d)) => d == DecodeError::WrongShape && ((forall|
                    c: TradeContext,
                | !c.decodes(cj)) || (forall|
                    e: TradeRawPoolSwapEvent,
                | !e.decodes(ej))),
                Err(HandleError::Precision) => exists|c: TradeContext, e: TradeRawPoolSwapEvent|
                    #![trigger c.decodes(cj), e.decodes(ej)]
                    c.decodes(cj) && e.decodes(ej) && !TradeRawPoolSwapRow::storable(e),
            },
        }
    }

    /// Decodes a record of the stream and normalises it into the row to insert.
    pub fn handle(&self, record: &Record) -> (r: Result<TradeRawPoolSwapRow, HandleError>)
        ensures
            Self::handled(*record, r),
    {
        let cj = match record.read_payload("context") {
            Ok(j) => j,
            Err(d) => {
                return Err(HandleError::Decode(d));
            },
        };
        let ej = match record.read_payload("swap") {
            Ok(j) => j,
            Err(d) => {
                return Err(HandleError::Decode(d));
            },
        };
        let c = match TradeContext::decode(&cj) {
            Some(c) => c,
            None => {
                return Err(HandleError::Decode(DecodeError::WrongShape));
            },
        };
        let e = match TradeRawPoolSwapEvent::decode(&ej) {
            Some(e) => e,
            None => {
                return Err(HandleError::Decode(DecodeError::WrongShape));
            },
        };
        let ghost witness = (c, e);
        match TradeRawPoolSwapRow::build(c, e) {
            Some(row) => {
                assert(row.holds(witness.0, witness.1));
                Ok(row)
            },
            None => {
                assert(witness.0.decodes(cj) && witness.1.decodes(ej) && !TradeRawPoolSwapRow::storable(witness.1));
                Err(HandleError::Precision)
            },
        }
    }
}

/// The values of one row of the table `trade_swap`: a trade as a change of balances.
#[derive(Debug, PartialEq, Eq)]
pub struct TradeBalanceChangeSwapRow {
    pub timestamp: Option<Timestamp>,
    pub trader: String,
    pub transaction_id: String,
    pub receipt_id: String,
    pub block_height: u64,
    pub balance_changes: Vec<(String, String)>,
}

impl TradeBalanceChangeSwapRow {
    /// The row is the one that is stored for the event `e` with the context `c`.
    pub open spec fn holds(self, c: TradeContext, e: TradeBalanceChangeSwapEvent) -> bool {
        &&& self.timestamp == stored_timestamp(c.block_timestamp_nanosec)
        &&& self.trader == c.trader
        &&& self.transaction_id == c.transaction_id
        &&& self.receipt_id == c.receipt_id
        &&& self.block_height == c.block_height
        &&& changes_rendered(self.balance_changes@, e.balance_changes@)
    }

    /// Normalises an event into its row.
    pub fn build(c: TradeContext, e: TradeBalanceChangeSwapEvent) -> (r: Self)
        ensures
            r.holds(c, e),
    {
        let timestamp = timestamp_for_storage(c.block_timestamp_nanosec);
        let balance_changes = render_changes(&e.balance_changes);
        TradeBalanceChangeSwapRow {
            timestamp,
            trader: c.trader,
            transaction_id: c.transaction_id,
            receipt_id: c.receipt_id,
            block_height: c.block_height,
            balance_changes,
        }
    }
}

/// Reads records of the stream `trade_swap` into rows of the table of that name.
#[derive(Debug, Clone, Copy, PartialEq, Eq, Structural)]
pub struct TradeBalanceChangeSwapHandler;

impl TradeBalanceChangeSwapHandler {
    /// What `handle` returns for the record: the error of the first of the
    /// fields `context` and `balance_change` that carries no JSON; else a row that holds
    /// what the two write, or the reason why there is none.
    pub open spec fn handled(record: Record, r: Result<TradeBalanceChangeSwapRow, HandleError>) -> bool {
        match (record.payload("context"@), record.payload("balance_change"@)) {
            (Err(d), _) => r matches Err(HandleError::Decode(x)) && x == d,
            (Ok(_), Err(d)) => r matches Err(HandleError::Decode(x)) && x == d,
            (Ok(cj), Ok(ej)) => match r {
                Ok(row) => exists|c: TradeContext, e: TradeBalanceChangeSwapEvent|
                    c.decodes(cj) && e.decodes(ej) && #[trigger] row.holds(c, e),
                Err(HandleError::Decode(d)) => d == DecodeError::WrongShape && ((forall|
                    c: TradeContext,
                | !c.decodes(cj)) || (forall|
                    e: TradeBalanceChangeSwapEvent,
                | !e.decodes(ej))),
                Err(HandleError::Precision) => false,
            },
        }
    }

    /// Decodes a record of the stream and normalises it into the row to insert.
    pub fn handle(&self, record: &Record) -> (r: Result<TradeBalanceChangeSwapRow, HandleError>)
        ensures
            Self::handled(*record, r),
    {
        let cj = match record.read_payload("context") {
            Ok(j) => j,
            Err(d) => {
                return Err(HandleError::Decode(d));
            },
        };
        let ej = match record.read_payload("balance_change") {
            Ok(j) => j,
            Err(d) => {
                return Err(HandleError::Decode(d));
            },
        };
        let c = match TradeContext::decode(&cj) {
            Some(c) => c,
            None => {
                return Err(HandleError::Decode(DecodeError::WrongShape));
            },
        };
        let e = match TradeBalanceChangeSwapEvent::decode(&ej) {
            Some(e) => e,
            None => {
                return Err(HandleError::Decode(DecodeError::WrongShape));
            },
        };
        let ghost witness = (c, e);
        let row = TradeBalanceChangeSwapRow::build(c, e);
        assert(row.holds(witness.0, witness.1));
        Ok(row)
    }
}
/// The values of one row of the table `trade_pool_change`: the state of a
/// pool after a change.
#[derive(Debug, PartialEq, Eq)]
pub struct TradePoolChangeRow {
    pub timestamp: Option<Timestamp>,
    pub receipt_id: String,
    pub block_height: u64,
    pub pool_id: String,
    pub pool: Json,
}

impl TradePoolChangeRow {
    /// The row is the one that is stored for the event `e`.
    pub open spec fn holds(self, e: TradePoolChangeEvent) -> bool {
        &&& self.timestamp == stored_timestamp(e.block_timestamp_nanosec)
        &&& self.receipt_id == e.receipt_id
        &&& self.block_height == e.block_height
        &&& self.pool_id == e.pool_id
        &&& self.pool == e.pool
    }

    /// Normalises an event into its row.
    pub fn build(e: TradePoolChangeEvent) -> (r: Self)
        ensures
            r.holds(e),
    {
        let timestamp = timestamp_for_storage(e.block_timestamp_nanosec);
        TradePoolChangeRow {
            timestamp,
            receipt_id: e.receipt_id,
            block_height: e.block_height,
            pool_id: e.pool_id,
            pool: e.pool,
        }
    }
}

/// Reads records of the stream `trade_pool_change` into rows of the table of
/// that name.
#[derive(Debug, Clone, Copy, PartialEq, Eq, Structural)]
pub struct TradePoolChangeHandler;

impl TradePoolChangeHandler {
    /// What `handle` returns for the record: the error of the field
    /// `pool_change` where it carries no JSON; else a row that holds what it
    /// writes, or the reason why there is none.
    pub open spec fn handled(record: Record, r: Result<TradePoolChangeRow, HandleError>) -> bool {
        match record.payload("pool_change"@) {
            Err(d) => r matches Err(HandleError::Decode(x)) && x == d,
            Ok(ej) => match r {
                Ok(row) => exists|e: TradePoolChangeEvent| e.decodes(ej) && #[trigger] row.holds(e),
                Err(HandleError::Decode(d)) => d == DecodeError::WrongShape && forall|
                    e: TradePoolChangeEvent,
                | !e.decodes(ej),
                Err(HandleError::Precision) => false,
            },
        }
    }

    /// Decodes a record of the stream and normalises it into the row to insert.
    pub fn handle(&self, record: &Record) -> (r: Result<TradePoolChangeRow, HandleError>)
        ensures
            Self::handled(*record, r),
    {
        let ej = match record.read_payload("pool_change") {
            Ok(j) => j,
            Err(d) => {
                return Err(HandleError::Decode(d));
            },
        };
        let e = match TradePoolChangeEvent::decode(ej) {
            Some(e) => e,
            None => {
                return Err(HandleError::Decode(DecodeError::WrongShape));
            },
        };
        let ghost witness = e;
        let row = TradePoolChangeRow::build(e);
        assert(row.holds(witness));
        Ok(row)
    }
}

} // verus!
