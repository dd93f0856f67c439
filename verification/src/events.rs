//! The events of each kind, and how each is read from the JSON that a record
//! carries.

use vstd::prelude::*;
use vstd::string::*;
use crate::json::{
    amount_at, as_change, i64_at, opt_text_at, opt_u128_at, price_views, prices_at, text_at,
    text_view, texts, texts_at, u64_at,
};
use crate::json::{
    change_of, read_amount, read_i64, read_opt_text, read_opt_u128, read_prices, read_text,
    read_texts, read_u64, take_member, Json,
};
use crate::time::{accept_millis, accepted_millis};

verus! {

/// A required member that is a count of milliseconds since the epoch for
/// which the calendar has an instant.
pub open spec fn millis_at(j: Json, key: Seq<char>) -> Option<i64> {
    accepted_millis(i64_at(j, key))
}

/// Reads a required member that is a count of milliseconds since the epoch.
pub fn read_millis(j: &Json, key: &str) -> (r: Option<i64>)
    ensures
        r == millis_at(*j, key@),
{
    accept_millis(read_i64(j, key))
}

/// What every NFT event carries besides its body.
#[derive(Debug, PartialEq, Eq)]
pub struct NftEventContext {
    /// The transaction that led to the event.
    pub transaction_id: String,
    /// The receipt in which the event was logged.
    pub receipt_id: String,
    /// The height of the block that holds the receipt.
    pub block_height: u64,
    /// The block's time, in nanoseconds since the epoch.
    pub block_timestamp_nanosec: u128,
    /// The account of the contract that logged the event.
    pub contract_id: String,
}

impl NftEventContext {
    /// The event is what the JSON object `j` writes, member by member.
    pub open spec fn decodes(self, j: Json) -> bool {
        &&& text_at(j, "transaction_id"@) == Some(self.transaction_id@)
        &&& text_at(j, "receipt_id"@) == Some(self.receipt_id@)
        &&& u64_at(j, "block_height"@) == Some(self.block_height)
        &&& amount_at(j, "block_timestamp_nanosec"@) == Some(self.block_timestamp_nanosec)
        &&& text_at(j, "contract_id"@) == Some(self.contract_id@)
    }

    /// Reads the event from a JSON object. There is a result exactly where
    /// every required member is there and every member has its type.
    pub fn decode(j: &Json) -> (r: Option<Self>)
        ensures
            match r {
                Some(e) => e.decodes(*j),
                None => forall|e: Self| !e.decodes(*j),
            },
    {
        let transaction_id = read_text(j, "transaction_id")?;
        let receipt_id = read_text(j, "receipt_id")?;
        let block_height = read_u64(j, "block_height")?;
        let block_timestamp_nanosec = read_amount(j, "block_timestamp_nanosec")?;
        let contract_id = read_text(j, "contract_id")?;
        Some(NftEventContext {
            transaction_id,
            receipt_id,
            block_height,
            block_timestamp_nanosec,
            contract_id,
        })
    }
}

/// Tokens came into being.
#[derive(Debug, PartialEq, Eq)]
pub struct NftMintEvent {
    /// The account that owns the new tokens.
    pub owner_id: String,
    /// The new tokens.
    pub token_ids: Vec<String>,
    /// A note, if the contract left one.
    pub memo: Option<String>,
}

impl NftMintEvent {
    /// The event is what the JSON object `j` writes, member by member.
    pub open spec fn decodes(self, j: Json) -> bool {
        &&& text_at(j, "owner_id"@) == Some(self.owner_id@)
        &&& texts_at(j, "token_ids"@) == Some(texts(self.token_ids@))
        &&& opt_text_at(j, "memo"@) == Some(text_view(self.memo))
    }

    /// Reads the event from a JSON object. There is a result exactly where
    /// every required member is there and every member has its type.
    pub fn decode(j: &Json) -> (r: Option<Self>)
        ensures
            match r {
                Some(e) => e.decodes(*j),
                None => forall|e: Self| !e.decodes(*j),
            },
    {
        let owner_id = read_text(j, "owner_id")?;
        let token_ids = read_texts(j, "token_ids")?;
        let memo = read_opt_text(j, "memo")?;
        Some(NftMintEvent {
            owner_id,
            token_ids,
            memo,
        })
    }
}

/// Tokens changed hands.
#[derive(Debug, PartialEq, Eq)]
pub struct NftTransferEvent {
    /// The account that gave the tokens.
    pub old_owner_id: String,
    /// The account that got them.
    pub new_owner_id: String,
    /// The tokens.
    pub token_ids: Vec<String>,
    /// A note, if the contract left one.
    pub memo: Option<String>,
    /// What was paid for each token, where that is known.
    pub token_prices_near: Vec<Option<String>>,
}

impl NftTransferEvent {
    /// The event is what the JSON object `j` writes, member by member.
    pub open spec fn decodes(self, j: Json) -> bool {
        &&& text_at(j, "old_owner_id"@) == Some(self.old_owner_id@)
        &&& text_at(j, "new_owner_id"@) == Some(self.new_owner_id@)
        &&& texts_at(j, "token_ids"@) == Some(texts(self.token_ids@))
        &&& opt_text_at(j, "memo"@) == Some(text_view(self.memo))
        &&& prices_at(j, "token_prices_near"@) == Some(price_views(self.token_prices_near@))
    }

    /// Reads the event from a JSON object. There is a result exactly where
    /// every required member is there and every member has its type.
    pub fn decode(j: &Json) -> (r: Option<Self>)
        ensures
            match r {
                Some(e) => e.decodes(*j),
                None => forall|e: Self| !e.decodes(*j),
            },
    {
        let old_owner_id = read_text(j, "old_owner_id")?;
        let new_owner_id = read_text(j, "new_owner_id")?;
        let token_ids = read_texts(j, "token_ids")?;
        let memo = read_opt_text(j, "memo")?;
        let token_prices_near = read_prices(j, "token_prices_near")?;
        Some(NftTransferEvent {
            old_owner_id,
            new_owner_id,
            token_ids,
            memo,
            token_prices_near,
        })
    }
}

/// Tokens ceased to be.
#[derive(Debug, PartialEq, Eq)]
pub struct NftBurnEvent {
    /// The account that owned the tokens.
    pub owner_id: String,
    /// The tokens.
    pub token_ids: Vec<String>,
    /// A note, if the contract left one.
    pub memo: Option<String>,
}

impl NftBurnEvent {
    /// The event is what the JSON object `j` writes, member by member.
    pub open spec fn decodes(self, j: Json) -> bool {
        &&& text_at(j, "owner_id"@) == Some(self.owner_id@)
        &&& texts_at(j, "token_ids"@) == Some(texts(self.token_ids@))
        &&& opt_text_at(j, "memo"@) == Some(text_view(self.memo))
    }

    /// Reads the event from a JSON object. There is a result exactly where
    /// every required member is there and every member has its type.
    pub fn decode(j: &Json) -> (r: Option<Self>)
        ensures
            match r {
                Some(e) => e.decodes(*j),
                None => forall|e: Self| !e.decodes(*j),
            },
    {
        let owner_id = read_text(j, "owner_id")?;
        let token_ids = read_texts(j, "token_ids")?;
        let memo = read_opt_text(j, "memo")?;
        Some(NftBurnEvent {
            owner_id,
            token_ids,
            memo,
        })
    }
}

/// What every donation event carries besides its body.
#[derive(Debug, PartialEq, Eq)]
pub struct PotlockEventContext {
    /// The transaction that led to the event.
    pub transaction_id: String,
    /// The receipt in which the event was logged.
    pub receipt_id: String,
    /// The height of the block that holds the receipt.
    pub block_height: u64,
    /// The block's time, in nanoseconds since the epoch.
    pub block_timestamp_nanosec: u128,
}

impl PotlockEventContext {
    /// The event is what the JSON object `j` writes, member by member.
    pub open spec fn decodes(self, j: Json) -> bool {
        &&& text_at(j, "transaction_id"@) == Some(self.transaction_id@)
        &&& text_at(j, "receipt_id"@) == Some(self.receipt_id@)
        &&& u64_at(j, "block_height"@) == Some(self.block_height)
        &&& amount_at(j, "block_timestamp_nanosec"@) == Some(self.block_timestamp_nanosec)
    }

    /// Reads the event from a JSON object. There is a result exactly where
    /// every required member is there and every member has its type.
    pub fn decode(j: &Json) -> (r: Option<Self>)
        ensures
            match r {
                Some(e) => e.decodes(*j),
                None => forall|e: Self| !e.decodes(*j),
            },
    {
        let transaction_id = read_text(j, "transaction_id")?;
        let receipt_id = read_text(j, "receipt_id")?;
        let block_height = read_u64(j, "block_height")?;
        let block_timestamp_nanosec = read_amount(j, "block_timestamp_nanosec")?;
        Some(PotlockEventContext {
            transaction_id,
            receipt_id,
            block_height,
            block_timestamp_nanosec,
        })
    }
}

/// A donation made to a project directly.
#[derive(Debug, PartialEq, Eq)]
pub struct PotlockDonationEvent {
    /// The donation's number on its contract.
    pub donation_id: u64,
    /// The account that gave.
    pub donor_id: String,
    /// All that was given, in the token's smallest unit.
    pub total_amount: u128,
    /// The token that was given.
    pub ft_id: String,
    /// The donor's message, if any.
    pub message: Option<String>,
    /// When it was given, in milliseconds since the epoch.
    pub donated_at: i64,
    /// The project that received.
    pub project_id: String,
    /// The part that went to the protocol.
    pub protocol_fee: u128,
    /// The account that referred the donor, if any.
    pub referrer_id: Option<String>,
    /// The part that went to the referrer, if any.
    pub referrer_fee: Option<u128>,
}

impl PotlockDonationEvent {
    /// The event is what the JSON object `j` writes, member by member.
    pub open spec fn decodes(self, j: Json) -> bool {
        &&& u64_at(j, "donation_id"@) == Some(self.donation_id)
        &&& text_at(j, "donor_id"@) == Some(self.donor_id@)
        &&& amount_at(j, "total_amount"@) == Some(self.total_amount)
        &&& text_at(j, "ft_id"@) == Some(self.ft_id@)
        &&& opt_text_at(j, "message"@) == Some(text_view(self.message))
        &&& millis_at(j, "donated_at"@) == Some(self.donated_at)
        &&& text_at(j, "project_id"@) == Some(self.project_id@)
        &&& amount_at(j, "protocol_fee"@) == Some(self.protocol_fee)
        &&& opt_text_at(j, "referrer_id"@) == Some(text_view(self.referrer_id))
        &&& opt_u128_at(j, "referrer_fee"@) == Some(self.referrer_fee)
    }

    /// Reads the event from a JSON object. There is a result exactly where
    /// every required member is there and every member has its type.
    pub fn decode(j: &Json) -> (r: Option<Self>)
        ensures
            match r {
                Some(e) => e.decodes(*j),
                None => forall|e: Self| !e.decodes(*j),
            },
    {
        let donation_id = read_u64(j, "donation_id")?;
        let donor_id = read_text(j, "donor_id")?;
        let total_amount = read_amount(j, "total_amount")?;
        let ft_id = read_text(j, "ft_id")?;
        let message = read_opt_text(j, "message")?;
        let donated_at = read_millis(j, "donated_at")?;
        let project_id = read_text(j, "project_id")?;
        let protocol_fee = read_amount(j, "protocol_fee")?;
        let referrer_id = read_opt_text(j, "referrer_id")?;
        let referrer_fee = read_opt_u128(j, "referrer_fee")?;
        Some(PotlockDonationEvent {
            donation_id,
            donor_id,
            total_amount,
            ft_id,
            message,
            donated_at,
            project_id,
            protocol_fee,
            referrer_id,
            referrer_fee,
        })
    }
}

/// A donation made to a project through a pot.
#[derive(Debug, PartialEq, Eq)]
pub struct PotlockPotProjectDonationEvent {
    /// The donation's number on its contract.
    pub donation_id: u64,
    /// The pot.
    pub pot_id: String,
    /// The account that gave.
    pub donor_id: String,
    /// All that was given, in the token's smallest unit.
    pub total_amount: u128,
    /// What was left after the fees.
    pub net_amount: u128,
    /// The donor's message, if any.
    pub message: Option<String>,
    /// When it was given, in milliseconds since the epoch.
    pub donated_at: i64,
    /// The project that received.
    pub project_id: String,
    /// The account that referred the donor, if any.
    pub referrer_id: Option<String>,
    /// The part that went to the referrer, if any.
    pub referrer_fee: Option<u128>,
    /// The part that went to the protocol.
    pub protocol_fee: u128,
    /// The account that runs the pot, if it took a fee.
    pub chef_id: Option<String>,
    /// The part that went to that account, if any.
    pub chef_fee: Option<u128>,
}

impl PotlockPotProjectDonationEvent {
    /// The event is what the JSON object `j` writes, member by member.
    pub open spec fn decodes(self, j: Json) -> bool {
        &&& u64_at(j, "donation_id"@) == Some(self.donation_id)
        &&& text_at(j, "pot_id"@) == Some(self.pot_id@)
        &&& text_at(j, "donor_id"@) == Some(self.donor_id@)
        &&& amount_at(j, "total_amount"@) == Some(self.total_amount)
        &&& amount_at(j, "net_amount"@) == Some(self.net_amount)
        &&& opt_text_at(j, "message"@) == Some(text_view(self.message))
        &&& millis_at(j, "donated_at"@) == Some(self.donated_at)
        &&& text_at(j, "project_id"@) == Some(self.project_id@)
        &&& opt_text_at(j, "referrer_id"@) == Some(text_view(self.referrer_id))
        &&& opt_u128_at(j, "referrer_fee"@) == Some(self.referrer_fee)
        &&& amount_at(j, "protocol_fee"@) == Some(self.protocol_fee)
        &&& opt_text_at(j, "chef_id"@) == Some(text_view(self.chef_id))
        &&& opt_u128_at(j, "chef_fee"@) == Some(self.chef_fee)
    }

    /// Reads the event from a JSON object. There is a result exactly where
    /// every required member is there and every member has its type.
    pub fn decode(j: &Json) -> (r: Option<Self>)
        ensures
            match r {
                Some(e) => e.decodes(*j),
                None => forall|e: Self| !e.decodes(*j),
            },
    {
        let donation_id = read_u64(j, "donation_id")?;
        let pot_id = read_text(j, "pot_id")?;
        let donor_id = read_text(j, "donor_id")?;
        let total_amount = read_amount(j, "total_amount")?;
        let net_amount = read_amount(j, "net_amount")?;
        let message = read_opt_text(j, "message")?;
        let donated_at = read_millis(j, "donated_at")?;
        let project_id = read_text(j, "project_id")?;
        let referrer_id = read_opt_text(j, "referrer_id")?;
        let referrer_fee = read_opt_u128(j, "referrer_fee")?;
        let protocol_fee = read_amount(j, "protocol_fee")?;
        let chef_id = read_opt_text(j, "chef_id")?;
        let chef_fee = read_opt_u128(j, "chef_fee")?;
        Some(PotlockPotProjectDonationEvent {
            donation_id,
            pot_id,
            donor_id,
            total_amount,
            net_amount,
            message,
            donated_at,
            project_id,
            referrer_id,
            referrer_fee,
            protocol_fee,
            chef_id,
            chef_fee,
        })
    }
}

/// A donation made to a pot as a whole.
#[derive(Debug, PartialEq, Eq)]
pub struct PotlockPotDonationEvent {
    /// The donation's number on its contract.
    pub donation_id: u64,
    /// The pot.
    pub pot_id: String,
    /// The account that gave.
    pub donor_id: String,
    /// All that was given, in the token's smallest unit.
    pub total_amount: u128,
    /// What was left after the fees.
    pub net_amount: u128,
    /// The donor's message, if any.
    pub message: Option<String>,
    /// When it was given, in milliseconds since the epoch.
    pub donated_at: i64,
    /// The account that referred the donor, if any.
    pub referrer_id: Option<String>,
    /// The part that went to the referrer, if any.
    pub referrer_fee: Option<u128>,
    /// The part that went to the protocol.
    pub protocol_fee: u128,
    /// The account that runs the pot, if it took a fee.
    pub chef_id: Option<String>,
    /// The part that went to that account, if any.
    pub chef_fee: Option<u128>,
}

impl PotlockPotDonationEvent {
    /// The event is what the JSON object `j` writes, member by member.
    pub open spec fn decodes(self, j: Json) -> bool {
        &&& u64_at(j, "donation_id"@) == Some(self.donation_id)
        &&& text_at(j, "pot_id"@) == Some(self.pot_id@)
        &&& text_at(j, "donor_id"@) == Some(self.donor_id@)
        &&& amount_at(j, "total_amount"@) == Some(self.total_amount)
        &&& amount_at(j, "net_amount"@) == Some(self.net_amount)
        &&& opt_text_at(j, "message"@) == Some(text_view(self.message))
        &&& millis_at(j, "donated_at"@) == Some(self.donated_at)
        &&& opt_text_at(j, "referrer_id"@) == Some(text_view(self.referrer_id))
        &&& opt_u128_at(j, "referrer_fee"@) == Some(self.referrer_fee)
        &&& amount_at(j, "protocol_fee"@) == Some(self.protocol_fee)
        &&& opt_text_at(j, "chef_id"@) == Some(text_view(self.chef_id))
        &&& opt_u128_at(j, "chef_fee"@) == Some(self.chef_fee)
    }

    /// Reads the event from a JSON object. There is a result exactly where
    /// every required member is there and every member has its type.
    pub fn decode(j: &Json) -> (r: Option<Self>)
        ensures
            match r {
                Some(e) => e.decodes(*j),
                None => forall|e: Self| !e.decodes(*j),
            },
    {
        let donation_id = read_u64(j, "donation_id")?;
        let pot_id = read_text(j, "pot_id")?;
        let donor_id = read_text(j, "donor_id")?;
        let total_amount = read_amount(j, "total_amount")?;
        let net_amount = read_amount(j, "net_amount")?;
        let message = read_opt_text(j, "message")?;
        let donated_at = read_millis(j, "donated_at")?;
        let referrer_id = read_opt_text(j, "referrer_id")?;
        let referrer_fee = read_opt_u128(j, "referrer_fee")?;
        let protocol_fee = read_amount(j, "protocol_fee")?;
        let chef_id = read_opt_text(j, "chef_id")?;
        let chef_fee = read_opt_u128(j, "chef_fee")?;
        Some(PotlockPotDonationEvent {
            donation_id,
            pot_id,
            donor_id,
            total_amount,
            net_amount,
            message,
            donated_at,
            referrer_id,
            referrer_fee,
            protocol_fee,
            chef_id,
            chef_fee,
        })
    }
}

/// What every trade event carries besides its body.
#[derive(Debug, PartialEq, Eq)]
pub struct TradeContext {
    /// The account that traded.
    pub trader: String,
    /// The height of the block that holds the receipt.
    pub block_height: u64,
    /// The block's time, in nanoseconds since the epoch.
    pub block_timestamp_nanosec: u128,
    /// The transaction that led to the event.
    pub transaction_id: String,
    /// The receipt in which the event was logged.
    pub receipt_id: String,
}

impl TradeContext {
    /// The event is what the JSON object `j` writes, member by member.
    pub open spec fn decodes(self, j: Json) -> bool {
        &&& text_at(j, "trader"@) == Some(self.trader@)
        &&& u64_at(j, "block_height"@) == Some(self.block_height)
        &&& amount_at(j, "block_timestamp_nanosec"@) == Some(self.block_timestamp_nanosec)
        &&& text_at(j, "transaction_id"@) == Some(self.transaction_id@)
        &&& text_at(j, "receipt_id"@) == Some(self.receipt_id@)
    }

    /// Reads the event from a JSON object. There is a result exactly where
    /// every required member is there and every member has its type.
    pub fn decode(j: &Json) -> (r: Option<Self>)
        ensures
            match r {
                Some(e) => e.decodes(*j),
                None => forall|e: Self| !e.decodes(*j),
            },
    {
        let trader = read_text(j, "trader")?;
        let block_height = read_u64(j, "block_height")?;
        let block_timestamp_nanosec = read_amount(j, "block_timestamp_nanosec")?;
        let transaction_id = read_text(j, "transaction_id")?;
        let receipt_id = read_text(j, "receipt_id")?;
        Some(TradeContext {
            trader,
            block_height,
            block_timestamp_nanosec,
            transaction_id,
            receipt_id,
        })
    }
}

/// One swap against one pool.
#[derive(Debug, PartialEq, Eq)]
pub struct RawPoolSwap {
    /// The pool.
    pub pool: String,
    /// The token that went in.
    pub token_in: String,
    /// The token that came out.
    pub token_out: String,
    /// How much went in.
    pub amount_in: u128,
    /// How much came out.
    pub amount_out: u128,
}

impl RawPoolSwap {
    /// The event is what the JSON object `j` writes, member by member.
    pub open spec fn decodes(self, j: Json) -> bool {
        &&& text_at(j, "pool"@) == Some(self.pool@)
        &&& text_at(j, "token_in"@) == Some(self.token_in@)
        &&& text_at(j, "token_out"@) == Some(self.token_out@)
        &&& amount_at(j, "amount_in"@) == Some(self.amount_in)
        &&& amount_at(j, "amount_out"@) == Some(self.amount_out)
    }

    /// Reads the event from a JSON object. There is a result exactly where
    /// every required member is there and every member has its type.
    pub fn decode(j: &Json) -> (r: Option<Self>)
        ensures
            match r {
                Some(e) => e.decodes(*j),
                None => forall|e: Self| !e.decodes(*j),
            },
    {
        let pool = read_text(j, "pool")?;
        let token_in = read_text(j, "token_in")?;
        let token_out = read_text(j, "token_out")?;
        let amount_in = read_amount(j, "amount_in")?;
        let amount_out = read_amount(j, "amount_out")?;
        Some(RawPoolSwap {
            pool,
            token_in,
            token_out,
            amount_in,
            amount_out,
        })
    }
}
/// One swap against one pool, as the stream of pool swaps carries it.
#[derive(Debug, PartialEq, Eq)]
pub struct TradeRawPoolSwapEvent(pub RawPoolSwap);

impl TradeRawPoolSwapEvent {
    /// The event is the swap that the JSON object `j` writes.
    pub open spec fn decodes(self, j: Json) -> bool {
        self.0.decodes(j)
    }

    /// Reads the event from a JSON object: the object is the swap itself.
    pub fn decode(j: &Json) -> (r: Option<Self>)
        ensures
            match r {
                Some(e) => e.decodes(*j),
                None => forall|e: Self| !e.decodes(*j),
            },
    {
        match RawPoolSwap::decode(j) {
            Some(swap) => Some(TradeRawPoolSwapEvent(swap)),
            None => {
                assert forall|e: Self| !e.decodes(*j) by {
                    assert(!e.0.decodes(*j));
                }
                None
            },
        }
    }
}

/// The account and the signed amount of each member are those that the
/// members of a JSON object write, in the same order.
pub open spec fn changes_written(changes: Seq<(String, i128)>, members: Seq<(String, Json)>) -> bool {
    &&& changes.len() == members.len()
    &&& forall|i: int|
        0 <= i < members.len() ==> (#[trigger] changes[i]).0@ == members[i].0@ && as_change(
            members[i].1,
        ) == Some(changes[i].1)
}

/// Each swap is the one that the JSON value at the same place writes.
pub open spec fn swaps_written(swaps: Seq<RawPoolSwap>, items: Seq<Json>) -> bool {
    &&& swaps.len() == items.len()
    &&& forall|i: int| 0 <= i < items.len() ==> (#[trigger] swaps[i]).decodes(items[i])
}

/// A trade as the change it made to the trader's balances, with the swaps it
/// went through.
#[derive(Debug, PartialEq, Eq)]
pub struct TradeBalanceChangeSwapEvent {
    /// By how much the balance of each token changed.
    pub balance_changes: Vec<(String, i128)>,
    /// The swaps, in the order in which they were made.
    pub pool_swaps: Vec<RawPoolSwap>,
}

/// Reads the members of a JSON object as balance changes: each value is a
/// JSON string that writes a signed integer.
pub fn deserialize_balance_changes(members: &Vec<(String, Json)>) -> (r: Option<Vec<(String, i128)>>)
    ensures
        match r {
            Some(changes) => changes_written(changes@, members@),
            None => forall|changes: Seq<(String, i128)>| !changes_written(changes, members@),
        },
{
    let mut out: Vec<(String, i128)> = Vec::new();
    let mut i: usize = 0;
    while i < members.len()
        invariant
            i <= members@.len(),
            out@.len() == i,
            forall|k: int|
                0 <= k < i ==> (#[trigger] out@[k]).0@ == members@[k].0@ && as_change(
                    members@[k].1,
                ) == Some(out@[k].1),
        decreases members@.len() - i,
    {
        match change_of(&members[i].1) {
            Some(change) => {
                out.push((members[i].0.clone(), change));
            },
            None => {
                assert forall|changes: Seq<(String, i128)>| !changes_written(changes, members@) by {
                    if changes_written(changes, members@) {
                        assert(as_change(members@[i as int].1) == Some(changes[i as int].1));
                    }
                }
                return None;
            },
        }
        i = i + 1;
    }
    Some(out)
}

/// Reads the items of a JSON array as swaps.
pub fn decode_swaps(items: &Vec<Json>) -> (r: Option<Vec<RawPoolSwap>>)
    ensures
        match r {
            Some(swaps) => swaps_written(swaps@, items@),
            None => forall|swaps: Seq<RawPoolSwap>| !swaps_written(swaps, items@),
        },
{
    let mut out: Vec<RawPoolSwap> = Vec::new();
    let mut i: usize = 0;
    while i < items.len()
        invariant
            i <= items@.len(),
            out@.len() == i,
            forall|k: int| 0 <= k < i ==> (#[trigger] out@[k]).decodes(items@[k]),
        decreases items@.len() - i,
    {
        match RawPoolSwap::decode(&items[i]) {
            Some(swap) => {
                out.push(swap);
            },
            None => {
                assert forall|swaps: Seq<RawPoolSwap>| !swaps_written(swaps, items@) by {
                    if swaps_written(swaps, items@) {
                        assert(swaps[i as int].decodes(items@[i as int]));
                    }
                }
                return None;
            },
        }
        i = i + 1;
    }
    Some(out)
}

impl TradeBalanceChangeSwapEvent {
    /// The event is what the JSON object `j` writes: an object of balance
    /// changes and an array of swaps.
    pub open spec fn decodes(self, j: Json) -> bool {
        &&& j.field("balance_changes"@) matches Some(Json::Object(members)) && changes_written(
            self.balance_changes@,
            members@,
        )
        &&& j.field("pool_swaps"@) matches Some(Json::Array(items)) && swaps_written(
            self.pool_swaps@,
            items@,
        )
    }

    /// Reads the event from a JSON object. There is a result exactly where
    /// both members are there, every balance change is a string that writes
    /// a signed integer, and every swap reads as a swap.
    pub fn decode(j: &Json) -> (r: Option<Self>)
        ensures
            match r {
                Some(e) => e.decodes(*j),
                None => forall|e: Self| !e.decodes(*j),
            },
    {
        let balance_changes = match j.get("balance_changes") {
            Some(Json::Object(members)) => deserialize_balance_changes(members)?,
            _ => {
                return None;
            },
        };
        let pool_swaps = match j.get("pool_swaps") {
            Some(Json::Array(items)) => decode_swaps(items)?,
            _ => {
                return None;
            },
        };
        Some(TradeBalanceChangeSwapEvent { balance_changes, pool_swaps })
    }
}

/// The state of a pool after a change, with the state itself kept as the
/// JSON it came in.
#[derive(Debug, PartialEq, Eq)]
pub struct TradePoolChangeEvent {
    /// The pool.
    pub pool_id: String,
    /// The receipt in which the change was logged.
    pub receipt_id: String,
    /// The block's time, in nanoseconds since the epoch.
    pub block_timestamp_nanosec: u128,
    /// The height of the block that holds the receipt.
    pub block_height: u64,
    /// The pool's state, whatever its shape.
    pub pool: Json,
}

impl TradePoolChangeEvent {
    /// The event is what the JSON object `j` writes, member by member.
    pub open spec fn decodes(self, j: Json) -> bool {
        &&& text_at(j, "pool_id"@) == Some(self.pool_id@)
        &&& text_at(j, "receipt_id"@) == Some(self.receipt_id@)
        &&& amount_at(j, "block_timestamp_nanosec"@) == Some(self.block_timestamp_nanosec)
        &&& u64_at(j, "block_height"@) == Some(self.block_height)
        &&& j.field("pool"@) == Some(self.pool)
    }

    /// Reads the event from a JSON object, which it takes apart: the pool's
    /// state is moved out of it. There is a result exactly where every
    /// member is there and the first four have their types.
    pub fn decode(j: Json) -> (r: Option<Self>)
        ensures
            match r {
                Some(e) => e.decodes(j),
                None => forall|e: Self| !e.decodes(j),
            },
    {
        let pool_id = read_text(&j, "pool_id")?;
        let receipt_id = read_text(&j, "receipt_id")?;
        let block_timestamp_nanosec = read_amount(&j, "block_timestamp_nanosec")?;
        let block_height = read_u64(&j, "block_height")?;
        let pool = take_member(j, "pool")?;
        Some(TradePoolChangeEvent { pool_id, receipt_id, block_timestamp_nanosec, block_height, pool })
    }
}

} // verus!
