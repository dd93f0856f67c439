//! The streams that are consumed, and the handler that each is bound to.

use vstd::prelude::*;
use vstd::string::*;
use crate::handlers::HandleError;
use crate::handlers::{
    NftBurnHandler, NftBurnRow, NftMintHandler, NftMintRow, NftTransferHandler, NftTransferRow,
    PotlockDonationHandler, PotlockDonationRow, PotlockPotDonationHandler, PotlockPotDonationRow,
    PotlockPotProjectDonationHandler, PotlockPotProjectDonationRow,
    TradeBalanceChangeSwapHandler, TradeBalanceChangeSwapRow, TradePoolChangeHandler,
    TradePoolChangeRow, TradeRawPoolSwapHandler, TradeRawPoolSwapRow,
};
use crate::json::same_text;
use crate::record::Record;

verus! {

/// The kinds of event, one for each stream.
#[derive(Debug, Clone, Copy, PartialEq, Eq, Structural)]
pub enum EventKind {
    NftMint,
    NftTransfer,
    NftBurn,
    PotlockDonation,
    PotlockPotProjectDonation,
    PotlockPotDonation,
    TradeRawPoolSwap,
    TradeBalanceChangeSwap,
    TradePoolChange,
}

/// A row of one of the tables.
#[derive(Debug, PartialEq, Eq)]
pub enum Row {
    NftMint(NftMintRow),
    NftTransfer(NftTransferRow),
    NftBurn(NftBurnRow),
    PotlockDonation(PotlockDonationRow),
    PotlockPotProjectDonation(PotlockPotProjectDonationRow),
    PotlockPotDonation(PotlockPotDonationRow),
    TradeRawPoolSwap(TradeRawPoolSwapRow),
    TradeBalanceChangeSwap(TradeBalanceChangeSwapRow),
    TradePoolChange(TradePoolChangeRow),
}

impl EventKind {
    /// The name of the stream that carries the events of this kind.
    pub open spec fn stream_name(self) -> Seq<char> {
        match self {
            EventKind::NftMint => "nft_mint"@,
            EventKind::NftTransfer => "nft_transfer"@,
            EventKind::NftBurn => "nft_burn"@,
            EventKind::PotlockDonation => "potlock_donation"@,
            EventKind::PotlockPotProjectDonation => "potlock_pot_project_donation"@,
            EventKind::PotlockPotDonation => "potlock_pot_donation"@,
            EventKind::TradeRawPoolSwap => "trade_pool"@,
            EventKind::TradeBalanceChangeSwap => "trade_swap"@,
            EventKind::TradePoolChange => "trade_pool_change"@,
        }
    }

    /// The name of the stream that carries the events of this kind.
    pub fn stream(self) -> (r: &'static str)
        ensures
            r@ == self.stream_name(),
    {
        match self {
            EventKind::NftMint => "nft_mint",
            EventKind::NftTransfer => "nft_transfer",
            EventKind::NftBurn => "nft_burn",
            EventKind::PotlockDonation => "potlock_donation",
            EventKind::PotlockPotProjectDonation => "potlock_pot_project_donation",
            EventKind::PotlockPotDonation => "potlock_pot_donation",
            EventKind::TradeRawPoolSwap => "trade_pool",
            EventKind::TradeBalanceChangeSwap => "trade_swap",
            EventKind::TradePoolChange => "trade_pool_change",
        }
    }

    /// The kind that a stream name is bound to, if it is the name of a
    /// stream.
    pub open spec fn named(name: Seq<char>) -> Option<EventKind> {
        if name == "nft_mint"@ {
            Some(EventKind::NftMint)
        } else if name == "nft_transfer"@ {
            Some(EventKind::NftTransfer)
        } else if name == "nft_burn"@ {
            Some(EventKind::NftBurn)
        } else if name == "potlock_donation"@ {
            Some(EventKind::PotlockDonation)
        } else if name == "potlock_pot_project_donation"@ {
            Some(EventKind::PotlockPotProjectDonation)
        } else if name == "potlock_pot_donation"@ {
            Some(EventKind::PotlockPotDonation)
        } else if name == "trade_pool"@ {
            Some(EventKind::TradeRawPoolSwap)
        } else if name == "trade_swap"@ {
            Some(EventKind::TradeBalanceChangeSwap)
        } else if name == "trade_pool_change"@ {
            Some(EventKind::TradePoolChange)
        } else {
            None
        }
    }

    /// The kind that is bound to a stream; none where the name is that of no
    /// stream, which is an error in the configuration.
    pub fn of_stream(name: &str) -> (r: Option<EventKind>)
        ensures
            r == Self::named(name@),
    {
        if same_text(name, "nft_mint") {
            Some(EventKind::NftMint)
        } else if same_text(name, "nft_transfer") {
            Some(EventKind::NftTransfer)
        } else if same_text(name, "nft_burn") {
            Some(EventKind::NftBurn)
        } else if same_text(name, "potlock_donation") {
            Some(EventKind::PotlockDonation)
        } else if same_text(name, "potlock_pot_project_donation") {
            Some(EventKind::PotlockPotProjectDonation)
        } else if same_text(name, "potlock_pot_donation") {
            Some(EventKind::PotlockPotDonation)
        } else if same_text(name, "trade_pool") {
            Some(EventKind::TradeRawPoolSwap)
        } else if same_text(name, "trade_swap") {
            Some(EventKind::TradeBalanceChangeSwap)
        } else if same_text(name, "trade_pool_change") {
            Some(EventKind::TradePoolChange)
        } else {
            None
        }
    }

    /// What `dispatch` returns for a record of this kind: what the handler
    /// of the kind returns, with the row under the name of the kind.
    pub open spec fn dispatched(self, record: Record, r: Result<Row, HandleError>) -> bool {
        match self {
            EventKind::NftMint => match r {
                Ok(Row::NftMint(row)) => NftMintHandler::handled(record, Ok(row)),
                Ok(_) => false,
                Err(e) => NftMintHandler::handled(record, Err(e)),
            },
            EventKind::NftTransfer => match r {
                Ok(Row::NftTransfer(row)) => NftTransferHandler::handled(record, Ok(row)),
                Ok(_) => false,
                Err(e) => NftTransferHandler::handled(record, Err(e)),
            },
            EventKind::NftBurn => match r {
                Ok(Row::NftBurn(row)) => NftBurnHandler::handled(record, Ok(row)),
                Ok(_) => false,
                Err(e) => NftBurnHandler::handled(record, Err(e)),
            },
            EventKind::PotlockDonation => match r {
                Ok(Row::PotlockDonation(row)) => PotlockDonationHandler::handled(record, Ok(row)),
                Ok(_) => false,
                Err(e) => PotlockDonationHandler::handled(record, Err(e)),
            },
            EventKind::PotlockPotProjectDonation => match r {
                Ok(Row::PotlockPotProjectDonation(row)) => PotlockPotProjectDonationHandler::handled(record, Ok(row)),
                Ok(_) => false,
                Err(e) => PotlockPotProjectDonationHandler::handled(record, Err(e)),
            },
            EventKind::PotlockPotDonation => match r {
                Ok(Row::PotlockPotDonation(row)) => PotlockPotDonationHandler::handled(record, Ok(row)),
                Ok(_) => false,
                Err(e) => PotlockPotDonationHandler::handled(record, Err(e)),
            },
            EventKind::TradeRawPoolSwap => match r {
                Ok(Row::TradeRawPoolSwap(row)) => TradeRawPoolSwapHandler::handled(record, Ok(row)),
                Ok(_) => false,
                Err(e) => TradeRawPoolSwapHandler::handled(record, Err(e)),
            },
            EventKind::TradeBalanceChangeSwap => match r {
                Ok(Row::TradeBalanceChangeSwap(row)) => TradeBalanceChangeSwapHandler::handled(record, Ok(row)),
                Ok(_) => false,
                Err(e) => TradeBalanceChangeSwapHandler::handled(record, Err(e)),
            },
            EventKind::TradePoolChange => match r {
                Ok(Row::TradePoolChange(row)) => TradePoolChangeHandler::handled(record, Ok(row)),
                Ok(_) => false,
                Err(e) => TradePoolChangeHandler::handled(record, Err(e)),
            },
        }
    }

    /// Hands a record to the handler of this kind.
    pub fn dispatch(self, record: &Record) -> (r: Result<Row, HandleError>)
        ensures
            self.dispatched(*record, r),
    {
        match self {
            EventKind::NftMint => match NftMintHandler.handle(record) {
                Ok(row) => Ok(Row::NftMint(row)),
                Err(e) => Err(e),
            },
            EventKind::NftTransfer => match NftTransferHandler.handle(record) {
                Ok(row) => Ok(Row::NftTransfer(row)),
                Err(e) => Err(e),
            },
            EventKind::NftBurn => match NftBurnHandler.handle(record) {
                Ok(row) => Ok(Row::NftBurn(row)),
                Err(e) => Err(e),
            },
            EventKind::PotlockDonation => match PotlockDonationHandler.handle(record) {
                Ok(row) => Ok(Row::PotlockDonation(row)),
                Err(e) => Err(e),
            },
            EventKind::PotlockPotProjectDonation => match PotlockPotProjectDonationHandler.handle(record) {
                Ok(row) => Ok(Row::PotlockPotProjectDonation(row)),
                Err(e) => Err(e),
            },
            EventKind::PotlockPotDonation => match PotlockPotDonationHandler.handle(record) {
                Ok(row) => Ok(Row::PotlockPotDonation(row)),
                Err(e) => Err(e),
            },
            EventKind::TradeRawPoolSwap => match TradeRawPoolSwapHandler.handle(record) {
                Ok(row) => Ok(Row::TradeRawPoolSwap(row)),
                Err(e) => Err(e),
            },
            EventKind::TradeBalanceChangeSwap => match TradeBalanceChangeSwapHandler.handle(record) {
                Ok(row) => Ok(Row::TradeBalanceChangeSwap(row)),
                Err(e) => Err(e),
            },
            EventKind::TradePoolChange => match TradePoolChangeHandler.handle(record) {
                Ok(row) => Ok(Row::TradePoolChange(row)),
                Err(e) => Err(e),
            },
        }
    }
}

/// Every stream is bound to one kind and every kind to one stream: the
/// name of a kind's stream leads back to the kind, and a name leads to a
/// kind only if it is the name of that kind's stream.
pub proof fn lemma_one_kind_per_stream(kind: EventKind, name: Seq<char>)
    ensures
        EventKind::named(kind.stream_name()) == Some(kind),
        EventKind::named(name) == Some(kind) <==> name == kind.stream_name(),
{
    reveal_strlit("nft_mint");
    reveal_strlit("nft_transfer");
    reveal_strlit("nft_burn");
    reveal_strlit("potlock_donation");
    reveal_strlit("potlock_pot_project_donation");
    reveal_strlit("potlock_pot_donation");
    reveal_strlit("trade_pool");
    reveal_strlit("trade_swap");
    reveal_strlit("trade_pool_change");
    assert("nft_mint"@.len() == 8);
    assert("nft_transfer"@.len() == 12);
    assert("nft_burn"@.len() == 8);
    assert("potlock_donation"@.len() == 16);
    assert("potlock_pot_project_donation"@.len() == 28);
    assert("potlock_pot_donation"@.len() == 20);
    assert("trade_pool"@.len() == 10);
    assert("trade_swap"@.len() == 10);
    assert("trade_pool_change"@.len() == 17);
    assert("nft_mint"@[4] == 'm');
    assert("nft_burn"@[4] == 'b');
    assert("trade_pool"@[6] == 'p');
    assert("trade_swap"@[6] == 's');
}

} // verus!
