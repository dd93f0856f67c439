//! Amounts on their way to the store: from a chain-native integer to the
//! store's decimal by way of decimal text, so that no digit is lost.

use std::str::FromStr;
use vstd::prelude::*;
use vstd::string::*;
use crate::decimal::{
    decimal_text, is_decimal_text, lemma_decimal_round_trip, lemma_value_needs_digits,
    signed_decimal_text, u128_of_text,
};
use crate::decimal::{format_i128, format_u128, is_decimal};
use crate::json::{as_amount, same_text, text_view, Json};

verus! {

/// An amount ready for the store: the integer and the decimal text that the
/// store's decimal type gave back for it.
#[derive(Debug, PartialEq, Eq)]
pub struct Amount {
    pub units: u128,
    pub text: String,
}

/// The text that the store's decimal type writes for the number it reads
/// from `text`; `None` where it reads none.
pub uninterp spec fn stored_decimal_text(text: Seq<char>) -> Option<Seq<char>>;

/// Calls `BigDecimal::from_str` of the crate `bigdecimal` on a plain decimal
/// and, where that succeeds, `to_string` on the decimal. The contract
/// names the outcome and claims nothing about what the text is.
#[verifier::external_body]
fn through_stored_decimal(text: &str) -> (r: Option<String>)
    requires
        is_decimal_text(text@),
    ensures
        text_view(r) == stored_decimal_text(text@),
{
    match bigdecimal::BigDecimal::from_str(text) {
        Ok(decimal) => Some(decimal.to_string()),
        Err(_) => None,
    }
}

/// Whether the store's decimal type gives the canonical text of `units` back
/// unchanged.
pub open spec fn storable(units: u128) -> bool {
    stored_decimal_text(decimal_text(units as nat)) == Some(decimal_text(units as nat))
}

impl Amount {
    /// The text is the canonical decimal text of the integer.
    pub open spec fn wf(self) -> bool {
        self.text@ == decimal_text(self.units as nat)
    }

    /// The amount stands for `units` and carries its canonical decimal text.
    pub open spec fn denotes(self, units: u128) -> bool {
        self.units == units && self.wf()
    }

    /// Accepts what the store's decimal type gave back for the canonical text
    /// of `units`, if it is that very text.
    pub fn confirm(units: u128, canonical: String, stored: Option<String>) -> (r: Option<Amount>)
        requires
            canonical@ == decimal_text(units as nat),
        ensures
            match r {
                Some(a) => a.denotes(units) && text_view(stored) == Some(canonical@),
                None => text_view(stored) != Some(canonical@),
            },
    {
        match stored {
            Some(text) => if same_text(text.as_str(), canonical.as_str()) {
                Some(Amount { units, text })
            } else {
                None
            },
            None => None,
        }
    }

    /// Normalises a chain-native amount for the store through its decimal
    /// text. The result carries the canonical text of `units`; there is none
    /// where the store's decimal type does not give that text back.
    pub fn normalize(units: u128) -> (r: Option<Amount>)
        ensures
            match r {
                Some(a) => a.denotes(units) && storable(units),
                None => !storable(units),
            },
    {
        let canonical = format_u128(units);
        proof {
            lemma_decimal_round_trip(units as nat);
            lemma_value_needs_digits(canonical@);
        }
        let stored = through_stored_decimal(canonical.as_str());
        Amount::confirm(units, canonical, stored)
    }

    /// Normalises an amount that may be absent: absence stays absence. The
    /// outer `None` is an amount that is not storable.
    pub fn normalize_optional(units: Option<u128>) -> (r: Option<Option<Amount>>)
        ensures
            match r {
                Some(o) => optional_denotes(o, units),
                None => units matches Some(u) && !storable(u),
            },
    {
        match units {
            None => Some(None),
            Some(u) => match Amount::normalize(u) {
                Some(a) => Some(Some(a)),
                None => None,
            },
        }
    }
}

/// An optional amount stands for an optional integer: both absent, or the
/// amount stands for the integer and is storable.
pub open spec fn optional_denotes(amount: Option<Amount>, units: Option<u128>) -> bool {
    match (amount, units) {
        (None, None) => true,
        (Some(a), Some(u)) => a.denotes(u) && storable(u),
        _ => false,
    }
}

/// An optional integer is absent or storable.
pub open spec fn optional_storable(units: Option<u128>) -> bool {
    units matches Some(u) ==> storable(u)
}

/// Whether a plain decimal comes back unchanged from the store's decimal
/// type.
pub open spec fn text_storable(text: Seq<char>) -> bool {
    is_decimal_text(text) && stored_decimal_text(text) == Some(text)
}

/// The price that is stored for a token: its own, or zero where it is not
/// known.
pub open spec fn price_text(price: Option<String>) -> Seq<char> {
    match price {
        Some(p) => p@,
        None => seq!['0'],
    }
}

/// Every price, with zero for a missing one, is storable.
pub open spec fn prices_storable(prices: Seq<Option<String>>) -> bool {
    forall|i: int| 0 <= i < prices.len() ==> text_storable(price_text(#[trigger] prices[i]))
}

/// The texts are the prices, one for one and in order, with zero for a
/// missing price.
pub open spec fn prices_denote(texts: Seq<String>, prices: Seq<Option<String>>) -> bool {
    &&& texts.len() == prices.len()
    &&& forall|i: int| 0 <= i < prices.len() ==> (#[trigger] texts[i])@ == price_text(prices[i])
    &&& prices_storable(prices)
}

/// An amount that was read from JSON and normalised loses nothing: written
/// back as a JSON string, its text reads as the amount it was read as.
pub proof fn lemma_amount_survives(source: Json, amount: Amount)
    requires
        as_amount(source) is Some,
        amount.denotes(as_amount(source).unwrap()),
    ensures
        amount.text@ == decimal_text(as_amount(source).unwrap() as nat),
        as_amount(Json::Text(amount.text)) == as_amount(source),
{
    lemma_decimal_round_trip(amount.units as nat);
}

/// Each account keeps its place and its name, and each change is written as
/// the canonical decimal text of the signed integer.
pub open spec fn changes_rendered(texts: Seq<(String, String)>, changes: Seq<(String, i128)>) -> bool {
    &&& texts.len() == changes.len()
    &&& forall|i: int|
        0 <= i < changes.len() ==> (#[trigger] texts[i]).0 == changes[i].0 && texts[i].1@
            == signed_decimal_text(changes[i].1 as int)
}

/// Normalises an amount that arrives as decimal text. The result is that
/// very text; there is none where the text is no plain decimal or the
/// store's decimal type does not give it back unchanged.
pub fn normalize_decimal(source: &str) -> (r: Option<String>)
    ensures
        match r {
            Some(text) => text@ == source@ && text_storable(source@),
            None => !text_storable(source@),
        },
{
    if !is_decimal(source) {
        return None;
    }
    match through_stored_decimal(source) {
        Some(text) => if same_text(text.as_str(), source) {
            Some(text)
        } else {
            None
        },
        None => None,
    }
}

/// Normalises the prices of a transfer. A missing price is stored as zero.
/// There is no result where one of them is not storable.
pub fn normalize_prices(prices: &Vec<Option<String>>) -> (r: Option<Vec<String>>)
    ensures
        match r {
            Some(texts) => prices_denote(texts@, prices@),
            None => !prices_storable(prices@),
        },
{
    let mut out: Vec<String> = Vec::new();
    let mut i: usize = 0;
    while i < prices.len()
        invariant
            i <= prices@.len(),
            out@.len() == i,
            forall|k: int| 0 <= k < i ==> (#[trigger] out@[k])@ == price_text(prices@[k]),
            forall|k: int| 0 <= k < i ==> text_storable(price_text(#[trigger] prices@[k])),
        decreases prices@.len() - i,
    {
        proof {
            reveal_strlit("0");
            assert("0"@ =~= seq!['0']);
        }
        let normalized = match &prices[i] {
            Some(p) => normalize_decimal(p.as_str()),
            None => normalize_decimal("0"),
        };
        match normalized {
            Some(text) => {
                out.push(text);
            },
            None => {
                assert(!text_storable(price_text(prices@[i as int])));
                return None;
            },
        }
        i = i + 1;
    }
    Some(out)
}

/// The text of a normalised amount is the canonical decimal text of the
/// amount it came from, and reading that text gives the amount back.
pub proof fn lemma_normalization_is_lossless(amount: Amount, units: u128)
    requires
        amount.denotes(units),
    ensures
        amount.text@ == decimal_text(units as nat),
        u128_of_text(amount.text@) == Some(units),
{
    lemma_decimal_round_trip(units as nat);
}

/// Writes each balance change as decimal text, account by account.
pub fn render_changes(changes: &Vec<(String, i128)>) -> (r: Vec<(String, String)>)
    ensures
        changes_rendered(r@, changes@),
{
    let mut out: Vec<(String, String)> = Vec::new();
    let mut i: usize = 0;
    while i < changes.len()
        invariant
            i <= changes@.len(),
            out@.len() == i,
            forall|k: int|
                0 <= k < i ==> (#[trigger] out@[k]).0 == changes@[k].0 && out@[k].1@
                    == signed_decimal_text(changes@[k].1 as int),
        decreases changes@.len() - i,
    {
        out.push((changes[i].0.clone(), format_i128(changes[i].1)));
        i = i + 1;
    }
    out
}

} // verus!
