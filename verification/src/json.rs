//! The structured text that every record field carries, as a tree of plain
//! values, and the readers that take typed fields out of it.

use vstd::prelude::*;
use vstd::string::*;
use crate::decimal::{i128_of_text, i64_of_text, is_decimal_text, u128_of_text, u64_of_text};
use crate::decimal::{is_decimal, parse_i128, parse_i64, parse_u128, parse_u64};

verus! {

#[verifier::external_type_specification]
#[verifier::external_body]
pub struct ExValue(serde_json::Value);

/// A JSON value. A number is kept as text, with every digit it was written
/// with, so that a wide integer loses nothing; an object keeps its members in
/// the order in which the parser hands them out.
#[derive(Debug, PartialEq, Eq)]
pub enum Json {
    Null,
    Bool(bool),
    Number(String),
    Text(String),
    Array(Vec<Json>),
    Object(Vec<(String, Json)>),
}

/// The tree that mirrors a value of `serde_json`, variant by variant.
pub uninterp spec fn json_of_value(value: serde_json::Value) -> Json;

/// The tree that a text parses to, `None` where the text is no JSON.
pub uninterp spec fn json_of_text(text: Seq<char>) -> Option<Json>;

/// Calls `serde_json::from_str` at the type `serde_json::Value`. The contract
/// names the outcome: the parser's value, mirrored, is what `json_of_text`
/// stands for, and a parse error is its `None`. Nothing is claimed about which
/// texts parse.
#[verifier::external_body]
fn value_of_text(text: &str) -> (r: Option<serde_json::Value>)
    ensures
        match r {
            Some(value) => json_of_text(text@) == Some(json_of_value(value)),
            None => json_of_text(text@) is None,
        },
{
    serde_json::from_str::<serde_json::Value>(text).ok()
}

/// Tells the variants of `serde_json::Value` apart and moves what each holds
/// into the same variant of `Json`: a number by `Number::as_str`, an object
/// by `Map::iter`. The contract gives the result its name.
#[verifier::external_body]
fn mirror_value(value: &serde_json::Value) -> (r: Json)
    ensures
        r == json_of_value(*value),
{
    match value {
        serde_json::Value::Null => Json::Null,
        serde_json::Value::Bool(b) => Json::Bool(*b),
        serde_json::Value::Number(n) => Json::Number(n.as_str().to_owned()),
        serde_json::Value::String(s) => Json::Text(s.clone()),
        serde_json::Value::Array(items) => Json::Array(items.iter().map(mirror_value).collect()),
        serde_json::Value::Object(members) => Json::Object(
            members.iter().map(|(k, v)| (k.clone(), mirror_value(v))).collect(),
        ),
    }
}

/// The first member of `members`, from index `from` on, whose name is `key`.
pub open spec fn member_from(members: Seq<(String, Json)>, key: Seq<char>, from: int) -> Option<Json>
    decreases members.len() - from,
{
    if from < 0 || from >= members.len() {
        None
    } else if members[from].0@ == key {
        Some(members[from].1)
    } else {
        member_from(members, key, from + 1)
    }
}

/// The views of a list of strings.
pub open spec fn texts(v: Seq<String>) -> Seq<Seq<char>> {
    Seq::new(v.len(), |i: int| v[i]@)
}

/// The view of a string that may be absent.
pub open spec fn text_view(o: Option<String>) -> Option<Seq<char>> {
    match o {
        Some(s) => Some(s@),
        None => None,
    }
}

/// The text of a JSON string.
pub open spec fn as_text(j: Json) -> Option<Seq<char>> {
    match j {
        Json::Text(s) => Some(s@),
        _ => None,
    }
}

/// The value of a JSON number written as an unsigned integer of 64 bits.
pub open spec fn as_u64(j: Json) -> Option<u64> {
    match j {
        Json::Number(s) => u64_of_text(s@),
        _ => None,
    }
}

/// The value of a JSON number written as a signed integer of 64 bits.
pub open spec fn as_i64(j: Json) -> Option<i64> {
    match j {
        Json::Number(s) => i64_of_text(s@),
        _ => None,
    }
}

/// The value of a JSON number written as an unsigned integer of 128 bits.
pub open spec fn as_u128(j: Json) -> Option<u128> {
    match j {
        Json::Number(s) => u128_of_text(s@),
        _ => None,
    }
}

/// An amount in the decimal format of the chain: a JSON string of decimal
/// digits worth up to 128 bits, or a JSON number worth up to 64 bits.
pub open spec fn as_amount(j: Json) -> Option<u128> {
    match j {
        Json::Text(s) => u128_of_text(s@),
        Json::Number(s) => match u64_of_text(s@) {
            Some(v) => Some(v as u128),
            None => None,
        },
        _ => None,
    }
}

/// A signed amount: a JSON string that writes a signed integer of 128 bits.
pub open spec fn as_change(j: Json) -> Option<i128> {
    match j {
        Json::Text(s) => i128_of_text(s@),
        _ => None,
    }
}

/// A price that may be missing: `null`, or a plain decimal written as a JSON
/// string or a JSON number. The outer `None` is a value that is neither.
pub open spec fn as_price(j: Json) -> Option<Option<Seq<char>>> {
    match j {
        Json::Null => Some(None),
        Json::Text(s) => if is_decimal_text(s@) {
            Some(Some(s@))
        } else {
            None
        },
        Json::Number(s) => if is_decimal_text(s@) {
            Some(Some(s@))
        } else {
            None
        },
        _ => None,
    }
}

/// The views of a list of prices.
pub open spec fn price_views(v: Seq<Option<String>>) -> Seq<Option<Seq<char>>> {
    Seq::new(v.len(), |i: int| text_view(v[i]))
}

/// The texts of a JSON array of strings.
pub open spec fn as_texts(j: Json) -> Option<Seq<Seq<char>>> {
    match j {
        Json::Array(items) => if forall|i: int|
            0 <= i < items@.len() ==> (#[trigger] as_text(items@[i])) is Some {
            Some(Seq::new(items@.len(), |i: int| as_text(items@[i]).unwrap()))
        } else {
            None
        },
        _ => None,
    }
}

/// The prices of a JSON array of prices.
pub open spec fn as_prices(j: Json) -> Option<Seq<Option<Seq<char>>>> {
    match j {
        Json::Array(items) => if forall|i: int|
            0 <= i < items@.len() ==> (#[trigger] as_price(items@[i])) is Some {
            Some(Seq::new(items@.len(), |i: int| as_price(items@[i]).unwrap()))
        } else {
            None
        },
        _ => None,
    }
}

/// A required string member.
pub open spec fn text_at(j: Json, key: Seq<char>) -> Option<Seq<char>> {
    match j.field(key) {
        Some(v) => as_text(v),
        None => None,
    }
}

/// A string member that may be missing or `null`. The outer `None` is a
/// member that is neither a string nor `null`.
pub open spec fn opt_text_at(j: Json, key: Seq<char>) -> Option<Option<Seq<char>>> {
    match j.field(key) {
        None => Some(None),
        Some(Json::Null) => Some(None),
        Some(Json::Text(s)) => Some(Some(s@)),
        Some(_) => None,
    }
}

/// A required member that is an unsigned number of 64 bits.
pub open spec fn u64_at(j: Json, key: Seq<char>) -> Option<u64> {
    match j.field(key) {
        Some(v) => as_u64(v),
        None => None,
    }
}

/// A required member that is a signed number of 64 bits.
pub open spec fn i64_at(j: Json, key: Seq<char>) -> Option<i64> {
    match j.field(key) {
        Some(v) => as_i64(v),
        None => None,
    }
}

/// A required member that is an amount.
pub open spec fn amount_at(j: Json, key: Seq<char>) -> Option<u128> {
    match j.field(key) {
        Some(v) => as_amount(v),
        None => None,
    }
}

/// A member that is an unsigned number of 128 bits and may be missing or
/// `null`. The outer `None` is a member that is neither.
pub open spec fn opt_u128_at(j: Json, key: Seq<char>) -> Option<Option<u128>> {
    match j.field(key) {
        None => Some(None),
        Some(Json::Null) => Some(None),
        Some(v) => match as_u128(v) {
            Some(n) => Some(Some(n)),
            None => None,
        },
    }
}

/// A required member that is an array of strings.
pub open spec fn texts_at(j: Json, key: Seq<char>) -> Option<Seq<Seq<char>>> {
    match j.field(key) {
        Some(v) => as_texts(v),
        None => None,
    }
}

/// A required member that is an array of prices.
pub open spec fn prices_at(j: Json, key: Seq<char>) -> Option<Seq<Option<Seq<char>>>> {
    match j.field(key) {
        Some(v) => as_prices(v),
        None => None,
    }
}

/// Whether two texts hold the same characters.
pub fn same_text(a: &str, b: &str) -> (r: bool)
    ensures
        r == (a@ == b@),
{
    let n: usize = a.unicode_len();
    if n != b.unicode_len() {
        return false;
    }
    let mut i: usize = 0;
    while i < n
        invariant
            i <= n,
            n == a@.len(),
            n == b@.len(),
            forall|k: int| 0 <= k < i ==> a@[k] == b@[k],
        decreases n - i,
    {
        if a.get_char(i) != b.get_char(i) {
            return false;
        }
        i = i + 1;
    }
    assert(a@ =~= b@);
    true
}

impl Json {
    /// The member of an object that goes by the name `key`; `None` where the
    /// value is no object or has no such member.
    pub open spec fn field(self, key: Seq<char>) -> Option<Json> {
        match self {
            Json::Object(members) => member_from(members@, key, 0),
            _ => None,
        }
    }

    /// Parses a text. The result is the tree of the value that the JSON
    /// parser reads from it.
    pub fn parse(text: &str) -> (r: Option<Json>)
        ensures
            r == json_of_text(text@),
    {
        match value_of_text(text) {
            Some(value) => Some(mirror_value(&value)),
            None => None,
        }
    }

    /// Looks a member up by its name.
    pub fn get(&self, key: &str) -> (r: Option<&Json>)
        ensures
            match r {
                Some(v) => self.field(key@) == Some(*v),
                None => self.field(key@) is None,
            },
    {
        match self {
            Json::Object(members) => {
                let mut i: usize = 0;
                while i < members.len()
                    invariant
                        i <= members@.len(),
                        self.field(key@) == member_from(members@, key@, 0),
                        member_from(members@, key@, 0) == member_from(members@, key@, i as int),
                    decreases members@.len() - i,
                {
                    if same_text(members[i].0.as_str(), key) {
                        assert(member_from(members@, key@, i as int) == Some(members@[i as int].1));
                        return Some(&members[i].1);
                    }
                    assert(member_from(members@, key@, i as int) == member_from(
                        members@,
                        key@,
                        i + 1,
                    ));
                    i = i + 1;
                }
                None
            },
            _ => None,
        }
    }
}

/// Takes a member out of an object by its name.
pub fn take_member(j: Json, key: &str) -> (r: Option<Json>)
    ensures
        r == j.field(key@),
{
    match j {
        Json::Object(members) => {
            let mut members = members;
            let ghost all = members@;
            let mut i: usize = 0;
            while i < members.len()
                invariant
                    i <= members@.len(),
                    members@ == all,
                    j.field(key@) == member_from(all, key@, 0),
                    member_from(all, key@, 0) == member_from(all, key@, i as int),
                decreases members@.len() - i,
            {
                if same_text(members[i].0.as_str(), key) {
                    assert(member_from(all, key@, i as int) == Some(all[i as int].1));
                    let member = members.remove(i);
                    return Some(member.1);
                }
                assert(member_from(all, key@, i as int) == member_from(all, key@, i + 1));
                i = i + 1;
            }
            None
        },
        _ => None,
    }
}

/// The text of a JSON string.
pub fn text_of(j: &Json) -> (r: Option<String>)
    ensures
        text_view(r) == as_text(*j),
{
    match j {
        Json::Text(s) => Some(s.clone()),
        _ => None,
    }
}

/// The amount that a JSON value writes.
pub fn amount_of(j: &Json) -> (r: Option<u128>)
    ensures
        r == as_amount(*j),
{
    match j {
        Json::Text(s) => parse_u128(s.as_str()),
        Json::Number(s) => match parse_u64(s.as_str()) {
            Some(v) => Some(v as u128),
            None => None,
        },
        _ => None,
    }
}

/// The signed amount that a JSON value writes.
pub fn change_of(j: &Json) -> (r: Option<i128>)
    ensures
        r == as_change(*j),
{
    match j {
        Json::Text(s) => parse_i128(s.as_str()),
        _ => None,
    }
}

/// The price that a JSON value writes.
pub fn price_of(j: &Json) -> (r: Option<Option<String>>)
    ensures
        match r {
            Some(o) => as_price(*j) == Some(text_view(o)),
            None => as_price(*j) is None,
        },
{
    match j {
        Json::Null => Some(None),
        Json::Text(s) => if is_decimal(s.as_str()) {
            Some(Some(s.clone()))
        } else {
            None
        },
        Json::Number(s) => if is_decimal(s.as_str()) {
            Some(Some(s.clone()))
        } else {
            None
        },
        _ => None,
    }
}

/// Reads a required string member.
pub fn read_text(j: &Json, key: &str) -> (r: Option<String>)
    ensures
        text_view(r) == text_at(*j, key@),
{
    match j.get(key) {
        Some(v) => text_of(v),
        None => None,
    }
}

/// Reads a string member that may be missing or `null`.
pub fn read_opt_text(j: &Json, key: &str) -> (r: Option<Option<String>>)
    ensures
        match r {
            Some(o) => opt_text_at(*j, key@) == Some(text_view(o)),
            None => opt_text_at(*j, key@) is None,
        },
{
    match j.get(key) {
        None => Some(None),
        Some(Json::Null) => Some(None),
        Some(Json::Text(s)) => Some(Some(s.clone())),
        Some(_) => None,
    }
}

/// Reads a required member that is an unsigned number of 64 bits.
pub fn read_u64(j: &Json, key: &str) -> (r: Option<u64>)
    ensures
        r == u64_at(*j, key@),
{
    match j.get(key) {
        Some(Json::Number(s)) => parse_u64(s.as_str()),
        _ => None,
    }
}

/// Reads a required member that is a signed number of 64 bits.
pub fn read_i64(j: &Json, key: &str) -> (r: Option<i64>)
    ensures
        r == i64_at(*j, key@),
{
    match j.get(key) {
        Some(Json::Number(s)) => parse_i64(s.as_str()),
        _ => None,
    }
}

/// Reads a required member that is an amount.
pub fn read_amount(j: &Json, key: &str) -> (r: Option<u128>)
    ensures
        r == amount_at(*j, key@),
{
    match j.get(key) {
        Some(v) => amount_of(v),
        None => None,
    }
}

/// Reads a member that is an unsigned number of 128 bits and may be missing
/// or `null`.
pub fn read_opt_u128(j: &Json, key: &str) -> (r: Option<Option<u128>>)
    ensures
        r == opt_u128_at(*j, key@),
{
    match j.get(key) {
        None => Some(None),
        Some(Json::Null) => Some(None),
        Some(Json::Number(s)) => match parse_u128(s.as_str()) {
            Some(n) => Some(Some(n)),
            None => None,
        },
        Some(_) => None,
    }
}

/// Reads a required member that is an array of strings.
pub fn read_texts(j: &Json, key: &str) -> (r: Option<Vec<String>>)
    ensures
        match r {
            Some(v) => texts_at(*j, key@) == Some(texts(v@)),
            None => texts_at(*j, key@) is None,
        },
{
    match j.get(key) {
        Some(Json::Array(items)) => {
            let mut out: Vec<String> = Vec::new();
            let mut i: usize = 0;
            while i < items.len()
                invariant
                    i <= items@.len(),
                    j.field(key@) == Some(Json::Array(*items)),
                    out@.len() == i,
                    forall|k: int| 0 <= k < i ==> (#[trigger] as_text(items@[k])) == Some(out@[k]@),
                decreases items@.len() - i,
            {
                match text_of(&items[i]) {
                    Some(s) => {
                        out.push(s);
                    },
                    None => {
                        assert(as_text(items@[i as int]) is None);
                        return None;
                    },
                }
                i = i + 1;
            }
            assert(texts(out@) =~= as_texts(Json::Array(*items)).unwrap());
            Some(out)
        },
        _ => None,
    }
}

/// Reads a required member that is an array of prices.
pub fn read_prices(j: &Json, key: &str) -> (r: Option<Vec<Option<String>>>)
    ensures
        match r {
            Some(v) => prices_at(*j, key@) == Some(price_views(v@)),
            None => prices_at(*j, key@) is None,
        },
{
    match j.get(key) {
        Some(Json::Array(items)) => {
            let mut out: Vec<Option<String>> = Vec::new();
            let mut i: usize = 0;
            while i < items.len()
                invariant
                    i <= items@.len(),
                    j.field(key@) == Some(Json::Array(*items)),
                    out@.len() == i,
                    forall|k: int|
                        0 <= k < i ==> (#[trigger] as_price(items@[k])) == Some(text_view(out@[k])),
                decreases items@.len() - i,
            {
                match price_of(&items[i]) {
                    Some(p) => {
                        out.push(p);
                    },
                    None => {
                        assert(as_price(items@[i as int]) is None);
                        return None;
                    },
                }
                i = i + 1;
            }
            assert(price_views(out@) =~= as_prices(Json::Array(*items)).unwrap());
            Some(out)
        },
        _ => None,
    }
}

} // verus!
