//! Decoding exchange responses into domain entities. A response arrives as a
//! `JsonValue`, a plain model of a parsed JSON document.

use vstd::prelude::*;
use vstd::string::StringExecFns;
use crate::text::{dec_text, push_char, push_decimal};

verus! {

/// A parsed JSON document. Integers that fit an `i64` are `Int`; any other
/// number keeps its JSON text in `Number`. Object members keep their order.
#[derive(Debug)]
pub enum JsonValue {
    Null,
    Bool(bool),
    Int(i64),
    Number(String),
    Str(String),
    Array(Vec<JsonValue>),
    Object(Vec<(String, JsonValue)>),
}

/// The value of the first member named `k`.
pub open spec fn field_of(fs: Seq<(String, JsonValue)>, k: Seq<char>) -> Option<JsonValue>
    decreases fs.len(),
{
    if fs.len() == 0 {
        None
    } else if fs[0].0@ == k {
        Some(fs[0].1)
    } else {
        field_of(fs.skip(1), k)
    }
}

/// The decimal text of an integer, with a leading `-` when negative.
pub open spec fn int_text(i: int) -> Seq<char> {
    if i < 0 {
        seq!['-'] + dec_text((-i) as nat)
    } else {
        dec_text(i as nat)
    }
}

/// The text a scalar carries: a string's characters or a number's digits.
pub open spec fn text_of(v: JsonValue) -> Option<Seq<char>> {
    match v {
        JsonValue::Str(s) => Some(s@),
        JsonValue::Int(i) => Some(int_text(i as int)),
        JsonValue::Number(t) => Some(t@),
        _ => None,
    }
}

/// The text of a member that must be present.
pub open spec fn required_text(fs: Seq<(String, JsonValue)>, k: Seq<char>) -> Option<Seq<char>> {
    match field_of(fs, k) {
        Some(v) => text_of(v),
        None => None,
    }
}

/// The text of a member that may be absent or null (`Some(None)`); `None`
/// when the member holds something other than text.
pub open spec fn optional_text(fs: Seq<(String, JsonValue)>, k: Seq<char>) -> Option<
    Option<Seq<char>>,
> {
    match field_of(fs, k) {
        None => Some(None),
        Some(JsonValue::Null) => Some(None),
        Some(v) => match text_of(v) {
            Some(t) => Some(Some(t)),
            None => None,
        },
    }
}

/// The text of a present member, or empty text for an absent one.
pub open spec fn or_empty(t: Option<Seq<char>>) -> Seq<char> {
    match t {
        Some(s) => s,
        None => Seq::empty(),
    }
}

/// The index of the first member named `k`.
pub fn find_field(fs: &Vec<(String, JsonValue)>, k: &str) -> (r: Option<usize>)
    ensures
        match field_of(fs@, k@) {
            None => r is None,
            Some(v) => r matches Some(i) && i < fs@.len() && fs@[i as int].1 == v,
        },
{
    let key = String::from_str(k);
    let mut i: usize = 0;
    assert(fs@.skip(0) =~= fs@);
    while i < fs.len()
        invariant
            i <= fs@.len(),
            key@ == k@,
            field_of(fs@, k@) == field_of(fs@.skip(i as int), k@),
        decreases fs.len() - i,
    {
        assert(fs@.skip(i as int)[0] == fs@[i as int]);
        if fs[i].0 == key {
            return Some(i);
        }
        assert(fs@.skip(i as int).skip(1) =~= fs@.skip(i + 1));
        i = i + 1;
    }
    None
}

/// The decimal text of an integer.
pub fn int_string(i: i64) -> (r: String)
    ensures
        r@ == int_text(i as int),
{
    let mut out = String::new();
    if i < 0 {
        push_char(&mut out, '-');
        let m: u128 = (-(i as i128)) as u128;
        push_decimal(&mut out, m);
    } else {
        push_decimal(&mut out, i as u128);
    }
    assert(out@ =~= int_text(i as int));
    out
}

/// The text a scalar carries.
pub fn text_value(v: &JsonValue) -> (r: Option<String>)
    ensures
        match text_of(*v) {
            Some(t) => r matches Some(s) && s@ == t,
            None => r is None,
        },
{
    match v {
        JsonValue::Str(s) => Some(s.clone()),
        JsonValue::Int(i) => Some(int_string(*i)),
        JsonValue::Number(t) => Some(t.clone()),
        _ => None,
    }
}

/// The text of a member that must be present.
pub fn required_member(fs: &Vec<(String, JsonValue)>, k: &str) -> (r: Option<String>)
    ensures
        match required_text(fs@, k@) {
            Some(t) => r matches Some(s) && s@ == t,
            None => r is None,
        },
{
    match find_field(fs, k) {
        Some(i) => text_value(&fs[i].1),
        None => None,
    }
}

/// The text of a member that may be absent or null.
pub fn optional_member(fs: &Vec<(String, JsonValue)>, k: &str) -> (r: Option<Option<String>>)
    ensures
        match optional_text(fs@, k@) {
            Some(Some(t)) => r matches Some(Some(s)) && s@ == t,
            Some(None) => r == Some(None::<String>),
            None => r is None,
        },
{
    match find_field(fs, k) {
        None => Some(None),
        Some(i) => match &fs[i].1 {
            JsonValue::Null => Some(None),
            v => match text_value(v) {
                Some(t) => Some(Some(t)),
                None => None,
            },
        },
    }
}

/// Text of an optional member, empty when absent.
fn text_or_empty(t: Option<String>) -> (r: String)
    ensures
        r@ == or_empty(match t {
            Some(s) => Some(s@),
            None => None,
        }),
{
    match t {
        Some(s) => s,
        None => String::new(),
    }
}

/// A balance of one currency in the account.
#[derive(Debug, Clone)]
pub struct Account {
    pub currency: String,
    pub balance: String,
    pub locked: String,
    pub staked: String,
    pub kind: String,
    pub fiat_currency: String,
    pub fiat_balance: String,
}

pub struct AccountView {
    pub currency: Seq<char>,
    pub balance: Seq<char>,
    pub locked: Seq<char>,
    pub staked: Seq<char>,
    pub kind: Seq<char>,
    pub fiat_currency: Seq<char>,
    pub fiat_balance: Seq<char>,
}

impl View for Account {
    type V = AccountView;

    open spec fn view(&self) -> AccountView {
        AccountView {
            currency: self.currency@,
            balance: self.balance@,
            locked: self.locked@,
            staked: self.staked@,
            kind: self.kind@,
            fiat_currency: self.fiat_currency@,
            fiat_balance: self.fiat_balance@,
        }
    }
}

/// The account an element describes: an object whose `currency`, `balance`
/// and `locked` are text and whose `staked`, `type`, `fiat_currency` and
/// `fiat_balance` are text, null or absent (then empty). Anything else is
/// malformed.
pub open spec fn account_of(v: JsonValue) -> Option<AccountView> {
    match v {
        JsonValue::Object(fs) => {
            let c = required_text(fs@, "currency"@);
            let b = required_text(fs@, "balance"@);
            let l = required_text(fs@, "locked"@);
            let s = optional_text(fs@, "staked"@);
            let t = optional_text(fs@, "type"@);
            let fc = optional_text(fs@, "fiat_currency"@);
            let fb = optional_text(fs@, "fiat_balance"@);
            if c is Some && b is Some && l is Some && s is Some && t is Some && fc is Some
                && fb is Some {
                Some(
                    AccountView {
                        currency: c->0,
                        balance: b->0,
                        locked: l->0,
                        staked: or_empty(s->0),
                        kind: or_empty(t->0),
                        fiat_currency: or_empty(fc->0),
                        fiat_balance: or_empty(fb->0),
                    },
                )
            } else {
                None
            }
        },
        _ => None,
    }
}

/// Decodes one account element.
pub fn decode_account(v: &JsonValue) -> (r: Option<Account>)
    ensures
        match account_of(*v) {
            Some(a) => r matches Some(x) && x@ == a,
            None => r is None,
        },
{
    match v {
        JsonValue::Object(fs) => {
            let c = required_member(fs, "currency");
            let b = required_member(fs, "balance");
            let l = required_member(fs, "locked");
            let s = optional_member(fs, "staked");
            let t = optional_member(fs, "type");
            let fc = optional_member(fs, "fiat_currency");
            let fb = optional_member(fs, "fiat_balance");
            match (c, b, l, s, t, fc, fb) {
                (Some(c), Some(b), Some(l), Some(s), Some(t), Some(fc), Some(fb)) => Some(
                    Account {
                        currency: c,
                        balance: b,
                        locked: l,
                        staked: text_or_empty(s),
                        kind: text_or_empty(t),
                        fiat_currency: text_or_empty(fc),
                        fiat_balance: text_or_empty(fb),
                    },
                ),
                _ => None,
            }
        },
        _ => None,
    }
}

/// The accounts of the well-formed elements, in response order.
pub open spec fn decoded_accounts(items: Seq<JsonValue>) -> Seq<AccountView>
    decreases items.len(),
{
    if items.len() == 0 {
        Seq::empty()
    } else {
        let prev = decoded_accounts(items.drop_last());
        match account_of(items.last()) {
            Some(a) => prev.push(a),
            None => prev,
        }
    }
}

/// The positions of the malformed elements, in increasing order.
pub open spec fn rejected_accounts(items: Seq<JsonValue>) -> Seq<int>
    decreases items.len(),
{
    if items.len() == 0 {
        Seq::empty()
    } else {
        let prev = rejected_accounts(items.drop_last());
        if account_of(items.last()) is None {
            prev.push(items.len() - 1)
        } else {
            prev
        }
    }
}

pub open spec fn account_views(accounts: Seq<Account>) -> Seq<AccountView> {
    accounts.map_values(|a: Account| a@)
}

/// Decodes each element on its own: the well-formed ones become accounts,
/// in order, and the positions of the malformed ones are returned as
/// warnings.
pub fn decode_accounts(items: &Vec<JsonValue>) -> (r: (Vec<Account>, Vec<usize>))
    ensures
        account_views(r.0@) == decoded_accounts(items@),
        r.1@.map_values(|i: usize| i as int) == rejected_accounts(items@),
{
    let mut accounts: Vec<Account> = Vec::new();
    let mut rejected: Vec<usize> = Vec::new();
    let mut i: usize = 0;
    while i < items.len()
        invariant
            i <= items@.len(),
            account_views(accounts@) == decoded_accounts(items@.take(i as int)),
            rejected@.map_values(|j: usize| j as int) == rejected_accounts(items@.take(i as int)),
        decreases items.len() - i,
    {
        let ghost prev_accounts = accounts@;
        let ghost prev_rejected = rejected@;
        assert(items@.take(i + 1).drop_last() =~= items@.take(i as int));
        assert(items@.take(i + 1).last() == items@[i as int]);
        match decode_account(&items[i]) {
            Some(a) => {
                accounts.push(a);
                assert(account_views(accounts@) =~= account_views(prev_accounts).push(a@));
            },
            None => {
                rejected.push(i);
                assert(rejected@.map_values(|j: usize| j as int) =~= prev_rejected.map_values(
                    |j: usize| j as int,
                ).push(i as int));
            },
        }
        i = i + 1;
    }
    assert(items@.take(i as int) =~= items@);
    (accounts, rejected)
}

/// A response of well-formed elements decodes to exactly one account per
/// element, in response order, with no warnings.
pub proof fn lemma_sync_all_well_formed(items: Seq<JsonValue>)
    requires
        forall|i: int| 0 <= i < items.len() ==> account_of(#[trigger] items[i]) is Some,
    ensures
        decoded_accounts(items).len() == items.len(),
        forall|i: int|
            0 <= i < items.len() ==> decoded_accounts(items)[i] == account_of(#[trigger] items[i])->0,
        rejected_accounts(items).len() == 0,
    decreases items.len(),
{
    if items.len() > 0 {
        let prefix = items.drop_last();
        assert forall|i: int| 0 <= i < prefix.len() implies account_of(#[trigger] prefix[i]) is Some by {
            assert(prefix[i] == items[i]);
        }
        lemma_sync_all_well_formed(prefix);
        assert forall|i: int| 0 <= i < items.len() implies decoded_accounts(items)[i] == account_of(
            #[trigger] items[i],
        )->0 by {
            if i < items.len() - 1 {
                assert(prefix[i] == items[i]);
            }
        }
    }
}

/// A response with one malformed element among well-formed ones decodes to
/// the accounts of all the other elements, in response order, and one
/// warning naming the malformed position.
pub proof fn lemma_sync_one_malformed(items: Seq<JsonValue>, j: int)
    requires
        0 <= j < items.len(),
        account_of(items[j]) is None,
        forall|i: int| 0 <= i < items.len() && i != j ==> account_of(#[trigger] items[i]) is Some,
    ensures
        decoded_accounts(items).len() == items.len() - 1,
        forall|i: int| 0 <= i < j ==> decoded_accounts(items)[i] == account_of(#[trigger] items[i])->0,
        forall|i: int|
            j < i < items.len() ==> decoded_accounts(items)[i - 1] == account_of(#[trigger] items[i])->0,
        rejected_accounts(items) == seq![j],
    decreases items.len(),
{
    let prefix = items.drop_last();
    if j == items.len() - 1 {
        assert forall|i: int| 0 <= i < prefix.len() implies account_of(#[trigger] prefix[i]) is Some by {
            assert(prefix[i] == items[i]);
        }
        lemma_sync_all_well_formed(prefix);
        assert forall|i: int| 0 <= i < j implies decoded_accounts(items)[i] == account_of(
            #[trigger] items[i],
        )->0 by {
            assert(prefix[i] == items[i]);
        }
        assert(rejected_accounts(items) =~= seq![j]);
    } else {
        assert(prefix[j] == items[j]);
        assert forall|i: int| 0 <= i < prefix.len() && i != j implies account_of(
            #[trigger] prefix[i],
        ) is Some by {
            assert(prefix[i] == items[i]);
        }
        lemma_sync_one_malformed(prefix, j);
        assert(account_of(items[items.len() - 1]) is Some);
        assert forall|i: int| 0 <= i < j implies decoded_accounts(items)[i] == account_of(
            #[trigger] items[i],
        )->0 by {
            assert(prefix[i] == items[i]);
        }
        assert forall|i: int| j < i < items.len() implies decoded_accounts(items)[i - 1]
            == account_of(#[trigger] items[i])->0 by {
            if i < items.len() - 1 {
                assert(prefix[i] == items[i]);
            }
        }
    }
}

} // verus!
