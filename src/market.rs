//! Market data and fee tier: server time, ticker and VIP level replies.

use vstd::prelude::*;
use vstd::string::StringExecFns;
use crate::orders::{ReplyError, api_error_of, decode_api_error, flat, is_api_error, opt_view};
use crate::response::{JsonValue, find_field, optional_member, optional_text, required_member, required_text};

verus! {

/// The server's clock, in seconds since the Unix epoch: a bare integer that
/// fits an `i32`.
pub open spec fn server_time_of(v: JsonValue) -> Option<i32> {
    match v {
        JsonValue::Int(i) => if i32::MIN <= i <= i32::MAX {
            Some(i as i32)
        } else {
            None
        },
        _ => None,
    }
}

/// Decodes the server time reply.
pub fn server_time_reply(v: &JsonValue) -> (r: Option<i32>)
    ensures
        r == server_time_of(*v),
{
    match v {
        JsonValue::Int(i) => if i32::MIN as i64 <= *i && *i <= i32::MAX as i64 {
            Some(*i as i32)
        } else {
            None
        },
        _ => None,
    }
}

/// The unauthenticated URL of the server time.
pub fn server_time_url() -> (r: String)
    ensures
        r@ == "https://max-api.maicoin.com/api/v2/timestamp"@,
{
    String::from_str("https://max-api.maicoin.com/api/v2/timestamp")
}

/// The unauthenticated URL of a market's ticker.
pub fn ticker_url(market: &str) -> (r: String)
    ensures
        r@ == "https://max-api.maicoin.com/api/v2/tickers/"@ + market@,
{
    let mut url = String::from_str("https://max-api.maicoin.com/api/v2/tickers/");
    url.append(market);
    url
}

/// A market's latest prices and volume, as text; the optional ones are
/// `None` when the exchange leaves them out or null.
#[derive(Debug, Clone)]
pub struct Ticker {
    pub at: String,
    pub buy: Option<String>,
    pub sell: Option<String>,
    pub open: Option<String>,
    pub low: Option<String>,
    pub high: Option<String>,
    pub last: String,
    pub vol: Option<String>,
}

pub struct TickerView {
    pub at: Seq<char>,
    pub buy: Option<Seq<char>>,
    pub sell: Option<Seq<char>>,
    pub open: Option<Seq<char>>,
    pub low: Option<Seq<char>>,
    pub high: Option<Seq<char>>,
    pub last: Seq<char>,
    pub vol: Option<Seq<char>>,
}

impl View for Ticker {
    type V = TickerView;

    open spec fn view(&self) -> TickerView {
        TickerView {
            at: self.at@,
            buy: opt_view(self.buy),
            sell: opt_view(self.sell),
            open: opt_view(self.open),
            low: opt_view(self.low),
            high: opt_view(self.high),
            last: self.last@,
            vol: opt_view(self.vol),
        }
    }
}

/// The ticker an object describes: `at` (the time of the snapshot) and
/// `last` (the last traded price) are text; each of `buy`, `sell`, `open`,
/// `low`, `high` and `vol` is text, null or absent.
pub open spec fn ticker_of(v: JsonValue) -> Option<TickerView> {
    match v {
        JsonValue::Object(fs) => {
            let at = optional_text(fs@, "at"@);
            let buy = optional_text(fs@, "buy"@);
            let sell = optional_text(fs@, "sell"@);
            let open = optional_text(fs@, "open"@);
            let low = optional_text(fs@, "low"@);
            let high = optional_text(fs@, "high"@);
            let last = optional_text(fs@, "last"@);
            let vol = optional_text(fs@, "vol"@);
            if at is Some && at->0 is Some && buy is Some && sell is Some && open is Some && low is Some
                && high is Some && last is Some && last->0 is Some && vol is Some {
                Some(
                    TickerView {
                        at: at->0->0,
                        buy: buy->0,
                        sell: sell->0,
                        open: open->0,
                        low: low->0,
                        high: high->0,
                        last: last->0->0,
                        vol: vol->0,
                    },
                )
            } else {
                None
            }
        },
        _ => None,
    }
}

/// Decodes a ticker reply.
pub fn ticker_reply(v: &JsonValue) -> (r: Result<Ticker, ReplyError>)
    ensures
        match api_error_of(*v) {
            Some(e) => r matches Err(x) && is_api_error(x, e),
            None => match ticker_of(*v) {
                Some(t) => r matches Ok(x) && x@ == t,
                None => r matches Err(ReplyError::Decode),
            },
        },
{
    if let Some(e) = decode_api_error(v) {
        return Err(ReplyError::Api(e));
    }
    match v {
        JsonValue::Object(fs) => {
            let at = optional_member(fs, "at");
            let buy = optional_member(fs, "buy");
            let sell = optional_member(fs, "sell");
            let open = optional_member(fs, "open");
            let low = optional_member(fs, "low");
            let high = optional_member(fs, "high");
            let last = optional_member(fs, "last");
            let vol = optional_member(fs, "vol");
            match (at, buy, sell, open, low, high, last, vol) {
                (
                    Some(Some(at)),
                    Some(buy),
                    Some(sell),
                    Some(open),
                    Some(low),
                    Some(high),
                    Some(Some(last)),
                    Some(vol),
                ) => Ok(Ticker { at, buy, sell, open, low, high, last, vol }),
                _ => Err(ReplyError::Decode),
            }
        },
        _ => Err(ReplyError::Decode),
    }
}

/// The account's current fee tier.
#[derive(Debug, Clone)]
pub struct VipLevel {
    pub level: Option<String>,
    pub maker_fee: String,
    pub taker_fee: String,
}

pub struct VipLevelView {
    pub level: Option<Seq<char>>,
    pub maker_fee: Seq<char>,
    pub taker_fee: Seq<char>,
}

impl View for VipLevel {
    type V = VipLevelView;

    open spec fn view(&self) -> VipLevelView {
        VipLevelView {
            level: opt_view(self.level),
            maker_fee: self.maker_fee@,
            taker_fee: self.taker_fee@,
        }
    }
}

/// The tier a reply describes: its `current_vip_level` object, whose
/// `maker_fee` and `taker_fee` are text and whose `level` is text, null or
/// absent.
pub open spec fn vip_level_of(v: JsonValue) -> Option<VipLevelView> {
    match v {
        JsonValue::Object(fs) => match current_vip_level_of(fs@) {
            Some(JsonValue::Object(cur)) => {
                let level = optional_text(cur@, "level"@);
                let maker = required_text(cur@, "maker_fee"@);
                let taker = required_text(cur@, "taker_fee"@);
                if level is Some && maker is Some && taker is Some {
                    Some(
                        VipLevelView { level: flat(level), maker_fee: maker->0, taker_fee: taker->0 },
                    )
                } else {
                    None
                }
            },
            _ => None,
        },
        _ => None,
    }
}

/// The `current_vip_level` member.
pub open spec fn current_vip_level_of(fs: Seq<(String, JsonValue)>) -> Option<JsonValue> {
    crate::response::field_of(fs, "current_vip_level"@)
}

/// Decodes a VIP level reply.
pub fn vip_level_reply(v: &JsonValue) -> (r: Result<VipLevel, ReplyError>)
    ensures
        match api_error_of(*v) {
            Some(e) => r matches Err(x) && is_api_error(x, e),
            None => match vip_level_of(*v) {
                Some(t) => r matches Ok(x) && x@ == t,
                None => r matches Err(ReplyError::Decode),
            },
        },
{
    if let Some(e) = decode_api_error(v) {
        return Err(ReplyError::Api(e));
    }
    match v {
        JsonValue::Object(fs) => match find_field(fs, "current_vip_level") {
            Some(i) => match &fs[i].1 {
                JsonValue::Object(cur) => {
                    let level = optional_member(cur, "level");
                    let maker = required_member(cur, "maker_fee");
                    let taker = required_member(cur, "taker_fee");
                    match (level, maker, taker) {
                        (Some(level), Some(maker_fee), Some(taker_fee)) => Ok(
                            VipLevel { level, maker_fee, taker_fee },
                        ),
                        _ => Err(ReplyError::Decode),
                    }
                },
                _ => Err(ReplyError::Decode),
            },
            None => Err(ReplyError::Decode),
        },
        _ => Err(ReplyError::Decode),
    }
}

} // verus!
