//! Orders and the replies of order operations, including the structured
//! error object the exchange sends instead of an order.

use vstd::prelude::*;
use crate::response::{
    JsonValue, field_of, optional_member, optional_text, or_empty, required_member, required_text,
};

verus! {

/// The text view of an optional string.
pub open spec fn opt_view(o: Option<String>) -> Option<Seq<char>> {
    match o {
        Some(s) => Some(s@),
        None => None,
    }
}

/// An optional member's text, absent and null both giving `None`.
pub open spec fn flat(o: Option<Option<Seq<char>>>) -> Option<Seq<char>> {
    match o {
        Some(Some(t)) => Some(t),
        _ => None,
    }
}

/// An order as the exchange reports it.
#[derive(Debug, Clone)]
pub struct Order {
    pub id: String,
    pub client_oid: Option<String>,
    pub market: String,
    pub side: String,
    pub ord_type: Option<String>,
    pub price: Option<String>,
    pub volume: String,
    pub remaining_volume: Option<String>,
    pub state: Option<String>,
}

pub struct OrderView {
    pub id: Seq<char>,
    pub client_oid: Option<Seq<char>>,
    pub market: Seq<char>,
    pub side: Seq<char>,
    pub ord_type: Option<Seq<char>>,
    pub price: Option<Seq<char>>,
    pub volume: Seq<char>,
    pub remaining_volume: Option<Seq<char>>,
    pub state: Option<Seq<char>>,
}

impl View for Order {
    type V = OrderView;

    open spec fn view(&self) -> OrderView {
        OrderView {
            id: self.id@,
            client_oid: opt_view(self.client_oid),
            market: self.market@,
            side: self.side@,
            ord_type: opt_view(self.ord_type),
            price: opt_view(self.price),
            volume: self.volume@,
            remaining_volume: opt_view(self.remaining_volume),
            state: opt_view(self.state),
        }
    }
}

/// The order an object describes: `id`, `market`, `side` and `volume` are
/// text; `client_oid`, `ord_type`, `price`, `remaining_volume` and `state`
/// are text, null or absent. Anything else is malformed.
pub open spec fn order_of(v: JsonValue) -> Option<OrderView> {
    match v {
        JsonValue::Object(fs) => {
            let id = required_text(fs@, "id"@);
            let market = required_text(fs@, "market"@);
            let side = required_text(fs@, "side"@);
            let volume = required_text(fs@, "volume"@);
            let oid = optional_text(fs@, "client_oid"@);
            let ot = optional_text(fs@, "ord_type"@);
            let price = optional_text(fs@, "price"@);
            let rv = optional_text(fs@, "remaining_volume"@);
            let state = optional_text(fs@, "state"@);
            if id is Some && market is Some && side is Some && volume is Some && oid is Some
                && ot is Some && price is Some && rv is Some && state is Some {
                Some(
                    OrderView {
                        id: id->0,
                        client_oid: oid->0,
                        market: market->0,
                        side: side->0,
                        ord_type: ot->0,
                        price: price->0,
                        volume: volume->0,
                        remaining_volume: rv->0,
                        state: state->0,
                    },
                )
            } else {
                None
            }
        },
        _ => None,
    }
}

/// Decodes one order object.
pub fn decode_order(v: &JsonValue) -> (r: Option<Order>)
    ensures
        match order_of(*v) {
            Some(o) => r matches Some(x) && x@ == o,
            None => r is None,
        },
{
    match v {
        JsonValue::Object(fs) => {
            let id = required_member(fs, "id");
            let market = required_member(fs, "market");
            let side = required_member(fs, "side");
            let volume = required_member(fs, "volume");
            let oid = optional_member(fs, "client_oid");
            let ot = optional_member(fs, "ord_type");
            let price = optional_member(fs, "price");
            let rv = optional_member(fs, "remaining_volume");
            let state = optional_member(fs, "state");
            match (id, market, side, volume, oid, ot, price, rv, state) {
                (
                    Some(id),
                    Some(market),
                    Some(side),
                    Some(volume),
                    Some(oid),
                    Some(ot),
                    Some(price),
                    Some(rv),
                    Some(state),
                ) => Some(
                    Order {
                        id,
                        client_oid: oid,
                        market,
                        side,
                        ord_type: ot,
                        price,
                        volume,
                        remaining_volume: rv,
                        state,
                    },
                ),
                _ => None,
            }
        },
        _ => None,
    }
}

/// The exchange rejected a request, with its error code and message.
#[derive(Debug, Clone)]
pub struct ApiError {
    pub code: Option<String>,
    pub message: String,
}

/// The code and message of an error member: an object's `code` and
/// `message` texts (the message empty when absent), or a bare string as the
/// message.
pub open spec fn error_parts(e: JsonValue) -> (Option<Seq<char>>, Seq<char>) {
    match e {
        JsonValue::Object(efs) => (
            flat(optional_text(efs@, "code"@)),
            or_empty(flat(optional_text(efs@, "message"@))),
        ),
        JsonValue::Str(s) => (None, s@),
        _ => (None, Seq::empty()),
    }
}

/// The error a response carries: an object with a non-null `error` member.
pub open spec fn api_error_of(v: JsonValue) -> Option<(Option<Seq<char>>, Seq<char>)> {
    match v {
        JsonValue::Object(fs) => match field_of(fs@, "error"@) {
            None => None,
            Some(JsonValue::Null) => None,
            Some(e) => Some(error_parts(e)),
        },
        _ => None,
    }
}

fn flatten(o: Option<Option<String>>) -> (r: Option<String>)
    ensures
        opt_view(r) == flat(match o {
            Some(Some(s)) => Some(Some(s@)),
            Some(None) => Some(None),
            None => None,
        }),
{
    match o {
        Some(Some(s)) => Some(s),
        _ => None,
    }
}

/// Reads the error a response carries, if any.
pub fn decode_api_error(v: &JsonValue) -> (r: Option<ApiError>)
    ensures
        match api_error_of(*v) {
            Some(e) => r matches Some(x) && opt_view(x.code) == e.0 && x.message@ == e.1,
            None => r is None,
        },
{
    match v {
        JsonValue::Object(fs) => match crate::response::find_field(fs, "error") {
            None => None,
            Some(i) => match &fs[i].1 {
                JsonValue::Null => None,
                JsonValue::Object(efs) => {
                    let code = flatten(optional_member(efs, "code"));
                    let message = match flatten(optional_member(efs, "message")) {
                        Some(m) => m,
                        None => String::new(),
                    };
                    Some(ApiError { code, message })
                },
                JsonValue::Str(s) => Some(ApiError { code: None, message: s.clone() }),
                _ => Some(ApiError { code: None, message: String::new() }),
            },
        },
        _ => None,
    }
}

/// Why an operation's reply gave no result.
#[derive(Debug, Clone)]
pub enum ReplyError {
    /// The exchange rejected the request.
    Api(ApiError),
    /// The reply does not have the expected shape.
    Decode,
}

/// Whether `r` is the error `Api` with the given code and message.
pub open spec fn is_api_error(r: ReplyError, e: (Option<Seq<char>>, Seq<char>)) -> bool {
    r matches ReplyError::Api(x) && opt_view(x.code) == e.0 && x.message@ == e.1
}

/// The outcome of submitting or cancelling an order: the server's error
/// when it sent one, else the order it reports.
pub fn order_reply(v: &JsonValue) -> (r: Result<Order, ReplyError>)
    ensures
        match api_error_of(*v) {
            Some(e) => r matches Err(x) && is_api_error(x, e),
            None => match order_of(*v) {
                Some(o) => r matches Ok(x) && x@ == o,
                None => r matches Err(ReplyError::Decode),
            },
        },
{
    match decode_api_error(v) {
        Some(e) => Err(ReplyError::Api(e)),
        None => match decode_order(v) {
            Some(o) => Ok(o),
            None => Err(ReplyError::Decode),
        },
    }
}

/// The orders of the well-formed elements, in response order.
pub open spec fn decoded_orders(items: Seq<JsonValue>) -> Seq<OrderView>
    decreases items.len(),
{
    if items.len() == 0 {
        Seq::empty()
    } else {
        let prev = decoded_orders(items.drop_last());
        match order_of(items.last()) {
            Some(o) => prev.push(o),
            None => prev,
        }
    }
}

/// The positions of the malformed elements, in increasing order.
pub open spec fn rejected_orders(items: Seq<JsonValue>) -> Seq<int>
    decreases items.len(),
{
    if items.len() == 0 {
        Seq::empty()
    } else {
        let prev = rejected_orders(items.drop_last());
        if order_of(items.last()) is None {
            prev.push(items.len() - 1)
        } else {
            prev
        }
    }
}

pub open spec fn order_views(orders: Seq<Order>) -> Seq<OrderView> {
    orders.map_values(|o: Order| o@)
}

/// Decodes each element on its own, keeping response order; the positions
/// of malformed elements are returned as warnings.
pub fn decode_orders(items: &Vec<JsonValue>) -> (r: (Vec<Order>, Vec<usize>))
    ensures
        order_views(r.0@) == decoded_orders(items@),
        r.1@.map_values(|i: usize| i as int) == rejected_orders(items@),
{
    let mut orders: Vec<Order> = Vec::new();
    let mut rejected: Vec<usize> = Vec::new();
    let mut i: usize = 0;
    while i < items.len()
        invariant
            i <= items@.len(),
            order_views(orders@) == decoded_orders(items@.take(i as int)),
            rejected@.map_values(|j: usize| j as int) == rejected_orders(items@.take(i as int)),
        decreases items.len() - i,
    {
        let ghost prev_orders = orders@;
        let ghost prev_rejected = rejected@;
        assert(items@.take(i + 1).drop_last() =~= items@.take(i as int));
        assert(items@.take(i + 1).last() == items@[i as int]);
        match decode_order(&items[i]) {
            Some(o) => {
                orders.push(o);
                assert(order_views(orders@) =~= order_views(prev_orders).push(o@));
            },
            None => {
                rejected.push(i);
                assert(rejected@.map_values(|j: usize| j as int) =~= prev_rejected.map_values(
                    |j: usize| j as int,
                ).push(i as int));
            },
        }
        i = i + 1;
    }
    assert(items@.take(i as int) =~= items@);
    (orders, rejected)
}

/// The outcome of listing orders: the server's error when it sent one, the
/// decodable orders and the malformed positions of an array, or `Decode`
/// for any other shape.
pub fn orders_reply(v: &JsonValue) -> (r: Result<(Vec<Order>, Vec<usize>), ReplyError>)
    ensures
        match api_error_of(*v) {
            Some(e) => r matches Err(x) && is_api_error(x, e),
            None => match *v {
                JsonValue::Array(items) => r matches Ok(d) && order_views(d.0@) == decoded_orders(
                    items@,
                ) && d.1@.map_values(|i: usize| i as int) == rejected_orders(items@),
                _ => r matches Err(ReplyError::Decode),
            },
        },
{
    match decode_api_error(v) {
        Some(e) => Err(ReplyError::Api(e)),
        None => match v {
            JsonValue::Array(items) => Ok(decode_orders(items)),
            _ => Err(ReplyError::Decode),
        },
    }
}

} // verus!
