//! Request payloads of the authenticated operations and the signed requests
//! built from them.

use vstd::prelude::*;
use vstd::string::StringExecFns;
use vstd::utf8::encode_utf8;
use crate::amount::Amount;
use crate::codec::{
    Field, FieldValue, FieldView, ValueView, field_views, json_members, json_string_text,
    json_value_text, lemma_field_parity, query_pairs, query_value_text,
};
use crate::signer::{sign, signature_of};
use crate::text::{dec_text, decimal_string, push_char};

verus! {

/// The exchange's API host; request paths are appended to it.
pub open spec fn base_url() -> Seq<char> {
    "https://max-api.maicoin.com"@
}

/// The HTTP method of a request.
#[derive(Debug, Clone, Copy, PartialEq, Eq, Structural)]
pub enum Method {
    Get,
    Post,
}

/// Which side of the book an order is on.
#[derive(Debug, Clone, Copy, PartialEq, Eq, Structural)]
pub enum Side {
    Buy,
    Sell,
}

pub open spec fn side_text(s: Side) -> Seq<char> {
    match s {
        Side::Buy => "buy"@,
        Side::Sell => "sell"@,
    }
}

/// A new order to submit.
#[derive(Debug, Clone)]
pub struct OrderSpec {
    pub market: String,
    pub side: Side,
    pub volume: Amount,
    pub price: Amount,
    /// The client's idempotency token.
    pub client_oid: Option<String>,
    pub stop_price: Option<Amount>,
    /// The order type, e.g. `limit`.
    pub ord_type: String,
    pub group_id: Option<u64>,
}

/// The order to cancel, by exchange id, by client token, or both.
#[derive(Debug, Clone)]
pub struct CancelTarget {
    pub id: Option<u64>,
    pub client_oid: Option<String>,
}

/// Filters and pagination for listing orders.
#[derive(Debug, Clone)]
pub struct OrderQuery {
    pub market: String,
    pub state: String,
    pub order_by: Option<String>,
    pub group_id: Option<u64>,
    pub pagination: Option<bool>,
    pub page: Option<u64>,
    pub limit: Option<u64>,
    pub offset: Option<u64>,
}

/// The payload of one authenticated operation.
#[derive(Debug, Clone)]
pub enum RequestPayload {
    SubmitOrder(OrderSpec),
    CancelOrder(CancelTarget),
    ListOrders(OrderQuery),
    Accounts,
    VipLevel,
}

/// The API path of each operation.
pub open spec fn api_path_text(p: RequestPayload) -> Seq<char> {
    match p {
        RequestPayload::SubmitOrder(_) => "/api/v2/orders"@,
        RequestPayload::CancelOrder(_) => "/api/v2/order/delete"@,
        RequestPayload::ListOrders(_) => "/api/v2/orders"@,
        RequestPayload::Accounts => "/api/v2/members/accounts"@,
        RequestPayload::VipLevel => "/api/v2/members/vip_level"@,
    }
}

/// The HTTP method of each operation.
pub open spec fn method_of(p: RequestPayload) -> Method {
    match p {
        RequestPayload::SubmitOrder(_) => Method::Post,
        RequestPayload::CancelOrder(_) => Method::Post,
        _ => Method::Get,
    }
}

pub open spec fn opt_text_field(k: Seq<char>, v: Option<String>) -> Seq<FieldView> {
    match v {
        Some(s) => seq![(k, ValueView::Text(s@))],
        None => Seq::empty(),
    }
}

pub open spec fn opt_count_field(k: Seq<char>, v: Option<u64>) -> Seq<FieldView> {
    match v {
        Some(n) => seq![(k, ValueView::Count(n as nat))],
        None => Seq::empty(),
    }
}

pub open spec fn opt_flag_field(k: Seq<char>, v: Option<bool>) -> Seq<FieldView> {
    match v {
        Some(b) => seq![(k, ValueView::Flag(b))],
        None => Seq::empty(),
    }
}

pub open spec fn opt_amount_field(k: Seq<char>, v: Option<Amount>) -> Seq<FieldView> {
    match v {
        Some(a) => seq![(k, ValueView::Decimal(a@.0, a@.1))],
        None => Seq::empty(),
    }
}

/// The fields of an order submission, in declared order.
pub open spec fn submit_fields(o: OrderSpec) -> Seq<FieldView> {
    seq![
        ("market"@, ValueView::Text(o.market@)),
        ("side"@, ValueView::Text(side_text(o.side))),
        ("volume"@, ValueView::Decimal(o.volume@.0, o.volume@.1)),
        ("price"@, ValueView::Decimal(o.price@.0, o.price@.1)),
    ] + opt_text_field("client_oid"@, o.client_oid) + opt_amount_field("stop_price"@, o.stop_price)
        + seq![("ord_type"@, ValueView::Text(o.ord_type@))] + opt_count_field(
        "group_id"@,
        o.group_id,
    )
}

/// The fields of a cancellation, in declared order.
pub open spec fn cancel_fields(c: CancelTarget) -> Seq<FieldView> {
    opt_count_field("id"@, c.id) + opt_text_field("client_oid"@, c.client_oid)
}

/// The fields of an order listing, in declared order.
pub open spec fn list_fields(q: OrderQuery) -> Seq<FieldView> {
    seq![("market"@, ValueView::Text(q.market@)), ("state"@, ValueView::Text(q.state@))]
        + opt_text_field("order_by"@, q.order_by) + opt_count_field("group_id"@, q.group_id)
        + opt_flag_field("pagination"@, q.pagination) + opt_count_field("page"@, q.page)
        + opt_count_field("limit"@, q.limit) + opt_count_field("offset"@, q.offset)
}

/// The fields each operation adds between `nonce` and `path`; an absent
/// optional field is left out.
pub open spec fn operation_fields(p: RequestPayload) -> Seq<FieldView> {
    match p {
        RequestPayload::SubmitOrder(o) => submit_fields(o),
        RequestPayload::CancelOrder(c) => cancel_fields(c),
        RequestPayload::ListOrders(q) => list_fields(q),
        RequestPayload::Accounts => Seq::empty(),
        RequestPayload::VipLevel => Seq::empty(),
    }
}

/// All fields of an operation's payload: `nonce` first (the nonce's decimal
/// text), then the operation's own fields, then `path`.
pub open spec fn payload_fields(p: RequestPayload, nonce: u128) -> Seq<FieldView> {
    seq![("nonce"@, ValueView::Text(dec_text(nonce as nat)))] + operation_fields(p) + seq![
        ("path"@, ValueView::Text(api_path_text(p))),
    ]
}

/// Appends one field.
fn push_field(fs: &mut Vec<Field>, key: &str, value: FieldValue)
    ensures
        field_views(final(fs)@) == field_views(old(fs)@).push((key@, value@)),
{
    let f = Field { key: String::from_str(key), value };
    fs.push(f);
    assert(field_views(final(fs)@) =~= field_views(old(fs)@).push((key@, value@)));
}

fn push_opt_text(fs: &mut Vec<Field>, key: &str, v: &Option<String>)
    ensures
        field_views(final(fs)@) == field_views(old(fs)@) + opt_text_field(key@, *v),
{
    match v {
        Some(s) => push_field(fs, key, FieldValue::Text(s.clone())),
        None => {},
    }
    assert(field_views(final(fs)@) =~= field_views(old(fs)@) + opt_text_field(key@, *v));
}

fn push_opt_count(fs: &mut Vec<Field>, key: &str, v: Option<u64>)
    ensures
        field_views(final(fs)@) == field_views(old(fs)@) + opt_count_field(key@, v),
{
    match v {
        Some(n) => push_field(fs, key, FieldValue::Count(n)),
        None => {},
    }
    assert(field_views(final(fs)@) =~= field_views(old(fs)@) + opt_count_field(key@, v));
}

fn push_opt_flag(fs: &mut Vec<Field>, key: &str, v: Option<bool>)
    ensures
        field_views(final(fs)@) == field_views(old(fs)@) + opt_flag_field(key@, v),
{
    match v {
        Some(b) => push_field(fs, key, FieldValue::Flag(b)),
        None => {},
    }
    assert(field_views(final(fs)@) =~= field_views(old(fs)@) + opt_flag_field(key@, v));
}

fn push_opt_amount(fs: &mut Vec<Field>, key: &str, v: Option<Amount>)
    ensures
        field_views(final(fs)@) == field_views(old(fs)@) + opt_amount_field(key@, v),
{
    match v {
        Some(a) => push_field(fs, key, FieldValue::Decimal(a)),
        None => {},
    }
    assert(field_views(final(fs)@) =~= field_views(old(fs)@) + opt_amount_field(key@, v));
}

fn push_submit_fields(fs: &mut Vec<Field>, o: &OrderSpec)
    ensures
        field_views(final(fs)@) == field_views(old(fs)@) + submit_fields(*o),
{
    push_field(fs, "market", FieldValue::Text(o.market.clone()));
    let side = match o.side {
        Side::Buy => "buy",
        Side::Sell => "sell",
    };
    push_field(fs, "side", FieldValue::Text(String::from_str(side)));
    push_field(fs, "volume", FieldValue::Decimal(o.volume));
    push_field(fs, "price", FieldValue::Decimal(o.price));
    push_opt_text(fs, "client_oid", &o.client_oid);
    push_opt_amount(fs, "stop_price", o.stop_price);
    push_field(fs, "ord_type", FieldValue::Text(o.ord_type.clone()));
    push_opt_count(fs, "group_id", o.group_id);
    assert(field_views(final(fs)@) =~= field_views(old(fs)@) + submit_fields(*o));
}

fn push_list_fields(fs: &mut Vec<Field>, q: &OrderQuery)
    ensures
        field_views(final(fs)@) == field_views(old(fs)@) + list_fields(*q),
{
    push_field(fs, "market", FieldValue::Text(q.market.clone()));
    push_field(fs, "state", FieldValue::Text(q.state.clone()));
    push_opt_text(fs, "order_by", &q.order_by);
    push_opt_count(fs, "group_id", q.group_id);
    push_opt_flag(fs, "pagination", q.pagination);
    push_opt_count(fs, "page", q.page);
    push_opt_count(fs, "limit", q.limit);
    push_opt_count(fs, "offset", q.offset);
    assert(field_views(final(fs)@) =~= field_views(old(fs)@) + list_fields(*q));
}

impl RequestPayload {
    /// The API path of this operation.
    pub fn api_path(&self) -> (r: &'static str)
        ensures
            r@ == api_path_text(*self),
    {
        match self {
            RequestPayload::SubmitOrder(_) => "/api/v2/orders",
            RequestPayload::CancelOrder(_) => "/api/v2/order/delete",
            RequestPayload::ListOrders(_) => "/api/v2/orders",
            RequestPayload::Accounts => "/api/v2/members/accounts",
            RequestPayload::VipLevel => "/api/v2/members/vip_level",
        }
    }

    /// The HTTP method of this operation.
    pub fn method(&self) -> (r: Method)
        ensures
            r == method_of(*self),
    {
        match self {
            RequestPayload::SubmitOrder(_) => Method::Post,
            RequestPayload::CancelOrder(_) => Method::Post,
            _ => Method::Get,
        }
    }

    /// The payload's fields for the given nonce, in declared order.
    pub fn fields(&self, nonce: u128) -> (r: Vec<Field>)
        ensures
            field_views(r@) == payload_fields(*self, nonce),
    {
        let mut fs: Vec<Field> = Vec::new();
        push_field(&mut fs, "nonce", FieldValue::Text(decimal_string(nonce)));
        match self {
            RequestPayload::SubmitOrder(o) => push_submit_fields(&mut fs, o),
            RequestPayload::CancelOrder(c) => {
                push_opt_count(&mut fs, "id", c.id);
                push_opt_text(&mut fs, "client_oid", &c.client_oid);
            },
            RequestPayload::ListOrders(q) => push_list_fields(&mut fs, q),
            RequestPayload::Accounts => {},
            RequestPayload::VipLevel => {},
        }
        push_field(&mut fs, "path", FieldValue::Text(String::from_str(self.api_path())));
        assert(field_views(fs@) =~= payload_fields(*self, nonce));
        fs
    }
}

/// The full URL of a request: the host, the API path, `?`, the query string.
pub open spec fn request_url(path: Seq<char>, query: Seq<char>) -> Seq<char> {
    base_url() + path + seq!['?'] + query
}

/// A request ready to send. It is built once and not changed afterwards.
#[derive(Debug, Clone)]
pub struct SignedRequest {
    pub method: Method,
    pub url: String,
    /// Sent as `X-MAX-ACCESSKEY`.
    pub access_key: String,
    /// The base64 payload, sent as `X-MAX-PAYLOAD`.
    pub payload: String,
    /// The signature of the payload, sent as `X-MAX-SIGNATURE`.
    pub signature: String,
}

/// Whether `r` is the request that sends `payload` with `query` to
/// `path`, signed with `secret` for `access`.
pub open spec fn is_signed_request(
    r: SignedRequest,
    access: Seq<char>,
    secret: Seq<char>,
    method: Method,
    path: Seq<char>,
    query: Seq<char>,
    payload: Seq<char>,
) -> bool {
    &&& r.method == method
    &&& r.url@ == request_url(path, query)
    &&& r.access_key@ == access
    &&& r.payload@ == payload
    &&& r.signature@ == signature_of(encode_utf8(secret), encode_utf8(payload))
    &&& r.signature@.len() == 64
}

/// Assembles a signed request: the signature is taken over exactly the
/// bytes of the transmitted payload text.
pub fn signed_request(
    access_key: &str,
    secret_key: &str,
    method: Method,
    api_path: &str,
    query: &str,
    payload: &str,
) -> (r: SignedRequest)
    ensures
        is_signed_request(r, access_key@, secret_key@, method, api_path@, query@, payload@),
{
    let signature = sign(secret_key.as_bytes(), payload.as_bytes());
    let mut url = String::from_str("https://max-api.maicoin.com");
    url.append(api_path);
    push_char(&mut url, '?');
    url.append(query);
    assert(url@ =~= request_url(api_path@, query@));
    SignedRequest {
        method,
        url,
        access_key: String::from_str(access_key),
        payload: String::from_str(payload),
        signature,
    }
}

impl SignedRequest {
    /// The headers to send, in order: access key, payload, signature and
    /// content type.
    pub fn headers(&self) -> (r: Vec<(String, String)>)
        ensures
            r@.len() == 4,
            r@[0].0@ == "X-MAX-ACCESSKEY"@ && r@[0].1@ == self.access_key@,
            r@[1].0@ == "X-MAX-PAYLOAD"@ && r@[1].1@ == self.payload@,
            r@[2].0@ == "X-MAX-SIGNATURE"@ && r@[2].1@ == self.signature@,
            r@[3].0@ == "Content-Type"@ && r@[3].1@ == "application/json"@,
    {
        let mut hs: Vec<(String, String)> = Vec::new();
        hs.push((String::from_str("X-MAX-ACCESSKEY"), self.access_key.clone()));
        hs.push((String::from_str("X-MAX-PAYLOAD"), self.payload.clone()));
        hs.push((String::from_str("X-MAX-SIGNATURE"), self.signature.clone()));
        hs.push((String::from_str("Content-Type"), String::from_str("application/json")));
        hs
    }
}

/// For every operation and nonce, the payload's JSON object and its query
/// string hold the same fields in the same order, `nonce` first and `path`
/// last: entry `i` of each is field `i` under the same key.
pub proof fn lemma_payload_parity(p: RequestPayload, n: u128)
    ensures
        ({
            let fs = payload_fields(p, n);
            &&& fs[0].0 == "nonce"@
            &&& fs.last().0 == "path"@
            &&& json_members(fs).len() == fs.len()
            &&& query_pairs(fs).len() == fs.len()
            &&& forall|i: int|
                0 <= i < fs.len() ==> #[trigger] json_members(fs)[i] == json_string_text(fs[i].0)
                    + seq![':'] + json_value_text(fs[i].1)
            &&& forall|i: int|
                0 <= i < fs.len() ==> #[trigger] query_pairs(fs)[i] == fs[i].0 + seq!['=']
                    + query_value_text(fs[i].1)
        }),
{
    lemma_field_parity(payload_fields(p, n));
}

} // verus!
