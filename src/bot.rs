//! The exchange client: credentials, the nonce source and the account cache,
//! with one request builder per authenticated operation.

use vstd::prelude::*;
use vstd::utf8::encode_utf8;
use crate::codec::{
    FieldValue, base64_text, encode, json_object, query_string, query_value_text,
};
use crate::nonce::{ClockError, NonceSource, next_nonce};
use crate::orders::{ReplyError, api_error_of, decode_api_error, is_api_error};
use crate::request::{
    CancelTarget, Method, OrderQuery, OrderSpec, RequestPayload, SignedRequest, api_path_text,
    is_signed_request, method_of, payload_fields, signed_request,
};
use crate::response::{
    Account, AccountView, JsonValue, account_views, decode_accounts, decoded_accounts,
    rejected_accounts,
};

verus! {

/// The client's state as the contracts see it.
pub struct BotView {
    pub access_key: Seq<char>,
    pub secret_key: Seq<char>,
    pub accounts: Seq<AccountView>,
    pub last_nonce: Option<u128>,
}

/// Whether `r` is the signed request of payload `p` with nonce `n`, for the
/// credentials `access` and `secret`: its payload header is the base64 of the
/// payload's JSON object and its URL carries the payload's query string.
pub open spec fn is_request_for(
    r: SignedRequest,
    access: Seq<char>,
    secret: Seq<char>,
    p: RequestPayload,
    n: u128,
) -> bool {
    is_signed_request(
        r,
        access,
        secret,
        method_of(p),
        api_path_text(p),
        query_string(payload_fields(p, n)),
        base64_text(encode_utf8(json_object(payload_fields(p, n)))),
    )
}

/// What building the signed request of `p` at clock reading `clock` does:
/// it issues the next nonce (or fails with `Exhausted`, changing nothing),
/// then encodes the payload with that nonce and signs it; the credentials
/// and the account cache are unchanged.
pub open spec fn authenticated(
    before: BotView,
    after: BotView,
    clock: u128,
    p: RequestPayload,
    r: Result<SignedRequest, ClockError>,
) -> bool {
    &&& after.access_key == before.access_key
    &&& after.secret_key == before.secret_key
    &&& after.accounts == before.accounts
    &&& match next_nonce(before.last_nonce, clock) {
        None => r == Err::<SignedRequest, ClockError>(ClockError::Exhausted) && after.last_nonce
            == before.last_nonce,
        Some(n) => after.last_nonce == Some(n) && (r matches Ok(s) && is_request_for(
            s,
            before.access_key,
            before.secret_key,
            p,
            n,
        )),
    }
}

/// A client of the exchange's API for one account.
pub struct GridTradeBot {
    access_key: String,
    secret_key: String,
    accounts: Vec<Account>,
    nonces: NonceSource,
}

impl View for GridTradeBot {
    type V = BotView;

    closed spec fn view(&self) -> BotView {
        BotView {
            access_key: self.access_key@,
            secret_key: self.secret_key@,
            accounts: account_views(self.accounts@),
            last_nonce: self.nonces@,
        }
    }
}

impl GridTradeBot {
    /// A client for the given credentials, with an empty account cache.
    pub fn new(access_key: String, secret_key: String) -> (r: GridTradeBot)
        ensures
            r@.access_key == access_key@,
            r@.secret_key == secret_key@,
            r@.accounts.len() == 0,
            r@.last_nonce is None,
    {
        let r = GridTradeBot { access_key, secret_key, accounts: Vec::new(), nonces: NonceSource::new() };
        assert(account_views(r.accounts@) =~= Seq::<AccountView>::empty());
        r
    }

    /// The cached accounts, as of the last successful sync.
    pub fn accounts(&self) -> (r: &Vec<Account>)
        ensures
            account_views(r@) == self@.accounts,
    {
        &self.accounts
    }

    /// The last nonce issued (`None` before the first request).
    pub fn last_nonce(&self) -> (r: Option<u128>)
        ensures
            r == self@.last_nonce,
    {
        self.nonces.last()
    }

    /// The query text of an optional field value: its plain text, or empty
    /// text when absent.
    pub fn option_to_string(&self, option: &Option<FieldValue>) -> (r: String)
        ensures
            r@ == match option {
                Some(v) => query_value_text(v@),
                None => Seq::empty(),
            },
    {
        let mut out = String::new();
        match option {
            Some(v) => {
                crate::codec::push_query_value(&mut out, v);
                assert(out@ =~= query_value_text(v@));
            },
            None => {},
        }
        out
    }

    /// The request that sends `payload` with `params` to `api_path`, signed
    /// with this client's secret.
    pub fn build_auth_client(
        &self,
        method: Method,
        api_path: &str,
        params: &str,
        payload: &str,
    ) -> (r: SignedRequest)
        ensures
            is_signed_request(
                r,
                self@.access_key,
                self@.secret_key,
                method,
                api_path@,
                params@,
                payload@,
            ),
    {
        signed_request(
            self.access_key.as_str(),
            self.secret_key.as_str(),
            method,
            api_path,
            params,
            payload,
        )
    }

    /// Issues a fresh nonce from the clock reading `clock` (milliseconds) and
    /// builds the signed request of `p` with it.
    pub fn authenticate(&mut self, clock: u128, p: RequestPayload) -> (r: Result<SignedRequest, ClockError>)
        ensures
            authenticated(old(self)@, final(self)@, clock, p, r),
    {
        let nonce = match self.nonces.next(clock) {
            Ok(n) => n,
            Err(e) => return Err(e),
        };
        let fields = p.fields(nonce);
        let encoded = encode(&fields);
        Ok(
            self.build_auth_client(
                p.method(),
                p.api_path(),
                encoded.query.as_str(),
                encoded.payload.as_str(),
            ),
        )
    }

    /// The signed request that submits `order` (`POST /api/v2/orders`).
    pub fn submit_order(&mut self, clock: u128, order: OrderSpec) -> (r: Result<SignedRequest, ClockError>)
        ensures
            authenticated(old(self)@, final(self)@, clock, RequestPayload::SubmitOrder(order), r),
    {
        self.authenticate(clock, RequestPayload::SubmitOrder(order))
    }

    /// The signed request that cancels `target` (`POST /api/v2/order/delete`).
    pub fn delete_order(&mut self, clock: u128, target: CancelTarget) -> (r: Result<SignedRequest, ClockError>)
        ensures
            authenticated(old(self)@, final(self)@, clock, RequestPayload::CancelOrder(target), r),
    {
        self.authenticate(clock, RequestPayload::CancelOrder(target))
    }

    /// The signed request that lists orders matching `query` (`GET /api/v2/orders`).
    pub fn get_orders(&mut self, clock: u128, query: OrderQuery) -> (r: Result<SignedRequest, ClockError>)
        ensures
            authenticated(old(self)@, final(self)@, clock, RequestPayload::ListOrders(query), r),
    {
        self.authenticate(clock, RequestPayload::ListOrders(query))
    }

    /// The signed request that fetches the account balances
    /// (`GET /api/v2/members/accounts`).
    pub fn accounts_request(&mut self, clock: u128) -> (r: Result<SignedRequest, ClockError>)
        ensures
            authenticated(old(self)@, final(self)@, clock, RequestPayload::Accounts, r),
    {
        self.authenticate(clock, RequestPayload::Accounts)
    }

    /// The signed request that fetches the fee tier
    /// (`GET /api/v2/members/vip_level`).
    pub fn get_vip_level(&mut self, clock: u128) -> (r: Result<SignedRequest, ClockError>)
        ensures
            authenticated(old(self)@, final(self)@, clock, RequestPayload::VipLevel, r),
    {
        self.authenticate(clock, RequestPayload::VipLevel)
    }

    /// Applies the reply to the accounts request. An array replaces the whole
    /// cache with the accounts of its well-formed elements, in response
    /// order, and returns the positions of the malformed ones as warnings.
    /// An error reply or any other shape leaves the cache as it was.
    pub fn sync_accounts(&mut self, reply: &JsonValue) -> (r: Result<Vec<usize>, ReplyError>)
        ensures
            final(self)@.access_key == old(self)@.access_key,
            final(self)@.secret_key == old(self)@.secret_key,
            final(self)@.last_nonce == old(self)@.last_nonce,
            match api_error_of(*reply) {
                Some(e) => r matches Err(x) && is_api_error(x, e) && final(self)@.accounts == old(
                    self,
                )@.accounts,
                None => match *reply {
                    JsonValue::Array(items) => r matches Ok(w) && final(self)@.accounts
                        == decoded_accounts(items@) && w@.map_values(|i: usize| i as int)
                        == rejected_accounts(items@),
                    _ => r matches Err(ReplyError::Decode) && final(self)@.accounts == old(
                        self,
                    )@.accounts,
                },
            },
    {
        if let Some(e) = decode_api_error(reply) {
            return Err(ReplyError::Api(e));
        }
        match reply {
            JsonValue::Array(items) => {
                let (accounts, warnings) = decode_accounts(items);
                self.accounts = accounts;
                Ok(warnings)
            },
            _ => Err(ReplyError::Decode),
        }
    }
}

/// Two signed requests built one after the other carry distinct, increasing
/// nonces, even when the clock reads the same (or goes back) between them.
pub proof fn lemma_back_to_back_nonces(
    before: BotView,
    middle: BotView,
    after: BotView,
    c1: u128,
    c2: u128,
    first: RequestPayload,
    second: RequestPayload,
    r1: Result<SignedRequest, ClockError>,
    r2: Result<SignedRequest, ClockError>,
)
    requires
        authenticated(before, middle, c1, first, r1),
        authenticated(middle, after, c2, second, r2),
        r1 is Ok,
        r2 is Ok,
    ensures
        middle.last_nonce matches Some(m) && after.last_nonce matches Some(a) && m < a,
        before.last_nonce matches Some(b) ==> b < middle.last_nonce->0,
        next_nonce(before.last_nonce, c1) == middle.last_nonce,
        next_nonce(middle.last_nonce, c2) == after.last_nonce,
{
}

} // verus!
