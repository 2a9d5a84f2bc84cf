//! The JSON-RPC calling surface: request envelopes, endpoints, call
//! parameter validation, and the reading of responses. Every character of
//! a request body and every acceptance or rejection of call parameters is
//! pinned down here; the network send itself stays outside the library.

use vstd::prelude::*;
use vstd::string::StringExecFns;
use crate::json::JsonValue;
use crate::json::json_chars;
use crate::json::lookup_spec;
use crate::json::quoted;
use crate::json::push_json;
use crate::json::push_quoted;
use crate::json::chars_to_string;
use crate::net::IpAddress;
use crate::pool::ConstructionError;
use crate::pool::IpPool;
use crate::pool::SelectionAlgorithm;
use crate::pool::clone_client;
use crate::pool::random_below;
use crate::pool::rr_next;

verus! {

/// A call whose parameters the library refuses before anything is sent.
#[derive(Debug, Clone, Copy, PartialEq, Eq, Structural)]
pub enum ValidationError {
    /// A bundle with no transaction at all.
    EmptyBundle,
    /// A bundle with more than five transactions.
    OversizedBundle,
    /// Bundle parameters that are not an array of transactions.
    InvalidBundleFormat,
}

/// A remote response without the shape the caller asked the library to
/// read, surfaced as a distinct failure rather than silently defaulting.
#[derive(Debug, Clone, Copy, PartialEq, Eq, Structural)]
pub enum ResponseShapeError {
    /// The response's `result` field is missing or not an array.
    ResultNotArray,
    /// The `result` array holds no tip account to pick from.
    NoTipAccounts,
    /// The picked tip account entry is not a string.
    AccountNotString,
}

impl ValidationError {
    /// The failure's wording, one fixed message per variant.
    pub fn message(&self) -> (r: String)
        ensures
            *self == ValidationError::EmptyBundle ==> r@ == "Bundle must contain at least one transaction"@,
            *self == ValidationError::OversizedBundle ==> r@ == "Bundle can contain at most 5 transactions"@,
            *self == ValidationError::InvalidBundleFormat ==> r@ == "Invalid bundle format: expected an array of transactions"@,
    {
        match self {
            ValidationError::EmptyBundle => String::from_str(
                "Bundle must contain at least one transaction",
            ),
            ValidationError::OversizedBundle => String::from_str(
                "Bundle can contain at most 5 transactions",
            ),
            ValidationError::InvalidBundleFormat => String::from_str(
                "Invalid bundle format: expected an array of transactions",
            ),
        }
    }
}

impl ResponseShapeError {
    /// The failure's wording, one fixed message per variant.
    pub fn message(&self) -> (r: String)
        ensures
            *self == ResponseShapeError::ResultNotArray ==> r@ == "Failed to parse tip accounts as array"@,
            *self == ResponseShapeError::NoTipAccounts ==> r@ == "No tip accounts available"@,
            *self == ResponseShapeError::AccountNotString ==> r@ == "Failed to parse tip account as string"@,
    {
        match self {
            ResponseShapeError::ResultNotArray => String::from_str(
                "Failed to parse tip accounts as array",
            ),
            ResponseShapeError::NoTipAccounts => String::from_str("No tip accounts available"),
            ResponseShapeError::AccountNotString => String::from_str(
                "Failed to parse tip account as string",
            ),
        }
    }
}

/// Relies on `reqwest::Client::new`: a fresh client with the default
/// configuration, bound to no particular local address. No network I/O
/// happens here, so nothing is promised of the handle.
#[verifier::external_body]
fn default_client() -> reqwest::Client {
    reqwest::Client::new()
}

/// The capability every call goes through: one `acquire` method, served
/// either by a single default handle or by an address pool.
pub enum Dispatcher {
    /// One default client handle; no source-address diversity.
    Single(reqwest::Client),
    /// A pool of handles bound to distinct source addresses.
    Pooled(IpPool),
}

impl Dispatcher {
    /// A dispatcher is well formed when its pool, if it has one, is.
    pub open spec fn wf(&self) -> bool {
        match *self {
            Dispatcher::Single(_) => true,
            Dispatcher::Pooled(p) => p.wf(),
        }
    }

    /// The handle the next call goes through: the single handle, or the
    /// one the pool's algorithm picks. Never fails; the pool, its
    /// handles and its algorithm survive the call, and only the
    /// round-robin cursor moves, by exactly one step modulo pool size.
    pub fn acquire(&mut self) -> (c: reqwest::Client)
        requires
            old(self).wf(),
        ensures
            final(self).wf(),
            *old(self) matches Dispatcher::Single(h) ==> c == h && *final(self) == *old(self),
            *old(self) matches Dispatcher::Pooled(p) ==> {
                &&& *final(self) matches Dispatcher::Pooled(q)
                &&& q.addresses == p.addresses
                &&& q.clients == p.clients
                &&& q.algorithm == p.algorithm
                &&& exists|i: int| 0 <= i < p.clients@.len() && c == p.clients@[i]
                &&& p.algorithm == SelectionAlgorithm::RoundRobin ==> c == p.clients@[p.cursor as int]
                    && q.cursor as nat == rr_next(p.cursor as nat, p.clients@.len())
                &&& p.algorithm == SelectionAlgorithm::Random ==> q.cursor == p.cursor
            },
    {
        match self {
            Dispatcher::Single(h) => clone_client(h),
            Dispatcher::Pooled(p) => p.get_client(),
        }
    }
}

/// The JSON-RPC facade: the service's base URL, an optional uuid carried
/// as a query parameter, and the dispatcher every call acquires its
/// handle from.
pub struct JitoJsonRpcSDK {
    pub base_url: String,
    pub uuid: Option<String>,
    pub dispatcher: Dispatcher,
}

/// The exact characters of a request body: the JSON-RPC envelope around
/// a method name and the serialized parameters (`[]` when none are
/// given).
pub open spec fn envelope_chars(method: Seq<char>, params_chars: Seq<char>) -> Seq<char> {
    seq!['{'] + quoted("jsonrpc"@) + seq![':'] + quoted("2.0"@) + seq![','] + quoted("id"@)
        + seq![':'] + seq!['1'] + seq![','] + quoted("method"@) + seq![':'] + quoted(method)
        + seq![','] + quoted("params"@) + seq![':'] + params_chars + seq!['}']
}

/// The serialized parameters a request body carries: the given value's
/// serialized form, or the empty array.
pub open spec fn params_chars_of(params: Option<JsonValue>) -> Seq<char> {
    match params {
        Some(p) => json_chars(p),
        None => seq!['[', ']'],
    }
}

impl JitoJsonRpcSDK {
    /// The facade's invariant: its dispatcher is well formed.
    pub open spec fn wf(&self) -> bool {
        self.dispatcher.wf()
    }

    /// A facade in single-address mode: every call goes through one
    /// default client handle.
    pub fn new(base_url: &str, uuid: Option<String>) -> (r: Self)
        ensures
            r.wf(),
            r.base_url@ == base_url@,
            r.uuid == uuid,
            r.dispatcher matches Dispatcher::Single(_),
    {
        JitoJsonRpcSDK {
            base_url: String::from_str(base_url),
            uuid,
            dispatcher: Dispatcher::Single(default_client()),
        }
    }

    /// A facade in pooled mode: calls are spread over handles bound to
    /// the given source addresses by the given algorithm. Fails exactly
    /// as pool construction does.
    pub fn new_with_ip_pool(
        base_url: &str,
        uuid: Option<String>,
        ips: Vec<IpAddress>,
        algorithm: SelectionAlgorithm,
    ) -> (r: Result<Self, ConstructionError>)
        ensures
            ips@.len() == 0 <==> r matches Err(ConstructionError::EmptyPool),
            r matches Err(ConstructionError::BindFailure(a)) ==> ips@.contains(a),
            r matches Ok(s) ==> {
                &&& s.wf()
                &&& s.base_url@ == base_url@
                &&& s.uuid == uuid
                &&& s.dispatcher matches Dispatcher::Pooled(p) && p.addresses == ips
                    && p.algorithm == algorithm && p.cursor == 0
            },
    {
        match IpPool::construct(ips, algorithm) {
            Ok(pool) => Ok(
                JitoJsonRpcSDK {
                    base_url: String::from_str(base_url),
                    uuid,
                    dispatcher: Dispatcher::Pooled(pool),
                },
            ),
            Err(e) => Err(e),
        }
    }

    /// The pool's pick for the next call. Callers must have built the
    /// facade in pooled mode; single-address mode has no pool to ask.
    /// The pool stays, with its handles, addresses and algorithm intact,
    /// so calls can follow one another; under round robin each call
    /// returns the handle at the cursor and advances the cursor by
    /// exactly one step modulo pool size, and under random selection the
    /// cursor stays put.
    pub fn client(&mut self) -> (c: reqwest::Client)
        requires
            old(self).wf(),
            old(self).dispatcher matches Dispatcher::Pooled(_),
        ensures
            final(self).wf(),
            final(self).base_url == old(self).base_url,
            final(self).uuid == old(self).uuid,
            old(self).dispatcher matches Dispatcher::Pooled(p) ==> {
                &&& final(self).dispatcher matches Dispatcher::Pooled(q)
                &&& q.addresses == p.addresses
                &&& q.clients == p.clients
                &&& q.algorithm == p.algorithm
                &&& exists|i: int| 0 <= i < p.clients@.len() && c == p.clients@[i]
                &&& p.algorithm == SelectionAlgorithm::RoundRobin ==> c == p.clients@[p.cursor as int]
                    && q.cursor as nat == rr_next(p.cursor as nat, p.clients@.len())
                &&& p.algorithm == SelectionAlgorithm::Random ==> q.cursor == p.cursor
            },
    {
        self.dispatcher.acquire()
    }

    /// The full URL of a call: the base URL with the endpoint after it.
    pub fn request_url(&self, endpoint: &str) -> (r: String)
        ensures
            r@ == self.base_url@ + endpoint@,
    {
        self.base_url.clone().concat(endpoint)
    }

    /// The tip-accounts endpoint, carrying the configured uuid when there
    /// is one.
    pub fn tip_accounts_endpoint(&self) -> (r: String)
        ensures
            match self.uuid {
                Some(u) => r@ == "/bundles?uuid="@ + u@,
                None => r@ == "/bundles"@,
            },
    {
        match &self.uuid {
            Some(u) => String::from_str("/bundles?uuid=").concat(u.as_str()),
            None => String::from_str("/bundles"),
        }
    }

    /// The bundle-statuses endpoint, carrying the configured uuid when
    /// there is one.
    pub fn bundle_statuses_endpoint(&self) -> (r: String)
        ensures
            match self.uuid {
                Some(u) => r@ == "/getBundleStatuses?uuid="@ + u@,
                None => r@ == "/getBundleStatuses"@,
            },
    {
        match &self.uuid {
            Some(u) => String::from_str("/getBundleStatuses?uuid=").concat(u.as_str()),
            None => String::from_str("/getBundleStatuses"),
        }
    }

    /// The in-flight bundle-statuses endpoint, carrying the configured
    /// uuid when there is one.
    pub fn in_flight_bundle_statuses_endpoint(&self) -> (r: String)
        ensures
            match self.uuid {
                Some(u) => r@ == "/getInflightBundleStatuses?uuid="@ + u@,
                None => r@ == "/getInflightBundleStatuses"@,
            },
    {
        match &self.uuid {
            Some(u) => String::from_str("/getInflightBundleStatuses?uuid=").concat(u.as_str()),
            None => String::from_str("/getInflightBundleStatuses"),
        }
    }

    /// The bundle-submission endpoint; this call carries its own optional
    /// uuid rather than the configured one.
    pub fn bundle_endpoint(uuid: Option<&str>) -> (r: String)
        ensures
            match uuid {
                Some(u) => r@ == "/bundles?uuid="@ + u@,
                None => r@ == "/bundles"@,
            },
    {
        match uuid {
            Some(u) => String::from_str("/bundles?uuid=").concat(u),
            None => String::from_str("/bundles"),
        }
    }

    /// The transaction-submission endpoint, flagged bundle-only on
    /// request.
    pub fn transactions_endpoint(bundle_only: bool) -> (r: String)
        ensures
            bundle_only ==> r@ == "/transactions?bundleOnly=true"@,
            !bundle_only ==> r@ == "/transactions"@,
    {
        if bundle_only {
            String::from_str("/transactions?bundleOnly=true")
        } else {
            String::from_str("/transactions")
        }
    }

    /// The parameters of a bundle-status query: the given bundle ids as
    /// one string array inside the parameter array.
    pub fn uuid_batch_params(bundle_uuids: &Vec<String>) -> (r: JsonValue)
        ensures
            ({
                &&& r matches JsonValue::Array(outer)
                &&& outer@.len() == 1
                &&& outer@[0] matches JsonValue::Array(ids)
                &&& ids@.len() == bundle_uuids@.len()
                &&& forall|i: int|
                    0 <= i < ids@.len() ==> ids@[i] == JsonValue::Text(bundle_uuids@[i])
            }),
    {
        let mut ids: Vec<JsonValue> = Vec::new();
        let mut i: usize = 0;
        while i < bundle_uuids.len()
            invariant
                i <= bundle_uuids@.len(),
                ids@.len() == i as nat,
                forall|j: int| 0 <= j < i ==> ids@[j] == JsonValue::Text(bundle_uuids@[j]),
            decreases bundle_uuids@.len() - i,
        {
            ids.push(JsonValue::Text(bundle_uuids[i].clone()));
            i = i + 1;
        }
        let mut outer: Vec<JsonValue> = Vec::new();
        outer.push(JsonValue::Array(ids));
        JsonValue::Array(outer)
    }

    /// The request body of a call: the JSON-RPC envelope
    /// `{"jsonrpc":"2.0","id":1,"method":...,"params":...}`, serialized
    /// exactly, with `[]` when no parameters are given.
    pub fn request_body(method: &str, params: Option<JsonValue>) -> (r: String)
        ensures
            r@ == envelope_chars(method@, params_chars_of(params)),
    {
        let mut out: Vec<char> = Vec::new();
        out.push('{');
        push_quoted("jsonrpc", &mut out);
        out.push(':');
        push_quoted("2.0", &mut out);
        out.push(',');
        push_quoted("id", &mut out);
        out.push(':');
        out.push('1');
        out.push(',');
        push_quoted("method", &mut out);
        out.push(':');
        push_quoted(method, &mut out);
        out.push(',');
        push_quoted("params", &mut out);
        out.push(':');
        match &params {
            Some(p) => push_json(p, &mut out),
            None => {
                out.push('[');
                out.push(']');
            },
        }
        out.push('}');
        proof {
            assert(out@ =~= envelope_chars(method@, params_chars_of(params)));
        }
        chars_to_string(out)
    }

    /// Validate and shape the parameters of a bundle submission: an array
    /// of one to five transactions becomes `[transactions,
    /// {"encoding":"base64"}]`; an empty or oversized array and anything
    /// that is not an array are refused.
    pub fn build_bundle_params(params: Option<JsonValue>) -> (r: Result<JsonValue, ValidationError>)
        ensures
            match params {
                Some(JsonValue::Array(txs)) => {
                    if txs@.len() == 0 {
                        r == Err::<JsonValue, ValidationError>(ValidationError::EmptyBundle)
                    } else if txs@.len() > 5 {
                        r == Err::<JsonValue, ValidationError>(ValidationError::OversizedBundle)
                    } else {
                        &&& r matches Ok(JsonValue::Array(pair))
                        &&& pair@.len() == 2
                        &&& pair@[0] == JsonValue::Array(txs)
                        &&& pair@[1] matches JsonValue::Object(m)
                        &&& m@.len() == 1
                        &&& m@[0].0@ == "encoding"@
                        &&& m@[0].1 matches JsonValue::Text(t)
                        &&& t@ == "base64"@
                    }
                },
                _ => r == Err::<JsonValue, ValidationError>(ValidationError::InvalidBundleFormat),
            },
    {
        match params {
            Some(JsonValue::Array(txs)) => {
                if txs.len() == 0 {
                    Err(ValidationError::EmptyBundle)
                } else if txs.len() > 5 {
                    Err(ValidationError::OversizedBundle)
                } else {
                    let mut encoding: Vec<(String, JsonValue)> = Vec::new();
                    encoding.push(
                        (
                            String::from_str("encoding"),
                            JsonValue::Text(String::from_str("base64")),
                        ),
                    );
                    let mut pair: Vec<JsonValue> = Vec::new();
                    pair.push(JsonValue::Array(txs));
                    pair.push(JsonValue::Object(encoding));
                    Ok(JsonValue::Array(pair))
                }
            },
            _ => Err(ValidationError::InvalidBundleFormat),
        }
    }

    /// Shape the parameters of a transaction submission: from an object,
    /// the `tx` string (empty when missing or not a string) and the
    /// `skipPreflight` flag (false when missing or not a boolean) become
    /// `[tx, {"encoding":"base64","skipPreflight":flag}]`; anything else
    /// becomes the empty array.
    pub fn build_txn_params(params: Option<JsonValue>) -> (r: JsonValue)
        ensures
            match params {
                Some(JsonValue::Object(map)) => {
                    &&& r matches JsonValue::Array(items)
                    &&& items@.len() == 2
                    &&& items@[0] matches JsonValue::Text(t)
                    &&& t@ == (match lookup_spec(map@, "tx"@) {
                        Some(JsonValue::Text(s)) => s@,
                        _ => Seq::<char>::empty(),
                    })
                    &&& items@[1] matches JsonValue::Object(m)
                    &&& m@.len() == 2
                    &&& m@[0].0@ == "encoding"@
                    &&& m@[0].1 matches JsonValue::Text(e)
                    &&& e@ == "base64"@
                    &&& m@[1].0@ == "skipPreflight"@
                    &&& m@[1].1 == JsonValue::Bool(match lookup_spec(map@, "skipPreflight"@) {
                        Some(JsonValue::Bool(b)) => b,
                        _ => false,
                    })
                },
                _ => r matches JsonValue::Array(items) && items@.len() == 0,
            },
    {
        match &params {
            Some(p) => match p {
                JsonValue::Object(_) => {
                    let tx: String = match p.get("tx") {
                        Some(JsonValue::Text(s)) => s.clone(),
                        _ => String::from_str(""),
                    };
                    let skip_preflight: bool = match p.get("skipPreflight") {
                        Some(JsonValue::Bool(b)) => *b,
                        _ => false,
                    };
                    proof {
                        reveal_strlit("");
                    }
                    let mut options: Vec<(String, JsonValue)> = Vec::new();
                    options.push(
                        (String::from_str("encoding"), JsonValue::Text(String::from_str("base64"))),
                    );
                    options.push(
                        (String::from_str("skipPreflight"), JsonValue::Bool(skip_preflight)),
                    );
                    let mut items: Vec<JsonValue> = Vec::new();
                    items.push(JsonValue::Text(tx));
                    items.push(JsonValue::Object(options));
                    JsonValue::Array(items)
                },
                _ => JsonValue::Array(Vec::new()),
            },
            None => JsonValue::Array(Vec::new()),
        }
    }

    /// Pick one tip account at random from a `getTipAccounts` response:
    /// the response must be an object whose `result` member is an array;
    /// an empty array has no account to offer, and the picked entry must
    /// be a string.
    pub fn pick_random_tip_account(response: &JsonValue) -> (r: Result<String, ResponseShapeError>)
        ensures
            match *response {
                JsonValue::Object(map) => match lookup_spec(map@, "result"@) {
                    Some(JsonValue::Array(accounts)) => {
                        if accounts@.len() == 0 {
                            r == Err::<String, ResponseShapeError>(ResponseShapeError::NoTipAccounts)
                        } else {
                            exists|i: int|
                                0 <= i < accounts@.len() && (match #[trigger] accounts@[i] {
                                    JsonValue::Text(t) => r matches Ok(s) && s@ == t@,
                                    _ => r == Err::<String, ResponseShapeError>(
                                        ResponseShapeError::AccountNotString,
                                    ),
                                })
                        }
                    },
                    _ => r == Err::<String, ResponseShapeError>(ResponseShapeError::ResultNotArray),
                },
                _ => r == Err::<String, ResponseShapeError>(ResponseShapeError::ResultNotArray),
            },
    {
        match response.get("result") {
            Some(JsonValue::Array(accounts)) => {
                if accounts.len() == 0 {
                    Err(ResponseShapeError::NoTipAccounts)
                } else {
                    let i = random_below(accounts.len());
                    match &accounts[i] {
                        JsonValue::Text(t) => Ok(t.clone()),
                        _ => Err(ResponseShapeError::AccountNotString),
                    }
                }
            },
            _ => Err(ResponseShapeError::ResultNotArray),
        }
    }
}

/// A JSON value destined for pretty printing by a consumer of the
/// library.
#[derive(Debug)]
pub struct PrettyJsonValue(pub JsonValue);

impl From<JsonValue> for PrettyJsonValue {
    fn from(value: JsonValue) -> (r: Self) {
        PrettyJsonValue(value)
    }
}

impl vstd::std_specs::convert::FromSpecImpl<JsonValue> for PrettyJsonValue {
    open spec fn obeys_from_spec() -> bool {
        true
    }

    open spec fn from_spec(value: JsonValue) -> Self {
        PrettyJsonValue(value)
    }
}

impl JitoJsonRpcSDK {
    /// Wrap a value for pretty printing.
    pub fn prettify(value: JsonValue) -> (r: PrettyJsonValue)
        ensures
            r.0 == value,
    {
        PrettyJsonValue(value)
    }
}

} // verus!
