//! The client's configuration and the assembly of signed requests.

use vstd::prelude::*;
use vstd::string::*;
use crate::address::{parse_url, path_and_query, resolve_target, signed_path, target_url, url_parse};
use crate::error::{Error, ErrorView};
use crate::json::{json_object, write_object};
use crate::params::{encode_form, form_urlencoded, pairs_of, Param};
use crate::signer::{is_signature_text, sign_with, signature};
use crate::text::{decimal_digits, decimal_string, lemma_decimal_digits_injective};

verus! {

/// The HTTP method of a request.
#[derive(Debug, Clone, Copy, PartialEq, Eq)]
pub enum Method {
    Get,
    Post,
}

impl Method {
    /// The method's name as it is sent and signed.
    pub open spec fn text(self) -> Seq<char> {
        match self {
            Method::Get => "GET"@,
            Method::Post => "POST"@,
        }
    }

    /// The method's name as it is sent and signed.
    pub fn as_str(&self) -> (r: &'static str)
        ensures
            r@ == self.text(),
    {
        match self {
            Method::Get => "GET",
            Method::Post => "POST",
        }
    }
}

/// A request that is ready to be sent: nothing in it is computed again
/// between signing and sending.
#[derive(Debug, Clone, PartialEq, Eq)]
pub struct SignedRequest {
    pub method: Method,
    /// The full URL, query included.
    pub url: String,
    /// The headers, in the order in which they were set.
    pub headers: Vec<Param>,
    /// The body; its UTF-8 bytes go on the wire. Empty where the request
    /// has no body.
    pub body: String,
}

/// A `SignedRequest` with its contents as sequences.
pub struct RequestView {
    pub method: Method,
    pub url: Seq<char>,
    pub headers: Seq<(Seq<char>, Seq<char>)>,
    pub body: Seq<char>,
}

impl View for SignedRequest {
    type V = RequestView;

    open spec fn view(&self) -> RequestView {
        RequestView {
            method: self.method,
            url: self.url@,
            headers: pairs_of(self.headers@),
            body: self.body@,
        }
    }
}

/// The four headers of a request, in order: the content type, the API key,
/// the timestamp in decimal, and the signature.
pub open spec fn request_headers(key: Seq<char>, timestamp: nat, sign: Seq<char>) -> Seq<
    (Seq<char>, Seq<char>),
> {
    seq![
        ("Content-Type"@, "application/json"@),
        ("X-COINEX-KEY"@, key),
        ("X-COINEX-TIMESTAMP"@, decimal_digits(timestamp)),
        ("X-COINEX-SIGN"@, sign),
    ]
}

/// The query string of a request: none where it has no parameters. The
/// outer `None` says that the parameters cannot be encoded.
pub open spec fn query_text(params: Option<Seq<(Seq<char>, Seq<char>)>>) -> Option<
    Option<Seq<char>>,
> {
    match params {
        None => Some(None),
        Some(p) => match form_urlencoded(p) {
            Some(q) => Some(Some(q)),
            None => None,
        },
    }
}

/// The body of a request as text: the empty string where it has no body,
/// else the JSON object of its fields. `None` says that the fields cannot
/// be encoded.
pub open spec fn body_text(body: Option<Seq<(Seq<char>, Seq<char>)>>) -> Option<Seq<char>> {
    match body {
        None => Some(Seq::empty()),
        Some(fields) => json_object(fields),
    }
}

/// An optional list of parameters as pairs of name and value.
pub open spec fn optional_pairs(params: Option<&Vec<Param>>) -> Option<
    Seq<(Seq<char>, Seq<char>)>,
> {
    match params {
        Some(p) => Some(pairs_of(p@)),
        None => None,
    }
}

/// What a client is made of.
pub struct ClientView {
    pub base_url: Seq<char>,
    pub key: Seq<char>,
    pub secret: Seq<char>,
}

/// The signed request that a client builds, or the reason why it builds
/// none.
///
/// The signature is taken over the path and query of the very URL that is
/// sent, over the very body that is sent, and over the timestamp that the
/// timestamp header carries.
pub open spec fn request_model(
    client: ClientView,
    method: Method,
    path: Seq<char>,
    params: Option<Seq<(Seq<char>, Seq<char>)>>,
    body: Option<Seq<(Seq<char>, Seq<char>)>>,
    timestamp: nat,
) -> Result<RequestView, ErrorView> {
    match (query_text(params), body_text(body)) {
        (Some(query), Some(text)) => match target_url(client.base_url, path, query) {
            None => Err(ErrorView::InvalidUrl),
            Some(url) => match path_and_query(url) {
                None => Err(ErrorView::InvalidUrl),
                Some(signed) => Ok(
                    RequestView {
                        method,
                        url,
                        headers: request_headers(
                            client.key,
                            timestamp,
                            signature(client.secret, method.text(), signed, text, timestamp),
                        ),
                        body: text,
                    },
                ),
            },
        },
        _ => Err(ErrorView::Encoding),
    }
}

/// Whether `r` is the outcome `model`, success and failure alike.
pub open spec fn is_outcome(r: Result<SignedRequest, Error>, model: Result<RequestView, ErrorView>) -> bool {
    match (r, model) {
        (Ok(request), Ok(view)) => request@ == view,
        (Err(e), Err(view)) => e@ == view,
        _ => false,
    }
}

/// The credentials and the base URL of the exchange's API. Never changed
/// once made.
#[derive(Debug, PartialEq, Eq)]
pub struct CoinexHttpClient {
    base_url: String,
    coinex_key: String,
    coinex_secret: String,
}

impl View for CoinexHttpClient {
    type V = ClientView;

    closed spec fn view(&self) -> ClientView {
        ClientView {
            base_url: self.base_url@,
            key: self.coinex_key@,
            secret: self.coinex_secret@,
        }
    }
}

impl Clone for CoinexHttpClient {
    fn clone(&self) -> (r: Self)
        ensures
            r@ == self@,
    {
        proof {
            use_type_invariant(self);
        }
        CoinexHttpClient {
            base_url: self.base_url.clone(),
            coinex_key: self.coinex_key.clone(),
            coinex_secret: self.coinex_secret.clone(),
        }
    }
}

impl CoinexHttpClient {
    /// Whether the client is one that `new` can have made: its secret is
    /// not empty.
    #[verifier::type_invariant]
    pub closed spec fn wf(&self) -> bool {
        self.coinex_secret@.len() > 0
    }

    /// Makes a client.
    ///
    /// A base URL that does not parse is refused, then an empty secret. The
    /// client keeps the base URL in the form that the parser gives it.
    pub fn new(base_url: &str, coinex_key: &str, coinex_secret: &str) -> (r: Result<
        CoinexHttpClient,
        Error,
    >)
        ensures
            match r {
                Ok(client) => url_parse(base_url@) == Some(client@.base_url) && client@.key
                    == coinex_key@ && client@.secret == coinex_secret@ && coinex_secret@.len() > 0,
                Err(e) => if url_parse(base_url@).is_none() {
                    e@ == ErrorView::InvalidUrl
                } else {
                    e@ == ErrorView::Signing && coinex_secret@.len() == 0
                },
            },
    {
        match parse_url(base_url) {
            None => Err(Error::InvalidUrl),
            Some(parsed) => {
                if coinex_secret.is_empty() {
                    Err(Error::Signing)
                } else {
                    let key = coinex_key.to_owned();
                    let secret = coinex_secret.to_owned();
                    assert(secret@.len() > 0);
                    Ok(CoinexHttpClient { base_url: parsed, coinex_key: key, coinex_secret: secret })
                }
            },
        }
    }

    /// The base URL, in the form that the parser gave it.
    pub fn base_url(&self) -> (r: &str)
        ensures
            r@ == self@.base_url,
    {
        self.base_url.as_str()
    }

    /// The API key.
    pub fn key(&self) -> (r: &str)
        ensures
            r@ == self@.key,
    {
        self.coinex_key.as_str()
    }

    /// Signs `(method, path, body, timestamp)` with the client's secret.
    ///
    /// Never fails: a secret that cannot sign is refused when the client is
    /// made. The result is a function of the client's secret and the four
    /// arguments alone, and is always 64 lowercase hex digits.
    pub fn sign(&self, method: &str, path: &str, body: &str, timestamp: u128) -> (r: Result<
        String,
        Error,
    >)
        ensures
            r.is_ok(),
            r.unwrap()@ == signature(self@.secret, method@, path@, body@, timestamp as nat),
            is_signature_text(r.unwrap()@),
            self@.secret.len() > 0,
    {
        proof {
            use_type_invariant(self);
        }
        Ok(sign_with(self.coinex_secret.as_str(), method, path, body, timestamp))
    }

    /// Builds the signed request for one call of the API, with `timestamp`
    /// (milliseconds since the Unix epoch) as the time of signing.
    pub fn request(
        &self,
        method: Method,
        path: &str,
        params: Option<&Vec<Param>>,
        body: Option<&Vec<Param>>,
        timestamp: u128,
    ) -> (r: Result<SignedRequest, Error>)
        ensures
            is_outcome(
                r,
                request_model(
                    self@,
                    method,
                    path@,
                    optional_pairs(params),
                    optional_pairs(body),
                    timestamp as nat,
                ),
            ),
    {
        let query: Option<String> = match params {
            None => None,
            Some(p) => match encode_form(p) {
                Some(q) => Some(q),
                None => {
                    return Err(Error::Encoding);
                },
            },
        };
        let text: String = match body {
            None => String::new(),
            Some(fields) => match write_object(fields) {
                Some(t) => t,
                None => {
                    return Err(Error::Encoding);
                },
            },
        };
        let url = match &query {
            None => resolve_target(self.base_url.as_str(), path, None),
            Some(q) => resolve_target(self.base_url.as_str(), path, Some(q.as_str())),
        };
        let url = match url {
            Some(u) => u,
            None => {
                return Err(Error::InvalidUrl);
            },
        };
        let signed = match signed_path(url.as_str()) {
            Some(s) => s,
            None => {
                return Err(Error::InvalidUrl);
            },
        };
        let sign = sign_with(
            self.coinex_secret.as_str(),
            method.as_str(),
            signed.as_str(),
            text.as_str(),
            timestamp,
        );
        let stamp = decimal_string(timestamp);
        let mut headers: Vec<Param> = Vec::new();
        headers.push(Param::new("Content-Type", "application/json"));
        headers.push(Param::new("X-COINEX-KEY", self.coinex_key.as_str()));
        headers.push(Param::new("X-COINEX-TIMESTAMP", stamp.as_str()));
        headers.push(Param::new("X-COINEX-SIGN", sign.as_str()));
        assert(pairs_of(headers@) =~= request_headers(self@.key, timestamp as nat, sign@));
        Ok(SignedRequest { method, url, headers, body: text })
    }

    /// Builds the signed `GET` request for `path` with the given query
    /// parameters. It has no body.
    pub fn get(&self, path: &str, params: Option<&Vec<Param>>, timestamp: u128) -> (r: Result<
        SignedRequest,
        Error,
    >)
        ensures
            is_outcome(
                r,
                request_model(
                    self@,
                    Method::Get,
                    path@,
                    optional_pairs(params),
                    None,
                    timestamp as nat,
                ),
            ),
    {
        self.request(Method::Get, path, params, None, timestamp)
    }

    /// Builds the signed `POST` request for `path` with the given fields as
    /// its JSON body. It has no query.
    pub fn post(&self, path: &str, body: Option<&Vec<Param>>, timestamp: u128) -> (r: Result<
        SignedRequest,
        Error,
    >)
        ensures
            is_outcome(
                r,
                request_model(
                    self@,
                    Method::Post,
                    path@,
                    None,
                    optional_pairs(body),
                    timestamp as nat,
                ),
            ),
    {
        self.request(Method::Post, path, None, body, timestamp)
    }
}

/// In every request that is built, the timestamp header carries the
/// decimal numeral of the timestamp that is signed, and the signature
/// header carries the signature of the method, of the path and query of
/// the very URL that is sent, of the very body that is sent, and of that
/// timestamp.
pub proof fn lemma_signature_covers_what_is_sent(
    client: ClientView,
    method: Method,
    path: Seq<char>,
    params: Option<Seq<(Seq<char>, Seq<char>)>>,
    body: Option<Seq<(Seq<char>, Seq<char>)>>,
    timestamp: nat,
)
    ensures
        match request_model(client, method, path, params, body, timestamp) {
            Ok(request) => {
                &&& request.method == method
                &&& request.headers.len() == 4
                &&& request.headers[0] == ("Content-Type"@, "application/json"@)
                &&& request.headers[1] == ("X-COINEX-KEY"@, client.key)
                &&& request.headers[2] == ("X-COINEX-TIMESTAMP"@, decimal_digits(timestamp))
                &&& path_and_query(request.url).is_some()
                &&& request.headers[3] == (
                    "X-COINEX-SIGN"@,
                    signature(
                        client.secret,
                        method.text(),
                        path_and_query(request.url).unwrap(),
                        request.body,
                        timestamp,
                    ),
                )
            },
            Err(_) => true,
        },
{
}

/// Two requests whose timestamp headers agree were signed with the same
/// timestamp: the header says which timestamp the signature holds.
pub proof fn lemma_timestamp_header_names_the_timestamp(
    client: ClientView,
    method: Method,
    path: Seq<char>,
    params: Option<Seq<(Seq<char>, Seq<char>)>>,
    body: Option<Seq<(Seq<char>, Seq<char>)>>,
    first: nat,
    second: nat,
)
    requires
        request_model(client, method, path, params, body, first) matches Ok(a)
            && request_model(client, method, path, params, body, second) matches Ok(b)
            && a.headers[2] == b.headers[2],
    ensures
        first == second,
{
    lemma_decimal_digits_injective(first, second);
}

/// A request without a body is signed with the empty string as its body,
/// and sends no body.
pub proof fn lemma_absent_body_is_empty(
    client: ClientView,
    method: Method,
    path: Seq<char>,
    params: Option<Seq<(Seq<char>, Seq<char>)>>,
    timestamp: nat,
)
    ensures
        match request_model(client, method, path, params, None, timestamp) {
            Ok(request) => {
                &&& request.body.len() == 0
                &&& path_and_query(request.url).is_some()
                &&& request.headers[3].1 == signature(
                    client.secret,
                    method.text(),
                    path_and_query(request.url).unwrap(),
                    Seq::empty(),
                    timestamp,
                )
            },
            Err(_) => true,
        },
{
}

} // verus!
