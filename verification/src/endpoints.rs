//! The calls of the API that the client knows: for each, the signed request
//! that asks for it.

use vstd::prelude::*;
use crate::error::Error;
use crate::params::{pairs_of, Param};
use crate::request::{is_outcome, request_model, CoinexHttpClient, Method, SignedRequest};
use crate::text::{boolean_str, boolean_word, integer_digits, integer_string};

verus! {

/// The query of the call that lists sub-accounts.
pub open spec fn account_list_params(sub_user_name: Seq<char>, is_frozen: bool) -> Seq<
    (Seq<char>, Seq<char>),
> {
    seq![("is_frozen"@, boolean_word(is_frozen)), ("sub_user_name"@, sub_user_name)]
}

/// The body of the call that places a spot order.
pub open spec fn spot_order_fields(
    market: Seq<char>,
    order_type: Seq<char>,
    side: Seq<char>,
    amount: Seq<char>,
    price: Seq<char>,
) -> Seq<(Seq<char>, Seq<char>)> {
    seq![
        ("market"@, market),
        ("market_type"@, "spot"@),
        ("type"@, order_type),
        ("side"@, side),
        ("amount"@, amount),
        ("price"@, price),
    ]
}

/// The query of the calls that list spot orders.
pub open spec fn order_list_params(market: Seq<char>, side: Seq<char>, page: int, limit: int) -> Seq<
    (Seq<char>, Seq<char>),
> {
    seq![
        ("market"@, market),
        ("market_type"@, "spot"@),
        ("side"@, side),
        ("page"@, integer_digits(page)),
        ("limit"@, integer_digits(limit)),
    ]
}

fn order_list_query(market: &str, side: &str, page: i32, limit: i32) -> (r: Vec<Param>)
    ensures
        pairs_of(r@) == order_list_params(market@, side@, page as int, limit as int),
{
    let page_text = integer_string(page);
    let limit_text = integer_string(limit);
    let mut params: Vec<Param> = Vec::new();
    params.push(Param::new("market", market));
    params.push(Param::new("market_type", "spot"));
    params.push(Param::new("side", side));
    params.push(Param::new("page", page_text.as_str()));
    params.push(Param::new("limit", limit_text.as_str()));
    assert(pairs_of(params@) =~= order_list_params(market@, side@, page as int, limit as int));
    params
}

impl CoinexHttpClient {
    /// The request for the balances of the spot account:
    /// `GET /v2/assets/spot/balance`, without parameters.
    pub fn get_spot_balance(&self, timestamp: u128) -> (r: Result<SignedRequest, Error>)
        ensures
            is_outcome(
                r,
                request_model(
                    self@,
                    Method::Get,
                    "/v2/assets/spot/balance"@,
                    None,
                    None,
                    timestamp as nat,
                ),
            ),
    {
        self.get("/v2/assets/spot/balance", None, timestamp)
    }

    /// The request for the list of sub-accounts: `GET /v2/account/subs`,
    /// with `is_frozen` and `sub_user_name` as its query.
    pub fn get_account_list(&self, sub_user_name: &str, is_frozen: bool, timestamp: u128) -> (r:
        Result<SignedRequest, Error>)
        ensures
            is_outcome(
                r,
                request_model(
                    self@,
                    Method::Get,
                    "/v2/account/subs"@,
                    Some(account_list_params(sub_user_name@, is_frozen)),
                    None,
                    timestamp as nat,
                ),
            ),
    {
        let mut params: Vec<Param> = Vec::new();
        params.push(Param::new("is_frozen", boolean_str(is_frozen)));
        params.push(Param::new("sub_user_name", sub_user_name));
        assert(pairs_of(params@) =~= account_list_params(sub_user_name@, is_frozen));
        self.get("/v2/account/subs", Some(&params), timestamp)
    }

    /// The request that places a spot order: `POST /v2/spot/order`, with
    /// the order as its JSON body.
    pub fn put_spot_order(
        &self,
        market: &str,
        order_type: &str,
        side: &str,
        amount: &str,
        price: &str,
        timestamp: u128,
    ) -> (r: Result<SignedRequest, Error>)
        ensures
            is_outcome(
                r,
                request_model(
                    self@,
                    Method::Post,
                    "/v2/spot/order"@,
                    None,
                    Some(spot_order_fields(market@, order_type@, side@, amount@, price@)),
                    timestamp as nat,
                ),
            ),
    {
        let mut body: Vec<Param> = Vec::new();
        body.push(Param::new("market", market));
        body.push(Param::new("market_type", "spot"));
        body.push(Param::new("type", order_type));
        body.push(Param::new("side", side));
        body.push(Param::new("amount", amount));
        body.push(Param::new("price", price));
        assert(pairs_of(body@) =~= spot_order_fields(market@, order_type@, side@, amount@, price@));
        self.post("/v2/spot/order", Some(&body), timestamp)
    }

    /// The request for one page of the pending spot orders:
    /// `GET /v2/spot/pending-order`.
    pub fn list_pending_spot_order(
        &self,
        market: &str,
        side: &str,
        page: i32,
        limit: i32,
        timestamp: u128,
    ) -> (r: Result<SignedRequest, Error>)
        ensures
            is_outcome(
                r,
                request_model(
                    self@,
                    Method::Get,
                    "/v2/spot/pending-order"@,
                    Some(order_list_params(market@, side@, page as int, limit as int)),
                    None,
                    timestamp as nat,
                ),
            ),
    {
        let params = order_list_query(market, side, page, limit);
        self.get("/v2/spot/pending-order", Some(&params), timestamp)
    }

    /// The request for one page of the finished spot orders:
    /// `GET /v2/spot/finished-order`.
    pub fn list_finished_spot_order(
        &self,
        market: &str,
        side: &str,
        page: i32,
        limit: i32,
        timestamp: u128,
    ) -> (r: Result<SignedRequest, Error>)
        ensures
            is_outcome(
                r,
                request_model(
                    self@,
                    Method::Get,
                    "/v2/spot/finished-order"@,
                    Some(order_list_params(market@, side@, page as int, limit as int)),
                    None,
                    timestamp as nat,
                ),
            ),
    {
        let params = order_list_query(market, side, page, limit);
        self.get("/v2/spot/finished-order", Some(&params), timestamp)
    }
}

} // verus!
