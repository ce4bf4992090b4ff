//! The records that the API returns, and their reading from JSON.

use vstd::prelude::*;
use crate::error::{Error, ErrorView};
use crate::json::{
    boolean_member, find_member, get_boolean, get_integer, get_string, integer_member,
    json_elements, json_members, json_string, member_value, members_of, read_elements,
    read_members, read_string, string_member, texts_of, Member,
};

verus! {

pub type SpotBalanceList = Vec<SpotBalance>;

pub type AccountList = Vec<Account>;

pub type SpotOrderList = Vec<SpotOrder>;

/// A list of strings as sequences of characters.
pub open spec fn strings_of(list: Seq<String>) -> Seq<Seq<char>> {
    list.map_values(|s: String| s@)
}

/// The list of strings that a JSON array holds: every element must be a
/// string.
pub open spec fn string_list_of(text: Seq<u8>) -> Option<Seq<Seq<char>>> {
    match json_elements(text) {
        None => None,
        Some(items) => if forall|i: int|
            0 <= i < items.len() ==> (#[trigger] json_string(items[i])).is_some() {
            Some(Seq::new(items.len(), |i: int| json_string(items[i]).unwrap()))
        } else {
            None
        },
    }
}

/// The list of strings held by the first member called `name`.
pub open spec fn string_list_member(members: Seq<(Seq<char>, Seq<u8>)>, name: Seq<char>) -> Option<
    Seq<Seq<char>>,
> {
    match member_value(members, name) {
        Some(text) => string_list_of(text),
        None => None,
    }
}

/// Reads a list of strings from the JSON array that holds it.
pub fn decode_string_list(text: &[u8]) -> (r: Option<Vec<String>>)
    ensures
        match r {
            Some(list) => string_list_of(text@) == Some(strings_of(list@)),
            None => string_list_of(text@).is_none(),
        },
{
    let items = match read_elements(text) {
        Some(items) => items,
        None => {
            return None;
        },
    };
    let ghost texts = texts_of(items@);
    let mut list: Vec<String> = Vec::new();
    let mut i: usize = 0;
    while i < items.len()
        invariant
            i <= items.len(),
            texts == texts_of(items@),
            json_elements(text@) == Some(texts),
            list.len() == i,
            forall|j: int| 0 <= j < i ==> json_string(#[trigger] texts[j]) == Some(list[j]@),
        decreases items.len() - i,
    {
        assert(texts[i as int] == items[i as int]@);
        match read_string(items[i].as_slice()) {
            Some(s) => {
                list.push(s);
            },
            None => {
                return None;
            },
        }
        i = i + 1;
    }
    assert(strings_of(list@) =~= Seq::new(texts.len(), |i: int| json_string(texts[i]).unwrap()));
    Some(list)
}

/// Reads the list of strings held by the first member called `name`.
pub fn get_string_list(members: &Vec<Member>, name: &str) -> (r: Option<Vec<String>>)
    ensures
        match r {
            Some(list) => string_list_member(members_of(members@), name@) == Some(
                strings_of(list@),
            ),
            None => string_list_member(members_of(members@), name@).is_none(),
        },
{
    match find_member(members, name) {
        Some(i) => decode_string_list(members[i].value.as_slice()),
        None => None,
    }
}

/// The balance of one currency in the spot account.
#[derive(Default, Debug, Clone, PartialEq, Eq)]
pub struct SpotBalance {
    pub available: String,
    pub ccy: String,
    pub frozen: String,
}

/// A `SpotBalance` with its contents as sequences.
pub struct SpotBalanceView {
    pub available: Seq<char>,
    pub ccy: Seq<char>,
    pub frozen: Seq<char>,
}

impl View for SpotBalance {
    type V = SpotBalanceView;

    open spec fn view(&self) -> SpotBalanceView {
        SpotBalanceView {
            available: self.available@,
            ccy: self.ccy@,
            frozen: self.frozen@,
        }
    }
}

/// The `SpotBalance` that a JSON object holds: every member must be there
/// with a value of its type; members of other names are passed over.
pub open spec fn spot_balance_of(text: Seq<u8>) -> Option<SpotBalanceView> {
    match json_members(text) {
        None => None,
        Some(m) => if
            string_member(m, "available"@).is_some()
            && string_member(m, "ccy"@).is_some()
            && string_member(m, "frozen"@).is_some() {
            Some(
                SpotBalanceView {
                    available: string_member(m, "available"@).unwrap(),
                    ccy: string_member(m, "ccy"@).unwrap(),
                    frozen: string_member(m, "frozen"@).unwrap(),
                },
            )
        } else {
            None
        },
    }
}

/// Reads a `SpotBalance` from the JSON object that holds it.
pub fn decode_spot_balance(text: &[u8]) -> (r: Option<SpotBalance>)
    ensures
        match r {
            Some(record) => spot_balance_of(text@) == Some(record@),
            None => spot_balance_of(text@).is_none(),
        },
{
    let m = match read_members(text) {
        Some(m) => m,
        None => {
            return None;
        },
    };
    let available = match get_string(&m, "available") {
        Some(v) => v,
        None => {
            return None;
        },
    };
    let ccy = match get_string(&m, "ccy") {
        Some(v) => v,
        None => {
            return None;
        },
    };
    let frozen = match get_string(&m, "frozen") {
        Some(v) => v,
        None => {
            return None;
        },
    };
    Some(SpotBalance { available, ccy, frozen })
}

/// A list of `SpotBalance` as a sequence of views.
pub open spec fn spot_balance_views(list: Seq<SpotBalance>) -> Seq<SpotBalanceView> {
    list.map_values(|record: SpotBalance| record@)
}

/// The list of `SpotBalance` that a JSON array holds: every element must hold
/// one.
pub open spec fn spot_balance_list_of(data: Seq<u8>) -> Option<Seq<SpotBalanceView>> {
    match json_elements(data) {
        None => None,
        Some(items) => if forall|i: int|
            0 <= i < items.len() ==> (#[trigger] spot_balance_of(items[i])).is_some() {
            Some(Seq::new(items.len(), |i: int| spot_balance_of(items[i]).unwrap()))
        } else {
            None
        },
    }
}

/// Reads a list of `SpotBalance` from the payload of a response.
pub fn decode_spot_balance_list(data: &[u8]) -> (r: Result<SpotBalanceList, Error>)
    ensures
        match r {
            Ok(list) => spot_balance_list_of(data@) == Some(spot_balance_views(list@)),
            Err(e) => e@ == ErrorView::MalformedResponse && spot_balance_list_of(data@).is_none(),
        },
{
    let items = match read_elements(data) {
        Some(items) => items,
        None => {
            return Err(Error::MalformedResponse);
        },
    };
    let ghost texts = texts_of(items@);
    let mut list: Vec<SpotBalance> = Vec::new();
    let mut i: usize = 0;
    while i < items.len()
        invariant
            i <= items.len(),
            texts == texts_of(items@),
            json_elements(data@) == Some(texts),
            list.len() == i,
            forall|j: int| 0 <= j < i ==> spot_balance_of(#[trigger] texts[j]) == Some(list[j]@),
        decreases items.len() - i,
    {
        assert(texts[i as int] == items[i as int]@);
        match decode_spot_balance(items[i].as_slice()) {
            Some(record) => {
                list.push(record);
            },
            None => {
                return Err(Error::MalformedResponse);
            },
        }
        i = i + 1;
    }
    assert(spot_balance_views(list@) =~= Seq::new(texts.len(), |i: int| spot_balance_of(texts[i]).unwrap()));
    Ok(list)
}

/// A sub-account.
#[derive(Default, Debug, Clone, PartialEq, Eq)]
pub struct Account {
    pub sub_user_name: String,
    pub is_frozen: bool,
    pub is_authorized: bool,
    pub permissions: Vec<String>,
    pub balance_usd: String,
}

/// A `Account` with its contents as sequences.
pub struct AccountView {
    pub sub_user_name: Seq<char>,
    pub is_frozen: bool,
    pub is_authorized: bool,
    pub permissions: Seq<Seq<char>>,
    pub balance_usd: Seq<char>,
}

impl View for Account {
    type V = AccountView;

    open spec fn view(&self) -> AccountView {
        AccountView {
            sub_user_name: self.sub_user_name@,
            is_frozen: self.is_frozen,
            is_authorized: self.is_authorized,
            permissions: strings_of(self.permissions@),
            balance_usd: self.balance_usd@,
        }
    }
}

/// The `Account` that a JSON object holds: every member must be there
/// with a value of its type; members of other names are passed over.
pub open spec fn account_of(text: Seq<u8>) -> Option<AccountView> {
    match json_members(text) {
        None => None,
        Some(m) => if
            string_member(m, "sub_user_name"@).is_some()
            && boolean_member(m, "is_frozen"@).is_some()
            && boolean_member(m, "is_authorized"@).is_some()
            && string_list_member(m, "permissions"@).is_some()
            && string_member(m, "balance_usd"@).is_some() {
            Some(
                AccountView {
                    sub_user_name: string_member(m, "sub_user_name"@).unwrap(),
                    is_frozen: boolean_member(m, "is_frozen"@).unwrap(),
                    is_authorized: boolean_member(m, "is_authorized"@).unwrap(),
                    permissions: string_list_member(m, "permissions"@).unwrap(),
                    balance_usd: string_member(m, "balance_usd"@).unwrap(),
                },
            )
        } else {
            None
        },
    }
}

/// Reads a `Account` from the JSON object that holds it.
pub fn decode_account(text: &[u8]) -> (r: Option<Account>)
    ensures
        match r {
            Some(record) => account_of(text@) == Some(record@),
            None => account_of(text@).is_none(),
        },
{
    let m = match read_members(text) {
        Some(m) => m,
        None => {
            return None;
        },
    };
    let sub_user_name = match get_string(&m, "sub_user_name") {
        Some(v) => v,
        None => {
            return None;
        },
    };
    let is_frozen = match get_boolean(&m, "is_frozen") {
        Some(v) => v,
        None => {
            return None;
        },
    };
    let is_authorized = match get_boolean(&m, "is_authorized") {
        Some(v) => v,
        None => {
            return None;
        },
    };
    let permissions = match get_string_list(&m, "permissions") {
        Some(v) => v,
        None => {
            return None;
        },
    };
    let balance_usd = match get_string(&m, "balance_usd") {
        Some(v) => v,
        None => {
            return None;
        },
    };
    Some(Account { sub_user_name, is_frozen, is_authorized, permissions, balance_usd })
}

/// A list of `Account` as a sequence of views.
pub open spec fn account_views(list: Seq<Account>) -> Seq<AccountView> {
    list.map_values(|record: Account| record@)
}

/// The list of `Account` that a JSON array holds: every element must hold
/// one.
pub open spec fn account_list_of(data: Seq<u8>) -> Option<Seq<AccountView>> {
    match json_elements(data) {
        None => None,
        Some(items) => if forall|i: int|
            0 <= i < items.len() ==> (#[trigger] account_of(items[i])).is_some() {
            Some(Seq::new(items.len(), |i: int| account_of(items[i]).unwrap()))
        } else {
            None
        },
    }
}

/// Reads a list of `Account` from the payload of a response.
pub fn decode_account_list(data: &[u8]) -> (r: Result<AccountList, Error>)
    ensures
        match r {
            Ok(list) => account_list_of(data@) == Some(account_views(list@)),
            Err(e) => e@ == ErrorView::MalformedResponse && account_list_of(data@).is_none(),
        },
{
    let items = match read_elements(data) {
        Some(items) => items,
        None => {
            return Err(Error::MalformedResponse);
        },
    };
    let ghost texts = texts_of(items@);
    let mut list: Vec<Account> = Vec::new();
    let mut i: usize = 0;
    while i < items.len()
        invariant
            i <= items.len(),
            texts == texts_of(items@),
            json_elements(data@) == Some(texts),
            list.len() == i,
            forall|j: int| 0 <= j < i ==> account_of(#[trigger] texts[j]) == Some(list[j]@),
        decreases items.len() - i,
    {
        assert(texts[i as int] == items[i as int]@);
        match decode_account(items[i].as_slice()) {
            Some(record) => {
                list.push(record);
            },
            None => {
                return Err(Error::MalformedResponse);
            },
        }
        i = i + 1;
    }
    assert(account_views(list@) =~= Seq::new(texts.len(), |i: int| account_of(texts[i]).unwrap()));
    Ok(list)
}

/// A spot order.
#[derive(Default, Debug, Clone, PartialEq, Eq)]
pub struct SpotOrder {
    pub amount: String,
    pub base_fee: String,
    pub ccy: String,
    pub client_id: String,
    pub created_at: i64,
    pub discount_fee: String,
    pub filled_amount: String,
    pub last_fill_amount: String,
    pub last_fill_price: String,
    pub maker_fee_rate: String,
    pub market: String,
    pub market_type: String,
    pub order_id: i64,
    pub price: String,
    pub quote_fee: String,
    pub side: String,
    pub taker_fee_rate: String,
    /// The member `type`.
    pub type_field: String,
    pub unfilled_amount: String,
    pub updated_at: i64,
}

/// A `SpotOrder` with its contents as sequences.
pub struct SpotOrderView {
    pub amount: Seq<char>,
    pub base_fee: Seq<char>,
    pub ccy: Seq<char>,
    pub client_id: Seq<char>,
    pub created_at: i64,
    pub discount_fee: Seq<char>,
    pub filled_amount: Seq<char>,
    pub last_fill_amount: Seq<char>,
    pub last_fill_price: Seq<char>,
    pub maker_fee_rate: Seq<char>,
    pub market: Seq<char>,
    pub market_type: Seq<char>,
    pub order_id: i64,
    pub price: Seq<char>,
    pub quote_fee: Seq<char>,
    pub side: Seq<char>,
    pub taker_fee_rate: Seq<char>,
    pub type_field: Seq<char>,
    pub unfilled_amount: Seq<char>,
    pub updated_at: i64,
}

impl View for SpotOrder {
    type V = SpotOrderView;

    open spec fn view(&self) -> SpotOrderView {
        SpotOrderView {
            amount: self.amount@,
            base_fee: self.base_fee@,
            ccy: self.ccy@,
            client_id: self.client_id@,
            created_at: self.created_at,
            discount_fee: self.discount_fee@,
            filled_amount: self.filled_amount@,
            last_fill_amount: self.last_fill_amount@,
            last_fill_price: self.last_fill_price@,
            maker_fee_rate: self.maker_fee_rate@,
            market: self.market@,
            market_type: self.market_type@,
            order_id: self.order_id,
            price: self.price@,
            quote_fee: self.quote_fee@,
            side: self.side@,
            taker_fee_rate: self.taker_fee_rate@,
            type_field: self.type_field@,
            unfilled_amount: self.unfilled_amount@,
            updated_at: self.updated_at,
        }
    }
}

/// The `SpotOrder` that a JSON object holds: every member must be there
/// with a value of its type; members of other names are passed over.
pub open spec fn spot_order_of(text: Seq<u8>) -> Option<SpotOrderView> {
    match json_members(text) {
        None => None,
        Some(m) => if
            string_member(m, "amount"@).is_some()
            && string_member(m, "base_fee"@).is_some()
            && string_member(m, "ccy"@).is_some()
            && string_member(m, "client_id"@).is_some()
            && integer_member(m, "created_at"@).is_some()
            && string_member(m, "discount_fee"@).is_some()
            && string_member(m, "filled_amount"@).is_some()
            && string_member(m, "last_fill_amount"@).is_some()
            && string_member(m, "last_fill_price"@).is_some()
            && string_member(m, "maker_fee_rate"@).is_some()
            && string_member(m, "market"@).is_some()
            && string_member(m, "market_type"@).is_some()
            && integer_member(m, "order_id"@).is_some()
            && string_member(m, "price"@).is_some()
            && string_member(m, "quote_fee"@).is_some()
            && string_member(m, "side"@).is_some()
            && string_member(m, "taker_fee_rate"@).is_some()
            && string_member(m, "type"@).is_some()
            && string_member(m, "unfilled_amount"@).is_some()
            && integer_member(m, "updated_at"@).is_some() {
            Some(
                SpotOrderView {
                    amount: string_member(m, "amount"@).unwrap(),
                    base_fee: string_member(m, "base_fee"@).unwrap(),
                    ccy: string_member(m, "ccy"@).unwrap(),
                    client_id: string_member(m, "client_id"@).unwrap(),
                    created_at: integer_member(m, "created_at"@).unwrap(),
                    discount_fee: string_member(m, "discount_fee"@).unwrap(),
                    filled_amount: string_member(m, "filled_amount"@).unwrap(),
                    last_fill_amount: string_member(m, "last_fill_amount"@).unwrap(),
                    last_fill_price: string_member(m, "last_fill_price"@).unwrap(),
                    maker_fee_rate: string_member(m, "maker_fee_rate"@).unwrap(),
                    market: string_member(m, "market"@).unwrap(),
                    market_type: string_member(m, "market_type"@).unwrap(),
                    order_id: integer_member(m, "order_id"@).unwrap(),
                    price: string_member(m, "price"@).unwrap(),
                    quote_fee: string_member(m, "quote_fee"@).unwrap(),
                    side: string_member(m, "side"@).unwrap(),
                    taker_fee_rate: string_member(m, "taker_fee_rate"@).unwrap(),
                    type_field: string_member(m, "type"@).unwrap(),
                    unfilled_amount: string_member(m, "unfilled_amount"@).unwrap(),
                    updated_at: integer_member(m, "updated_at"@).unwrap(),
                },
            )
        } else {
            None
        },
    }
}

/// Reads a `SpotOrder` from the JSON object that holds it.
pub fn decode_spot_order(text: &[u8]) -> (r: Option<SpotOrder>)
    ensures
        match r {
            Some(record) => spot_order_of(text@) == Some(record@),
            None => spot_order_of(text@).is_none(),
        },
{
    let m = match read_members(text) {
        Some(m) => m,
        None => {
            return None;
        },
    };
    let amount = match get_string(&m, "amount") {
        Some(v) => v,
        None => {
            return None;
        },
    };
    let base_fee = match get_string(&m, "base_fee") {
        Some(v) => v,
        None => {
            return None;
        },
    };
    let ccy = match get_string(&m, "ccy") {
        Some(v) => v,
        None => {
            return None;
        },
    };
    let client_id = match get_string(&m, "client_id") {
        Some(v) => v,
        None => {
            return None;
        },
    };
    let created_at = match get_integer(&m, "created_at") {
        Some(v) => v,
        None => {
            return None;
        },
    };
    let discount_fee = match get_string(&m, "discount_fee") {
        Some(v) => v,
        None => {
            return None;
        },
    };
    let filled_amount = match get_string(&m, "filled_amount") {
        Some(v) => v,
        None => {
            return None;
        },
    };
    let last_fill_amount = match get_string(&m, "last_fill_amount") {
        Some(v) => v,
        None => {
            return None;
        },
    };
    let last_fill_price = match get_string(&m, "last_fill_price") {
        Some(v) => v,
        None => {
            return None;
        },
    };
    let maker_fee_rate = match get_string(&m, "maker_fee_rate") {
        Some(v) => v,
        None => {
            return None;
        },
    };
    let market = match get_string(&m, "market") {
        Some(v) => v,
        None => {
            return None;
        },
    };
    let market_type = match get_string(&m, "market_type") {
        Some(v) => v,
        None => {
            return None;
        },
    };
    let order_id = match get_integer(&m, "order_id") {
        Some(v) => v,
        None => {
            return None;
        },
    };
    let price = match get_string(&m, "price") {
        Some(v) => v,
        None => {
            return None;
        },
    };
    let quote_fee = match get_string(&m, "quote_fee") {
        Some(v) => v,
        None => {
            return None;
        },
    };
    let side = match get_string(&m, "side") {
        Some(v) => v,
        None => {
            return None;
        },
    };
    let taker_fee_rate = match get_string(&m, "taker_fee_rate") {
        Some(v) => v,
        None => {
            return None;
        },
    };
    let type_field = match get_string(&m, "type") {
        Some(v) => v,
        None => {
            return None;
        },
    };
    let unfilled_amount = match get_string(&m, "unfilled_amount") {
        Some(v) => v,
        None => {
            return None;
        },
    };
    let updated_at = match get_integer(&m, "updated_at") {
        Some(v) => v,
        None => {
            return None;
        },
    };
    Some(SpotOrder { amount, base_fee, ccy, client_id, created_at, discount_fee, filled_amount, last_fill_amount, last_fill_price, maker_fee_rate, market, market_type, order_id, price, quote_fee, side, taker_fee_rate, type_field, unfilled_amount, updated_at })
}

/// A list of `SpotOrder` as a sequence of views.
pub open spec fn spot_order_views(list: Seq<SpotOrder>) -> Seq<SpotOrderView> {
    list.map_values(|record: SpotOrder| record@)
}

/// The list of `SpotOrder` that a JSON array holds: every element must hold
/// one.
pub open spec fn spot_order_list_of(data: Seq<u8>) -> Option<Seq<SpotOrderView>> {
    match json_elements(data) {
        None => None,
        Some(items) => if forall|i: int|
            0 <= i < items.len() ==> (#[trigger] spot_order_of(items[i])).is_some() {
            Some(Seq::new(items.len(), |i: int| spot_order_of(items[i]).unwrap()))
        } else {
            None
        },
    }
}

/// Reads a list of `SpotOrder` from the payload of a response.
pub fn decode_spot_order_list(data: &[u8]) -> (r: Result<SpotOrderList, Error>)
    ensures
        match r {
            Ok(list) => spot_order_list_of(data@) == Some(spot_order_views(list@)),
            Err(e) => e@ == ErrorView::MalformedResponse && spot_order_list_of(data@).is_none(),
        },
{
    let items = match read_elements(data) {
        Some(items) => items,
        None => {
            return Err(Error::MalformedResponse);
        },
    };
    let ghost texts = texts_of(items@);
    let mut list: Vec<SpotOrder> = Vec::new();
    let mut i: usize = 0;
    while i < items.len()
        invariant
            i <= items.len(),
            texts == texts_of(items@),
            json_elements(data@) == Some(texts),
            list.len() == i,
            forall|j: int| 0 <= j < i ==> spot_order_of(#[trigger] texts[j]) == Some(list[j]@),
        decreases items.len() - i,
    {
        assert(texts[i as int] == items[i as int]@);
        match decode_spot_order(items[i].as_slice()) {
            Some(record) => {
                list.push(record);
            },
            None => {
                return Err(Error::MalformedResponse);
            },
        }
        i = i + 1;
    }
    assert(spot_order_views(list@) =~= Seq::new(texts.len(), |i: int| spot_order_of(texts[i]).unwrap()));
    Ok(list)
}

} // verus!
