use coinex_client::json::{find_member, get_boolean, get_integer, get_string, Member};
use coinex_client::records::{
    decode_account_list, decode_spot_balance, decode_spot_balance_list, decode_spot_order,
    decode_spot_order_list, decode_string_list,
};
use coinex_client::response::{check_status, open_envelope, read_envelope};
use coinex_client::{decode_response, Account, Envelope, Error, SpotBalance, SpotOrder};

#[test]
fn envelope_with_code_zero_gives_the_data() {
    let body = b"{\"code\":0,\"data\":{\"a\":1},\"message\":\"\"}";
    assert_eq!(decode_response(200, body), Ok(b"{\"a\":1}".to_vec()));
}

#[test]
fn envelope_with_another_code_is_an_api_error() {
    let body = b"{\"code\":24,\"data\":{},\"message\":\"bad params\"}";
    assert_eq!(
        decode_response(200, body),
        Err(Error::Api { code: 24, message: "bad params".to_string() })
    );
}

#[test]
fn status_500_is_a_transport_error_whatever_the_body() {
    let good = b"{\"code\":0,\"data\":{\"a\":1},\"message\":\"\"}";
    assert_eq!(
        decode_response(500, good),
        Err(Error::Transport { status: 500, body: good.to_vec() })
    );
    assert_eq!(
        decode_response(500, b"not json"),
        Err(Error::Transport { status: 500, body: b"not json".to_vec() })
    );
    assert_eq!(decode_response(500, b""), Err(Error::Transport { status: 500, body: Vec::new() }));
}

#[test]
fn success_range_is_200_to_299() {
    let good = b"{\"code\":0,\"data\":1,\"message\":\"ok\"}";
    assert_eq!(check_status(199, good), Err(Error::Transport { status: 199, body: good.to_vec() }));
    assert_eq!(check_status(200, good), Ok(()));
    assert_eq!(check_status(204, good), Ok(()));
    assert_eq!(check_status(299, good), Ok(()));
    assert_eq!(check_status(300, good), Err(Error::Transport { status: 300, body: good.to_vec() }));
    assert_eq!(check_status(404, good), Err(Error::Transport { status: 404, body: good.to_vec() }));
    assert_eq!(decode_response(299, good), Ok(b"1".to_vec()));
}

#[test]
fn body_without_an_envelope_is_malformed() {
    assert_eq!(decode_response(200, b"not json"), Err(Error::MalformedResponse));
    assert_eq!(decode_response(200, b""), Err(Error::MalformedResponse));
    assert_eq!(decode_response(200, b"[0,{},\"\"]"), Err(Error::MalformedResponse));
    assert_eq!(decode_response(200, b"{\"code\":0,\"data\":{}}"), Err(Error::MalformedResponse));
    assert_eq!(decode_response(200, b"{\"code\":0,\"message\":\"\"}"), Err(Error::MalformedResponse));
    assert_eq!(decode_response(200, b"{\"data\":1,\"message\":\"\"}"), Err(Error::MalformedResponse));
    assert_eq!(
        decode_response(200, b"{\"code\":\"0\",\"data\":1,\"message\":\"\"}"),
        Err(Error::MalformedResponse)
    );
    assert_eq!(
        decode_response(200, b"{\"code\":0,\"data\":1,\"message\":7}"),
        Err(Error::MalformedResponse)
    );
    assert_eq!(
        decode_response(200, b"{\"code\":0.5,\"data\":1,\"message\":\"\"}"),
        Err(Error::MalformedResponse)
    );
}

#[test]
fn code_must_fit_in_32_bits() {
    assert_eq!(
        decode_response(200, b"{\"code\":2147483647,\"data\":1,\"message\":\"m\"}"),
        Err(Error::Api { code: i32::MAX, message: "m".to_string() })
    );
    assert_eq!(
        decode_response(200, b"{\"code\":-2147483648,\"data\":1,\"message\":\"m\"}"),
        Err(Error::Api { code: i32::MIN, message: "m".to_string() })
    );
    assert_eq!(
        decode_response(200, b"{\"code\":2147483648,\"data\":1,\"message\":\"m\"}"),
        Err(Error::MalformedResponse)
    );
    assert_eq!(
        decode_response(200, b"{\"code\":-2147483649,\"data\":1,\"message\":\"m\"}"),
        Err(Error::MalformedResponse)
    );
}

#[test]
fn data_of_any_shape_is_handed_on() {
    assert_eq!(
        decode_response(200, b"{\"code\":0,\"data\":null,\"message\":\"\"}"),
        Ok(b"null".to_vec())
    );
    assert_eq!(
        decode_response(200, b"{ \"message\": \"ok\", \"extra\": true, \"data\": [1, \"x\"], \"code\": 0 }"),
        Ok(b"[1,\"x\"]".to_vec())
    );
}

#[test]
fn read_envelope_reads_the_three_members() {
    assert_eq!(
        read_envelope(b"{\"code\":7,\"data\":{\"k\":[true]},\"message\":\"hm\"}"),
        Some(Envelope { code: 7, data: b"{\"k\":[true]}".to_vec(), message: "hm".to_string() })
    );
    assert_eq!(read_envelope(b"7"), None);
}

#[test]
fn open_envelope_goes_by_the_code() {
    let ok = Envelope { code: 0, data: b"[]".to_vec(), message: "ignored".to_string() };
    assert_eq!(open_envelope(ok), Ok(b"[]".to_vec()));
    let failed = Envelope { code: -3, data: b"[]".to_vec(), message: "no".to_string() };
    assert_eq!(open_envelope(failed), Err(Error::Api { code: -3, message: "no".to_string() }));
}

fn member(name: &str, value: &str) -> Member {
    Member { name: name.to_string(), value: value.as_bytes().to_vec() }
}

#[test]
fn find_member_takes_the_first_of_a_name() {
    let members = vec![member("a", "1"), member("b", "2"), member("a", "3")];
    assert_eq!(find_member(&members, "a"), Some(0));
    assert_eq!(find_member(&members, "b"), Some(1));
    assert_eq!(find_member(&members, "c"), None);
    assert_eq!(find_member(&Vec::new(), "a"), None);
}

#[test]
fn typed_members() {
    let members = vec![
        member("s", "\"te\\\"xt\""),
        member("i", "-12"),
        member("b", "true"),
        member("big", "9223372036854775808"),
    ];
    assert_eq!(get_string(&members, "s"), Some("te\"xt".to_string()));
    assert_eq!(get_string(&members, "i"), None);
    assert_eq!(get_string(&members, "none"), None);
    assert_eq!(get_integer(&members, "i"), Some(-12));
    assert_eq!(get_integer(&members, "s"), None);
    assert_eq!(get_integer(&members, "big"), None);
    assert_eq!(get_boolean(&members, "b"), Some(true));
    assert_eq!(get_boolean(&members, "i"), None);
}

#[test]
fn string_lists() {
    assert_eq!(
        decode_string_list(b"[\"a\", \"b\"]"),
        Some(vec!["a".to_string(), "b".to_string()])
    );
    assert_eq!(decode_string_list(b"[]"), Some(Vec::new()));
    assert_eq!(decode_string_list(b"[\"a\", 1]"), None);
    assert_eq!(decode_string_list(b"{}"), None);
}

#[test]
fn spot_balances() {
    let one = b"{\"available\":\"1.5\",\"ccy\":\"BTC\",\"frozen\":\"0\"}";
    let btc = SpotBalance {
        available: "1.5".to_string(),
        ccy: "BTC".to_string(),
        frozen: "0".to_string(),
    };
    assert_eq!(decode_spot_balance(one), Some(btc.clone()));
    assert_eq!(decode_spot_balance(b"{\"available\":\"1.5\",\"ccy\":\"BTC\"}"), None);
    assert_eq!(decode_spot_balance(b"{\"available\":1.5,\"ccy\":\"BTC\",\"frozen\":\"0\"}"), None);
    let list = b"[{\"available\":\"1.5\",\"ccy\":\"BTC\",\"frozen\":\"0\"},{\"ccy\":\"USDT\",\"frozen\":\"2\",\"available\":\"3\",\"more\":1}]";
    let usdt = SpotBalance {
        available: "3".to_string(),
        ccy: "USDT".to_string(),
        frozen: "2".to_string(),
    };
    assert_eq!(decode_spot_balance_list(list), Ok(vec![btc, usdt]));
    assert_eq!(decode_spot_balance_list(b"[]"), Ok(Vec::new()));
    assert_eq!(decode_spot_balance_list(b"{}"), Err(Error::MalformedResponse));
    assert_eq!(
        decode_spot_balance_list(b"[{\"available\":\"1\",\"ccy\":\"BTC\",\"frozen\":\"0\"},{}]"),
        Err(Error::MalformedResponse)
    );
}

#[test]
fn accounts() {
    let data = b"[{\"sub_user_name\":\"sub1\",\"is_frozen\":false,\"is_authorized\":true,\"permissions\":[\"FUTURES\",\"MARGIN\"],\"balance_usd\":\"100.5\"}]";
    assert_eq!(
        decode_account_list(data),
        Ok(vec![Account {
            sub_user_name: "sub1".to_string(),
            is_frozen: false,
            is_authorized: true,
            permissions: vec!["FUTURES".to_string(), "MARGIN".to_string()],
            balance_usd: "100.5".to_string(),
        }])
    );
    let bad = b"[{\"sub_user_name\":\"sub1\",\"is_frozen\":0,\"is_authorized\":true,\"permissions\":[],\"balance_usd\":\"1\"}]";
    assert_eq!(decode_account_list(bad), Err(Error::MalformedResponse));
}

fn order_text() -> Vec<u8> {
    let text = "{\"amount\":\"0.01\",\"base_fee\":\"0\",\"ccy\":\"BTC\",\"client_id\":\"c1\",\
        \"created_at\":1700000000001,\"discount_fee\":\"0\",\"filled_amount\":\"0\",\
        \"last_fill_amount\":\"0\",\"last_fill_price\":\"0\",\"maker_fee_rate\":\"0.002\",\
        \"market\":\"BTCUSDT\",\"market_type\":\"SPOT\",\"order_id\":123456789012,\
        \"price\":\"30000\",\"quote_fee\":\"0\",\"side\":\"buy\",\"taker_fee_rate\":\"0.003\",\
        \"type\":\"limit\",\"unfilled_amount\":\"0.01\",\"updated_at\":1700000000002}";
    text.as_bytes().to_vec()
}

fn order() -> SpotOrder {
    SpotOrder {
        amount: "0.01".to_string(),
        base_fee: "0".to_string(),
        ccy: "BTC".to_string(),
        client_id: "c1".to_string(),
        created_at: 1700000000001,
        discount_fee: "0".to_string(),
        filled_amount: "0".to_string(),
        last_fill_amount: "0".to_string(),
        last_fill_price: "0".to_string(),
        maker_fee_rate: "0.002".to_string(),
        market: "BTCUSDT".to_string(),
        market_type: "SPOT".to_string(),
        order_id: 123456789012,
        price: "30000".to_string(),
        quote_fee: "0".to_string(),
        side: "buy".to_string(),
        taker_fee_rate: "0.003".to_string(),
        type_field: "limit".to_string(),
        unfilled_amount: "0.01".to_string(),
        updated_at: 1700000000002,
    }
}

#[test]
fn spot_orders() {
    assert_eq!(decode_spot_order(&order_text()), Some(order()));
    let mut list = b"[".to_vec();
    list.extend_from_slice(&order_text());
    list.extend_from_slice(b",");
    list.extend_from_slice(&order_text());
    list.extend_from_slice(b"]");
    assert_eq!(decode_spot_order_list(&list), Ok(vec![order(), order()]));
    assert_eq!(decode_spot_order(b"{\"amount\":\"0.01\"}"), None);
    assert_eq!(decode_spot_order_list(b"[1]"), Err(Error::MalformedResponse));
}

#[test]
fn order_from_a_whole_response() {
    let mut body = b"{\"code\":0,\"data\":".to_vec();
    body.extend_from_slice(&order_text());
    body.extend_from_slice(b",\"message\":\"OK\"}");
    let data = decode_response(200, &body).unwrap();
    assert_eq!(decode_spot_order(&data), Some(order()));
}
