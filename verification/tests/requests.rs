use std::str::FromStr;

use bigdecimal::BigDecimal;
use hitbtc::endpoint::{
    history_query, make_deposit_address_path, make_transactions_path, transfer_query,
};
use hitbtc::models::AccountMoneyTransferDirection;
use hitbtc::query::Query;
use hitbtc::request::{prepare, with_base_url};
use hitbtc::{AuthenticatedClient, Client, Decimal, ErrorKind, Method, Request, Timestamp};

const SIGNATURE: &[u8] = b"Basic QWxhZGRpbjpvcGVuIHNlc2FtZQ==";

fn authenticated() -> AuthenticatedClient<u32> {
    Client::new(7).login("Aladdin".to_string(), "open sesame".to_string())
}

fn decimal(text: &str) -> Decimal {
    let (unscaled, scale) = BigDecimal::from_str(text).unwrap().into_bigint_and_exponent();
    Decimal { unscaled: unscaled.to_signed_bytes_be(), scale }
}

#[test]
fn base_url_goes_before_the_path() {
    assert_eq!(with_base_url("/api/2/x"), "https://api.hitbtc.com/api/2/x");
    assert_eq!(with_base_url(""), "https://api.hitbtc.com");
}

#[test]
fn assembled_request_keeps_its_parts() {
    let request =
        Request::assemble(Some(vec![1, 2, 3]), Method::Post, "/p", "a=1&b=2".to_string());
    assert_eq!(request.method, Method::Post);
    assert_eq!(request.path, "/p");
    assert_eq!(request.query, "a=1&b=2");
    assert_eq!(request.authorization, Some(vec![1, 2, 3]));
    assert_eq!(request.url(), "https://api.hitbtc.com/p?a=1&b=2");
}

#[test]
fn url_has_a_question_mark_before_an_empty_query() {
    let request = Request::assemble(None, Method::Get, "/p", String::new());
    assert_eq!(request.url(), "https://api.hitbtc.com/p?");
}

#[test]
fn prepare_encodes_the_query() {
    let mut query = Query::new();
    query.push("k", "v w".to_string());
    let request = prepare(None, Method::Get, "/p", &query).unwrap();
    assert_eq!(request.method, Method::Get);
    assert_eq!(request.path, "/p");
    assert_eq!(request.query, "k=v+w");
    assert_eq!(request.authorization, None);
}

#[test]
fn currencies_request() {
    let request = Client::new(()).get_currencies().unwrap();
    assert_eq!(request.method, Method::Get);
    assert_eq!(request.path, "/api/v2/public/currency");
    assert_eq!(request.query, "");
    assert_eq!(request.authorization, None);
    assert_eq!(request.url(), "https://api.hitbtc.com/api/v2/public/currency?");
}

#[test]
fn currencies_request_of_an_authenticated_client_is_unsigned() {
    let request = authenticated().get_currencies().unwrap();
    assert_eq!(request.method, Method::Get);
    assert_eq!(request.path, "/api/v2/public/currency");
    assert_eq!(request.query, "");
    assert_eq!(request.authorization, None);
}

#[test]
fn deposit_address_path_holds_the_currency() {
    assert_eq!(make_deposit_address_path("BTC"), "/api/2/account/crypto/address/BTC");
    assert_eq!(make_deposit_address_path(""), "/api/2/account/crypto/address/");
}

#[test]
fn deposit_address_request() {
    let request = authenticated().get_deposit_address("ETH".to_string()).unwrap();
    assert_eq!(request.method, Method::Post);
    assert_eq!(request.path, "/api/2/account/crypto/address/ETH");
    assert_eq!(request.query, "");
    assert_eq!(request.authorization, Some(SIGNATURE.to_vec()));
    assert_eq!(request.url(), "https://api.hitbtc.com/api/2/account/crypto/address/ETH?");
}

#[test]
fn history_path_without_an_identifier() {
    assert_eq!(make_transactions_path(None), "/api/v2/account/transactions");
    let request = authenticated().get_transactions_history(None, None, None, None).unwrap();
    assert_eq!(request.path, "/api/v2/account/transactions");
}

#[test]
fn history_path_with_an_identifier() {
    assert_eq!(
        make_transactions_path(Some("d91b8caa-ebaa-4254-b50c-8ac717016be1".to_string())),
        "/api/v2/account/transactions/d91b8caa-ebaa-4254-b50c-8ac717016be1"
    );
    let request = authenticated()
        .get_transactions_history(Some("abc".to_string()), None, None, None)
        .unwrap();
    assert_eq!(request.path, "/api/v2/account/transactions/abc");
    assert_eq!(request.url(), "https://api.hitbtc.com/api/v2/account/transactions/abc?");
}

#[test]
fn history_path_with_an_empty_identifier() {
    assert_eq!(make_transactions_path(Some(String::new())), "/api/v2/account/transactions/");
}

#[test]
fn history_without_filters_has_an_empty_query() {
    let request = authenticated().get_transactions_history(None, None, None, None).unwrap();
    assert_eq!(request.method, Method::Get);
    assert_eq!(request.query, "");
    assert_eq!(request.authorization, Some(SIGNATURE.to_vec()));
    assert_eq!(request.url(), "https://api.hitbtc.com/api/v2/account/transactions?");
    let request = authenticated()
        .get_transactions_history(Some("abc".to_string()), None, None, None)
        .unwrap();
    assert_eq!(request.query, "");
}

#[test]
fn history_with_a_limit_only() {
    let request = authenticated().get_transactions_history(None, None, None, Some(10)).unwrap();
    assert_eq!(request.query, "limit=10");
    assert_eq!(request.url(), "https://api.hitbtc.com/api/v2/account/transactions?limit=10");
}

#[test]
fn history_with_a_limit_of_zero() {
    let request = authenticated().get_transactions_history(None, None, None, Some(0)).unwrap();
    assert_eq!(request.query, "limit=0");
}

#[test]
fn history_with_all_filters() {
    let from = Timestamp { secs: 1_577_836_800, nanos: 0 };
    let till = Timestamp { secs: 1_580_515_200, nanos: 250_000_000 };
    let request = authenticated()
        .get_transactions_history(Some("abc".to_string()), Some(from), Some(till), Some(1000))
        .unwrap();
    assert_eq!(request.method, Method::Get);
    assert_eq!(request.path, "/api/v2/account/transactions/abc");
    assert_eq!(
        request.query,
        "from=2020-01-01T00%3A00%3A00%2B00%3A00&till=2020-02-01T00%3A00%3A00.250%2B00%3A00&limit=1000"
    );
    assert_eq!(request.authorization, Some(SIGNATURE.to_vec()));
}

#[test]
fn history_with_one_bound_only() {
    let instant = Timestamp { secs: 1_577_836_800, nanos: 0 };
    let request =
        authenticated().get_transactions_history(None, Some(instant), None, None).unwrap();
    assert_eq!(request.query, "from=2020-01-01T00%3A00%3A00%2B00%3A00");
    let request =
        authenticated().get_transactions_history(None, None, Some(instant), None).unwrap();
    assert_eq!(request.query, "till=2020-01-01T00%3A00%3A00%2B00%3A00");
}

#[test]
fn history_with_an_instant_that_has_no_text() {
    let instant = Timestamp { secs: i64::MAX, nanos: 0 };
    let good = Timestamp { secs: 0, nanos: 0 };
    let client = authenticated();
    assert_eq!(
        client.get_transactions_history(None, Some(instant), None, None).err(),
        Some(ErrorKind::Serialization)
    );
    assert_eq!(
        client.get_transactions_history(None, Some(good), Some(instant), Some(1)).err(),
        Some(ErrorKind::Serialization)
    );
}

#[test]
fn history_query_from_texts() {
    let query = history_query(Some("a".to_string()), None, Some(5));
    assert_eq!(query.encode(), Ok("from=a&limit=5".to_string()));
    let query = history_query(None, Some("b c".to_string()), None);
    assert_eq!(query.encode(), Ok("till=b+c".to_string()));
    let query = history_query(None, None, None);
    assert_eq!(query.encode(), Ok(String::new()));
}

#[test]
fn transfer_query_from_texts() {
    let query = transfer_query(
        "BTC".to_string(),
        "0.5".to_string(),
        AccountMoneyTransferDirection::ExchangeToBank,
    );
    assert_eq!(query.encode(), Ok("currency=BTC&amount=0.5&type=exchangeToBank".to_string()));
}

#[test]
fn transfer_from_bank_to_exchange() {
    let request = authenticated()
        .transfer_account_money(
            "BTC".to_string(),
            decimal("1.5"),
            AccountMoneyTransferDirection::BankToExchange,
        )
        .unwrap();
    assert_eq!(request.method, Method::Post);
    assert_eq!(request.path, "/api/v2/account/transfer");
    assert_eq!(request.query, "currency=BTC&amount=1.5&type=bankToExchange");
    assert_eq!(request.authorization, Some(SIGNATURE.to_vec()));
    assert_eq!(
        request.url(),
        "https://api.hitbtc.com/api/v2/account/transfer?currency=BTC&amount=1.5&type=bankToExchange"
    );
}

#[test]
fn transfer_from_exchange_to_bank() {
    let request = authenticated()
        .transfer_account_money(
            "ETH".to_string(),
            decimal("0.001"),
            AccountMoneyTransferDirection::ExchangeToBank,
        )
        .unwrap();
    assert_eq!(request.query, "currency=ETH&amount=0.001&type=exchangeToBank");
}

#[test]
fn transfer_escapes_the_currency() {
    let request = authenticated()
        .transfer_account_money(
            "A B".to_string(),
            decimal("-2"),
            AccountMoneyTransferDirection::BankToExchange,
        )
        .unwrap();
    assert_eq!(request.query, "currency=A+B&amount=-2&type=bankToExchange");
}

#[test]
fn login_then_logout_gives_the_client_back() {
    let client = Client::new(41u32);
    let before = client.get_currencies().unwrap();
    let back = client.login("key".to_string(), "secret".to_string()).logout();
    assert_eq!(*back.http_client(), 41);
    let after = back.get_currencies().unwrap();
    assert_eq!(after.method, before.method);
    assert_eq!(after.path, before.path);
    assert_eq!(after.query, before.query);
    assert_eq!(after.authorization, None);
}

#[test]
fn login_keeps_the_transport() {
    let client = authenticated();
    assert_eq!(*client.as_public().http_client(), 7);
}

#[test]
fn login_accepts_empty_credentials() {
    let client = Client::new(()).login(String::new(), String::new());
    let request = client.get_deposit_address("BTC".to_string()).unwrap();
    assert_eq!(request.authorization, Some(b"Basic Og==".to_vec()));
}

#[test]
fn every_signed_request_of_a_client_has_the_same_signature() {
    let client = authenticated();
    let first = client.get_deposit_address("BTC".to_string()).unwrap();
    let second = client.get_transactions_history(None, None, None, Some(1)).unwrap();
    assert_eq!(first.authorization, second.authorization);
    assert_eq!(first.authorization, Some(SIGNATURE.to_vec()));
}
