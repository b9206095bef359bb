use tinkoff_invest::address::{Endpoint, Method, Query};
use tinkoff_invest::client::{RestClient, PRODUCTION_URL, SANDBOX_URL};
use tinkoff_invest::error::ClientError;
use tinkoff_invest::router;
use tinkoff_invest::time::Timestamp;

fn pairs(endpoint: &Endpoint) -> Vec<(&str, &str)> {
    endpoint.query.pairs.iter().map(|(k, v)| (k.as_str(), v.as_str())).collect()
}

fn client() -> RestClient {
    RestClient::new(String::from("t0ken"))
}

#[test]
fn production_client_plans_instrument_lookup() {
    let request = client().instrument_by_figi("BBG000B9XRY4").unwrap();
    assert_eq!(request.method, Method::Get);
    assert_eq!(
        request.url,
        "https://api-invest.tinkoff.ru/openapi/market/search/by-figi?figi=BBG000B9XRY4"
    );
    assert_eq!(request.authorization, "Bearer t0ken");
    assert_eq!(request.content_type, "application/json");
    assert!(request.body.is_none());
}

#[test]
fn sandbox_client_inserts_sandbox_segment() {
    let sandbox = RestClient::new_sandbox(String::from("t0ken"));
    let request = sandbox.stocks().unwrap();
    assert_eq!(request.url, "https://api-invest.tinkoff.ru/openapi/sandbox/market/stocks");
    assert_eq!(PRODUCTION_URL, "https://api-invest.tinkoff.ru/openapi/");
    assert_eq!(SANDBOX_URL, "https://api-invest.tinkoff.ru/openapi/sandbox/");
}

#[test]
fn listing_endpoints_have_no_query() {
    let c = client();
    assert_eq!(c.currencies().unwrap().url, "https://api-invest.tinkoff.ru/openapi/market/currencies");
    assert_eq!(c.etfs().unwrap().url, "https://api-invest.tinkoff.ru/openapi/market/etfs");
    assert_eq!(c.bonds().unwrap().url, "https://api-invest.tinkoff.ru/openapi/market/bonds");
    assert_eq!(c.stocks().unwrap().url, "https://api-invest.tinkoff.ru/openapi/market/stocks");
    assert_eq!(c.accounts().unwrap().url, "https://api-invest.tinkoff.ru/openapi/user/accounts");
}

#[test]
fn ticker_search_writes_ticker() {
    let request = client().instrument_by_ticker("AAPL").unwrap();
    assert_eq!(
        request.url,
        "https://api-invest.tinkoff.ru/openapi/market/search/by-ticker?ticker=AAPL"
    );
}

#[test]
fn query_values_are_form_encoded() {
    let request = client().instrument_by_ticker("a b&c=d/é").unwrap();
    assert_eq!(
        request.url,
        "https://api-invest.tinkoff.ru/openapi/market/search/by-ticker?ticker=a+b%26c%3Dd%2F%C3%A9"
    );
}

#[test]
fn default_account_is_left_out_of_every_scoped_query() {
    let account = router::DEFAULT_ACCOUNT;
    assert_eq!(account, "");
    assert!(pairs(&router::positions_portfolio(account)).is_empty());
    assert!(pairs(&router::currencies_portfolio(account)).is_empty());
    assert!(pairs(&router::orders(account)).is_empty());
    assert_eq!(pairs(&router::limit_order(account, "F")), vec![("figi", "F")]);
    assert_eq!(pairs(&router::market_order(account, "F")), vec![("figi", "F")]);
    assert_eq!(pairs(&router::order_cancel(account, "7")), vec![("orderId", "7")]);
    assert_eq!(
        pairs(&router::operations(account, "a", "b", "")),
        vec![("from", "a"), ("to", "b")]
    );
}

#[test]
fn named_account_is_written_last_in_every_scoped_query() {
    let account = "2000123";
    let scope = ("brokerAccountId", account);
    assert_eq!(pairs(&router::positions_portfolio(account)), vec![scope]);
    assert_eq!(pairs(&router::currencies_portfolio(account)), vec![scope]);
    assert_eq!(pairs(&router::orders(account)), vec![scope]);
    assert_eq!(pairs(&router::limit_order(account, "F")), vec![("figi", "F"), scope]);
    assert_eq!(pairs(&router::market_order(account, "F")), vec![("figi", "F"), scope]);
    assert_eq!(pairs(&router::order_cancel(account, "7")), vec![("orderId", "7"), scope]);
    assert_eq!(
        pairs(&router::operations(account, "a", "b", "F")),
        vec![("from", "a"), ("to", "b"), ("figi", "F"), scope]
    );
}

#[test]
fn paths_and_methods_follow_the_interface_table() {
    let table: Vec<(Endpoint, Method, &str)> = vec![
        (router::instrument_by_figi("F"), Method::Get, "market/search/by-figi"),
        (router::instrument_by_ticker("T"), Method::Get, "market/search/by-ticker"),
        (router::currencies(), Method::Get, "market/currencies"),
        (router::etfs(), Method::Get, "market/etfs"),
        (router::bonds(), Method::Get, "market/bonds"),
        (router::stocks(), Method::Get, "market/stocks"),
        (router::candles("a", "b", "day", "F"), Method::Get, "market/candles"),
        (router::orderbook(5, "F"), Method::Get, "market/orderbook"),
        (router::operations("", "a", "b", ""), Method::Get, "operations"),
        (router::positions_portfolio(""), Method::Get, "portfolio"),
        (router::currencies_portfolio(""), Method::Get, "portfolio/currencies"),
        (router::orders(""), Method::Get, "orders"),
        (router::limit_order("", "F"), Method::Post, "orders/limit-order"),
        (router::market_order("", "F"), Method::Post, "orders/market-order"),
        (router::order_cancel("", "1"), Method::Post, "orders/cancel"),
        (router::accounts(), Method::Get, "user/accounts"),
    ];
    for (endpoint, method, path) in table {
        assert_eq!(endpoint.method, method);
        assert_eq!(endpoint.path, path);
    }
}

#[test]
fn candles_query_is_ordered_and_filters_empty_figi() {
    assert_eq!(
        pairs(&router::candles("a", "b", "hour", "")),
        vec![("interval", "hour"), ("from", "a"), ("to", "b")]
    );
    assert_eq!(
        pairs(&router::candles("a", "b", "hour", "F")),
        vec![("interval", "hour"), ("from", "a"), ("to", "b"), ("figi", "F")]
    );
}

#[test]
fn orderbook_query_writes_depth_in_decimal() {
    assert_eq!(pairs(&router::orderbook(20, "")), vec![("depth", "20")]);
    assert_eq!(pairs(&router::orderbook(3, "F")), vec![("depth", "3"), ("figi", "F")]);
}

#[test]
fn operations_request_writes_rfc3339_dates() {
    let from = Timestamp { secs: 1577836800, nanos: 0 };
    let to = Timestamp { secs: 1577923200, nanos: 500_000_000 };
    let request = client().operations("acc", from, to, "BBG000B9XRY4").unwrap();
    assert_eq!(
        request.url,
        "https://api-invest.tinkoff.ru/openapi/operations?from=2020-01-01T00%3A00%3A00%2B00%3A00&to=2020-01-02T00%3A00%3A00.500%2B00%3A00&figi=BBG000B9XRY4&brokerAccountId=acc"
    );
}

#[test]
fn candles_request_writes_interval_first() {
    let from = Timestamp { secs: 0, nanos: 0 };
    let to = Timestamp { secs: 60, nanos: 0 };
    let request = client().candles(from, to, "1min", "").unwrap();
    assert_eq!(
        request.url,
        "https://api-invest.tinkoff.ru/openapi/market/candles?interval=1min&from=1970-01-01T00%3A00%3A00%2B00%3A00&to=1970-01-01T00%3A01%3A00%2B00%3A00"
    );
}

#[test]
fn instant_out_of_range_is_a_request_error() {
    let far = Timestamp { secs: i64::MAX, nanos: 0 };
    let near = Timestamp { secs: 0, nanos: 0 };
    assert_eq!(client().operations("", far, near, ""), Err(ClientError::Request));
    assert_eq!(client().operations("", near, far, ""), Err(ClientError::Request));
    assert_eq!(client().candles(near, far, "day", ""), Err(ClientError::Request));
}

#[test]
fn endpoint_without_valid_base_has_no_address() {
    let endpoint = router::stocks();
    assert_eq!(endpoint.locate("not an address"), None);
    assert_eq!(
        endpoint.locate("https://example.net/api/"),
        Some(String::from("https://example.net/api/market/stocks"))
    );
}

#[test]
fn query_append_keeps_order() {
    let mut query = Query::new();
    assert!(query.is_empty());
    query.append("b", "2");
    query.append("a", "1");
    query.filter("c", "");
    query.scope("");
    assert!(!query.is_empty());
    assert_eq!(
        query.pairs,
        vec![(String::from("b"), String::from("2")), (String::from("a"), String::from("1"))]
    );
    query.filter("c", "3");
    query.scope("acc");
    assert_eq!(query.pairs.len(), 4);
    assert_eq!(query.pairs[3], (String::from("brokerAccountId"), String::from("acc")));
}

#[test]
fn portfolio_starts_with_positions() {
    let request = client().portfolio("acc").unwrap();
    assert_eq!(request.url, "https://api-invest.tinkoff.ru/openapi/portfolio?brokerAccountId=acc");
    let request = client().positions_portfolio("").unwrap();
    assert_eq!(request.url, "https://api-invest.tinkoff.ru/openapi/portfolio");
    let request = client().currencies_portfolio("acc").unwrap();
    assert_eq!(
        request.url,
        "https://api-invest.tinkoff.ru/openapi/portfolio/currencies?brokerAccountId=acc"
    );
    let request = client().orders("acc").unwrap();
    assert_eq!(request.url, "https://api-invest.tinkoff.ru/openapi/orders?brokerAccountId=acc");
}
