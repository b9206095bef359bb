use tinkoff_invest::address::Method;
use tinkoff_invest::client::{RestClient, Step};
use tinkoff_invest::error::ClientError;
use tinkoff_invest::model::{MoneyAmount, Orders, PlacedOrder};
use tinkoff_invest::router::MAX_ORDERBOOK_DEPTH;
use tinkoff_invest::vocabulary::{OPERATION_TYPE_BUY, OPERATION_TYPE_SELL};

fn client() -> RestClient {
    RestClient::new(String::from("t0ken"))
}

#[test]
fn limit_order_builds_body_and_address() {
    let request = client()
        .limit_order("", "BBG000B9XRY4", 1, String::from(OPERATION_TYPE_BUY), "150.5")
        .unwrap();
    assert_eq!(request.method, Method::Post);
    assert_eq!(
        request.url,
        "https://api-invest.tinkoff.ru/openapi/orders/limit-order?figi=BBG000B9XRY4"
    );
    assert_eq!(
        request.body.as_deref(),
        Some("{\"lots\":1,\"operation\":\"Buy\",\"price\":150.5}")
    );
    assert_eq!(request.authorization, "Bearer t0ken");
}

#[test]
fn limit_order_names_the_account_behind_the_figi() {
    let request = client()
        .limit_order("acct", "BBG000B9XRY4", 1, String::from("Buy"), "150.5")
        .unwrap();
    assert_eq!(
        request.url,
        "https://api-invest.tinkoff.ru/openapi/orders/limit-order?figi=BBG000B9XRY4&brokerAccountId=acct"
    );
}

#[test]
fn limit_order_response_decodes_to_placed_order() {
    let body = "{\"trackingId\":\"x\",\"status\":\"Ok\",\"payload\":{\"id\":\"42\",\"operation\":\"Buy\",\"status\":\"New\",\"reject_reason\":\"\",\"requested_lots\":1,\"executed_lots\":0,\"commission\":{\"currency\":\"USD\",\"value\":0.05},\"message\":\"\"}}";
    let placed = RestClient::placed_order_reply(200, body).unwrap();
    assert_eq!(
        placed,
        PlacedOrder {
            id: String::from("42"),
            operation: String::from("Buy"),
            status: String::from("New"),
            reject_reason: String::new(),
            requested_lots: 1,
            executed_lots: 0,
            commission: MoneyAmount { currency: String::from("USD"), value: String::from("0.05") },
            message: String::new(),
        }
    );
}

#[test]
fn limit_order_rejects_price_that_is_no_number() {
    let r = client().limit_order("", "F", 1, String::from("Buy"), "cheap");
    assert_eq!(r, Err(ClientError::Request));
}

#[test]
fn limit_order_price_is_written_as_a_json_number() {
    let request = client().limit_order("", "F", -3, String::from("Sell"), "150.50").unwrap();
    assert_eq!(
        request.body.as_deref(),
        Some("{\"lots\":-3,\"operation\":\"Sell\",\"price\":150.5}")
    );
}

#[test]
fn market_order_body_has_no_price() {
    let request = client()
        .market_order("acc", "BBG000B9XRY4", 10, String::from(OPERATION_TYPE_SELL))
        .unwrap();
    assert_eq!(request.method, Method::Post);
    assert_eq!(
        request.url,
        "https://api-invest.tinkoff.ru/openapi/orders/market-order?figi=BBG000B9XRY4&brokerAccountId=acc"
    );
    assert_eq!(request.body.as_deref(), Some("{\"lots\":10,\"operation\":\"Sell\"}"));
}

#[test]
fn order_operation_is_escaped_in_the_body() {
    let request = client().market_order("", "F", 1, String::from("a\"b")).unwrap();
    assert_eq!(request.body.as_deref(), Some("{\"lots\":1,\"operation\":\"a\\\"b\"}"));
}

#[test]
fn order_cancel_has_empty_body_and_order_id() {
    let request = client().order_cancel("", "1234").unwrap();
    assert_eq!(request.method, Method::Post);
    assert_eq!(request.url, "https://api-invest.tinkoff.ru/openapi/orders/cancel?orderId=1234");
    assert_eq!(request.body.as_deref(), Some(""));
    let request = client().order_cancel("acc", "1234").unwrap();
    assert_eq!(
        request.url,
        "https://api-invest.tinkoff.ru/openapi/orders/cancel?orderId=1234&brokerAccountId=acc"
    );
}

#[test]
fn order_cancel_succeeds_on_status_alone() {
    assert_eq!(RestClient::order_cancel_reply(200, "not json at all"), Ok(()));
    assert_eq!(RestClient::order_cancel_reply(299, ""), Ok(()));
    assert_eq!(
        RestClient::order_cancel_reply(404, "gone"),
        Err(ClientError::Api { status: 404, body: String::from("gone") })
    );
    assert_eq!(
        RestClient::order_cancel_reply(199, ""),
        Err(ClientError::Api { status: 199, body: String::new() })
    );
    assert_eq!(
        RestClient::order_cancel_reply(300, ""),
        Err(ClientError::Api { status: 300, body: String::new() })
    );
}

#[test]
fn orders_with_malformed_payload_is_empty_list() {
    let request = client().orders("").unwrap();
    assert_eq!(request.url, "https://api-invest.tinkoff.ru/openapi/orders");
    let r = RestClient::orders_reply(200, "{\"payload\": {\"orders\": \"not-a-list\"}}");
    assert_eq!(r, Ok(Orders { orders: vec![] }));
}

#[test]
fn orders_without_payload_is_empty_list() {
    assert_eq!(RestClient::orders_reply(200, "{}"), Ok(Orders { orders: vec![] }));
    assert_eq!(RestClient::orders_reply(200, "[1,2]"), Ok(Orders { orders: vec![] }));
}

#[test]
fn orders_leniency_does_not_cover_status_or_broken_json() {
    assert_eq!(
        RestClient::orders_reply(500, "{\"payload\": {\"orders\": []}}"),
        Err(ClientError::Api { status: 500, body: String::from("{\"payload\": {\"orders\": []}}") })
    );
    assert_eq!(RestClient::orders_reply(200, "{\"payload\": "), Err(ClientError::Mapping));
}

#[test]
fn orders_decode_in_response_order() {
    let body = "{\"payload\":{\"orders\":[{\"id\":\"1\",\"figi\":\"F1\",\"operation\":\"Buy\",\"status\":\"New\",\"requested_lots\":2,\"executed_lots\":1,\"type\":\"Limit\",\"price\":10.25},{\"id\":\"2\",\"figi\":\"F2\",\"operation\":\"Sell\",\"status\":\"Fill\",\"requested_lots\":5,\"executed_lots\":5,\"type\":\"Market\",\"price\":7}]}}";
    let orders = RestClient::orders_reply(200, body).unwrap().orders;
    assert_eq!(orders.len(), 2);
    assert_eq!(orders[0].id, "1");
    assert_eq!(orders[0].order_type, "Limit");
    assert_eq!(orders[0].price, "10.25");
    assert_eq!(orders[0].requested_lots, 2);
    assert_eq!(orders[1].figi, "F2");
    assert_eq!(orders[1].price, "7");
    assert_eq!(orders[1].executed_lots, 5);
}

#[test]
fn orderbook_depth_out_of_range_needs_no_round_trip() {
    for depth in [0i64, -1, 21, i64::MIN, i64::MAX] {
        match client().orderbook(depth, "BBG000B9XRY4") {
            Ok(Step::Done(book)) => {
                assert_eq!(book.depth, depth);
                assert_eq!(book.figi, "");
                assert!(book.bids.is_empty());
                assert!(book.asks.is_empty());
                assert_eq!(book.trade_status, "");
                assert_eq!(book.min_price_increment, "0");
                assert_eq!(book.last_price, "0");
                assert_eq!(book.close_price, "0");
                assert_eq!(book.limit_up, "0");
                assert_eq!(book.limit_down, "0");
                assert_eq!(book.face_value, "0");
            }
            other => panic!("depth {} planned {:?}", depth, other),
        }
    }
}

#[test]
fn orderbook_depth_in_range_plans_a_request() {
    assert_eq!(MAX_ORDERBOOK_DEPTH, 20);
    for depth in [1i64, 2, 10, 20] {
        match client().orderbook(depth, "BBG000B9XRY4") {
            Ok(Step::Send(request)) => {
                assert_eq!(request.method, Method::Get);
                assert_eq!(
                    request.url,
                    format!(
                        "https://api-invest.tinkoff.ru/openapi/market/orderbook?depth={}&figi=BBG000B9XRY4",
                        depth
                    )
                );
            }
            other => panic!("depth {} gave {:?}", depth, other),
        }
    }
}

#[test]
fn orderbook_response_decodes_ladders() {
    let body = "{\"payload\":{\"figi\":\"F\",\"depth\":2,\"bids\":[{\"price\":10.5,\"quantity\":3},{\"price\":10.4,\"quantity\":8}],\"asks\":[{\"price\":10.6,\"quantity\":1}],\"trade_status\":\"normal_trading\",\"min_price_increment\":0.1,\"last_price\":10.5,\"close_price\":10.2,\"limit_up\":12,\"limit_down\":9,\"face_value\":0}}";
    let book = RestClient::orderbook_reply(200, body).unwrap();
    assert_eq!(book.figi, "F");
    assert_eq!(book.depth, 2);
    assert_eq!(book.bids.len(), 2);
    assert_eq!(book.bids[1].price, "10.4");
    assert_eq!(book.bids[1].quantity, "8");
    assert_eq!(book.asks.len(), 1);
    assert_eq!(book.trade_status, "normal_trading");
    assert_eq!(book.limit_up, "12");
}
