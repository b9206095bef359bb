use tinkoff_invest::json::{same_text, Json};
use tinkoff_invest::number::{format_i64, format_u64, parse_i64};
use tinkoff_invest::time::Timestamp;
use tinkoff_invest::vocabulary;

#[test]
fn parse_i64_reads_plain_integers() {
    assert_eq!(parse_i64("0"), Some(0));
    assert_eq!(parse_i64("7"), Some(7));
    assert_eq!(parse_i64("-7"), Some(-7));
    assert_eq!(parse_i64("150"), Some(150));
    assert_eq!(parse_i64("007"), Some(7));
    assert_eq!(parse_i64("-0"), Some(0));
    assert_eq!(parse_i64("9223372036854775807"), Some(i64::MAX));
    assert_eq!(parse_i64("-9223372036854775808"), Some(i64::MIN));
}

#[test]
fn parse_i64_rejects_everything_else() {
    for text in [
        "", "-", "+1", "1.0", "1e3", "1.5", " 1", "1 ", "--1", "1-", "0x10", "١٢٣", "1_000",
        "9223372036854775808", "-9223372036854775809", "18446744073709551615",
        "99999999999999999999999999999999999999", "12a", "a12", "é",
    ] {
        assert_eq!(parse_i64(text), None, "{:?}", text);
    }
}

#[test]
fn format_i64_writes_decimal_literals() {
    assert_eq!(format_i64(0), "0");
    assert_eq!(format_i64(5), "5");
    assert_eq!(format_i64(10), "10");
    assert_eq!(format_i64(-10), "-10");
    assert_eq!(format_i64(1234567890), "1234567890");
    assert_eq!(format_i64(i64::MAX), "9223372036854775807");
    assert_eq!(format_i64(i64::MIN), "-9223372036854775808");
    assert_eq!(format_u64(u64::MAX), "18446744073709551615");
    assert_eq!(format_u64(0), "0");
}

#[test]
fn format_then_parse_is_identity() {
    for v in [0i64, 1, -1, 9, 10, 11, 99, 100, -100, 20, i64::MAX, i64::MIN, i64::MAX - 1, i64::MIN + 1] {
        assert_eq!(parse_i64(&format_i64(v)), Some(v));
    }
}

#[test]
fn timestamp_writes_rfc3339_in_utc() {
    assert_eq!(
        Timestamp { secs: 0, nanos: 0 }.to_rfc3339().as_deref(),
        Some("1970-01-01T00:00:00+00:00")
    );
    assert_eq!(
        Timestamp { secs: 1577836800, nanos: 0 }.to_rfc3339().as_deref(),
        Some("2020-01-01T00:00:00+00:00")
    );
    assert_eq!(
        Timestamp { secs: 1577836800, nanos: 123_000_000 }.to_rfc3339().as_deref(),
        Some("2020-01-01T00:00:00.123+00:00")
    );
    assert_eq!(
        Timestamp { secs: -1, nanos: 999_999_999 }.to_rfc3339().as_deref(),
        Some("1969-12-31T23:59:59.999999999+00:00")
    );
}

#[test]
fn timestamp_out_of_range_has_no_text() {
    assert_eq!(Timestamp { secs: i64::MAX, nanos: 0 }.to_rfc3339(), None);
    assert_eq!(Timestamp { secs: i64::MIN, nanos: 0 }.to_rfc3339(), None);
    assert_eq!(Timestamp { secs: 0, nanos: 2_000_000_000 }.to_rfc3339(), None);
}

#[test]
fn timestamp_parses_offsets_into_utc() {
    let noon = Some(Timestamp { secs: 1577880000, nanos: 0 });
    assert_eq!(Timestamp::parse("2020-01-01T12:00:00Z"), noon);
    assert_eq!(Timestamp::parse("2020-01-01T12:00:00+00:00"), noon);
    assert_eq!(Timestamp::parse("2020-01-01T15:00:00+03:00"), noon);
    assert_eq!(Timestamp::parse("2020-01-01 12:00:00Z"), noon);
    assert_eq!(
        Timestamp::parse("2020-01-01T12:00:00.000000001Z"),
        Some(Timestamp { secs: 1577880000, nanos: 1 })
    );
}

#[test]
fn timestamp_rejects_what_is_no_date_time() {
    for text in ["", "yesterday", "2020-01-01", "2020-13-01T00:00:00Z", "2020-01-01T12:00:00"] {
        assert_eq!(Timestamp::parse(text), None, "{:?}", text);
    }
}

#[test]
fn timestamp_text_reads_back() {
    for t in [
        Timestamp { secs: 0, nanos: 0 },
        Timestamp { secs: 1577836800, nanos: 1 },
        Timestamp { secs: -86400, nanos: 500 },
        Timestamp { secs: 253402300799, nanos: 999_999_999 },
    ] {
        let text = t.to_rfc3339().unwrap();
        assert_eq!(Timestamp::parse(&text), Some(t));
    }
}

#[test]
fn json_parse_keeps_number_literals() {
    let j = Json::parse("{\"a\": [1, -2, 2.5, 1e3, \"x\", true, false, null], \"b\": {}}").unwrap();
    assert_eq!(
        j,
        Json::Object(vec![
            (
                String::from("a"),
                Json::Array(vec![
                    Json::Number(String::from("1")),
                    Json::Number(String::from("-2")),
                    Json::Number(String::from("2.5")),
                    Json::Number(String::from("1000.0")),
                    Json::Text(String::from("x")),
                    Json::Bool(true),
                    Json::Bool(false),
                    Json::Null,
                ]),
            ),
            (String::from("b"), Json::Object(vec![])),
        ])
    );
}

#[test]
fn json_parse_rejects_malformed_text() {
    for text in ["", "{", "[1,]", "{\"a\":}", "nul", "{\"a\":1}}", "'a'"] {
        assert_eq!(Json::parse(text), None, "{:?}", text);
    }
}

#[test]
fn json_render_is_compact() {
    let j = Json::object(vec![
        (String::from("n"), Json::number(String::from("12"))),
        (String::from("t"), Json::text(String::from("a\"b\n"))),
        (String::from("l"), Json::array(vec![Json::flag(true), Json::Null])),
    ]);
    assert_eq!(j.render().as_deref(), Some("{\"l\":[true,null],\"n\":12,\"t\":\"a\\\"b\\n\"}"));
    assert_eq!(Json::Null.render().as_deref(), Some("null"));
}

#[test]
fn json_render_refuses_bad_number_literals() {
    assert_eq!(Json::number(String::from("twelve")).render(), None);
    assert_eq!(Json::number(String::new()).render(), None);
    assert_eq!(Json::array(vec![Json::Null, Json::number(String::from("1x"))]).render(), None);
    assert_eq!(
        Json::object(vec![(String::from("k"), Json::number(String::from("NaN")))]).render(),
        None
    );
}

#[test]
fn json_field_access() {
    let j = Json::parse("{\"s\":\"x\",\"n\":5,\"f\":2.5,\"b\":true,\"a\":[1],\"d\":\"2020-01-01T00:00:00Z\"}").unwrap();
    assert_eq!(j.get("s"), Some(&Json::Text(String::from("x"))));
    assert_eq!(j.get("zz"), None);
    assert_eq!(Json::Null.get("s"), None);
    assert_eq!(j.text_field("s").as_deref(), Some("x"));
    assert_eq!(j.text_field("n"), None);
    assert_eq!(j.text_field("zz"), None);
    assert_eq!(j.text_field_or("zz", "dflt").as_deref(), Some("dflt"));
    assert_eq!(j.text_field_or("s", "dflt").as_deref(), Some("x"));
    assert_eq!(j.text_field_or("n", "dflt"), None);
    assert_eq!(j.number_field("n").as_deref(), Some("5"));
    assert_eq!(j.number_field("f").as_deref(), Some("2.5"));
    assert_eq!(j.number_field("s"), None);
    assert_eq!(j.number_field_or("zz", "0").as_deref(), Some("0"));
    assert_eq!(j.number_field_or("s", "0"), None);
    assert_eq!(j.integer_field("n"), Some(5));
    assert_eq!(j.integer_field("f"), None);
    assert_eq!(j.integer_field("zz"), None);
    assert_eq!(j.flag_field("b"), Some(true));
    assert_eq!(j.flag_field("n"), None);
    assert_eq!(j.items_field("a").map(|v| v.len()), Some(1));
    assert_eq!(j.items_field("s"), None);
    assert_eq!(j.instant_field("d"), Some(Timestamp { secs: 1577836800, nanos: 0 }));
    assert_eq!(j.instant_field("s"), None);
    assert_eq!(j.instant_field("n"), None);
}

#[test]
fn json_lookup_finds_the_first_member() {
    let j = Json::Object(vec![
        (String::from("k"), Json::Bool(true)),
        (String::from("k"), Json::Bool(false)),
    ]);
    assert_eq!(j.get("k"), Some(&Json::Bool(true)));
    assert_eq!(j.take("k"), Json::Bool(true));
    assert_eq!(Json::Array(vec![]).take("k"), Json::Null);
    assert_eq!(Json::Object(vec![]).take("k"), Json::Null);
}

#[test]
fn same_text_compares_characters() {
    assert!(same_text("figi", "figi"));
    assert!(!same_text("figi", "Figi"));
    assert!(!same_text("figi", "fig"));
    assert!(same_text("", ""));
}

#[test]
fn vocabulary_words_are_the_wire_words() {
    assert_eq!(vocabulary::RUB, "RUB");
    assert_eq!(vocabulary::HKD, "HKD");
    assert_eq!(vocabulary::OPERATION_TYPE_BUY, "Buy");
    assert_eq!(vocabulary::OPERATION_TYPE_BUY_CARD, "BuyCard");
    assert_eq!(vocabulary::ORDER_STATUS_PARTIALLY_FILL, "PartiallyFill");
    assert_eq!(vocabulary::OPERATION_STATUS_PROGRESS, "Progress");
    assert_eq!(vocabulary::INSTRUMENT_TYPE_CURRENCY, "currency");
    assert_eq!(vocabulary::ORDER_TYPE_MARKET, "Market");
    assert_eq!(vocabulary::ACCOUNT_TINKOFF_IIS, "TinkoffIis");
    assert_eq!(vocabulary::CANDLE_INTERVAL_1HOUR, "hour");
    assert_eq!(vocabulary::CANDLE_INTERVAL_1MONTH, "month");
    assert_eq!(vocabulary::TRADING_STATUS_TRADING_AT_CLOSING_AUCTION_PRICE, "trading_at_closing_auction_price");
    assert_eq!(tinkoff_invest::DEFAULT_ACCOUNT, "");
    assert_eq!(tinkoff_invest::MAX_ORDERBOOK_DEPTH, 20);
}
