use bitcharge::coinmotion::Rates;
use bitcharge::conf::CoinMotionConfig;
use bitcharge::conf::Config;
use bitcharge::conf::WebConfig;
use bitcharge::db::Charge;
use bitcharge::db::Database;
use bitcharge::de::decimal_field;
use bitcharge::de::deserialize_big_decimal;
use bitcharge::de::deserialize_string;
use bitcharge::de::deserialize_u64;
use bitcharge::de::text_field;
use bitcharge::de::u64_field;
use bitcharge::decimal::checked_mul_pow10;
use bitcharge::decimal::div_pow10;
use bitcharge::decimal::Decimal;
use bitcharge::json::Json;
use bitcharge::json::Member;
use bitcharge::sign::to_hex_lower;
use bitcharge::text::parse_u64;
use bitcharge::text::push_decimal;
use bitcharge::time::Timestamp;

fn charge(id: u64, invoice: &str) -> Charge {
    Charge {
        id,
        invoice_id: invoice.to_string(),
        eur_amount: Decimal { unscaled: 2500, scale: 2 },
        btc_address: "1BoatSLRHtKNngkdXEeobR76b53LETtpyT".to_string(),
    }
}

#[test]
fn database_finds_the_first_charge_with_the_id() {
    let db = Database::new(vec![charge(1, "a"), charge(2, "b"), charge(2, "c")]);
    assert_eq!(db.get_charge_by_id(1).unwrap().invoice_id, "a");
    assert_eq!(db.get_charge_by_id(2).unwrap().invoice_id, "b");
    assert!(db.get_charge_by_id(3).is_none());
    assert_eq!(db.charges().len(), 3);
    assert_eq!(db.charges()[2].invoice_id, "c");
    assert!(Database::new(vec![]).get_charge_by_id(1).is_none());
}

#[test]
fn config_holds_what_it_is_given() {
    let config = Config {
        web: WebConfig {
            http_port: 8080,
            hashids_salt: "salt".to_string(),
            base_url: "https://pay.example/".to_string(),
        },
        coinmotion: CoinMotionConfig { api_key: "k".to_string(), api_secret: "s".to_string() },
        charges: vec![charge(1, "a")],
    };
    assert_eq!(config.web.http_port, 8080);
    assert_eq!(config.coinmotion.clone().api_key, "k");
    assert_eq!(config.charges[0].id, 1);
}

#[test]
fn json_text_becomes_a_tree() {
    let doc = Json::parse(br#"{"a":null,"b":[true,1.50,"x"],"c":{"d":-2e3}}"#).unwrap();
    assert_eq!(doc.get("a"), Some(&Json::Null));
    assert_eq!(
        doc.get("b"),
        Some(&Json::List(vec![
            Json::Bool(true),
            Json::Number("1.50".to_string()),
            Json::Text("x".to_string()),
        ]))
    );
    assert_eq!(
        doc.get("c"),
        Some(&Json::Object(vec![Member {
            key: "d".to_string(),
            value: Json::Number("-2e+3".to_string()),
        }]))
    );
    assert_eq!(doc.get("d"), None);
    assert_eq!(Json::parse(b"tru"), None);
    assert_eq!(Json::parse(b"{} {}"), None);
    assert_eq!(
        Json::parse("\"caf\u{e9} \\u00e9\"".as_bytes()),
        Some(Json::Text("caf\u{e9} \u{e9}".to_string()))
    );
}

#[test]
fn json_lookup_takes_the_first_member_of_that_name() {
    let doc = Json::Object(vec![
        Member { key: "k".to_string(), value: Json::Bool(true) },
        Member { key: "k".to_string(), value: Json::Bool(false) },
    ]);
    assert_eq!(doc.get("k"), Some(&Json::Bool(true)));
    assert_eq!(Json::Null.get("k"), None);
    assert_eq!(Json::List(vec![]).get("k"), None);
    assert_eq!(Json::Bool(true).as_bool(), Some(true));
    assert_eq!(Json::Null.as_bool(), None);
    assert_eq!(Json::Text("true".to_string()).as_bool(), None);
}

#[test]
fn single_values_are_read_by_kind() {
    let text = Json::Text("12.5".to_string());
    let number = Json::Number("12.5".to_string());
    let expected = Some(Decimal { unscaled: 125, scale: 1 });
    assert_eq!(deserialize_big_decimal(&text), expected);
    assert_eq!(deserialize_big_decimal(&number), expected);
    assert_eq!(deserialize_big_decimal(&Json::Bool(true)), None);
    assert_eq!(deserialize_big_decimal(&Json::Text("".to_string())), None);
    assert_eq!(deserialize_string(&text), Some("12.5".to_string()));
    assert_eq!(deserialize_string(&number), None);
    assert_eq!(deserialize_u64(&Json::Number("30001".to_string())), Some(30001));
    assert_eq!(deserialize_u64(&Json::Number("12.5".to_string())), None);
    assert_eq!(deserialize_u64(&Json::Text("30001".to_string())), None);
    let doc = Json::parse(br#"{"n":7,"s":"x","d":"0.5"}"#).unwrap();
    assert_eq!(u64_field(&doc, "n"), Some(7));
    assert_eq!(u64_field(&doc, "s"), None);
    assert_eq!(text_field(&doc, "s"), Some("x".to_string()));
    assert_eq!(text_field(&doc, "missing"), None);
    assert_eq!(decimal_field(&doc, "d"), Some(Decimal { unscaled: 5, scale: 1 }));
    assert_eq!(decimal_field(&doc, "n"), Some(Decimal { unscaled: 7, scale: 0 }));
}

#[test]
fn whole_numbers_go_to_text_and_back() {
    for n in [0u64, 7, 10, 99, 100, 30001, u64::MAX] {
        let mut text = String::new();
        push_decimal(&mut text, n);
        assert_eq!(text, n.to_string());
        assert_eq!(parse_u64(&text), Some(n));
    }
    let mut text = "id=".to_string();
    push_decimal(&mut text, 42);
    assert_eq!(text, "id=42");
}

#[test]
fn text_that_is_no_whole_number_is_refused() {
    assert_eq!(parse_u64(""), None);
    assert_eq!(parse_u64("-1"), None);
    assert_eq!(parse_u64("+1"), None);
    assert_eq!(parse_u64("1.0"), None);
    assert_eq!(parse_u64("1e3"), None);
    assert_eq!(parse_u64("12a"), None);
    assert_eq!(parse_u64("\u{661}\u{662}"), None);
    assert_eq!(parse_u64("007"), Some(7));
    assert_eq!(parse_u64("18446744073709551615"), Some(u64::MAX));
    assert_eq!(parse_u64("18446744073709551616"), None);
    assert_eq!(parse_u64("99999999999999999999"), None);
}

#[test]
fn bytes_are_written_in_lower_case_hex() {
    assert_eq!(to_hex_lower(&[]), "");
    assert_eq!(to_hex_lower(&[0x00, 0x0f, 0xa0, 0xff, 0x5c]), "000fa0ff5c");
}

#[test]
fn powers_of_ten_scale_exactly() {
    assert_eq!(checked_mul_pow10(123, 8), Some(12_300_000_000));
    assert_eq!(checked_mul_pow10(-5, 0), Some(-5));
    assert_eq!(checked_mul_pow10(0, u64::MAX), Some(0));
    assert_eq!(checked_mul_pow10(1, 38), Some(100_000_000_000_000_000_000_000_000_000_000_000_000));
    assert_eq!(checked_mul_pow10(1, 39), None);
    assert_eq!(checked_mul_pow10(-2, 38), None);
    assert_eq!(div_pow10(12345, 2), 123);
    assert_eq!(div_pow10(-12345, 2), -123);
    assert_eq!(div_pow10(99, 2), 0);
    assert_eq!(div_pow10(i128::MIN, u64::MAX), 0);
    assert_eq!(div_pow10(7, 0), 7);
}

#[test]
fn timestamps_count_nanoseconds() {
    assert_eq!(Timestamp::from_secs(2).nanos, 2_000_000_000);
    assert_eq!(Timestamp::from_nanos(5).nanos, 5);
    assert_eq!(Timestamp::from_secs(1).checked_add_secs(60), Some(Timestamp::from_secs(61)));
    assert_eq!(Timestamp::from_nanos(u128::MAX).checked_add_secs(1), None);
    assert_eq!(Timestamp::from_nanos(u128::MAX).checked_add_secs(0), Some(Timestamp::from_nanos(u128::MAX)));
    assert_eq!(Timestamp::from_parts(2, 5).nanos, 2_000_000_005);
    assert_eq!(Timestamp::from_parts(0, 0), Timestamp::from_nanos(0));
    assert_eq!(
        Timestamp::from_parts(u64::MAX, u32::MAX).nanos,
        u64::MAX as u128 * 1_000_000_000 + u32::MAX as u128
    );
    let first = Timestamp::now().unwrap();
    assert!(first.nanos > 1_530_900_294_000_000_000);
}

#[test]
fn a_reading_of_the_clock_leaves_room_for_any_seconds() {
    let now = Timestamp::now().unwrap();
    assert!(now.nanos <= u64::MAX as u128 * 1_000_000_000 + u32::MAX as u128);
    assert!(now.checked_add_secs(300).is_some());
    assert!(now.checked_add_secs(u64::MAX).is_some());
    assert!(Timestamp::from_parts(u64::MAX, u32::MAX).checked_add_secs(u64::MAX).is_some());
}

#[test]
fn rates_are_plain_values() {
    let rates = Rates {
        btc_bid: Decimal { unscaled: 1, scale: 0 },
        btc_ask: Decimal { unscaled: 2, scale: 0 },
    };
    let copy = rates;
    assert_eq!(copy, rates.clone());
}
