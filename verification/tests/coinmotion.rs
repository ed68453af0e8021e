use bitcharge::coinmotion::decode_response;
use bitcharge::coinmotion::next_nonce;
use bitcharge::coinmotion::nonce_at;
use bitcharge::coinmotion::request_body;
use bitcharge::coinmotion::ApiRequest;
use bitcharge::coinmotion::Balances;
use bitcharge::coinmotion::BuySellAmount;
use bitcharge::coinmotion::Coinmotion;
use bitcharge::coinmotion::Error;
use bitcharge::coinmotion::FromJson;
use bitcharge::coinmotion::Header;
use bitcharge::coinmotion::Method;
use bitcharge::coinmotion::Payload;
use bitcharge::coinmotion::Rates;
use bitcharge::coinmotion::ResponseWrapper;
use bitcharge::coinmotion::Trade;
use bitcharge::coinmotion::Withdrawal;
use bitcharge::coinmotion::WITHDRAWAL_FEE;
use bitcharge::decimal::Decimal;
use bitcharge::json::Json;
use bitcharge::sign::sign;
use bitcharge::time::Timestamp;
use bitcharge::worker::withdrawal_fee;

fn dec(unscaled: i128, scale: u64) -> Decimal {
    Decimal { unscaled, scale }
}

fn header(name: &str, value: &str) -> Header {
    Header { name: name.to_string(), value: value.to_string() }
}

#[test]
fn deserialize_trade() {
    let json = r#"
            {
                "id": "360001",
                "rate": "1234.56",
                "timestamp": "2018-07-06 21:04:54",
                "amount_cur": 1975.6,
                "amount_vir": -0.3575
            }
        "#;
    let doc = Json::parse(json.as_bytes()).unwrap();
    Trade::from_json(&doc).unwrap();
}

#[test]
fn deserialize_withdrawal() {
    let json = r#"
            {
                "id": 30001,
                "iban": "IBAN",
                "bic": "BIC",
                "ref_no": "X123"
            }
        "#;
    let doc = Json::parse(json.as_bytes()).unwrap();
    Withdrawal::from_json(&doc).unwrap();
}

#[test]
fn trade_fields_are_read_exactly() {
    let json = r#"{"id":"360001","rate":"1234.56","timestamp":"2018-07-06 21:04:54",
        "amount_cur":1975.6,"amount_vir":-0.3575}"#;
    let doc = Json::parse(json.as_bytes()).unwrap();
    let trade = Trade::from_json(&doc).unwrap();
    assert_eq!(
        trade,
        Trade {
            id: "360001".to_string(),
            rate: dec(123456, 2),
            timestamp: "2018-07-06 21:04:54".to_string(),
            amount_cur: dec(19756, 1),
            amount_vir: dec(-3575, 4),
        }
    );
}

#[test]
fn withdrawal_fields_are_read_exactly() {
    let json = r#"{"id":30001,"iban":"IBAN","bic":"BIC","ref_no":"X123"}"#;
    let doc = Json::parse(json.as_bytes()).unwrap();
    assert_eq!(
        Withdrawal::from_json(&doc),
        Some(Withdrawal {
            id: 30001,
            iban: "IBAN".to_string(),
            bic: "BIC".to_string(),
            ref_no: "X123".to_string(),
        })
    );
}

#[test]
fn withdrawal_id_must_be_a_whole_number_in_range() {
    let negative = Json::parse(br#"{"id":-1,"iban":"I","bic":"B","ref_no":"R"}"#).unwrap();
    assert_eq!(Withdrawal::from_json(&negative), None);
    let fraction = Json::parse(br#"{"id":1.5,"iban":"I","bic":"B","ref_no":"R"}"#).unwrap();
    assert_eq!(Withdrawal::from_json(&fraction), None);
    let text = Json::parse(br#"{"id":"7","iban":"I","bic":"B","ref_no":"R"}"#).unwrap();
    assert_eq!(Withdrawal::from_json(&text), None);
    let largest =
        Json::parse(br#"{"id":18446744073709551615,"iban":"I","bic":"B","ref_no":"R"}"#).unwrap();
    assert_eq!(Withdrawal::from_json(&largest).unwrap().id, u64::MAX);
    let too_large =
        Json::parse(br#"{"id":18446744073709551616,"iban":"I","bic":"B","ref_no":"R"}"#).unwrap();
    assert_eq!(Withdrawal::from_json(&too_large), None);
}

#[test]
fn rates_decode_from_strings_and_from_numbers_alike() {
    let strings = Json::parse(br#"{"btc_bid":"5600.10","btc_ask":"5700.25"}"#).unwrap();
    let numbers = Json::parse(br#"{"btc_bid":5600.10,"btc_ask":5700.25}"#).unwrap();
    let expected = Rates { btc_bid: dec(560010, 2), btc_ask: dec(570025, 2) };
    assert_eq!(Rates::from_json(&strings), Some(expected));
    assert_eq!(Rates::from_json(&numbers), Some(expected));
}

#[test]
fn balances_decode_all_six_amounts() {
    let doc = Json::parse(
        br#"{"eur_bal":"100.00","eur_avl":99.5,"eur_res":"0.50",
             "btc_bal":"1.5","btc_avl":"1.25","btc_res":0.25,"extra":null}"#,
    )
    .unwrap();
    assert_eq!(
        Balances::from_json(&doc),
        Some(Balances {
            eur_bal: dec(10000, 2),
            eur_avl: dec(995, 1),
            eur_res: dec(50, 2),
            btc_bal: dec(15, 1),
            btc_avl: dec(125, 2),
            btc_res: dec(25, 2),
        })
    );
}

#[test]
fn a_missing_or_misshapen_member_is_no_value() {
    let missing = Json::parse(br#"{"btc_bid":"1"}"#).unwrap();
    assert_eq!(Rates::from_json(&missing), None);
    let wrong_kind = Json::parse(br#"{"btc_bid":"1","btc_ask":true}"#).unwrap();
    assert_eq!(Rates::from_json(&wrong_kind), None);
    let no_number = Json::parse(br#"{"btc_bid":"1","btc_ask":"one"}"#).unwrap();
    assert_eq!(Rates::from_json(&no_number), None);
    let no_object = Json::parse(br#"["1","2"]"#).unwrap();
    assert_eq!(Rates::from_json(&no_object), None);
}

#[test]
fn envelope_with_success_gives_the_payload() {
    let body = br#"{"success":true,"payload":{"btc_bid":"5600.1","btc_ask":"5700"}}"#;
    assert_eq!(
        decode_response::<Rates>(body),
        Ok(Rates { btc_bid: dec(56001, 1), btc_ask: dec(5700, 0) })
    );
}

#[test]
fn envelope_with_error_status_gives_the_message() {
    let body = br#"{"success":false,"status":"error","message":"x"}"#;
    assert_eq!(decode_response::<Rates>(body), Err(Error::BackendError("x".to_string())));
}

#[test]
fn envelope_message_may_stand_under_error() {
    let body = br#"{"success":false,"status":"error","error":"insufficient funds"}"#;
    assert_eq!(
        decode_response::<Trade>(body),
        Err(Error::BackendError("insufficient funds".to_string()))
    );
    let both = br#"{"success":false,"status":"error","error":"second","message":"first"}"#;
    assert_eq!(decode_response::<Trade>(both), Err(Error::BackendError("first".to_string())));
}

#[test]
fn envelope_with_another_status_gives_that_status() {
    let body = br#"{"success":false,"status":"pending"}"#;
    assert_eq!(
        decode_response::<Withdrawal>(body),
        Err(Error::UnknownStatus("pending".to_string()))
    );
}

#[test]
fn envelope_without_success_is_a_parse_error() {
    assert_eq!(decode_response::<Rates>(br#"{"payload":{}}"#), Err(Error::ParseError));
    assert_eq!(decode_response::<Rates>(br#"{"success":"yes"}"#), Err(Error::ParseError));
    assert_eq!(decode_response::<Rates>(br#"[true]"#), Err(Error::ParseError));
}

#[test]
fn envelope_with_missing_parts_is_a_parse_error() {
    assert_eq!(decode_response::<Rates>(br#"{"success":true}"#), Err(Error::ParseError));
    assert_eq!(
        decode_response::<Rates>(br#"{"success":true,"payload":{"btc_bid":"1"}}"#),
        Err(Error::ParseError)
    );
    assert_eq!(decode_response::<Rates>(br#"{"success":false}"#), Err(Error::ParseError));
    assert_eq!(
        decode_response::<Rates>(br#"{"success":false,"status":7}"#),
        Err(Error::ParseError)
    );
    assert_eq!(
        decode_response::<Rates>(br#"{"success":false,"status":"error"}"#),
        Err(Error::ParseError)
    );
    assert_eq!(
        decode_response::<Rates>(br#"{"success":false,"status":"error","message":5}"#),
        Err(Error::ParseError)
    );
}

#[test]
fn a_body_that_is_no_json_is_a_parse_error() {
    assert_eq!(decode_response::<Rates>(b""), Err(Error::ParseError));
    assert_eq!(decode_response::<Rates>(b"{\"success\":true"), Err(Error::ParseError));
    assert_eq!(decode_response::<Rates>(b"<html>"), Err(Error::ParseError));
}

#[test]
fn response_wrapper_has_one_shape_per_case() {
    let ok = Json::parse(br#"{"success":true,"payload":{"id":1,"iban":"a","bic":"b","ref_no":"c"}}"#)
        .unwrap();
    assert_eq!(
        ResponseWrapper::<Withdrawal>::deserialize(&ok),
        Some(ResponseWrapper::Response(Withdrawal {
            id: 1,
            iban: "a".to_string(),
            bic: "b".to_string(),
            ref_no: "c".to_string(),
        }))
    );
    let refused = Json::parse(br#"{"success":false,"status":"error","message":"no"}"#).unwrap();
    assert_eq!(
        ResponseWrapper::<Withdrawal>::deserialize(&refused),
        Some(ResponseWrapper::Error("no".to_string()))
    );
    let odd = Json::parse(br#"{"success":false,"status":"maintenance"}"#).unwrap();
    assert_eq!(
        ResponseWrapper::<Withdrawal>::deserialize(&odd),
        Some(ResponseWrapper::UnknownStatus("maintenance".to_string()))
    );
    assert_eq!(
        ResponseWrapper::<Rates>::Error("no".to_string()).into_result(),
        Err(Error::BackendError("no".to_string()))
    );
}

#[test]
fn nonce_counts_hundredths_of_a_second() {
    let now = Timestamp::from_nanos(1_530_900_294_123_456_789);
    assert_eq!(nonce_at(now), Some(153_090_029_412));
    assert_eq!(nonce_at(Timestamp::from_nanos(0)), Some(0));
    assert_eq!(nonce_at(Timestamp::from_nanos(9_999_999)), Some(0));
    assert_eq!(nonce_at(Timestamp::from_nanos(10_000_000)), Some(1));
    assert_eq!(nonce_at(Timestamp::from_secs(2)), Some(200));
}

#[test]
fn nonce_that_does_not_fit_is_refused() {
    let last = u64::MAX as u128 * 10_000_000 + 9_999_999;
    assert_eq!(nonce_at(Timestamp::from_nanos(last)), Some(u64::MAX));
    assert_eq!(nonce_at(Timestamp::from_nanos(last + 1)), None);
}

#[test]
fn nonce_never_goes_back() {
    let times = [0u128, 1, 9_999_999, 10_000_000, 1_530_900_294_123_456_789, 1_530_900_294_130_000_000];
    for pair in times.windows(2) {
        let earlier = nonce_at(Timestamp::from_nanos(pair[0])).unwrap();
        let later = nonce_at(Timestamp::from_nanos(pair[1])).unwrap();
        assert!(earlier <= later);
    }
    let first = next_nonce().unwrap();
    let second = next_nonce().unwrap();
    assert!(first <= second);
    assert!(first > 153_090_029_412);
}

#[test]
fn request_body_names_exactly_one_amount() {
    assert_eq!(request_body(153090029412, &Payload::Balances), r#"{"nonce":"153090029412"}"#);
    assert_eq!(
        request_body(7, &Payload::Sell(BuySellAmount::BtcSatoshis(123))),
        r#"{"nonce":"7","amount_btc":123}"#
    );
    assert_eq!(
        request_body(7, &Payload::Sell(BuySellAmount::EurCents(9910))),
        r#"{"nonce":"7","amount_cur":9910}"#
    );
    assert_eq!(
        request_body(u64::MAX, &Payload::Withdraw(0)),
        r#"{"nonce":"18446744073709551615","amount_cur":0}"#
    );
}

#[test]
fn request_body_is_json_with_the_nonce_as_a_string() {
    let body = request_body(42, &Payload::Withdraw(9910));
    let doc = Json::parse(body.as_bytes()).unwrap();
    assert_eq!(doc.get("nonce"), Some(&Json::Text("42".to_string())));
    assert_eq!(doc.get("amount_cur"), Some(&Json::Number("9910".to_string())));
    assert_eq!(doc.get("amount_btc"), None);
}

#[test]
fn signature_matches_the_published_vector() {
    assert_eq!(
        sign("Jefe", "what do ya want for nothing?"),
        "164b7a7bfcf819e2e395fbe73b56e0a387bd64222e831fd610270cd7ea250554\
         9758bf75c05a994a6d034f65f8f0e6fdcaeab1a34d4a6b4b636e070a38bce737"
    );
}

#[test]
fn signature_is_deterministic_and_follows_the_body() {
    let body = r#"{"nonce":"153090029412","amount_cur":9910}"#;
    let changed = r#"{"nonce":"153090029412","amount_cur":9911}"#;
    assert_eq!(sign("secret", body), sign("secret", body));
    assert_ne!(sign("secret", body), sign("secret", changed));
    assert_ne!(sign("secret", body), sign("Secret", body));
    assert_eq!(sign("secret", body).len(), 128);
    assert!(sign("secret", body).chars().all(|c| c.is_ascii_digit() || ('a'..='f').contains(&c)));
}

#[test]
fn get_request_has_no_headers_and_no_body() {
    let api = Coinmotion::new("key", "secret");
    assert_eq!(
        api.rates(),
        ApiRequest {
            method: Method::Get,
            url: "https://api.coinmotion.com/v1/rates".to_string(),
            headers: vec![],
            body: String::new(),
        }
    );
    assert_eq!(api.get("/rates"), api.rates());
}

#[test]
fn post_request_signs_the_body_it_sends() {
    let api = Coinmotion::new("key", "secret");
    let request = api.post("/sell", &Payload::Sell(BuySellAmount::BtcSatoshis(123)), 7);
    let body = r#"{"nonce":"7","amount_btc":123}"#;
    assert_eq!(
        request,
        ApiRequest {
            method: Method::Post,
            url: "https://api.coinmotion.com/v1/sell".to_string(),
            headers: vec![
                header("Content-Type", "application/json"),
                header("X-Coinmotion-APIKey", "key"),
                header("X-Coinmotion-Signature", &sign("secret", body)),
            ],
            body: body.to_string(),
        }
    );
}

#[test]
fn endpoint_requests_go_to_their_paths() {
    let api = Coinmotion::new("key", "secret");
    let balances = api.balances().unwrap();
    assert_eq!(balances.url, "https://api.coinmotion.com/v1/balances");
    assert_eq!(balances.method, Method::Post);
    let nonce = Json::parse(balances.body.as_bytes()).unwrap();
    assert!(matches!(nonce.get("nonce"), Some(Json::Text(_))));
    assert_eq!(balances.headers[2].value, sign("secret", &balances.body));

    let sell = api.sell(BuySellAmount::BtcSatoshis(123)).unwrap();
    assert_eq!(sell.url, "https://api.coinmotion.com/v1/sell");
    assert!(sell.body.ends_with(r#","amount_btc":123}"#));
    assert!(!sell.body.contains("amount_cur"));
    assert_eq!(sell.headers[2].value, sign("secret", &sell.body));

    let withdraw = api.withdraw(9910).unwrap();
    assert_eq!(withdraw.url, "https://api.coinmotion.com/v1/withdraw");
    assert!(withdraw.body.ends_with(r#","amount_cur":9910}"#));
    assert_eq!(withdraw.headers[1].value, "key");
}

#[test]
fn withdrawal_fee_constant_is_ninety_cents() {
    assert_eq!(Decimal::parse(WITHDRAWAL_FEE), Some(withdrawal_fee()));
    assert_eq!(withdrawal_fee(), dec(90, 2));
}
