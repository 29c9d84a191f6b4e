use kucoin::client::rest::{
    is_valid_method, on_decoded, on_reply, Credentials, KuCoinClient, NextStep, Reply,
    RequestEnvelope,
};
use kucoin::utils::auth::{encrypt_pass, encrypt_prehash};
use kucoin::types::KuCoinResponse;
use kucoin::utils::errors::{KucoinErrors, KucoinResults};
use std::collections::HashMap;

fn sample_client() -> KuCoinClient {
    KuCoinClient::new(Credentials::new("my-key", "s3cr3t", "p4ss"))
}

fn json_error() -> serde_json::Error {
    serde_json::from_str::<serde_json::Value>("{").unwrap_err()
}

fn transport_error() -> reqwest::Error {
    reqwest::Client::new().get("not a url").build().unwrap_err()
}

#[test]
fn new_client_addresses_the_production_host() {
    let client = sample_client();
    assert_eq!(client.base_link, "https://api.kucoin.com");
}

#[test]
fn headers_at_a_given_time() {
    let client = sample_client();
    let headers = client
        .headers_at("1700000000000", "{\"side\":\"buy\"}", "POST", "/api/v1/hf/orders")
        .unwrap();
    assert_eq!(headers.content_type, "application/json");
    assert_eq!(headers.key, "my-key");
    assert_eq!(headers.signature, "3ZzNhwj6iXv5Ceg8I8WMbViGHOdbMXicSYEyW3szDDk=");
    assert_eq!(headers.timestamp, "1700000000000");
    assert_eq!(headers.passphrase, "fQ1AAu15vE25Fxu6Hozsg42vMbvtWO5kyVnHHcTuHbM=");
    assert_eq!(headers.key_version, "3");
}

#[test]
fn header_pairs_are_named_and_ordered() {
    let client = sample_client();
    let headers = client
        .headers_at("1700000000000", "", "GET", "/api/v2/sub/user")
        .unwrap();
    let pairs = headers.pairs();
    let expected = vec![
        ("content-type".to_string(), "application/json".to_string()),
        ("KC-API-KEY".to_string(), "my-key".to_string()),
        (
            "KC-API-SIGN".to_string(),
            "6Rw54RRM56oaCqt3mjlifWjM7VXEwiykEEVv/ne4fQM=".to_string(),
        ),
        ("KC-API-TIMESTAMP".to_string(), "1700000000000".to_string()),
        (
            "KC-API-PASSPHRASE".to_string(),
            "fQ1AAu15vE25Fxu6Hozsg42vMbvtWO5kyVnHHcTuHbM=".to_string(),
        ),
        ("KC-API-KEY-VERSION".to_string(), "3".to_string()),
    ];
    assert_eq!(pairs, expected);
}

#[test]
fn header_names_are_accepted_by_the_transport() {
    let client = sample_client();
    let headers = client.headers_at("1700000000000", "", "GET", "/").unwrap();
    for (name, value) in headers.pairs() {
        assert!(reqwest::header::HeaderName::from_bytes(name.as_bytes()).is_ok());
        assert!(reqwest::header::HeaderValue::from_str(&value).is_ok());
    }
}

#[test]
fn passphrase_header_ignores_the_request() {
    let client = sample_client();
    let first = client
        .headers_at("1700000000000", "{}", "POST", "/api/v1/hf/orders")
        .unwrap();
    let second = client
        .headers_at("1800000000000", "", "GET", "/api/v2/sub/user")
        .unwrap();
    assert_eq!(first.passphrase, second.passphrase);
    assert_ne!(first.signature, second.signature);
    assert_eq!(
        first.passphrase,
        encrypt_pass("s3cr3t".to_string(), "p4ss".to_string())
    );
    let other_key = KuCoinClient::new(Credentials::new("another-key", "s3cr3t", "p4ss"));
    let third = other_key.headers_at("1", "", "GET", "/").unwrap();
    assert_eq!(third.passphrase, first.passphrase);
}

#[test]
fn signing_again_with_the_same_timestamp_gives_the_same_headers() {
    let client = sample_client();
    let first = client.headers_at("1700000000000", "{}", "POST", "/p").unwrap();
    let second = client.headers_at("1700000000000", "{}", "POST", "/p").unwrap();
    assert_eq!(first.pairs(), second.pairs());
    assert_eq!(
        first.signature,
        encrypt_prehash("s3cr3t", "1700000000000", "POST", "/p", "{}")
    );
}

#[test]
fn key_with_a_line_break_is_no_header_value() {
    let client = KuCoinClient::new(Credentials::new("bad\nkey", "s3cr3t", "p4ss"));
    let headers = client.headers_at("1700000000000", "", "GET", "/");
    assert!(matches!(headers, Err(KucoinErrors::InvalidHeaderValue)));
    let request = client.sign_request_at("1700000000000", "GET", "", "/");
    assert!(matches!(request, Err(KucoinErrors::InvalidHeaderValue)));
    let now = client.sign_request("GET", "", "/");
    assert!(matches!(now, Err(KucoinErrors::InvalidHeaderValue)));
    let headers_now = client.get_headers("", "GET", "/");
    assert!(matches!(headers_now, Err(KucoinErrors::InvalidHeaderValue)));
}

#[test]
fn key_with_a_delete_character_is_no_header_value() {
    let client = KuCoinClient::new(Credentials::new("bad\u{7f}key", "s3cr3t", "p4ss"));
    assert!(matches!(
        client.headers_at("1", "", "GET", "/"),
        Err(KucoinErrors::InvalidHeaderValue)
    ));
}

#[test]
fn key_with_tab_or_text_beyond_ascii_is_a_header_value() {
    let client = KuCoinClient::new(Credentials::new("k\te\u{e9}y", "s3cr3t", "p4ss"));
    let headers = client.headers_at("1700000000000", "", "GET", "/").unwrap();
    assert_eq!(headers.key, "k\te\u{e9}y");
}

#[test]
fn timestamp_with_a_control_character_is_rejected() {
    let client = sample_client();
    assert!(matches!(
        client.headers_at("17\r00", "", "GET", "/"),
        Err(KucoinErrors::InvalidHeaderValue)
    ));
}

#[test]
fn secret_and_passphrase_may_hold_any_text() {
    let client = KuCoinClient::new(Credentials::new("key", "s3\ncr3t", "p4\nss"));
    let headers = client.headers_at("1700000000000", "", "GET", "/").unwrap();
    assert_eq!(
        headers.passphrase,
        encrypt_pass("s3\ncr3t".to_string(), "p4\nss".to_string())
    );
}

#[test]
fn signed_request_at_a_given_time() {
    let client = sample_client();
    let request = client
        .sign_request_at(
            "1700000000000",
            "POST",
            "{\"side\":\"buy\"}",
            "/api/v1/hf/orders",
        )
        .unwrap();
    assert_eq!(request.method, "POST");
    assert_eq!(request.url, "https://api.kucoin.com/api/v1/hf/orders");
    assert_eq!(request.body, "{\"side\":\"buy\"}");
    assert_eq!(request.headers.timestamp, "1700000000000");
    assert_eq!(
        request.headers.signature,
        "3ZzNhwj6iXv5Ceg8I8WMbViGHOdbMXicSYEyW3szDDk="
    );
}

#[test]
fn signed_request_follows_the_base_link() {
    let mut client = sample_client();
    client.base_link = "http://localhost:8080".to_string();
    let request = client.sign_request_at("1", "GET", "", "/x?y=1").unwrap();
    assert_eq!(request.url, "http://localhost:8080/x?y=1");
}

#[test]
fn signed_request_now_is_signed_over_its_own_timestamp() {
    let client = sample_client();
    let request = client
        .sign_request("POST", "{}", "/api/v1/hf/orders")
        .unwrap();
    let timestamp = request.headers.timestamp.clone();
    assert!(timestamp.chars().all(|c| c.is_ascii_digit()));
    assert_eq!(
        request.headers.signature,
        encrypt_prehash("s3cr3t", &timestamp, "POST", "/api/v1/hf/orders", "{}")
    );
    assert_eq!(request.method, "POST");
    assert_eq!(request.body, "{}");
    assert_eq!(request.url, "https://api.kucoin.com/api/v1/hf/orders");
    assert_eq!(request.headers.key, "my-key");
}

#[test]
fn get_headers_is_signed_over_its_own_timestamp() {
    let client = sample_client();
    let headers = client.get_headers("{}", "POST", "/api/v1/hf/orders").unwrap();
    assert_eq!(
        headers.signature,
        encrypt_prehash("s3cr3t", &headers.timestamp, "POST", "/api/v1/hf/orders", "{}")
    );
    assert_eq!(headers.passphrase, "fQ1AAu15vE25Fxu6Hozsg42vMbvtWO5kyVnHHcTuHbM=");
    assert_eq!(headers.content_type, "application/json");
    assert_eq!(headers.key_version, "3");
}

#[test]
fn envelope_is_signed_as_its_parts() {
    let client = sample_client();
    let envelope = RequestEnvelope {
        method: "DELETE".to_string(),
        path: "/api/v1/hf/orders/cancel/1?symbol=BTC-USDT&cancelSize=0.01".to_string(),
        body: String::new(),
    };
    let request = client.sign_envelope(&envelope).unwrap();
    assert_eq!(request.method, "DELETE");
    assert_eq!(
        request.url,
        "https://api.kucoin.com/api/v1/hf/orders/cancel/1?symbol=BTC-USDT&cancelSize=0.01"
    );
    assert_eq!(request.body, "");
    assert_eq!(
        request.headers.signature,
        encrypt_prehash(
            "s3cr3t",
            &request.headers.timestamp,
            "DELETE",
            "/api/v1/hf/orders/cancel/1?symbol=BTC-USDT&cancelSize=0.01",
            ""
        )
    );
}

#[test]
fn set_credentials_changes_later_signatures() {
    let mut client = sample_client();
    let before = client.headers_at("1700000000000", "", "GET", "/").unwrap();
    client.set_credentials(Credentials::new("new-key", "n3w", "w0rd"));
    let after = client.headers_at("1700000000000", "", "GET", "/").unwrap();
    assert_eq!(before.key, "my-key");
    assert_eq!(after.key, "new-key");
    assert_eq!(
        after.signature,
        encrypt_prehash("n3w", "1700000000000", "GET", "/", "")
    );
    assert_eq!(
        after.passphrase,
        encrypt_pass("n3w".to_string(), "w0rd".to_string())
    );
    assert_ne!(before.signature, after.signature);
    assert_eq!(client.base_link, "https://api.kucoin.com");
}

#[test]
fn set_credentials_can_be_chained() {
    let mut client = sample_client();
    let key = client
        .set_credentials(Credentials::new("chained", "a", "b"))
        .headers_at("1", "", "GET", "/")
        .unwrap()
        .key;
    assert_eq!(key, "chained");
}

#[test]
fn cloned_client_signs_alike() {
    let client = sample_client();
    let copy = client.clone();
    let first = client.headers_at("1700000000000", "{}", "POST", "/p").unwrap();
    let second = copy.headers_at("1700000000000", "{}", "POST", "/p").unwrap();
    assert_eq!(first.pairs(), second.pairs());
    assert_eq!(copy.base_link, client.base_link);
}

#[test]
fn cloned_credentials_sign_alike() {
    let credentials = Credentials::new("my-key", "s3cr3t", "p4ss");
    let copy = credentials.clone();
    let first = KuCoinClient::new(credentials)
        .headers_at("1700000000000", "", "GET", "/")
        .unwrap();
    let second = KuCoinClient::new(copy)
        .headers_at("1700000000000", "", "GET", "/")
        .unwrap();
    assert_eq!(first.pairs(), second.pairs());
}

#[test]
fn methods_are_tokens() {
    assert!(is_valid_method("GET"));
    assert!(is_valid_method("POST"));
    assert!(is_valid_method("DELETE"));
    assert!(is_valid_method("OPTIONS"));
    assert!(is_valid_method("post"));
    assert!(is_valid_method("PROPFIND"));
    assert!(is_valid_method("A-VERY-LONG-METHOD-NAME-OF-MORE-THAN-FIFTEEN-BYTES"));
    assert!(is_valid_method("!#$%&'*+-.^_`|~09"));
    assert!(!is_valid_method(""));
    assert!(!is_valid_method("GE T"));
    assert!(!is_valid_method("GET\n"));
    assert!(!is_valid_method("P\u{d6}ST"));
    assert!(!is_valid_method("GET/"));
    assert!(!is_valid_method("a(b)"));
    assert!(!is_valid_method("a\"b"));
    assert!(!is_valid_method("a:b"));
    assert!(!is_valid_method("a{b}"));
}

#[test]
fn status_400_is_an_error_and_the_body_is_not_decoded() {
    let body = "{\"code\":\"200000\",\"data\":null}".to_string();
    let step = on_reply(Reply::Answered { status: 400, body: body.clone() });
    match step {
        NextStep::Fail(KucoinErrors::HttpStatus { status, body: kept }) => {
            assert_eq!(status, 400);
            assert_eq!(kept, body);
        }
        _ => panic!("a status error was expected"),
    }
}

#[test]
fn client_and_server_error_statuses_fail() {
    for status in [400u16, 401, 404, 429, 499, 500, 503, 599] {
        let step = on_reply(Reply::Answered { status, body: "oops".to_string() });
        match step {
            NextStep::Fail(KucoinErrors::HttpStatus { status: kept, body }) => {
                assert_eq!(kept, status);
                assert_eq!(body, "oops");
            }
            _ => panic!("a status error was expected"),
        }
    }
}

#[test]
fn other_statuses_have_their_body_decoded() {
    for status in [100u16, 200, 201, 204, 301, 399, 600, 999] {
        let step = on_reply(Reply::Answered { status, body: "{}".to_string() });
        match step {
            NextStep::Decode(body) => assert_eq!(body, "{}"),
            _ => panic!("the body was to be decoded"),
        }
    }
}

#[test]
fn transport_failure_is_handed_on() {
    let error = transport_error();
    let text = error.to_string();
    match on_reply(Reply::Failed(error)) {
        NextStep::Fail(KucoinErrors::ReqwestError(kept)) => {
            assert_eq!(kept.to_string(), text);
            assert!(kept.is_builder());
        }
        _ => panic!("a transport error was expected"),
    }
}

#[test]
fn decoded_value_is_the_outcome() {
    let outcome: KucoinResults<u32> = on_decoded(Ok(7));
    assert!(matches!(outcome, Ok(7)));
}

#[test]
fn decoding_error_is_a_serialization_error() {
    let error = json_error();
    let text = error.to_string();
    let outcome: KucoinResults<u32> = on_decoded(Err(error));
    match outcome {
        Err(KucoinErrors::JSONError(kept)) => assert_eq!(kept.to_string(), text),
        _ => panic!("a serialization error was expected"),
    }
}

#[test]
fn null_data_decodes_to_none() {
    let parsed = serde_json::from_str::<HashMap<String, Option<String>>>(
        "{\"code\":\"200000\",\"data\":null}",
    );
    let mut fields = on_decoded(parsed).unwrap();
    let response: KuCoinResponse<String> = KuCoinResponse {
        code: fields.remove("code").flatten().unwrap(),
        msg: fields.remove("msg").flatten(),
        data: fields.remove("data").flatten(),
    };
    assert_eq!(response.code, "200000");
    assert_eq!(response.msg, None);
    assert_eq!(response.data, None);
    let data = on_decoded(serde_json::from_str::<Option<u32>>("null"));
    assert!(matches!(data, Ok(None)));
}

#[test]
fn mismatched_body_is_a_serialization_error() {
    let parsed = serde_json::from_str::<HashMap<String, Option<String>>>("[1, 2]");
    assert!(matches!(
        on_decoded(parsed),
        Err(KucoinErrors::JSONError(_))
    ));
}

#[test]
fn error_messages() {
    assert_eq!(
        KucoinErrors::MissingIsolatedTag("Sender".to_string()).message(),
        "Account tag is required for Sender ISOLATED account"
    );
    assert_eq!(
        KucoinErrors::HttpStatus { status: 400, body: "bad request".to_string() }.message(),
        "HTTP-STATUS-ERROR: 400 bad request"
    );
    assert_eq!(
        KucoinErrors::InvalidHeaderValue.message(),
        "failed to parse header value"
    );
    assert_eq!(
        KucoinErrors::ClockBeforeEpoch.message(),
        "Clock may have gone backwards"
    );
    let error = json_error();
    let text = error.to_string();
    assert_eq!(
        KucoinErrors::JSONError(error).message(),
        format!("SERDE-JSON-ERROR: {}", text)
    );
    let error = transport_error();
    let text = error.to_string();
    assert_eq!(
        KucoinErrors::ReqwestError(error).message(),
        format!("REQWEST-ERROR: {}", text)
    );
}

#[test]
fn outside_errors_convert_into_the_library_error() {
    assert!(matches!(
        KucoinErrors::from(json_error()),
        KucoinErrors::JSONError(_)
    ));
    assert!(matches!(
        KucoinErrors::from(transport_error()),
        KucoinErrors::ReqwestError(_)
    ));
}

#[test]
fn every_ascii_character_is_judged_as_a_token_or_not() {
    let others = "!#$%&'*+-.^_`|~";
    for code in 0u8..128 {
        let c = code as char;
        let token = c.is_ascii_alphanumeric() || others.contains(c);
        assert_eq!(is_valid_method(&c.to_string()), token);
        let long = format!("A-METHOD-OF-MORE-THAN-FIFTEEN-BYTES{}", c);
        assert_eq!(is_valid_method(&long), token);
        let short = format!("GET{}", c);
        assert_eq!(is_valid_method(&short), token);
    }
    for c in ['\u{80}', '\u{e9}', '\u{20ac}', '\u{1f600}'] {
        assert!(!is_valid_method(&c.to_string()));
        assert!(!is_valid_method(&format!("GET{}", c)));
    }
}

#[test]
fn every_ascii_character_is_judged_as_a_header_value_or_not() {
    for code in 0u8..128 {
        let c = code as char;
        let allowed = code == 9 || (code >= 32 && code != 127);
        let key = format!("key{}", c);
        let client = KuCoinClient::new(Credentials::new(&key, "s3cr3t", "p4ss"));
        let headers = client.headers_at("1700000000000", "", "GET", "/");
        match headers {
            Ok(set) => {
                assert!(allowed);
                assert_eq!(set.key, key);
            }
            Err(KucoinErrors::InvalidHeaderValue) => assert!(!allowed),
            Err(_) => panic!("no other error was expected"),
        }
    }
    for c in ['\u{80}', '\u{e9}', '\u{20ac}', '\u{1f600}'] {
        let key = format!("key{}", c);
        let client = KuCoinClient::new(Credentials::new(&key, "s3cr3t", "p4ss"));
        assert!(client.headers_at("1", "", "GET", "/").is_ok());
    }
}
