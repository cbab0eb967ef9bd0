use utxo_indexer::delivery::{webhook_failure, webhook_outcome};
use utxo_indexer::error::IndexerError;
use utxo_indexer::text::{i64_to_decimal, u64_to_decimal};

#[test]
fn decimal_numerals() {
    assert_eq!(u64_to_decimal(0), "0");
    assert_eq!(u64_to_decimal(7), "7");
    assert_eq!(u64_to_decimal(10), "10");
    assert_eq!(u64_to_decimal(1234567890), "1234567890");
    assert_eq!(u64_to_decimal(u64::MAX), "18446744073709551615");
    assert_eq!(i64_to_decimal(0), "0");
    assert_eq!(i64_to_decimal(-1), "-1");
    assert_eq!(i64_to_decimal(-907), "-907");
    assert_eq!(i64_to_decimal(i64::MAX), "9223372036854775807");
    assert_eq!(i64_to_decimal(i64::MIN), "-9223372036854775808");
}

#[test]
fn messages_name_the_failure_domain() {
    assert_eq!(IndexerError::InvalidTimestamp.message(), "Invalid timestamp");
    assert_eq!(
        IndexerError::ScriptParsing("no address".to_string()).message(),
        "Script parsing error: no address"
    );
    assert_eq!(
        IndexerError::WebhookFailed("Status code: 500".to_string()).message(),
        "Webhook failed: Status code: 500"
    );
    assert_eq!(
        IndexerError::InvalidStartBlock("too high".to_string()).message(),
        "Invalid start block: too high"
    );
    assert_eq!(IndexerError::ScriptParsing(String::new()).message(), "Script parsing error: ");
}

#[test]
fn provider_error_is_wrapped_with_its_text() {
    let source = bitcoincore_rpc::Error::UnexpectedStructure;
    let text = source.to_string();
    let error = IndexerError::from(source);
    assert!(matches!(error, IndexerError::BitcoinRPC(bitcoincore_rpc::Error::UnexpectedStructure)));
    assert_eq!(error.message(), format!("Bitcoin RPC error: {}", text));
    let returned = IndexerError::from(bitcoincore_rpc::Error::ReturnedError("boom".to_string()));
    assert!(returned.message().starts_with("Bitcoin RPC error: "));
    assert!(returned.message().contains("boom"));
}

#[test]
fn transport_error_is_wrapped_with_its_text() {
    let source = reqwest::Client::new().get("not a url").build().unwrap_err();
    let text = source.to_string();
    let error = IndexerError::from(source);
    assert!(matches!(error, IndexerError::Network(_)));
    assert_eq!(error.message(), format!("Network error: {}", text));
}

#[test]
fn success_statuses_deliver() {
    for code in [200u16, 201, 204, 299] {
        assert!(webhook_outcome(code).is_ok());
    }
}

#[test]
fn other_statuses_fail_with_their_text() {
    let expect = |code: u16, detail: &str| match webhook_outcome(code) {
        Err(IndexerError::WebhookFailed(msg)) => assert_eq!(msg, detail),
        other => panic!("expected a failed webhook, got {:?}", other),
    };
    expect(404, "Status code: 404 Not Found");
    expect(500, "Status code: 500 Internal Server Error");
    expect(300, "Status code: 300 Multiple Choices");
    expect(199, "Status code: 199 <unknown status code>");
    expect(100, "Status code: 100 Continue");
    expect(999, "Status code: 999 <unknown status code>");
    expect(99, "Status code: 99");
    expect(0, "Status code: 0");
    expect(1000, "Status code: 1000");
    expect(u16::MAX, "Status code: 65535");
}

#[test]
fn failed_webhook_message() {
    let error = webhook_outcome(503).unwrap_err();
    assert_eq!(error.message(), "Webhook failed: Status code: 503 Service Unavailable");
    assert_eq!(
        reqwest::StatusCode::SERVICE_UNAVAILABLE.to_string(),
        "503 Service Unavailable"
    );
}

#[test]
fn webhook_failure_carries_the_status() {
    match webhook_failure("418 I'm a teapot") {
        IndexerError::WebhookFailed(msg) => assert_eq!(msg, "Status code: 418 I'm a teapot"),
        other => panic!("expected a failed webhook, got {:?}", other),
    }
    assert!(matches!(webhook_failure(""), IndexerError::WebhookFailed(msg) if msg == "Status code: "));
}
