use jito_sdk::json::JsonValue;
use jito_sdk::rpc::JitoJsonRpcSDK;
use jito_sdk::rpc::PrettyJsonValue;
use jito_sdk::rpc::ResponseShapeError;
use jito_sdk::rpc::ValidationError;

fn text(s: &str) -> JsonValue {
    JsonValue::Text(s.to_string())
}

fn object(members: Vec<(&str, JsonValue)>) -> JsonValue {
    JsonValue::Object(members.into_iter().map(|(k, v)| (k.to_string(), v)).collect())
}

#[test]
fn envelope_for_get_tip_accounts_with_uuid() {
    let sdk = JitoJsonRpcSDK::new("https://engine.example", Some("abc".to_string()));
    assert_eq!(sdk.tip_accounts_endpoint(), "/bundles?uuid=abc");
    let body = JitoJsonRpcSDK::request_body("getTipAccounts", None);
    assert_eq!(
        body,
        "{\"jsonrpc\":\"2.0\",\"id\":1,\"method\":\"getTipAccounts\",\"params\":[]}"
    );
    assert_eq!(
        sdk.request_url(&sdk.tip_accounts_endpoint()),
        "https://engine.example/bundles?uuid=abc"
    );
}

#[test]
fn endpoints_without_uuid() {
    let sdk = JitoJsonRpcSDK::new("http://localhost", None);
    assert_eq!(sdk.tip_accounts_endpoint(), "/bundles");
    assert_eq!(sdk.bundle_statuses_endpoint(), "/getBundleStatuses");
    assert_eq!(
        sdk.in_flight_bundle_statuses_endpoint(),
        "/getInflightBundleStatuses"
    );
}

#[test]
fn endpoints_with_uuid() {
    let sdk = JitoJsonRpcSDK::new("http://localhost", Some("u-1".to_string()));
    assert_eq!(sdk.bundle_statuses_endpoint(), "/getBundleStatuses?uuid=u-1");
    assert_eq!(
        sdk.in_flight_bundle_statuses_endpoint(),
        "/getInflightBundleStatuses?uuid=u-1"
    );
    assert_eq!(
        JitoJsonRpcSDK::bundle_endpoint(Some("xyz")),
        "/bundles?uuid=xyz"
    );
    assert_eq!(JitoJsonRpcSDK::bundle_endpoint(None), "/bundles");
}

#[test]
fn transactions_endpoint_flags_bundle_only() {
    assert_eq!(
        JitoJsonRpcSDK::transactions_endpoint(true),
        "/transactions?bundleOnly=true"
    );
    assert_eq!(JitoJsonRpcSDK::transactions_endpoint(false), "/transactions");
}

#[test]
fn bundle_with_no_transaction_is_refused() {
    let r = JitoJsonRpcSDK::build_bundle_params(Some(JsonValue::Array(Vec::new())));
    assert!(matches!(r, Err(ValidationError::EmptyBundle)));
    assert_eq!(
        ValidationError::EmptyBundle.message(),
        "Bundle must contain at least one transaction"
    );
}

#[test]
fn bundle_with_six_transactions_is_refused() {
    let txs: Vec<JsonValue> = (0..6).map(|i| text(&format!("tx{}", i))).collect();
    let r = JitoJsonRpcSDK::build_bundle_params(Some(JsonValue::Array(txs)));
    assert!(matches!(r, Err(ValidationError::OversizedBundle)));
    assert_eq!(
        ValidationError::OversizedBundle.message(),
        "Bundle can contain at most 5 transactions"
    );
}

#[test]
fn bundle_that_is_not_an_array_is_refused() {
    let r = JitoJsonRpcSDK::build_bundle_params(Some(text("tx")));
    assert!(matches!(r, Err(ValidationError::InvalidBundleFormat)));
    let r = JitoJsonRpcSDK::build_bundle_params(None);
    assert!(matches!(r, Err(ValidationError::InvalidBundleFormat)));
    assert_eq!(
        ValidationError::InvalidBundleFormat.message(),
        "Invalid bundle format: expected an array of transactions"
    );
}

#[test]
fn bundles_of_one_to_five_transactions_are_wrapped() {
    for n in 1..=5usize {
        let txs: Vec<JsonValue> = (0..n).map(|i| text(&format!("t{}", i))).collect();
        let shaped = JitoJsonRpcSDK::build_bundle_params(Some(JsonValue::Array(txs))).unwrap();
        let expected_txs: Vec<String> = (0..n).map(|i| format!("\"t{}\"", i)).collect();
        let expected = format!(
            "[[{}],{{\"encoding\":\"base64\"}}]",
            expected_txs.join(",")
        );
        assert_eq!(shaped.to_json_string(), expected);
    }
}

#[test]
fn txn_params_from_object() {
    let params = object(vec![
        ("tx", text("QUJD")),
        ("skipPreflight", JsonValue::Bool(true)),
    ]);
    let shaped = JitoJsonRpcSDK::build_txn_params(Some(params));
    assert_eq!(
        shaped.to_json_string(),
        "[\"QUJD\",{\"encoding\":\"base64\",\"skipPreflight\":true}]"
    );
}

#[test]
fn txn_params_defaults_when_fields_are_missing_or_wrong() {
    let params = object(vec![("tx", JsonValue::Int(5))]);
    let shaped = JitoJsonRpcSDK::build_txn_params(Some(params));
    assert_eq!(
        shaped.to_json_string(),
        "[\"\",{\"encoding\":\"base64\",\"skipPreflight\":false}]"
    );
    let shaped = JitoJsonRpcSDK::build_txn_params(None);
    assert_eq!(shaped.to_json_string(), "[]");
    let shaped = JitoJsonRpcSDK::build_txn_params(Some(text("not an object")));
    assert_eq!(shaped.to_json_string(), "[]");
}

#[test]
fn random_tip_account_comes_from_the_result_array() {
    let response = object(vec![(
        "result",
        JsonValue::Array(vec![text("A"), text("B"), text("C")]),
    )]);
    for _ in 0..50 {
        let account = JitoJsonRpcSDK::pick_random_tip_account(&response).unwrap();
        assert!(account == "A" || account == "B" || account == "C");
    }
}

#[test]
fn empty_tip_account_list_is_an_error() {
    let response = object(vec![("result", JsonValue::Array(Vec::new()))]);
    let r = JitoJsonRpcSDK::pick_random_tip_account(&response);
    assert!(matches!(r, Err(ResponseShapeError::NoTipAccounts)));
    assert_eq!(
        ResponseShapeError::NoTipAccounts.message(),
        "No tip accounts available"
    );
}

#[test]
fn missing_or_non_array_result_is_an_error() {
    let response = object(vec![("result", text("oops"))]);
    let r = JitoJsonRpcSDK::pick_random_tip_account(&response);
    assert!(matches!(r, Err(ResponseShapeError::ResultNotArray)));

    let response = object(vec![("other", JsonValue::Null)]);
    let r = JitoJsonRpcSDK::pick_random_tip_account(&response);
    assert!(matches!(r, Err(ResponseShapeError::ResultNotArray)));

    let r = JitoJsonRpcSDK::pick_random_tip_account(&JsonValue::Null);
    assert!(matches!(r, Err(ResponseShapeError::ResultNotArray)));
    assert_eq!(
        ResponseShapeError::ResultNotArray.message(),
        "Failed to parse tip accounts as array"
    );
}

#[test]
fn non_string_tip_account_is_an_error() {
    let response = object(vec![("result", JsonValue::Array(vec![JsonValue::Int(7)]))]);
    let r = JitoJsonRpcSDK::pick_random_tip_account(&response);
    assert!(matches!(r, Err(ResponseShapeError::AccountNotString)));
    assert_eq!(
        ResponseShapeError::AccountNotString.message(),
        "Failed to parse tip account as string"
    );
}

#[test]
fn serializer_renders_scalars() {
    assert_eq!(JsonValue::Null.to_json_string(), "null");
    assert_eq!(JsonValue::Bool(true).to_json_string(), "true");
    assert_eq!(JsonValue::Bool(false).to_json_string(), "false");
    assert_eq!(JsonValue::Int(0).to_json_string(), "0");
    assert_eq!(JsonValue::Int(-123).to_json_string(), "-123");
    assert_eq!(
        JsonValue::Int(i64::MIN).to_json_string(),
        "-9223372036854775808"
    );
    assert_eq!(
        JsonValue::Int(i64::MAX).to_json_string(),
        "9223372036854775807"
    );
}

#[test]
fn serializer_escapes_strings() {
    assert_eq!(
        text("a\"b\\c\nd\re\tf").to_json_string(),
        "\"a\\\"b\\\\c\\nd\\re\\tf\""
    );
    assert_eq!(text("\u{1}").to_json_string(), "\"\\u0001\"");
    assert_eq!(text("\u{1f}").to_json_string(), "\"\\u001f\"");
    assert_eq!(text("plain").to_json_string(), "\"plain\"");
}

#[test]
fn serializer_renders_nested_values() {
    let value = object(vec![
        ("list", JsonValue::Array(vec![JsonValue::Int(1), text("two")])),
        ("empty", JsonValue::Array(Vec::new())),
        ("inner", object(vec![("ok", JsonValue::Bool(true))])),
    ]);
    assert_eq!(
        value.to_json_string(),
        "{\"list\":[1,\"two\"],\"empty\":[],\"inner\":{\"ok\":true}}"
    );
}

#[test]
fn object_lookup_finds_first_match() {
    let value = object(vec![("k", JsonValue::Int(1)), ("k", JsonValue::Int(2))]);
    assert_eq!(value.get("k"), Some(&JsonValue::Int(1)));
    assert_eq!(value.get("missing"), None);
    assert_eq!(JsonValue::Null.get("k"), None);
}

#[test]
fn prettify_wraps_the_value() {
    let wrapped = JitoJsonRpcSDK::prettify(JsonValue::Bool(true));
    assert_eq!(wrapped.0, JsonValue::Bool(true));
    let converted = PrettyJsonValue::from(JsonValue::Int(3));
    assert_eq!(converted.0, JsonValue::Int(3));
}

#[test]
fn single_address_mode_builds() {
    let sdk = JitoJsonRpcSDK::new("http://localhost:8899", None);
    assert_eq!(sdk.base_url, "http://localhost:8899");
    assert_eq!(sdk.uuid, None);
}

#[test]
fn request_body_with_params() {
    let params = JsonValue::Array(vec![JsonValue::Array(vec![text("id-1")])]);
    let body = JitoJsonRpcSDK::request_body("getBundleStatuses", Some(params));
    assert_eq!(
        body,
        "{\"jsonrpc\":\"2.0\",\"id\":1,\"method\":\"getBundleStatuses\",\"params\":[[\"id-1\"]]}"
    );
}

#[test]
fn uuid_batch_params_nest_the_ids() {
    let ids = vec!["a".to_string(), "b".to_string()];
    let params = JitoJsonRpcSDK::uuid_batch_params(&ids);
    assert_eq!(params.to_json_string(), "[[\"a\",\"b\"]]");
    let params = JitoJsonRpcSDK::uuid_batch_params(&Vec::new());
    assert_eq!(params.to_json_string(), "[[]]");
}
