use client_lib::login::error::{LoginError, StatusFault, TransportFailure, TransportStage};
use client_lib::login::request::{
    check_credential, check_server_connection, login_request, login_request_at, prepare_verify,
    probe_url, request_connection_server, verify_url, ConnectionVerdict,
};
use client_lib::login::response::{
    check_status, decode_document, judge_expiry, judge_response, judge_response_at, CardInfo,
    VerifyResponse,
};

const GRANTED_BODY: &str =
    r#"{"success":true,"card":{"status":"used","expiredAt":"2999-01-01T00:00:00Z"}}"#;

fn body(text: &str) -> Result<String, TransportFailure> {
    Ok(text.to_string())
}

fn response(status: &str, expired_at: Option<&str>, server_time: Option<i64>) -> VerifyResponse {
    VerifyResponse {
        success: true,
        error: None,
        card: Some(CardInfo {
            status: status.to_string(),
            expired_at: expired_at.map(|text| text.to_string()),
        }),
        server_time,
    }
}

#[test]
fn valid_key_is_granted_until_its_expiry() {
    let result = login_request_at("VALID1", "abc123", body(GRANTED_BODY), 1_700_000_000);
    assert_eq!(result, Ok((true, 32472144000)));
    let a_year_later =
        r#"{"success":true,"card":{"status":"used","expiredAt":"3000-01-01T00:00:00Z"}}"#;
    let result = login_request_at("VALID1", "abc123", body(a_year_later), 1_700_000_000);
    assert_eq!(result, Ok((true, 32503680000)));
}

#[test]
fn valid_key_is_granted_by_the_local_clock() {
    let result = login_request("VALID1", "abc123", body(GRANTED_BODY));
    assert_eq!(result, Ok((true, 32472144000)));
}

#[test]
fn refusal_carries_the_servers_message() {
    let result = login_request(
        "VALID1",
        "abc123",
        body(r#"{"success":false,"error":"bad key"}"#),
    );
    assert_eq!(result, Err(LoginError::Rejected("bad key".to_string())));
    assert_eq!(result.unwrap_err().message(), "bad key");
}

#[test]
fn refusal_without_message_gets_the_default() {
    let result = login_request("VALID1", "abc123", body(r#"{"success":false}"#));
    assert_eq!(result, Err(LoginError::Rejected("验证失败".to_string())));
    let result = login_request("VALID1", "abc123", body(r#"{"error":null}"#));
    assert_eq!(result, Err(LoginError::Rejected("验证失败".to_string())));
}

#[test]
fn expired_card_is_refused_with_its_own_fault() {
    let result = login_request(
        "VALID1",
        "abc123",
        body(r#"{"success":true,"card":{"status":"expired"}}"#),
    );
    assert_eq!(result, Err(LoginError::InvalidStatus(StatusFault::Expired)));
    assert_eq!(result.unwrap_err().message(), "卡密已过期");
}

#[test]
fn unused_card_is_refused_whatever_its_expiry() {
    let with_expiry = login_request_at(
        "VALID1",
        "abc123",
        body(r#"{"success":true,"card":{"status":"unused","expiredAt":"2999-01-01T00:00:00Z"}}"#),
        0,
    );
    assert_eq!(with_expiry, Err(LoginError::InvalidStatus(StatusFault::Unused)));
    let without = login_request_at(
        "VALID1",
        "abc123",
        body(r#"{"success":true,"card":{"status":"unused"}}"#),
        0,
    );
    assert_eq!(without, Err(LoginError::InvalidStatus(StatusFault::Unused)));
    assert_eq!(without.unwrap_err().message(), "卡密未使用");
    let expired = login_request_at(
        "VALID1",
        "abc123",
        body(r#"{"success":true,"card":{"status":"expired","expiredAt":"2999-01-01T00:00:00Z"}}"#),
        0,
    );
    assert_eq!(expired, Err(LoginError::InvalidStatus(StatusFault::Expired)));
    assert_ne!(with_expiry, expired);
}

#[test]
fn unknown_status_is_invalid() {
    let result = login_request_at(
        "VALID1",
        "abc123",
        body(r#"{"success":true,"card":{"status":"revoked","expiredAt":"2999-01-01T00:00:00Z"}}"#),
        0,
    );
    assert_eq!(result, Err(LoginError::InvalidStatus(StatusFault::Unknown)));
    assert_eq!(result.unwrap_err().message(), "卡密状态无效");
    assert_eq!(check_status("Used"), Err(StatusFault::Unknown));
    assert_eq!(check_status(""), Err(StatusFault::Unknown));
    assert_eq!(check_status("used"), Ok(()));
    assert_eq!(check_status("unused"), Err(StatusFault::Unused));
    assert_eq!(check_status("expired"), Err(StatusFault::Expired));
}

#[test]
fn empty_key_is_refused_before_anything_else() {
    assert_eq!(check_credential(""), Err(LoginError::EmptyCredential));
    assert_eq!(check_credential("k"), Ok(()));
    assert_eq!(
        prepare_verify("", "abc123", "http://localhost:3000"),
        Err(LoginError::EmptyCredential)
    );
    assert_eq!(prepare_verify("", "", "http://localhost:3000"), Err(LoginError::EmptyCredential));
    let result = login_request("", "abc123", body(GRANTED_BODY));
    assert_eq!(result, Err(LoginError::EmptyCredential));
    let result = login_request("", "", body("not json"));
    assert_eq!(result, Err(LoginError::EmptyCredential));
    assert_eq!(result.unwrap_err().message(), "卡密不能为空");
}

#[test]
fn empty_fingerprint_blocks_the_call() {
    assert_eq!(
        prepare_verify("VALID1", "", "http://localhost:3000"),
        Err(LoginError::HardwareIdUnavailable)
    );
    let result = login_request("VALID1", "", body(GRANTED_BODY));
    assert_eq!(result, Err(LoginError::HardwareIdUnavailable));
    assert_eq!(result.unwrap_err().message(), "无法获取硬件ID");
}

#[test]
fn verification_call_is_built_from_key_and_fingerprint() {
    let call = prepare_verify("VALID1", "abc123", "http://localhost:3000").unwrap();
    assert_eq!(call.url, "http://localhost:3000/api/cards/verify");
    assert_eq!(call.body.key, "VALID1");
    assert_eq!(call.body.hwid, "abc123");
    assert_eq!(verify_url("https://auth.example"), "https://auth.example/api/cards/verify");
    assert_eq!(probe_url("https://auth.example"), "https://auth.example/api");
}

#[test]
fn transport_failure_is_a_network_error() {
    let stages = [
        (TransportStage::ClientSetup, "创建HTTP客户端失败: boom"),
        (TransportStage::Request, "网络请求失败: boom"),
        (TransportStage::ResponseBody, "读取响应失败: boom"),
    ];
    for (stage, message) in stages {
        let failure = TransportFailure { stage, detail: "boom".to_string() };
        let result = login_request("VALID1", "abc123", Err(failure.clone()));
        assert_eq!(result, Err(LoginError::NetworkError(failure)));
        assert_eq!(result.unwrap_err().message(), message);
    }
}

#[test]
fn malformed_bodies_are_refused() {
    let bodies = [
        "",
        "not json",
        "{\"success\":true",
        "[]",
        "42",
        "\"text\"",
        "null",
        r#"{"success":"yes"}"#,
        r#"{"success":null}"#,
        r#"{"success":false,"error":7}"#,
        r#"{"success":true,"card":7}"#,
        r#"{"success":true,"card":[]}"#,
        r#"{"success":true,"card":{}}"#,
        r#"{"success":true,"card":{"status":1}}"#,
        r#"{"success":true,"card":{"status":"used","expiredAt":5}}"#,
        r#"{"success":true,"card":{"status":"used"},"serverTime":"now"}"#,
        r#"{"success":true,"card":{"status":"used"},"serverTime":1.5}"#,
    ];
    for text in bodies {
        let result = login_request_at("VALID1", "abc123", body(text), 0);
        assert_eq!(result, Err(LoginError::ResponseMalformed), "body: {}", text);
    }
    assert_eq!(LoginError::ResponseMalformed.message(), "响应解析失败");
}

#[test]
fn granted_without_card_is_a_protocol_violation() {
    let result = login_request("VALID1", "abc123", body(r#"{"success":true}"#));
    assert_eq!(result, Err(LoginError::MissingCardInfo));
    let result = login_request("VALID1", "abc123", body(r#"{"success":true,"card":null}"#));
    assert_eq!(result, Err(LoginError::MissingCardInfo));
    assert_eq!(result.unwrap_err().message(), "服务器未返回卡密信息");
}

#[test]
fn card_without_expiry_is_refused() {
    let result = login_request("VALID1", "abc123", body(r#"{"success":true,"card":{"status":"used"}}"#));
    assert_eq!(result, Err(LoginError::MissingExpiry));
    let result = login_request(
        "VALID1",
        "abc123",
        body(r#"{"success":true,"card":{"status":"used","expiredAt":null}}"#),
    );
    assert_eq!(result, Err(LoginError::MissingExpiry));
    assert_eq!(result.unwrap_err().message(), "服务器未返回过期时间");
}

#[test]
fn unparseable_expiry_is_refused() {
    for text in ["", "tomorrow", "2999-01-01", "2999-13-01T00:00:00Z", "32503680000"] {
        let result = judge_response_at(&response("used", Some(text), None), 0);
        assert_eq!(result, Err(LoginError::ExpiryUnparseable), "expiry: {}", text);
    }
    assert_eq!(LoginError::ExpiryUnparseable.message(), "解析过期时间失败");
}

#[test]
fn expiry_is_read_as_rfc3339() {
    let cases = [
        ("1970-01-01T00:00:00Z", 0),
        ("1970-01-01T00:00:01+00:00", 1),
        ("2001-09-09T01:46:40Z", 1_000_000_000),
        ("2001-09-09T03:46:40+02:00", 1_000_000_000),
        ("2999-01-01T00:00:00Z", 32_472_144_000),
        ("2999-01-01T00:00:00.999Z", 32_472_144_000),
        ("2999-12-31T23:59:59Z", 32_503_679_999),
        ("3000-01-01T00:00:00Z", 32_503_680_000),
    ];
    for (text, expected) in cases {
        let result = judge_response_at(&response("used", Some(text), None), -1);
        assert_eq!(result, Ok((true, expected)), "expiry: {}", text);
    }
}

#[test]
fn past_expiry_is_already_expired() {
    let result = login_request(
        "VALID1",
        "abc123",
        body(r#"{"success":true,"card":{"status":"used","expiredAt":"2001-09-09T01:46:40Z"}}"#),
    );
    assert_eq!(result, Err(LoginError::AlreadyExpired));
    assert_eq!(result.unwrap_err().message(), "会话已过期，请重新登录");
}

#[test]
fn expiry_boundary_is_strict() {
    let card = response("used", Some("2001-09-09T01:46:40Z"), None);
    assert_eq!(judge_response_at(&card, 999_999_999), Ok((true, 1_000_000_000)));
    assert_eq!(judge_response_at(&card, 1_000_000_000), Err(LoginError::AlreadyExpired));
    assert_eq!(judge_response_at(&card, 1_000_000_001), Err(LoginError::AlreadyExpired));
    assert_eq!(judge_expiry(Some(10), 9), Ok((true, 10)));
    assert_eq!(judge_expiry(Some(10), 10), Err(LoginError::AlreadyExpired));
    assert_eq!(judge_expiry(None, 0), Err(LoginError::ExpiryUnparseable));
}

#[test]
fn server_time_takes_precedence_over_the_local_clock() {
    let text = r#"{"success":true,"card":{"status":"used","expiredAt":"2001-09-09T01:46:40Z"},"serverTime":2000000000}"#;
    let result = login_request_at("VALID1", "abc123", body(text), 500_000_000);
    assert_eq!(result, Err(LoginError::AlreadyExpired));
    let text = r#"{"success":true,"card":{"status":"used","expiredAt":"2001-09-09T01:46:40Z"},"serverTime":500000000}"#;
    let result = login_request_at("VALID1", "abc123", body(text), 2_000_000_000);
    assert_eq!(result, Ok((true, 1_000_000_000)));
    let result = login_request("VALID1", "abc123", body(text));
    assert_eq!(result, Ok((true, 1_000_000_000)));
    let text = r#"{"success":true,"card":{"status":"used","expiredAt":"2001-09-09T01:46:40Z"},"serverTime":null}"#;
    let result = login_request_at("VALID1", "abc123", body(text), 500_000_000);
    assert_eq!(result, Ok((true, 1_000_000_000)));
}

#[test]
fn response_judged_by_the_local_clock() {
    let live = response("used", Some("2999-01-01T00:00:00Z"), None);
    assert_eq!(judge_response(&live), Ok((true, 32_472_144_000)));
    let stale = response("used", Some("2001-09-09T01:46:40Z"), None);
    assert_eq!(judge_response(&stale), Err(LoginError::AlreadyExpired));
    let pinned = response("used", Some("2001-09-09T01:46:40Z"), Some(0));
    assert_eq!(judge_response(&pinned), Ok((true, 1_000_000_000)));
}

#[test]
fn document_is_decoded_field_by_field() {
    let document: serde_json::Value = serde_json::from_str(
        r#"{"success":true,"message":"ok","error":"e","card":{"id":7,"key":"K","status":"used","expiredAt":"2999-01-01T00:00:00Z","hwid":null},"serverTime":-5}"#,
    )
    .unwrap();
    let decoded = decode_document(&document).unwrap();
    assert_eq!(
        decoded,
        VerifyResponse {
            success: true,
            error: Some("e".to_string()),
            card: Some(CardInfo {
                status: "used".to_string(),
                expired_at: Some("2999-01-01T00:00:00Z".to_string()),
            }),
            server_time: Some(-5),
        }
    );
    let empty: serde_json::Value = serde_json::from_str("{}").unwrap();
    assert_eq!(
        decode_document(&empty),
        Ok(VerifyResponse { success: false, error: None, card: None, server_time: None })
    );
    let list: serde_json::Value = serde_json::from_str("[true]").unwrap();
    assert_eq!(decode_document(&list), Err(LoginError::ResponseMalformed));
    let big: serde_json::Value =
        serde_json::from_str(r#"{"serverTime":18446744073709551615}"#).unwrap();
    assert_eq!(decode_document(&big), Err(LoginError::ResponseMalformed));
}

#[test]
fn connection_probe_verdicts() {
    assert_eq!(request_connection_server(true, true), ConnectionVerdict::Connected);
    assert_eq!(request_connection_server(true, false), ConnectionVerdict::Connected);
    assert_eq!(request_connection_server(false, true), ConnectionVerdict::Unreachable);
    assert_eq!(request_connection_server(false, false), ConnectionVerdict::Terminate);
    assert_eq!(check_server_connection(false, false), ConnectionVerdict::Terminate);
    assert_eq!(check_server_connection(true, false), ConnectionVerdict::Connected);
}
