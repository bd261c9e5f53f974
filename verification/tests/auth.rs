//! Credentials for Codex.

use base64::engine::general_purpose::URL_SAFE_NO_PAD;
use base64::Engine;
use grok_build_proxy::auth::{
    apply_refresh, credentials_from_tokens, jwt_claims, plan_access, refresh_refused, session_of,
    tokens_of, Access,
};
use grok_build_proxy::json;
use serde_json::Value;

const NOW_MS: u64 = 1_800_000_000_000;

fn test_jwt(exp: i64, account: &str) -> String {
    let claims = format!(
        r#"{{"exp":{exp},"https://api.openai.com/auth":{{"chatgpt_account_id":"{account}"}}}}"#
    );
    format!("x.{}.x", URL_SAFE_NO_PAD.encode(claims))
}

#[test]
fn refreshes_and_preserves_unknown_fields() {
    let old = test_jwt(1, "old");
    let doc = json::parse(&format!(
        r#"{{"unknown":"keep","tokens":{{"access_token":"{old}","refresh_token":"refresh","token_extra":7}}}}"#
    ));
    let tokens = tokens_of(&doc).unwrap();
    let (credentials, refresh) = credentials_from_tokens(&tokens).unwrap();
    assert_eq!(credentials.account_id, "old");
    assert_eq!(credentials.expires_at, Some(1_000));
    match plan_access(credentials, refresh, false, NOW_MS).unwrap() {
        Access::Refresh(token) => assert_eq!(token, "refresh"),
        Access::Use(_) => panic!("used though ended"),
    }
    let fresh = test_jwt(1_893_456_000, "new-account");
    let refreshed =
        apply_refresh(doc.unwrap(), tokens, &fresh, "rotated", "", "2027-01-01T00:00:00Z")
            .unwrap();
    let (credentials, refresh) = credentials_from_tokens(&refreshed.tokens).unwrap();
    assert_eq!(credentials.account_id, "new-account");
    assert_eq!(refresh, "rotated");
    let saved: Value = serde_json::from_str(&refreshed.doc.encode()).unwrap();
    assert_eq!(saved["unknown"], "keep");
    assert_eq!(saved["tokens"]["token_extra"], 7);
    assert_eq!(saved["tokens"]["refresh_token"], "rotated");
    let session = session_of(&refreshed.doc, credentials, &refresh);
    assert_eq!(session.auth_mode, "chatgpt");
    assert!(session.has_refresh_token);
    assert_eq!(session.last_refresh, Some((1_798_761_600, 0)));
}

#[test]
fn lasting_credentials_are_used_as_they_are() {
    let token = test_jwt(1_893_456_000, "a");
    let tokens = json::parse(&format!(r#"{{"access_token":"{token}"}}"#)).unwrap();
    let (credentials, refresh) = credentials_from_tokens(&tokens).unwrap();
    match plan_access(credentials, refresh, false, NOW_MS).unwrap() {
        Access::Use(c) => assert_eq!(c.access_token, token),
        Access::Refresh(_) => panic!("refreshed"),
    }
    let (credentials, refresh) = credentials_from_tokens(&tokens).unwrap();
    assert!(plan_access(credentials, refresh, true, NOW_MS).is_err());
    assert!(tokens_of(&None).is_err());
    assert!(tokens_of(&json::parse("{}")).is_err());
    assert!(credentials_from_tokens(&json::parse("{}").unwrap()).is_err());
    assert!(refresh_refused(401).contains("401"));
}

#[test]
fn claims_are_read_from_tokens() {
    let claims = jwt_claims(&test_jwt(7, "me")).unwrap();
    assert_eq!(claims.get("exp").unwrap().as_i64(), Some(7));
    assert!(jwt_claims("no token").is_none());
    assert!(jwt_claims("a.%%%.c").is_none());
}

#[test]
fn refresh_times_are_read_from_the_document() {
    let token = test_jwt(1_893_456_000, "a");
    let tokens = json::parse(&format!(r#"{{"access_token":"{token}"}}"#)).unwrap();
    let read = |doc: &str| {
        let (credentials, refresh) = credentials_from_tokens(&tokens).unwrap();
        session_of(&json::parse(doc).unwrap(), credentials, &refresh).last_refresh
    };
    assert_eq!(read(r#"{"last_refresh":"1970-01-01T01:00:02.5+01:00"}"#), Some((2, 500_000_000)));
    assert_eq!(read(r#"{"last_refresh":"yesterday"}"#), None);
    assert_eq!(read(r#"{"last_refresh":7}"#), None);
    assert_eq!(read("{}"), None);
}
