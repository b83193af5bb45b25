use cloudtray::credential::{
    exchange_outcome, exchange_request_form, probe_decision, refresh_outcome, refresh_request_form,
    stored_credential_outcome, token_endpoint, ClientIdentity, CredentialCheck, GoogleTokens,
    ProbeOutcome,
};
use cloudtray::errors::AuthError;

fn identity() -> ClientIdentity {
    ClientIdentity {
        client_id: "id-123".to_string(),
        client_secret: "cs-456".to_string(),
    }
}

#[test]
fn exchange_parses_full_grant() {
    let body = r#"{"access_token":"at-1","refresh_token":"rt-1","expires_in":3599,"scope":"drive","token_type":"Bearer"}"#;
    let t = exchange_outcome(Some(body.to_string())).unwrap();
    assert_eq!(t.access_token, "at-1");
    assert_eq!(t.refresh_token, "rt-1");
    assert_eq!(t.expires_in, 3599);
    assert_eq!(t.token_type, "Bearer");
}

#[test]
fn exchange_without_response_is_network_error() {
    assert_eq!(exchange_outcome(None), Err(AuthError::Network));
}

#[test]
fn exchange_with_unparseable_body_is_malformed() {
    assert_eq!(
        exchange_outcome(Some("not json".to_string())),
        Err(AuthError::Malformed)
    );
    assert_eq!(
        exchange_outcome(Some(r#"{"error":"invalid_grant"}"#.to_string())),
        Err(AuthError::Malformed)
    );
}

#[test]
fn exchange_without_refresh_token_is_malformed() {
    let body = r#"{"access_token":"at-1","expires_in":3599,"scope":"drive","token_type":"Bearer"}"#;
    assert_eq!(exchange_outcome(Some(body.to_string())), Err(AuthError::Malformed));
}

#[test]
fn exchange_with_huge_expiry_is_malformed() {
    let body = r#"{"access_token":"a","refresh_token":"r","expires_in":4294967296,"token_type":"Bearer"}"#;
    assert_eq!(exchange_outcome(Some(body.to_string())), Err(AuthError::Malformed));
}

#[test]
fn refresh_preserves_refresh_token() {
    // The provider's refresh answer carries no refresh_token field.
    let body = r#"{"access_token":"at-2","expires_in":3599,"scope":"drive","token_type":"Bearer"}"#;
    let t = refresh_outcome("rt-original".to_string(), Some(body.to_string())).unwrap();
    assert_eq!(t.refresh_token, "rt-original");
    assert_eq!(t.access_token, "at-2");
    assert_eq!(t.expires_in, 3599);
    assert_eq!(t.token_type, "Bearer");
}

#[test]
fn refresh_without_scope_is_malformed() {
    let body = r#"{"access_token":"at-2","expires_in":3599,"token_type":"Bearer"}"#;
    assert_eq!(
        refresh_outcome("rt".to_string(), Some(body.to_string())),
        Err(AuthError::Malformed)
    );
}

#[test]
fn refresh_without_response_is_network_error() {
    assert_eq!(refresh_outcome("rt".to_string(), None), Err(AuthError::Network));
}

#[test]
fn missing_record_means_not_authenticated() {
    assert_eq!(stored_credential_outcome(None), Err(AuthError::NotAuthenticated));
}

#[test]
fn corrupt_record_is_malformed() {
    assert_eq!(
        stored_credential_outcome(Some("{}".to_string())),
        Err(AuthError::Malformed)
    );
}

#[test]
fn exchange_then_validation_returns_same_access_token() {
    // A fresh exchange, persisted and loaded back, passes the probe untouched.
    let body = r#"{"access_token":"at-fresh","refresh_token":"rt-keep","expires_in":3599,"token_type":"Bearer"}"#;
    let t = exchange_outcome(Some(body.to_string())).unwrap();
    let persisted = t.to_json();
    let loaded = stored_credential_outcome(Some(persisted)).unwrap();
    assert_eq!(loaded.access_token, "at-fresh");
    match probe_decision(loaded, ProbeOutcome::Success) {
        CredentialCheck::Valid(v) => assert_eq!(v.access_token, "at-fresh"),
        CredentialCheck::RefreshNeeded(_) => panic!("a successful probe must not refresh"),
    }
}

#[test]
fn failed_probe_asks_for_one_refresh() {
    let t = GoogleTokens {
        access_token: "stale".to_string(),
        refresh_token: "rt-9".to_string(),
        expires_in: 0,
        token_type: "Bearer".to_string(),
    };
    match probe_decision(t, ProbeOutcome::Failure) {
        CredentialCheck::RefreshNeeded(t) => assert_eq!(t.refresh_token, "rt-9"),
        CredentialCheck::Valid(_) => panic!("a failed probe must refresh"),
    }
}

#[test]
fn exchange_form_fields() {
    let f = exchange_request_form(&identity(), "code-7", "http://localhost:1234/cb");
    let f: Vec<(String, String)> = f;
    assert_eq!(f.len(), 5);
    assert_eq!(f[0], ("client_id".to_string(), "id-123".to_string()));
    assert_eq!(f[1].0, "client_secret");
    assert_eq!(f[2], ("code".to_string(), "code-7".to_string()));
    assert_eq!(
        f[3],
        ("redirect_uri".to_string(), "http://localhost:1234/cb".to_string())
    );
    assert_eq!(f[4], ("grant_type".to_string(), "authorization_code".to_string()));
}

#[test]
fn refresh_form_fields() {
    let f = refresh_request_form(&identity(), "rt-1");
    assert_eq!(f.len(), 4);
    assert_eq!(f[2], ("refresh_token".to_string(), "rt-1".to_string()));
    assert_eq!(f[3], ("grant_type".to_string(), "refresh_token".to_string()));
}

#[test]
fn token_endpoint_url() {
    assert_eq!(token_endpoint(), "https://oauth2.googleapis.com/token");
}

#[test]
fn tokens_record_layout() {
    let t = GoogleTokens {
        access_token: "a\"b".to_string(),
        refresh_token: "r".to_string(),
        expires_in: 3599,
        token_type: "Bearer".to_string(),
    };
    let expected = "{\n  \"access_token\": \"a\\\"b\",\n  \"refresh_token\": \"r\",\n  \"expires_in\": 3599,\n  \"token_type\": \"Bearer\"\n}";
    assert_eq!(t.to_json(), expected);
}
