//! The credential lifecycle: exchanging an authorization code, validating a
//! stored credential, and refreshing an expired one while keeping the
//! refresh token stable.

use vstd::prelude::*;
use vstd::string::StringExecFns;

use crate::errors::AuthError;

verus! {

/// An OAuth2 credential as issued by the provider and persisted locally.
#[derive(Debug, Clone, PartialEq, Eq)]
pub struct GoogleTokens {
    pub access_token: String,
    pub refresh_token: String,
    pub expires_in: i32,
    pub token_type: String,
}

/// The mathematical content of a credential.
pub ghost struct TokensV {
    pub access_token: Seq<char>,
    pub refresh_token: Seq<char>,
    pub expires_in: int,
    pub token_type: Seq<char>,
}

impl View for GoogleTokens {
    type V = TokensV;

    open spec fn view(&self) -> TokensV {
        TokensV {
            access_token: self.access_token@,
            refresh_token: self.refresh_token@,
            expires_in: self.expires_in as int,
            token_type: self.token_type@,
        }
    }
}

impl GoogleTokens {
    /// Renders the credential in its persisted form.
    pub fn to_json(&self) -> (r: String)
        ensures
            r@ == crate::json_text::tokens_record_text(
                self.access_token@,
                self.refresh_token@,
                self.expires_in as int,
                self.token_type@,
            ),
    {
        crate::json_text::tokens_record_json(
            self.access_token.as_str(),
            self.refresh_token.as_str(),
            self.expires_in,
            self.token_type.as_str(),
        )
    }
}

/// The client identity the provider issued to this application, supplied
/// once at startup.
#[derive(Debug, Clone)]
pub struct ClientIdentity {
    pub client_id: String,
    pub client_secret: String,
}

/// What a token-endpoint response body contains when it parses: the new
/// access token, the refresh token if one was echoed back, the expiry in
/// seconds, the token type, and whether a scope string was present.
pub ghost struct TokenGrantV {
    pub access_token: Seq<char>,
    pub refresh_token: Option<Seq<char>>,
    pub expires_in: int,
    pub token_type: Seq<char>,
    pub has_scope: bool,
}

/// Executable form of a parsed token-endpoint response.
pub struct TokenGrant {
    pub access_token: String,
    pub refresh_token: Option<String>,
    pub expires_in: i64,
    pub token_type: String,
    pub has_scope: bool,
}

impl View for TokenGrant {
    type V = TokenGrantV;

    open spec fn view(&self) -> TokenGrantV {
        TokenGrantV {
            access_token: self.access_token@,
            refresh_token: match self.refresh_token {
                Option::Some(ref t) => Option::Some(t@),
                Option::None => Option::None,
            },
            expires_in: self.expires_in as int,
            token_type: self.token_type@,
            has_scope: self.has_scope,
        }
    }
}

/// What the token grant of a given response body is, if the body is a JSON
/// object carrying the expected fields.
pub uninterp spec fn token_grant_of(s: Seq<char>) -> Option<TokenGrantV>;

/// Relies on serde_json::from_str::<Value> and the Value accessors `get`,
/// `as_str`, `as_i64` and `is_string`: reads the token grant fields out of a
/// JSON object, or nothing when the body is not such an object.
#[verifier::external_body]
pub(crate) fn parse_token_grant(s: &str) -> (r: Option<TokenGrant>)
    ensures
        r is Some <==> token_grant_of(s@) is Some,
        r matches Some(g) ==> token_grant_of(s@) == Some(g@),
{
    let v: serde_json::Value = serde_json::from_str(s).ok()?;
    Some(TokenGrant {
        access_token: v.get("access_token")?.as_str()?.to_string(),
        refresh_token: v.get("refresh_token").and_then(|t| t.as_str()).map(|t| t.to_string()),
        expires_in: v.get("expires_in")?.as_i64()?,
        token_type: v.get("token_type")?.as_str()?.to_string(),
        has_scope: v.get("scope").map_or(false, |t| t.is_string()),
    })
}

/// The provider's token endpoint.
pub fn token_endpoint() -> (r: String)
    ensures
        r@ == "https://oauth2.googleapis.com/token"@,
{
    String::from_str("https://oauth2.googleapis.com/token")
}

/// The form fields of the authorization-code grant.
pub fn exchange_request_form(identity: &ClientIdentity, code: &str, redirect_uri: &str) -> (r: Vec<
    (String, String),
>)
    ensures
        r@.len() == 5,
        r@[0].0@ == "client_id"@ && r@[0].1@ == identity.client_id@,
        r@[1].0@ == "client_secret"@ && r@[1].1@ == identity.client_secret@,
        r@[2].0@ == "code"@ && r@[2].1@ == code@,
        r@[3].0@ == "redirect_uri"@ && r@[3].1@ == redirect_uri@,
        r@[4].0@ == "grant_type"@ && r@[4].1@ == "authorization_code"@,
{
    let mut r: Vec<(String, String)> = Vec::new();
    r.push((String::from_str("client_id"), identity.client_id.clone()));
    r.push((String::from_str("client_secret"), identity.client_secret.clone()));
    r.push((String::from_str("code"), String::from_str(code)));
    r.push((String::from_str("redirect_uri"), String::from_str(redirect_uri)));
    r.push((String::from_str("grant_type"), String::from_str("authorization_code")));
    r
}

/// The form fields of the refresh-token grant.
pub fn refresh_request_form(identity: &ClientIdentity, refresh_token: &str) -> (r: Vec<
    (String, String),
>)
    ensures
        r@.len() == 4,
        r@[0].0@ == "client_id"@ && r@[0].1@ == identity.client_id@,
        r@[1].0@ == "client_secret"@ && r@[1].1@ == identity.client_secret@,
        r@[2].0@ == "refresh_token"@ && r@[2].1@ == refresh_token@,
        r@[3].0@ == "grant_type"@ && r@[3].1@ == "refresh_token"@,
{
    let mut r: Vec<(String, String)> = Vec::new();
    r.push((String::from_str("client_id"), identity.client_id.clone()));
    r.push((String::from_str("client_secret"), identity.client_secret.clone()));
    r.push((String::from_str("refresh_token"), String::from_str(refresh_token)));
    r.push((String::from_str("grant_type"), String::from_str("refresh_token")));
    r
}

/// The credential an authorization-code grant yields: every field must be
/// present, the refresh token included, and the expiry must fit the record.
pub open spec fn exchange_credential_spec(g: TokenGrantV) -> Result<TokensV, AuthError> {
    match g.refresh_token {
        Option::Some(rt) => {
            if i32::MIN <= g.expires_in <= i32::MAX {
                Result::Ok(
                    TokensV {
                        access_token: g.access_token,
                        refresh_token: rt,
                        expires_in: g.expires_in,
                        token_type: g.token_type,
                    },
                )
            } else {
                Result::Err(AuthError::Malformed)
            }
        },
        Option::None => Result::Err(AuthError::Malformed),
    }
}

/// Builds the credential of a parsed authorization-code grant.
pub fn credential_of_grant(g: TokenGrant) -> (r: Result<GoogleTokens, AuthError>)
    ensures
        match r {
            Result::Ok(t) => exchange_credential_spec(g@) == Result::<TokensV, AuthError>::Ok(t@),
            Result::Err(e) => exchange_credential_spec(g@) == Result::<TokensV, AuthError>::Err(e),
        },
{
    match g.refresh_token {
        Option::Some(rt) => {
            if i32::MIN as i64 <= g.expires_in && g.expires_in <= i32::MAX as i64 {
                Result::Ok(
                    GoogleTokens {
                        access_token: g.access_token,
                        refresh_token: rt,
                        expires_in: g.expires_in as i32,
                        token_type: g.token_type,
                    },
                )
            } else {
                Result::Err(AuthError::Malformed)
            }
        },
        Option::None => Result::Err(AuthError::Malformed),
    }
}

/// What exchanging an authorization code returns, given the transport's
/// answer: no response body is a network failure, a body without a full
/// grant is malformed, and a full grant becomes the credential.
pub open spec fn exchange_outcome_spec(response: Option<Seq<char>>) -> Result<TokensV, AuthError> {
    match response {
        Option::None => Result::Err(AuthError::Network),
        Option::Some(s) => match token_grant_of(s) {
            Option::None => Result::Err(AuthError::Malformed),
            Option::Some(g) => exchange_credential_spec(g),
        },
    }
}

/// Decides the result of the authorization-code exchange from the transport's
/// answer (`None` when the request or the reading of the body failed).
pub fn exchange_outcome(response: Option<String>) -> (r: Result<GoogleTokens, AuthError>)
    ensures
        match r {
            Result::Ok(t) => exchange_outcome_spec(view_opt(response)) == Result::<
                TokensV,
                AuthError,
            >::Ok(t@),
            Result::Err(e) => exchange_outcome_spec(view_opt(response)) == Result::<
                TokensV,
                AuthError,
            >::Err(e),
        },
{
    match response {
        Option::None => Result::Err(AuthError::Network),
        Option::Some(s) => match parse_token_grant(s.as_str()) {
            Option::None => Result::Err(AuthError::Malformed),
            Option::Some(g) => credential_of_grant(g),
        },
    }
}

/// The view of an optional string.
pub open spec fn view_opt(s: Option<String>) -> Option<Seq<char>> {
    match s {
        Option::Some(x) => Option::Some(x@),
        Option::None => Option::None,
    }
}

/// What loading the persisted credential yields: no record means the user
/// never authenticated; a record that does not parse into a credential is
/// malformed.
pub open spec fn stored_credential_spec(stored: Option<Seq<char>>) -> Result<TokensV, AuthError> {
    match stored {
        Option::None => Result::Err(AuthError::NotAuthenticated),
        Option::Some(s) => match token_grant_of(s) {
            Option::None => Result::Err(AuthError::Malformed),
            Option::Some(g) => exchange_credential_spec(g),
        },
    }
}

/// Decides what the persisted credential record holds (`None` when no record
/// exists on disk).
pub fn stored_credential_outcome(stored: Option<String>) -> (r: Result<GoogleTokens, AuthError>)
    ensures
        match r {
            Result::Ok(t) => stored_credential_spec(view_opt(stored)) == Result::<
                TokensV,
                AuthError,
            >::Ok(t@),
            Result::Err(e) => stored_credential_spec(view_opt(stored)) == Result::<
                TokensV,
                AuthError,
            >::Err(e),
        },
{
    match stored {
        Option::None => Result::Err(AuthError::NotAuthenticated),
        Option::Some(s) => match parse_token_grant(s.as_str()) {
            Option::None => Result::Err(AuthError::Malformed),
            Option::Some(g) => credential_of_grant(g),
        },
    }
}

/// The outcome of the liveness probe made with the stored access token.
#[derive(Clone, Copy, Debug, PartialEq, Eq, Structural)]
pub enum ProbeOutcome {
    /// The authenticated request answered with a success status.
    Success,
    /// The request failed in transport or answered with a non-success status.
    Failure,
}

/// What the validity check decides about a stored credential.
#[derive(Debug, Clone, PartialEq, Eq)]
pub enum CredentialCheck {
    /// The credential answered the probe and is used as it is.
    Valid(GoogleTokens),
    /// The probe failed; a refresh with this credential's refresh token is due.
    RefreshNeeded(GoogleTokens),
}

/// The validity decision: any probe failure, network or authorization alike,
/// asks for one refresh; a successful probe keeps the credential unchanged.
pub open spec fn probe_decision_spec(t: GoogleTokens, probe: ProbeOutcome) -> CredentialCheck {
    match probe {
        ProbeOutcome::Success => CredentialCheck::Valid(t),
        ProbeOutcome::Failure => CredentialCheck::RefreshNeeded(t),
    }
}

/// Decides from the probe's outcome whether the stored credential stands or
/// a refresh is due.
pub fn probe_decision(t: GoogleTokens, probe: ProbeOutcome) -> (r: CredentialCheck)
    ensures
        r == probe_decision_spec(t, probe),
{
    match probe {
        ProbeOutcome::Success => CredentialCheck::Valid(t),
        ProbeOutcome::Failure => CredentialCheck::RefreshNeeded(t),
    }
}

/// The credential a refresh grant rebuilds: the new access token, expiry and
/// token type are overlaid onto the refresh token the call was made with,
/// because the provider does not echo the refresh token back on this grant.
pub open spec fn refreshed_credential_spec(refresh_token: Seq<char>, g: TokenGrantV) -> Result<
    TokensV,
    AuthError,
> {
    if g.has_scope && i32::MIN <= g.expires_in <= i32::MAX {
        Result::Ok(
            TokensV {
                access_token: g.access_token,
                refresh_token: refresh_token,
                expires_in: g.expires_in,
                token_type: g.token_type,
            },
        )
    } else {
        Result::Err(AuthError::Malformed)
    }
}

/// What a refresh returns, given the transport's answer to the
/// refresh-token grant.
pub open spec fn refresh_outcome_spec(refresh_token: Seq<char>, response: Option<Seq<char>>) -> Result<
    TokensV,
    AuthError,
> {
    match response {
        Option::None => Result::Err(AuthError::Network),
        Option::Some(s) => match token_grant_of(s) {
            Option::None => Result::Err(AuthError::Malformed),
            Option::Some(g) => refreshed_credential_spec(refresh_token, g),
        },
    }
}

/// Decides the result of a refresh from the transport's answer, overlaying
/// the new fields onto the original refresh token.
pub fn refresh_outcome(refresh_token: String, response: Option<String>) -> (r: Result<
    GoogleTokens,
    AuthError,
>)
    ensures
        match r {
            Result::Ok(t) => refresh_outcome_spec(refresh_token@, view_opt(response)) == Result::<
                TokensV,
                AuthError,
            >::Ok(t@),
            Result::Err(e) => refresh_outcome_spec(refresh_token@, view_opt(response)) == Result::<
                TokensV,
                AuthError,
            >::Err(e),
        },
        r matches Result::Ok(t) ==> t.refresh_token@ == refresh_token@,
{
    match response {
        Option::None => Result::Err(AuthError::Network),
        Option::Some(s) => match parse_token_grant(s.as_str()) {
            Option::None => Result::Err(AuthError::Malformed),
            Option::Some(g) => {
                if g.has_scope && i32::MIN as i64 <= g.expires_in && g.expires_in
                    <= i32::MAX as i64 {
                    Result::Ok(
                        GoogleTokens {
                            access_token: g.access_token,
                            refresh_token: refresh_token,
                            expires_in: g.expires_in as i32,
                            token_type: g.token_type,
                        },
                    )
                } else {
                    Result::Err(AuthError::Malformed)
                }
            },
        },
    }
}

/// Refresh preserves refresh-token identity: whatever grant the provider
/// answers with, a credential rebuilt by a refresh carries the refresh token
/// the call was made with, even though the grant itself has none.
pub proof fn lemma_refresh_preserves_refresh_token(refresh_token: Seq<char>, g: TokenGrantV)
    ensures
        refreshed_credential_spec(refresh_token, g) matches Result::Ok(t) ==> t.refresh_token
            == refresh_token,
{
}

/// A credential fresh from a successful code exchange needs no refresh: with
/// its record just persisted and the liveness probe succeeding, the validity
/// check returns the very same credential, access token included, and never
/// asks for a refresh.
pub proof fn lemma_fresh_credential_needs_no_refresh(c: GoogleTokens)
    ensures
        probe_decision_spec(c, ProbeOutcome::Success) == CredentialCheck::Valid(c),
        probe_decision_spec(c, ProbeOutcome::Success) matches CredentialCheck::Valid(t)
            ==> t.access_token@ == c.access_token@,
        !(probe_decision_spec(c, ProbeOutcome::Success) is RefreshNeeded),
{
}

} // verus!
