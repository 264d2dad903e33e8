//! Authentication strategies: how a bearer token for the remote service is
//! obtained. The HTTP exchange itself lives with the caller; this module owns
//! the strategy data, the token endpoint's location, and what counts as a
//! token in the service's response.

use vstd::prelude::*;
use vstd::string::StringExecFns;

verus! {

#[verifier::external_type_specification]
#[verifier::external_body]
pub struct ExJsonValue(serde_json::Value);

/// An authentication strategy yields a bearer token or says why it cannot.
pub trait AuthStrategy {
    /// Performs authentication and returns a bearer token.
    fn authenticate(&self) -> Result<String, AuthError>;
}

/// Why authentication failed.
#[derive(Debug)]
pub enum AuthError {
    /// A required environment variable is not set.
    MissingEnvironmentVariables(String),
    /// The token exchange ran and was refused, or its response was unusable.
    AuthenticationFailed(String),
    /// No authentication strategy applies to the configuration.
    NotImplemented(String),
}

/// Client-credential authentication against the service's token endpoint.
pub struct ClientSecretAuth {
    server_base_url: String,
    client_id: String,
    client_secret: String,
}

impl View for ClientSecretAuth {
    type V = (Seq<char>, Seq<char>, Seq<char>);

    closed spec fn view(&self) -> (Seq<char>, Seq<char>, Seq<char>) {
        (self.server_base_url@, self.client_id@, self.client_secret@)
    }
}

impl ClientSecretAuth {
    /// Records the server base URL and the client credentials.
    pub fn new(server_base_url: &str, client_id: &str, client_secret: &str) -> (r: Self)
        ensures
            r@ == (server_base_url@, client_id@, client_secret@),
    {
        ClientSecretAuth {
            server_base_url: server_base_url.to_owned(),
            client_id: client_id.to_owned(),
            client_secret: client_secret.to_owned(),
        }
    }

    /// Where the token exchange goes: the token endpoint under the recorded
    /// server base URL.
    pub fn token_url(&self) -> (r: String)
        ensures
            r@ == self@.0 + "/o/token/"@,
    {
        let mut url = self.server_base_url.clone();
        url.append("/o/token/");
        url
    }

    /// The client identifier, for building the exchange's form body.
    pub fn client_id(&self) -> (r: &String)
        ensures
            r@ == self@.1,
    {
        &self.client_id
    }

    /// The client secret, for building the exchange's form body.
    pub fn client_secret(&self) -> (r: &String)
        ensures
            r@ == self@.2,
    {
        &self.client_secret
    }
}

/// Decides the authentication strategy from the credential values the caller
/// read from the environment: both set, client-secret authentication with
/// exactly those credentials; only the identifier set, the missing-secret
/// failure; no identifier, no strategy applies.
pub fn select_client_credentials(client_id: Option<String>, client_secret: Option<String>) -> (r:
    Result<(String, String), AuthError>)
    ensures
        match (client_id, client_secret) {
            (Some(id), Some(secret)) => r matches Ok(c) && c.0 == id && c.1 == secret,
            (Some(_), None) => r matches Err(e) && e is MissingEnvironmentVariables,
            (None, _) => r matches Err(e) && e is NotImplemented,
        },
{
    match (client_id, client_secret) {
        (Some(id), Some(secret)) => Ok((id, secret)),
        (Some(_), None) => Err(
            AuthError::MissingEnvironmentVariables("CORPORA_CLIENT_SECRET is missing".to_owned()),
        ),
        (None, _) => Err(
            AuthError::NotImplemented("No valid authentication strategy found.".to_owned()),
        ),
    }
}

/// Relies on serde_json's `Value::get` and `Value::as_str`: yields the string
/// under `key` when the value is an object binding `key` to a string, and
/// `None` otherwise.
#[verifier::external_body]
fn json_str_field(v: &serde_json::Value, key: &str) -> (r: Option<String>) {
    v.get(key).and_then(|f| f.as_str()).map(|s| s.to_string())
}

/// Decides the authentication result from the token field of the service's
/// response: the token exactly when one was present, otherwise the failure.
pub fn token_from_field(token: Option<String>) -> (r: Result<String, AuthError>)
    ensures
        match token {
            Some(t) => r matches Ok(t2) && t2 == t,
            None => r matches Err(e) && e is AuthenticationFailed,
        },
{
    match token {
        Some(t) => Ok(t),
        None => Err(
            AuthError::AuthenticationFailed("Access token not found in response".to_owned()),
        ),
    }
}

/// Pulls the bearer token out of a parsed token-endpoint response: the
/// response's `access_token` string, or an authentication failure when the
/// response carries none.
pub fn extract_access_token(response: &serde_json::Value) -> (r: Result<String, AuthError>)
    ensures
        r is Err ==> r->Err_0 is AuthenticationFailed,
{
    token_from_field(json_str_field(response, "access_token"))
}

} // verus!
