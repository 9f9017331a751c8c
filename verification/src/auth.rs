//! Signing in: the token endpoint, and what its answer means.

use vstd::prelude::*;
use vstd::string::StringExecFns;

verus! {

/// The name under which tokens are kept in the operating system's keyring.
pub const SERVICE_NAME: &'static str = "io.gitify.app";

/// The host of the official GitHub App.
pub const GITHUB_HOST: &'static str = "github.com";

// Store for managing token encryption
#[derive(Debug, Clone, Copy, PartialEq, Eq, Structural)]
pub struct TokenStore;

impl TokenStore {
    pub fn new() -> (store: TokenStore)
        ensures
            store == TokenStore,
    {
        TokenStore
    }
}

/// Response from GitHub OAuth token exchange
#[derive(Debug, Clone, PartialEq, Eq)]
pub struct OAuthTokenResponse {
    pub access_token: Option<String>,
    pub token_type: Option<String>,
    pub scope: Option<String>,
    pub error: Option<String>,
    pub error_description: Option<String>,
    pub error_uri: Option<String>,
}

/// What an [`OAuthTokenResponse`] is, mathematically.
pub struct TokenAnswer {
    pub access_token: Option<Seq<char>>,
    pub token_type: Option<Seq<char>>,
    pub scope: Option<Seq<char>>,
    pub error: Option<Seq<char>>,
    pub error_description: Option<Seq<char>>,
    pub error_uri: Option<Seq<char>>,
}

impl View for OAuthTokenResponse {
    type V = TokenAnswer;

    open spec fn view(&self) -> TokenAnswer {
        TokenAnswer {
            access_token: self.access_token.deep_view(),
            token_type: self.token_type.deep_view(),
            scope: self.scope.deep_view(),
            error: self.error.deep_view(),
            error_description: self.error_description.deep_view(),
            error_uri: self.error_uri.deep_view(),
        }
    }
}

impl TokenAnswer {
    /// The words that report the error `error`, described by `description`
    /// where the server described it.
    pub open spec fn error_message(error: Seq<char>, description: Option<Seq<char>>) -> Seq<char> {
        "OAuth error: "@ + error + " - "@ + match description {
            Some(description) => description,
            None => "Unknown error"@,
        }
    }

    /// What the answer comes to: an error that it names goes first; then the
    /// access token; an answer with neither is a failure too.
    pub open spec fn token(self) -> Result<Seq<char>, Seq<char>> {
        match self.error {
            Some(error) => Err(TokenAnswer::error_message(error, self.error_description)),
            None => match self.access_token {
                Some(token) => Ok(token),
                None => Err("No access token in response"@),
            },
        }
    }
}

/// What a result that holds texts is, mathematically.
pub open spec fn text_result(result: Result<String, String>) -> Result<Seq<char>, Seq<char>> {
    match result {
        Ok(text) => Ok(text@),
        Err(message) => Err(message@),
    }
}

impl OAuthTokenResponse {
    /// Reads the access token out of the answer, or the message of the failure
    /// that the answer reports.
    pub fn into_token(self) -> (token: Result<String, String>)
        ensures
            text_result(token) == self@.token(),
    {
        match self.error {
            Some(error) => {
                let message = String::from_str("OAuth error: ").concat(error.as_str()).concat(
                    " - ",
                );
                Err(
                    match self.error_description {
                        Some(description) => message.concat(description.as_str()),
                        None => message.concat("Unknown error"),
                    },
                )
            },
            None => match self.access_token {
                Some(token) => Ok(token),
                None => Err(String::from_str("No access token in response")),
            },
        }
    }
}

/// The address at which `hostname` exchanges an authorization code for a token.
pub fn token_endpoint(hostname: &str) -> (url: String)
    ensures
        url@ == "https://"@ + hostname@ + "/login/oauth/access_token"@,
{
    String::from_str("https://").concat(hostname).concat("/login/oauth/access_token")
}

/// The credentials of the official GitHub App, as far as the build holds them.
pub open spec fn app_credentials(client_id: Option<Seq<char>>, client_secret: Option<Seq<char>>) -> Result<
    (Seq<char>, Seq<char>),
    Seq<char>,
> {
    match client_id {
        None => Err("GitHub App client ID not configured"@),
        Some(id) => match client_secret {
            None => Err("GitHub App client secret not configured"@),
            Some(secret) => Ok((id, secret)),
        },
    }
}

/// What a result of [`github_app_credentials`] is, mathematically.
pub open spec fn credentials_view(credentials: Result<(String, String), String>) -> Result<
    (Seq<char>, Seq<char>),
    Seq<char>,
> {
    match credentials {
        Ok((id, secret)) => Ok((id@, secret@)),
        Err(message) => Err(message@),
    }
}

/// The client ID and secret of the official GitHub App, or the message that
/// says which of the two the build lacks; the ID is asked for first.
pub fn github_app_credentials(client_id: Option<&str>, client_secret: Option<&str>) -> (credentials:
    Result<(String, String), String>)
    ensures
        credentials_view(credentials) == app_credentials(
            client_id.deep_view(),
            client_secret.deep_view(),
        ),
{
    match client_id {
        None => Err(String::from_str("GitHub App client ID not configured")),
        Some(id) => match client_secret {
            None => Err(String::from_str("GitHub App client secret not configured")),
            Some(secret) => Ok((String::from_str(id), String::from_str(secret))),
        },
    }
}

/// The client ID of the official GitHub App, which is public, or the message
/// that says that the build lacks it.
pub fn get_github_app_client_id(client_id: Option<&str>) -> (id: Result<String, String>)
    ensures
        text_result(id) == match client_id {
            Some(id) => Ok::<Seq<char>, Seq<char>>(id@),
            None => Err("GitHub App client ID not configured"@),
        },
{
    match client_id {
        Some(id) => Ok(String::from_str(id)),
        None => Err(String::from_str("GitHub App client ID not configured")),
    }
}

} // verus!
