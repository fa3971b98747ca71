use vstd::prelude::*;

verus! {

use crate::http::AuthenticatedHttpClient;
use crate::secrets::SecretProvider;
use vstd::string::StringExecFns;

#[derive(Clone, Copy, PartialEq, Eq, Structural, Debug)]
pub enum ExchangeError {
    /// A required credential could not be resolved; no network call was made.
    MissingSecret,
    /// The submission failed, or the endpoint answered with a non-2xx status.
    ConnectionError,
    /// A 2xx response whose body is not JSON or lacks an `access_token` field.
    MalformedResponse,
}

/// The string value of the `access_token` field of a JSON object, if the
/// text parses as JSON and carries such a field.  Only `parse_access_token`
/// gives this name a meaning.
pub uninterp spec fn access_token_of(body: Seq<char>) -> Option<Seq<char>>;

/// Relies on serde_json 1 (`from_str::<Value>`, `Value::get`, `Value::as_str`):
/// the extraction depends on the body text alone, and yields the field's
/// string value exactly when the body is a JSON object whose `access_token`
/// field is a string.
#[verifier::external_body]
fn parse_access_token(body: &str) -> (r: Option<String>)
    ensures
        match r {
            Some(t) => access_token_of(body@) == Some(t@),
            None => access_token_of(body@) is None,
        },
{
    match serde_json::from_str::<serde_json::Value>(body) {
        Ok(v) => v.get("access_token").and_then(|t| t.as_str()).map(|s| s.to_string()),
        Err(_) => None,
    }
}

/// Reads the access token out of a token-endpoint response body.
pub fn token_from_response(body: &str) -> (r: Result<String, ExchangeError>)
    ensures
        match access_token_of(body@) {
            Some(t) => r matches Ok(tok) && tok@ == t,
            None => r == Err::<String, ExchangeError>(ExchangeError::MalformedResponse),
        },
{
    match parse_access_token(body) {
        Some(t) => Ok(t),
        None => Err(ExchangeError::MalformedResponse),
    }
}

/// The form fields submitted to the token endpoint, in order.
pub open spec fn exchange_fields(code: Seq<char>, client_id: Seq<char>, client_secret: Seq<char>) -> Seq<
    (Seq<char>, Seq<char>),
> {
    seq![("code"@, code), ("client_id"@, client_id), ("client_secret"@, client_secret)]
}

/// Converts a one-time authorization code into an access token: resolves the
/// client id and secret, posts the form to `{base_url}/oauth/token`, and
/// parses the `access_token` field out of a successful response.
pub struct TokenExchanger<C: AuthenticatedHttpClient, S: SecretProvider> {
    pub client: C,
    pub secrets: S,
    pub base_url: String,
}

impl<C: AuthenticatedHttpClient, S: SecretProvider> TokenExchanger<C, S> {
    /// The token endpoint this exchanger posts to.
    pub open spec fn spec_token_url(&self) -> Seq<char> {
        self.base_url@ + "/oauth/token"@
    }

    /// Exchanges `code` for an access token.  Fails with `MissingSecret`
    /// before any network call when a credential is absent, with
    /// `ConnectionError` when the submission fails or answers non-2xx, and
    /// with `MalformedResponse` when a 2xx body carries no `access_token`.
    pub fn exchange(&mut self, code: &str) -> (r: Result<String, ExchangeError>)
        ensures
            match (
                old(self).secrets.secret("STRAVA_CLIENT_ID"@),
                old(self).secrets.secret("STRAVA_CLIENT_SECRET"@),
            ) {
                (Some(id), Some(secret)) => match old(self).client.post_form_response(
                    old(self).spec_token_url(),
                    exchange_fields(code@, id, secret),
                ) {
                    Err(_) => r == Err::<String, ExchangeError>(ExchangeError::ConnectionError),
                    Ok(resp) => if resp.0 < 200 || resp.0 >= 300 {
                        r == Err::<String, ExchangeError>(ExchangeError::ConnectionError)
                    } else {
                        match access_token_of(resp.1) {
                            Some(t) => r matches Ok(tok) && tok@ == t,
                            None => r == Err::<String, ExchangeError>(
                                ExchangeError::MalformedResponse,
                            ),
                        }
                    },
                },
                _ => r == Err::<String, ExchangeError>(ExchangeError::MissingSecret) && *final(self)
                    == *old(self),
            },
    {
        let client_id = match self.secrets.get("STRAVA_CLIENT_ID") {
            Ok(v) => v,
            Err(_) => {
                return Err(ExchangeError::MissingSecret);
            },
        };
        let client_secret = match self.secrets.get("STRAVA_CLIENT_SECRET") {
            Ok(v) => v,
            Err(_) => {
                return Err(ExchangeError::MissingSecret);
            },
        };
        let url = self.base_url.clone().concat("/oauth/token");
        let mut fields: Vec<(String, String)> = Vec::new();
        fields.push(("code".to_owned(), code.to_owned()));
        fields.push(("client_id".to_owned(), client_id));
        fields.push(("client_secret".to_owned(), client_secret));
        proof {
            assert(fields.deep_view() =~= exchange_fields(
                code@,
                old(self).secrets.secret("STRAVA_CLIENT_ID"@).unwrap(),
                old(self).secrets.secret("STRAVA_CLIENT_SECRET"@).unwrap(),
            ));
        }
        let resp = match self.client.post_form(url.as_str(), &fields) {
            Ok(resp) => resp,
            Err(_) => {
                return Err(ExchangeError::ConnectionError);
            },
        };
        if resp.status < 200 || resp.status >= 300 {
            return Err(ExchangeError::ConnectionError);
        }
        token_from_response(resp.body.as_str())
    }
}

/// The request description of one token exchange, assembled in one step:
/// endpoint URI plus the three form fields.
#[derive(Clone, Debug)]
pub struct StravaConnectorConfig {
    pub client_id: String,
    pub client_secret: String,
    pub code: String,
    pub uri: String,
}

impl Default for StravaConnectorConfig {
    fn default() -> (r: Self)
        ensures
            r.client_id@ == Seq::<char>::empty(),
            r.client_secret@ == Seq::<char>::empty(),
            r.code@ == Seq::<char>::empty(),
            r.uri@ == Seq::<char>::empty(),
    {
        StravaConnectorConfig {
            client_id: String::new(),
            client_secret: String::new(),
            code: String::new(),
            uri: String::new(),
        }
    }
}

impl StravaConnectorConfig {
    pub fn client_id(self, client_id: &str) -> (r: Self)
        ensures
            r.client_id@ == client_id@,
            r.client_secret == self.client_secret,
            r.code == self.code,
            r.uri == self.uri,
    {
        StravaConnectorConfig {
            client_id: client_id.to_owned(),
            client_secret: self.client_secret,
            code: self.code,
            uri: self.uri,
        }
    }

    pub fn client_secret(self, client_secret: &str) -> (r: Self)
        ensures
            r.client_secret@ == client_secret@,
            r.client_id == self.client_id,
            r.code == self.code,
            r.uri == self.uri,
    {
        StravaConnectorConfig {
            client_id: self.client_id,
            client_secret: client_secret.to_owned(),
            code: self.code,
            uri: self.uri,
        }
    }

    pub fn code(self, code: &str) -> (r: Self)
        ensures
            r.code@ == code@,
            r.client_id == self.client_id,
            r.client_secret == self.client_secret,
            r.uri == self.uri,
    {
        StravaConnectorConfig {
            client_id: self.client_id,
            client_secret: self.client_secret,
            code: code.to_owned(),
            uri: self.uri,
        }
    }

    pub fn uri(self, uri: &str) -> (r: Self)
        ensures
            r.uri@ == uri@,
            r.client_id == self.client_id,
            r.client_secret == self.client_secret,
            r.code == self.code,
    {
        StravaConnectorConfig {
            client_id: self.client_id,
            client_secret: self.client_secret,
            code: self.code,
            uri: uri.to_owned(),
        }
    }

    /// The form fields of the exchange request; the URI is not among them.
    pub fn params(&self) -> (r: Vec<(String, String)>)
        ensures
            r.deep_view() == seq![
                ("client_id"@, self.client_id@),
                ("client_secret"@, self.client_secret@),
                ("code"@, self.code@),
            ],
    {
        let mut out: Vec<(String, String)> = Vec::new();
        out.push(("client_id".to_owned(), self.client_id.clone()));
        out.push(("client_secret".to_owned(), self.client_secret.clone()));
        out.push(("code".to_owned(), self.code.clone()));
        proof {
            assert(out.deep_view() =~= seq![
                ("client_id"@, self.client_id@),
                ("client_secret"@, self.client_secret@),
                ("code"@, self.code@),
            ]);
        }
        out
    }
}

} // verus!
