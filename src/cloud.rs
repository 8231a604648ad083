//! The cloud service: an OAuth2 session and the per-system handles it hands out.
//!
//! The session keeps its token pair and a [`CredentialStore`] holding the
//! bearer header; every [`System`] it lists shares that store, so a refresh
//! reaches all of them without re-enumerating. Requests themselves are made by
//! the caller: the session and the handles give the URLs and headers to send,
//! and take back what the service answered.

use vstd::prelude::*;
use vstd::string::*;
use vstd::utf8::encode_utf8;
use crate::text::joined;

mod connection_type;
mod credentials;
mod granularity;
mod system;

pub use connection_type::connection_type_of_token;
pub use connection_type::ConnectionType;
pub use connection_type::InvalidConnectionType;
pub use credentials::bearer_header;
pub use credentials::bearer_header_for;
pub use credentials::is_bearer_header;
pub use credentials::CredentialStore;
pub use credentials::WholeBearerHeader;
pub use granularity::granularity_of_token;
pub use granularity::granularity_token;
pub use granularity::lemma_granularity_round_trip;
pub use granularity::Granularity;
pub use granularity::InvalidGranularity;
pub use system::Address;
pub use system::LifetimeProduction;
pub use system::MicroinverterProduction;
pub use system::System;
pub use system::same_description;
pub use system::SystemRecord;
pub use system::lifetime_series;
pub use system::lifetime_series_fits;

verus! {

/// Standard base64, with padding, of a byte string.
pub uninterp spec fn base64_standard(bytes: Seq<u8>) -> Seq<char>;

/// Relies on `base64::encode` (standard alphabet, padded) applied to the UTF-8
/// bytes of `s`.
#[verifier::external_body]
#[allow(deprecated)]
fn base64_of_text(s: &str) -> (r: String)
    ensures
        r@ == base64_standard(encode_utf8(s@)),
{
    base64::encode(s)
}

/// The `Authorization` value for the token endpoint:
/// `Basic base64(<client id>:<client secret>)`.
pub open spec fn basic_header(client_id: Seq<char>, client_secret: Seq<char>) -> Seq<char> {
    "Basic "@ + base64_standard(encode_utf8(client_id + ":"@ + client_secret))
}

/// The query parameter that carries the API key: `key=<api key>`.
pub open spec fn api_key_query(api_key: Seq<char>) -> Seq<char> {
    "key="@ + api_key
}

/// Start of every token endpoint URL.
pub open spec fn token_endpoint() -> Seq<char> {
    "https://api.enphaseenergy.com/oauth/token?grant_type="@
}

/// URL that trades a one-time authorization code for a token pair.
pub open spec fn authorization_code_url(code: Seq<char>) -> Seq<char> {
    token_endpoint() + "authorization_code&redirect_uri=https://api.enphaseenergy.com/oauth/redirect_uri&code="@
        + code
}

/// URL that trades a refresh token for a new token pair.
pub open spec fn refresh_url(refresh: Seq<char>) -> Seq<char> {
    token_endpoint() + "refresh_token&refresh_token="@ + refresh
}

/// URL that lists the systems of the account.
pub open spec fn systems_url(api_key_query: Seq<char>) -> Seq<char> {
    "https://api.enphaseenergy.com/api/v4/systems?"@ + api_key_query
}

/// A token pair, as handed out for storage between runs.
#[derive(Clone, Debug)]
pub struct Tokens {
    pub access: String,
    pub refresh: String,
}

/// What the token endpoint answered: a new token pair. Other fields of the
/// answer play no part.
#[derive(Clone, Debug)]
pub struct AuthResponse {
    pub access_token: String,
    pub refresh_token: String,
}

/// The state of a session: its fixed identity and its current token pair.
pub ghost struct SessionState {
    /// `key=<api key>`, appended to every API request.
    pub api_key_query: Seq<char>,
    /// The `Basic` header for the token endpoint; it never changes.
    pub basic_header: Seq<char>,
    pub access: Seq<char>,
    pub refresh: Seq<char>,
}

/// The state of a session built from an existing token pair.
pub open spec fn preauth_state(
    api_key: Seq<char>,
    client_id: Seq<char>,
    client_secret: Seq<char>,
    access: Seq<char>,
    refresh: Seq<char>,
) -> SessionState {
    SessionState {
        api_key_query: api_key_query(api_key),
        basic_header: basic_header(client_id, client_secret),
        access,
        refresh,
    }
}

/// The state after a refresh that granted `access` and `refresh`: both
/// tokens change together and the identity stays.
pub open spec fn refreshed_state(s: SessionState, access: Seq<char>, refresh: Seq<char>) -> SessionState {
    SessionState { access, refresh, ..s }
}

/// The token pair a session hands out for storage.
pub open spec fn exported(s: SessionState) -> (Seq<char>, Seq<char>) {
    (s.access, s.refresh)
}

/// The bearer header that requests of a session in this state carry.
pub open spec fn session_bearer_header(s: SessionState) -> Seq<char> {
    bearer_header(s.access)
}

/// An authenticated session with the cloud service.
pub struct Client {
    api_key_qstr: String,
    token_auth_header: String,
    auth_header: CredentialStore,
    access_token: String,
    refresh_token: String,
}

impl View for Client {
    type V = SessionState;

    closed spec fn view(&self) -> SessionState {
        SessionState {
            api_key_query: self.api_key_qstr@,
            basic_header: self.token_auth_header@,
            access: self.access_token@,
            refresh: self.refresh_token@,
        }
    }
}

/// Renders the `Basic` header of the token endpoint.
pub fn basic_auth_header(client_id: &str, client_secret: &str) -> (r: String)
    ensures
        r@ == basic_header(client_id@, client_secret@),
{
    let mut credentials = joined(client_id, ":");
    credentials.append(client_secret);
    let encoded = base64_of_text(credentials.as_str());
    joined("Basic ", encoded.as_str())
}

/// Renders the URL that trades an authorization code for a token pair.
pub fn authorization_code_request_url(code: &str) -> (r: String)
    ensures
        r@ == authorization_code_url(code@),
{
    let mut s = String::from_str("https://api.enphaseenergy.com/oauth/token?grant_type=");
    s.append("authorization_code&redirect_uri=https://api.enphaseenergy.com/oauth/redirect_uri&code=");
    s.append(code);
    s
}

impl Client {
    /// The store shared with every handle this session lists.
    pub closed spec fn credentials(&self) -> CredentialStore {
        self.auth_header
    }

    /// A session from an existing token pair; no request is made.
    pub fn preauth(
        api_key: &str,
        client_id: String,
        client_secret: String,
        access_token: String,
        refresh_token: String,
    ) -> (r: Client)
        ensures
            r@ == preauth_state(api_key@, client_id@, client_secret@, access_token@, refresh_token@),
    {
        let token_auth_header = basic_auth_header(client_id.as_str(), client_secret.as_str());
        let auth_header = CredentialStore::new(access_token.as_str());
        Client {
            api_key_qstr: joined("key=", api_key),
            token_auth_header,
            auth_header,
            access_token,
            refresh_token,
        }
    }

    /// Finishes the exchange of an authorization code, given what the token
    /// endpoint answered: a session on the granted pair, or the failure as it
    /// came. The code is spent either way; nothing here retries it.
    pub fn from_code_exchange<E>(
        api_key: &str,
        client_id: String,
        client_secret: String,
        answer: Result<AuthResponse, E>,
    ) -> (r: Result<Client, E>)
        ensures
            match answer {
                Ok(grant) => r is Ok && r->Ok_0@ == preauth_state(
                    api_key@,
                    client_id@,
                    client_secret@,
                    grant.access_token@,
                    grant.refresh_token@,
                ),
                Err(e) => r is Err && r->Err_0 == e,
            },
    {
        match answer {
            Ok(grant) => Ok(
                Client::preauth(api_key, client_id, client_secret, grant.access_token, grant.refresh_token),
            ),
            Err(e) => Err(e),
        }
    }

    /// The current token pair, for storage between runs.
    pub fn tokens(&self) -> (r: Tokens)
        ensures
            (r.access@, r.refresh@) == exported(self@),
    {
        Tokens { access: self.access_token.clone(), refresh: self.refresh_token.clone() }
    }

    /// The `Basic` header to send to the token endpoint.
    pub fn token_auth_header(&self) -> (r: &str)
        ensures
            r@ == self@.basic_header,
    {
        self.token_auth_header.as_str()
    }

    /// The URL of the refresh request for the current refresh token.
    pub fn refresh_request_url(&self) -> (r: String)
        ensures
            r@ == refresh_url(self@.refresh),
    {
        let mut s = String::from_str("https://api.enphaseenergy.com/oauth/token?grant_type=");
        s.append("refresh_token&refresh_token=");
        s.append(self.refresh_token.as_str());
        s
    }

    /// Takes in what the refresh request returned. On a grant, the shared
    /// header and both tokens are replaced and the new pair is returned; on a
    /// failure nothing changes and the failure is returned as it came.
    pub fn complete_refresh<E>(&mut self, answer: Result<AuthResponse, E>) -> (r: Result<Tokens, E>)
        ensures
            match answer {
                Ok(grant) => {
                    &&& final(self)@ == refreshed_state(
                        old(self)@,
                        grant.access_token@,
                        grant.refresh_token@,
                    )
                    &&& r is Ok
                    &&& (r->Ok_0.access@, r->Ok_0.refresh@) == exported(final(self)@)
                },
                Err(e) => *final(self) == *old(self) && r is Err && r->Err_0 == e,
            },
            final(self).credentials() == old(self).credentials(),
    {
        match answer {
            Ok(grant) => {
                self.auth_header.replace(grant.access_token.as_str());
                self.access_token = grant.access_token;
                self.refresh_token = grant.refresh_token;
                Ok(self.tokens())
            },
            Err(e) => Err(e),
        }
    }

    /// The URL that lists the account's systems (first page only).
    pub fn list_systems_url(&self) -> (r: String)
        ensures
            r@ == systems_url(self@.api_key_query),
    {
        joined("https://api.enphaseenergy.com/api/v4/systems?", self.api_key_qstr.as_str())
    }

    /// The bearer header of the session's own requests: that of its current
    /// access token, which is also what it last wrote to the shared store.
    pub fn bearer_header(&self) -> (r: String)
        ensures
            r@ == session_bearer_header(self@),
    {
        bearer_header_for(self.access_token.as_str())
    }

    /// One handle per listed system, in the order listed; each shares this
    /// session's credential store and API key.
    pub fn systems_from(&self, records: Vec<SystemRecord>) -> (r: Vec<System>)
        ensures
            r@.len() == records@.len(),
            forall|i: int|
                #![trigger r@[i]]
                0 <= i < r@.len() ==> {
                    &&& r@[i].record() == records@[i]
                    &&& r@[i].credentials().same_cell(&self.credentials())
                    &&& r@[i].api_key_query() == self@.api_key_query
                },
    {
        let mut rest = records;
        let mut out: Vec<System> = Vec::new();
        while rest.len() > 0
            invariant
                out@.len() + rest@.len() == records@.len(),
                rest@ == records@.subrange(out@.len() as int, records@.len() as int),
                forall|i: int|
                    #![trigger out@[i]]
                    0 <= i < out@.len() ==> {
                        &&& out@[i].record() == records@[i]
                        &&& out@[i].credentials().same_cell(&self.credentials())
                        &&& out@[i].api_key_query() == self@.api_key_query
                    },
            decreases rest@.len(),
        {
            let record = rest.remove(0);
            let system = System::from_record(
                self.auth_header.share(),
                self.api_key_qstr.clone(),
                record,
            );
            out.push(system);
        }
        out
    }
}

/// Why a token request failed.
#[derive(Clone, Copy, Debug, PartialEq, Eq, Structural)]
pub enum AuthFailure {
    /// The service answered with this client error status: it refused the
    /// code or refresh token, and only authenticating again can help.
    Rejected(u16),
    /// No answer came, the answer could not be read, or the service failed on
    /// its side; the grant itself was not judged.
    Transport,
}

/// Sorts a failed token request by the HTTP status that came with the
/// failure, if any: a client error status (400 to 499) is a refusal, anything
/// else a transport failure.
pub fn classify_auth_failure(status: Option<u16>) -> (r: AuthFailure)
    ensures
        match status {
            Some(code) => if 400 <= code <= 499 {
                r == AuthFailure::Rejected(code)
            } else {
                r == AuthFailure::Transport
            },
            None => r == AuthFailure::Transport,
        },
{
    match status {
        Some(code) => if 400 <= code && code <= 499 {
            AuthFailure::Rejected(code)
        } else {
            AuthFailure::Transport
        },
        None => AuthFailure::Transport,
    }
}

/// How a session is to be opened.
#[derive(Clone, Debug, PartialEq, Eq)]
pub enum Login {
    /// Exchange this one-time authorization code.
    Code(String),
    /// Use this existing access and refresh token pair.
    Tokens(String, String),
}

/// Why the supplied credentials do not say how to open a session.
#[derive(Clone, Copy, Debug, PartialEq, Eq, Structural)]
pub enum LoginError {
    /// Both a code and a token pair were given.
    Ambiguous,
    /// Neither a code alone nor a whole token pair was given.
    Incomplete,
}

/// Picks how to open a session: a code alone is exchanged; an access and a
/// refresh token without a code are used as they are; a code together with
/// both tokens is ambiguous; anything else is incomplete.
pub fn choose_login(
    code: Option<String>,
    access_token: Option<String>,
    refresh_token: Option<String>,
) -> (r: Result<Login, LoginError>)
    ensures
        match (code, access_token, refresh_token) {
            (Some(c), None, None) => r == Ok::<Login, LoginError>(Login::Code(c)),
            (None, Some(a), Some(t)) => r == Ok::<Login, LoginError>(Login::Tokens(a, t)),
            (Some(_), Some(_), Some(_)) => r == Err::<Login, LoginError>(LoginError::Ambiguous),
            _ => r == Err::<Login, LoginError>(LoginError::Incomplete),
        },
{
    match (code, access_token, refresh_token) {
        (Some(c), None, None) => Ok(Login::Code(c)),
        (None, Some(a), Some(t)) => Ok(Login::Tokens(a, t)),
        (Some(_), Some(_), Some(_)) => Err(LoginError::Ambiguous),
        _ => Err(LoginError::Incomplete),
    }
}

/// Exporting the tokens of a session built from a pair gives back that pair.
pub proof fn lemma_export_after_preauth(
    api_key: Seq<char>,
    client_id: Seq<char>,
    client_secret: Seq<char>,
    access: Seq<char>,
    refresh: Seq<char>,
)
    ensures
        exported(preauth_state(api_key, client_id, client_secret, access, refresh)) == (access, refresh),
{
}

/// After a refresh that granted `access` and `refresh`, requests of the
/// session carry `Bearer <access>`, the exported pair is the granted one, and
/// the key and `Basic` header are those from before.
pub proof fn lemma_refresh_rotates_header(s: SessionState, access: Seq<char>, refresh: Seq<char>)
    ensures
        session_bearer_header(refreshed_state(s, access, refresh)) == "Bearer "@ + access,
        exported(refreshed_state(s, access, refresh)) == (access, refresh),
        refreshed_state(s, access, refresh).api_key_query == s.api_key_query,
        refreshed_state(s, access, refresh).basic_header == s.basic_header,
{
}

/// A handle listed before a refresh reads the credential cell that the
/// refreshed session writes to: listing shares the session's cell with every
/// handle, and a refresh, granted or failed, keeps the session on that cell.
pub proof fn lemma_handles_follow_refresh(before: Client, after: Client, handle: System)
    requires
        handle.credentials().same_cell(&before.credentials()),
        after.credentials() == before.credentials(),
    ensures
        handle.credentials().same_cell(&after.credentials()),
{
}

} // verus!
