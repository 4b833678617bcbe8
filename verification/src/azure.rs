//! Credential provider boundary: credential descriptors, the token
//! cache policy, and the exact plan of each token acquisition.
//!
//! The provider supplies a bearer token to the pool at connect time.
//! The library decides *what* to do — use a static or cached token,
//! or fetch one, and with which URL and form body — and the runtime
//! performs the network call it is handed. A fetched token is cached
//! until close to its expiry and refreshed transparently.

use vstd::prelude::*;
use crate::errors::Error;

verus! {

/// The kinds of credentials the provider accepts.
#[derive(Clone, Copy, Debug, PartialEq, Eq, Structural)]
pub enum AzureCredentialType {
    /// A registered application with a secret.
    ServicePrincipal,
    /// The platform-assigned identity of the running resource.
    ManagedIdentity,
    /// A caller-supplied static bearer token.
    AccessToken,
    /// The ambient default chain: environment, platform identity,
    /// then the local CLI.
    DefaultAzure,
}

impl AzureCredentialType {
    /// The kind's name.
    pub fn text(&self) -> (r: String)
        ensures
            *self is ServicePrincipal ==> r@ == "ServicePrincipal"@,
            *self is ManagedIdentity ==> r@ == "ManagedIdentity"@,
            *self is AccessToken ==> r@ == "AccessToken"@,
            *self is DefaultAzure ==> r@ == "DefaultAzure"@,
    {
        match self {
            AzureCredentialType::ServicePrincipal => String::from_str("ServicePrincipal"),
            AzureCredentialType::ManagedIdentity => String::from_str("ManagedIdentity"),
            AzureCredentialType::AccessToken => String::from_str("AccessToken"),
            AzureCredentialType::DefaultAzure => String::from_str("DefaultAzure"),
        }
    }
}

/// A credential descriptor, with what each kind needs.
pub enum AzureCredential {
    /// A registered application: client id, client secret, tenant id.
    ServicePrincipal {
        /// The application's client id.
        client_id: String,
        /// The application's secret.
        client_secret: String,
        /// The directory tenant.
        tenant_id: String,
    },
    /// The platform-assigned identity, optionally a user-assigned
    /// one.
    ManagedIdentity {
        /// The user-assigned identity's client id, if any.
        client_id: Option<String>,
    },
    /// A caller-supplied static bearer token.
    AccessToken {
        /// The token itself.
        token: String,
    },
    /// The ambient default chain.
    DefaultAzure,
}

impl AzureCredential {
    /// A service-principal credential.
    pub fn service_principal(client_id: String, client_secret: String, tenant_id: String) -> (r:
        AzureCredential)
        ensures
            r matches AzureCredential::ServicePrincipal {
                client_id: c,
                client_secret: s,
                tenant_id: t,
            } && c@ == client_id@ && s@ == client_secret@ && t@ == tenant_id@,
    {
        AzureCredential::ServicePrincipal { client_id, client_secret, tenant_id }
    }

    /// A managed-identity credential.
    pub fn managed_identity(client_id: Option<String>) -> (r: AzureCredential)
        ensures
            r matches AzureCredential::ManagedIdentity { client_id: c } && (match (&c, &client_id) {
                (Some(a), Some(b)) => a@ == b@,
                (None, None) => true,
                _ => false,
            }),
    {
        AzureCredential::ManagedIdentity { client_id }
    }

    /// A static bearer token.
    pub fn access_token(token: String) -> (r: AzureCredential)
        ensures
            r matches AzureCredential::AccessToken { token: t } && t@ == token@,
    {
        AzureCredential::AccessToken { token }
    }

    /// The kind of this credential.
    pub fn credential_type(&self) -> (r: AzureCredentialType)
        ensures
            r == (match self {
                AzureCredential::ServicePrincipal { .. } => AzureCredentialType::ServicePrincipal,
                AzureCredential::ManagedIdentity { .. } => AzureCredentialType::ManagedIdentity,
                AzureCredential::AccessToken { .. } => AzureCredentialType::AccessToken,
                AzureCredential::DefaultAzure => AzureCredentialType::DefaultAzure,
            }),
    {
        match self {
            AzureCredential::ServicePrincipal { .. } => AzureCredentialType::ServicePrincipal,
            AzureCredential::ManagedIdentity { .. } => AzureCredentialType::ManagedIdentity,
            AzureCredential::AccessToken { .. } => AzureCredentialType::AccessToken,
            AzureCredential::DefaultAzure => AzureCredentialType::DefaultAzure,
        }
    }
}

impl Default for AzureCredential {
    /// The ambient default chain.
    fn default() -> (r: AzureCredential)
        ensures
            r is DefaultAzure,
    {
        AzureCredential::DefaultAzure
    }
}

// --- the cache policy ----------------------------------------------------

/// Seconds before expiry at which a cached token is no longer used.
pub const EXPIRY_BUFFER_SECS: u64 = 300;

/// Seconds a freshly fetched token is cached: 55 minutes, safely
/// under the typical one-hour lifetime.
pub const CACHE_LIFETIME_SECS: u64 = 3300;

/// A cached token is still usable when more than the buffer remains
/// before its expiry.
pub open spec fn spec_token_fresh(expires_at: u64, now: u64) -> bool {
    expires_at > now + EXPIRY_BUFFER_SECS
}

/// Decides whether a cached token is still usable at `now`.
pub fn token_fresh(expires_at: u64, now: u64) -> (r: bool)
    ensures
        r == spec_token_fresh(expires_at, now),
{
    if now <= u64::MAX - EXPIRY_BUFFER_SECS {
        expires_at > now + EXPIRY_BUFFER_SECS
    } else {
        false
    }
}

/// The cache entry for a token fetched at `now`: it expires after
/// the cache lifetime, saturating at the clock's end.
pub fn cache_expiry(now: u64) -> (r: u64)
    ensures
        now + CACHE_LIFETIME_SECS <= u64::MAX ==> r == now + CACHE_LIFETIME_SECS,
        now + CACHE_LIFETIME_SECS > u64::MAX ==> r == u64::MAX,
{
    if now <= u64::MAX - CACHE_LIFETIME_SECS {
        now + CACHE_LIFETIME_SECS
    } else {
        u64::MAX
    }
}

// --- token acquisition plans ---------------------------------------------

/// The percent-encoded form text of key/value pairs, as the form
/// serializer writes it.
pub uninterp spec fn form_encoding_of(pairs: Seq<(Seq<char>, Seq<char>)>) -> Seq<char>;

/// Relies on serde_urlencoded::to_string: the
/// `application/x-www-form-urlencoded` text of the pairs, in order;
/// it depends on the pairs alone. Serializing string pairs cannot
/// fail.
#[verifier::external_body]
fn form_urlencode(pairs: &Vec<(String, String)>) -> (r: String)
    ensures
        r@ == form_encoding_of(pairs@.map_values(|p: (String, String)| (p.0@, p.1@))),
{
    match serde_urlencoded::to_string(pairs) {
        Ok(s) => s,
        Err(_) => String::new(),
    }
}

/// The form pairs of a service-principal token request.
pub open spec fn sp_pairs(client_id: Seq<char>, client_secret: Seq<char>) -> Seq<
    (Seq<char>, Seq<char>),
> {
    seq![
        ("grant_type"@, "client_credentials"@),
        ("client_id"@, client_id),
        ("client_secret"@, client_secret),
        ("scope"@, "https://database.windows.net/.default"@),
    ]
}

/// The query pairs of a managed-identity token request.
pub open spec fn mi_pairs(client_id: Option<Seq<char>>) -> Seq<(Seq<char>, Seq<char>)> {
    let base = seq![
        ("api-version"@, "2021-02-01"@),
        ("resource"@, "https://database.windows.net/"@),
    ];
    match client_id {
        Some(c) => base.push(("client_id"@, c)),
        None => base,
    }
}

/// The token URL of a tenant's service-principal flow.
pub open spec fn sp_token_url(tenant_id: Seq<char>) -> Seq<char> {
    "https://login.microsoftonline.com/"@ + tenant_id + "/oauth2/v2.0/token"@
}

/// The instance-metadata token URL with its query text.
pub open spec fn mi_token_url(client_id: Option<Seq<char>>) -> Seq<char> {
    "http://169.254.169.254/metadata/identity/oauth2/token?"@ + form_encoding_of(
        mi_pairs(client_id),
    )
}

/// What the runtime must do to hold a bearer token.
pub enum TokenAction {
    /// Use this token as it is: a static token, or a cached one that
    /// is still fresh.
    UseToken(String),
    /// POST the form body to the token URL and read the token from
    /// the response.
    FetchServicePrincipal {
        /// The tenant's token endpoint.
        token_url: String,
        /// The percent-encoded form body.
        form_body: String,
    },
    /// GET the instance-metadata URL (with its `Metadata: true`
    /// header) and read the token from the response.
    FetchManagedIdentity {
        /// The metadata endpoint with its query text.
        url: String,
    },
    /// Walk the ambient default chain: environment variables, then
    /// platform identity, then the local CLI.
    FetchDefaultChain,
}

/// Decides one token acquisition: a static token is used as it is; a
/// fresh cached token is reused; otherwise the credential's fetch is
/// planned with its exact URL and body.
pub fn token_plan(cred: &AzureCredential, cached: Option<&(String, u64)>, now: u64) -> (r:
    TokenAction)
    ensures
        cred matches AzureCredential::AccessToken { token } ==> (r matches TokenAction::UseToken(t)
            && t@ == token@),
        !(cred is AccessToken) ==> match cached {
            Some(c) => spec_token_fresh(c.1, now) ==> (r matches TokenAction::UseToken(t) && t@
                == c.0@),
            None => true,
        },
        !(cred is AccessToken) && !(cached matches Some(c) && spec_token_fresh(c.1, now)) ==> match cred {
            AzureCredential::ServicePrincipal { client_id, client_secret, tenant_id } => {
                r matches TokenAction::FetchServicePrincipal { token_url, form_body }
                    && token_url@ == sp_token_url(tenant_id@) && form_body@ == form_encoding_of(
                    sp_pairs(client_id@, client_secret@),
                )
            },
            AzureCredential::ManagedIdentity { client_id } => {
                r matches TokenAction::FetchManagedIdentity { url } && url@ == mi_token_url(
                    match client_id {
                        Some(c) => Some(c@),
                        None => None,
                    },
                )
            },
            AzureCredential::DefaultAzure => r is FetchDefaultChain,
            AzureCredential::AccessToken { .. } => true,
        },
{
    if let AzureCredential::AccessToken { token } = cred {
        return TokenAction::UseToken(token.clone());
    }
    if let Some(c) = cached {
        if token_fresh(c.1, now) {
            return TokenAction::UseToken(c.0.clone());
        }
    }
    match cred {
        AzureCredential::ServicePrincipal { client_id, client_secret, tenant_id } => {
            let mut token_url = String::from_str("https://login.microsoftonline.com/");
            token_url.append(tenant_id.as_str());
            token_url.append("/oauth2/v2.0/token");
            let mut pairs: Vec<(String, String)> = Vec::new();
            pairs.push((String::from_str("grant_type"), String::from_str("client_credentials")));
            pairs.push((String::from_str("client_id"), client_id.clone()));
            pairs.push((String::from_str("client_secret"), client_secret.clone()));
            pairs.push((
                String::from_str("scope"),
                String::from_str("https://database.windows.net/.default"),
            ));
            let form_body = form_urlencode(&pairs);
            proof {
                assert(pairs@.map_values(|p: (String, String)| (p.0@, p.1@)) =~= sp_pairs(
                    client_id@,
                    client_secret@,
                ));
            }
            TokenAction::FetchServicePrincipal { token_url, form_body }
        },
        AzureCredential::ManagedIdentity { client_id } => {
            let mut pairs: Vec<(String, String)> = Vec::new();
            pairs.push((String::from_str("api-version"), String::from_str("2021-02-01")));
            pairs.push((
                String::from_str("resource"),
                String::from_str("https://database.windows.net/"),
            ));
            if let Some(c) = client_id {
                pairs.push((String::from_str("client_id"), c.clone()));
            }
            let query = form_urlencode(&pairs);
            let mut url = String::from_str(
                "http://169.254.169.254/metadata/identity/oauth2/token?",
            );
            url.append(query.as_str());
            proof {
                assert(pairs@.map_values(|p: (String, String)| (p.0@, p.1@)) =~= mi_pairs(
                    match client_id {
                        Some(c) => Some(c@),
                        None => None,
                    },
                ));
            }
            TokenAction::FetchManagedIdentity { url }
        },
        AzureCredential::DefaultAzure => TokenAction::FetchDefaultChain,
        AzureCredential::AccessToken { token } => TokenAction::UseToken(token.clone()),
    }
}

// --- reading the token out of a response ---------------------------------

/// The string member a JSON text holds under a field: what parsing
/// the text and looking the field up yields when the text is JSON,
/// the value an object, and the member a string — else nothing. A
/// function of the two texts alone.
pub uninterp spec fn json_str_member(body: Seq<char>, field: Seq<char>) -> Option<Seq<char>>;

/// Relies on serde_json — `from_str`, `Value::get` and
/// `Value::as_str` composed: reads the string member under `field`
/// out of a JSON text, or nothing when any step refuses. The result
/// depends on the two texts alone.
#[verifier::external_body]
fn read_json_member(body: &str, field: &str) -> (r: Option<String>)
    ensures
        r is Some <==> json_str_member(body@, field@) is Some,
        r matches Some(t) ==> json_str_member(body@, field@) == Some(t@),
{
    match serde_json::from_str::<serde_json::Value>(body) {
        Ok(v) => match v.get(field) {
            Some(m) => match m.as_str() {
                Some(s) => Some(s.to_owned()),
                None => None,
            },
            None => None,
        },
        Err(_) => None,
    }
}

/// Reads the bearer token out of a token-endpoint response body: the
/// string member under `field`, present exactly when the body holds
/// one; any failure is a credential error naming the remediation.
pub fn extract_access_token(body: &str, field: &str) -> (r: Result<String, Error>)
    ensures
        r is Ok <==> json_str_member(body@, field@) is Some,
        r matches Ok(t) ==> json_str_member(body@, field@) == Some(t@),
        r matches Err(e) ==> e is Credential,
{
    let member = read_json_member(body, field);
    match member {
        Some(t) => Ok(t),
        None => Err(Error::Credential(String::from_str(
            "no access token in the token response; check connectivity to the token endpoint and the credential's permissions, then re-authenticate",
        ))),
    }
}

} // verus!
