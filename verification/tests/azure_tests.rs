use fastmssql::azure::{
    cache_expiry, extract_access_token, token_fresh, token_plan, AzureCredential,
    AzureCredentialType, TokenAction,
};
use fastmssql::errors::Error;

#[test]
fn a_static_token_is_used_as_it_is() {
    let cred = AzureCredential::access_token("tok-123".to_string());
    match token_plan(&cred, None, 1_000) {
        TokenAction::UseToken(t) => assert_eq!(t, "tok-123"),
        _ => panic!("a static token must be used directly"),
    }
}

#[test]
fn a_fresh_cached_token_is_reused() {
    let cred = AzureCredential::managed_identity(None);
    let cached = ("cached-tok".to_string(), 2_000u64);
    match token_plan(&cred, Some(&cached), 1_000) {
        TokenAction::UseToken(t) => assert_eq!(t, "cached-tok"),
        _ => panic!("a fresh cached token must be reused"),
    }
}

#[test]
fn a_stale_cached_token_forces_a_fetch() {
    let cred = AzureCredential::managed_identity(None);
    // 300 s buffer: expiring in 200 s is already stale
    let cached = ("cached-tok".to_string(), 1_200u64);
    match token_plan(&cred, Some(&cached), 1_000) {
        TokenAction::FetchManagedIdentity { .. } => {},
        _ => panic!("a stale cached token must not be reused"),
    }
}

#[test]
fn the_service_principal_plan_names_its_endpoint_and_body() {
    let cred = AzureCredential::service_principal(
        "client-abc".to_string(),
        "s3cret".to_string(),
        "tenant-1".to_string(),
    );
    match token_plan(&cred, None, 0) {
        TokenAction::FetchServicePrincipal { token_url, form_body } => {
            assert_eq!(
                token_url,
                "https://login.microsoftonline.com/tenant-1/oauth2/v2.0/token"
            );
            assert_eq!(
                form_body,
                "grant_type=client_credentials&client_id=client-abc&client_secret=s3cret&scope=https%3A%2F%2Fdatabase.windows.net%2F.default"
            );
        },
        _ => panic!("a service principal without a cache must fetch"),
    }
}

#[test]
fn the_managed_identity_plan_names_the_metadata_url() {
    let cred = AzureCredential::managed_identity(None);
    match token_plan(&cred, None, 0) {
        TokenAction::FetchManagedIdentity { url } => {
            assert_eq!(
                url,
                "http://169.254.169.254/metadata/identity/oauth2/token?api-version=2021-02-01&resource=https%3A%2F%2Fdatabase.windows.net%2F"
            );
        },
        _ => panic!("a managed identity without a cache must fetch"),
    }
}

#[test]
fn a_user_assigned_identity_adds_its_client_id() {
    let cred = AzureCredential::managed_identity(Some("mi-42".to_string()));
    match token_plan(&cred, None, 0) {
        TokenAction::FetchManagedIdentity { url } => {
            assert!(url.ends_with("&client_id=mi-42"));
        },
        _ => panic!("a managed identity without a cache must fetch"),
    }
}

#[test]
fn the_default_chain_is_walked_when_nothing_else_fits() {
    let cred = AzureCredential::default();
    assert!(matches!(token_plan(&cred, None, 0), TokenAction::FetchDefaultChain));
    assert_eq!(cred.credential_type(), AzureCredentialType::DefaultAzure);
}

#[test]
fn freshness_honours_the_expiry_buffer() {
    assert!(token_fresh(1_301, 1_000));
    assert!(!token_fresh(1_300, 1_000));
    assert!(!token_fresh(0, u64::MAX));
}

#[test]
fn the_cache_lifetime_is_fifty_five_minutes() {
    assert_eq!(cache_expiry(1_000), 1_000 + 55 * 60);
    assert_eq!(cache_expiry(u64::MAX - 10), u64::MAX);
}

#[test]
fn a_token_is_read_out_of_the_response_body() {
    let body = "{\"token_type\":\"Bearer\",\"access_token\":\"abc123\"}";
    assert_eq!(extract_access_token(body, "access_token").unwrap(), "abc123");
}

#[test]
fn a_malformed_response_is_a_credential_error() {
    match extract_access_token("not json", "access_token") {
        Err(Error::Credential(msg)) => assert!(msg.contains("access token")),
        _ => panic!("a malformed body must raise a credential error"),
    }
    match extract_access_token("{}", "access_token") {
        Err(Error::Credential(_)) => {},
        _ => panic!("a missing member must raise a credential error"),
    }
    match extract_access_token("{\"access_token\": 5}", "access_token") {
        Err(Error::Credential(_)) => {},
        _ => panic!("a non-string member must raise a credential error"),
    }
}

#[test]
fn credential_kind_names() {
    assert_eq!(AzureCredentialType::ServicePrincipal.text(), "ServicePrincipal");
    assert_eq!(AzureCredentialType::ManagedIdentity.text(), "ManagedIdentity");
    assert_eq!(AzureCredentialType::AccessToken.text(), "AccessToken");
    assert_eq!(AzureCredentialType::DefaultAzure.text(), "DefaultAzure");
}
