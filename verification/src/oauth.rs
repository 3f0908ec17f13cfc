use vstd::prelude::*;
use vstd::string::StringExecFns;

verus! {

/// The configuration of one OAuth2 provider: the registered client, its
/// secret, and the redirect URI the provider sends the browser back to.
pub struct OAuthConfig {
    pub client_id: String,
    pub client_secret: String,
    pub redirect_uri: String,
}

/// The consent-redirect URL for a provider: its authorization endpoint with
/// `client_id`, `redirect_uri`, `response_type=code`, `state` and `scope`
/// embedded as query parameters, asking for an explicit consent prompt.
pub open spec fn auth_url_spec(
    base: Seq<char>,
    client_id: Seq<char>,
    redirect_uri: Seq<char>,
    state: Seq<char>,
    scope: Seq<char>,
) -> Seq<char> {
    base + "?client_id="@ + client_id + "&redirect_uri="@ + redirect_uri
        + "&response_type=code&state="@ + state + "&scope="@ + scope + "&prompt=consent"@
}

/// Builds the authorization URL by plain concatenation; the parameter values
/// are embedded as given, without percent-encoding.
pub fn build_authorization_url(
    base: &str,
    client_id: &str,
    redirect_uri: &str,
    state: &str,
    scope: &str,
) -> (url: String)
    ensures
        url@ == auth_url_spec(base@, client_id@, redirect_uri@, state@, scope@),
{
    let mut url = base.to_owned();
    url.append("?client_id=");
    url.append(client_id);
    url.append("&redirect_uri=");
    url.append(redirect_uri);
    url.append("&response_type=code&state=");
    url.append(state);
    url.append("&scope=");
    url.append(scope);
    url.append("&prompt=consent");
    url
}

/// An HTTP `Authorization` header value carrying a bearer token.
pub fn bearer_header(token: &str) -> (r: String)
    ensures
        r@ == "Bearer "@ + token@,
{
    let mut r = "Bearer ".to_owned();
    r.append(token);
    r
}

/// Relies on `uuid`'s `Uuid::new_v4` and its hyphenated rendering: a fresh
/// random state nonce. Nothing is assumed about its value.
#[verifier::external_body]
pub(crate) fn new_state_nonce() -> (r: String) {
    uuid::Uuid::new_v4().to_string()
}

} // verus!
