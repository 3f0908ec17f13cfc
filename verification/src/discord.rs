use crate::error::LinkError;
use crate::oauth::{auth_url_spec, build_authorization_url, new_state_nonce, OAuthConfig};
use crate::session::PendingLinkSession;
use crate::storage::Store;
use vstd::prelude::*;

verus! {

/// A Discord OAuth token pair. `expires_at` is the token-issue time plus the
/// provider-reported lifetime, in Unix epoch seconds; the credential is
/// expired exactly when `now >= expires_at`.
#[derive(Debug)]
pub struct DiscordOAuthCredentials {
    pub access_token: String,
    pub expires_at: i64,
    pub refresh_token: String,
}

/// The abstract token pair.
pub struct CredentialView {
    pub access_token: Seq<char>,
    pub refresh_token: Seq<char>,
    pub expires_at: int,
}

impl View for DiscordOAuthCredentials {
    type V = CredentialView;

    open spec fn view(&self) -> CredentialView {
        CredentialView {
            access_token: self.access_token@,
            refresh_token: self.refresh_token@,
            expires_at: self.expires_at as int,
        }
    }
}

/// Whether the credential may no longer be used at time `now`.
pub open spec fn credential_expired(c: CredentialView, now: int) -> bool {
    c.expires_at <= now
}

impl DiscordOAuthCredentials {
    /// An owned copy with the same contents.
    pub fn duplicate(&self) -> (r: Self)
        ensures
            r == *self,
    {
        DiscordOAuthCredentials {
            access_token: self.access_token.clone(),
            expires_at: self.expires_at,
            refresh_token: self.refresh_token.clone(),
        }
    }

    /// The credential recorded for a token response received at time `now`:
    /// the tokens as returned, expiring `expires_in` seconds from now. A
    /// lifetime that leaves the representable range is treated as a malformed
    /// response.
    pub fn from_token_response(
        access_token: String,
        refresh_token: String,
        expires_in: i64,
        now: i64,
    ) -> (r: Result<Self, LinkError>)
        ensures
            (r is Ok) <==> (i64::MIN <= now + expires_in <= i64::MAX),
            r matches Ok(c) ==> c.access_token == access_token && c.refresh_token == refresh_token
                && c.expires_at == now + expires_in,
            r matches Err(e) ==> e is MalformedResponseError,
    {
        match now.checked_add(expires_in) {
            Some(expires_at) => Ok(
                DiscordOAuthCredentials { access_token, expires_at, refresh_token },
            ),
            None => Err(LinkError::MalformedResponseError),
        }
    }

    /// Whether the credential is expired at time `now`.
    pub fn is_expired(&self, now: i64) -> (r: bool)
        ensures
            r == credential_expired(self@, now as int),
    {
        self.expires_at <= now
    }
}

/// How a token is requested from Discord: with a fresh authorization code,
/// or by refreshing a stored credential.
#[derive(Debug)]
pub enum AuthMethod {
    Code(String),
    Refresh(DiscordOAuthCredentials),
}

/// A Discord identity: the stable user id and the display name.
#[derive(Debug)]
pub struct DiscordUserData {
    pub user_id: String,
    pub username: String,
}

/// Discord's consent URL embedding `state`.
pub open spec fn discord_auth_url_spec(
    client_id: Seq<char>,
    redirect_uri: Seq<char>,
    state: Seq<char>,
) -> Seq<char> {
    auth_url_spec(
        "https://discord.com/api/oauth2/authorize"@,
        client_id,
        redirect_uri,
        state,
        "role_connections.write identify"@,
    )
}

/// Draws a fresh state nonce, records it in the session under the Discord
/// key, and returns Discord's consent URL embedding that same nonce.
pub fn generate_oauth_url(session: &mut PendingLinkSession, config: &OAuthConfig) -> (url: String)
    ensures
        final(session)@.discord_state is Some,
        url@ == discord_auth_url_spec(
            config.client_id@,
            config.redirect_uri@,
            final(session)@.discord_state->0,
        ),
        final(session)@.dsek_state == old(session)@.dsek_state,
        final(session)@.discord_user_id == old(session)@.discord_user_id,
{
    let state = new_state_nonce();
    let url = build_authorization_url(
        "https://discord.com/api/oauth2/authorize",
        config.client_id.as_str(),
        config.redirect_uri.as_str(),
        state.as_str(),
        "role_connections.write identify",
    );
    session.discord_uuid_state = Some(state);
    url
}

/// The `application/x-www-form-urlencoded` fields of a Discord token
/// request, as key/value pairs in the order they are sent.
pub fn token_request_form(method: AuthMethod, config: &OAuthConfig) -> (form: Vec<(String, String)>)
    ensures
        method matches AuthMethod::Code(code) ==> form@.len() == 5 && form@[0].0@
            == "grant_type"@ && form@[0].1@ == "authorization_code"@ && form@[1].0@ == "code"@
            && form@[1].1@ == code@ && form@[2].0@ == "redirect_uri"@ && form@[2].1@
            == config.redirect_uri@ && form@[3].0@ == "client_id"@ && form@[3].1@
            == config.client_id@ && form@[4].0@ == "client_secret"@ && form@[4].1@
            == config.client_secret@,
        method matches AuthMethod::Refresh(c) ==> form@.len() == 4 && form@[0].0@
            == "grant_type"@ && form@[0].1@ == "refresh_token"@ && form@[1].0@
            == "refresh_token"@ && form@[1].1@ == c.refresh_token@ && form@[2].0@
            == "client_id"@ && form@[2].1@ == config.client_id@ && form@[3].0@
            == "client_secret"@ && form@[3].1@ == config.client_secret@,
{
    let mut form: Vec<(String, String)> = Vec::new();
    match method {
        AuthMethod::Code(code) => {
            form.push(("grant_type".to_owned(), "authorization_code".to_owned()));
            form.push(("code".to_owned(), code));
            form.push(("redirect_uri".to_owned(), config.redirect_uri.clone()));
            form.push(("client_id".to_owned(), config.client_id.clone()));
            form.push(("client_secret".to_owned(), config.client_secret.clone()));
        }
        AuthMethod::Refresh(credential) => {
            form.push(("grant_type".to_owned(), "refresh_token".to_owned()));
            form.push(("refresh_token".to_owned(), credential.refresh_token));
            form.push(("client_id".to_owned(), config.client_id.clone()));
            form.push(("client_secret".to_owned(), config.client_secret.clone()));
        }
    }
    form
}

/// The boolean metadata pushed with a role connection.
#[derive(Debug)]
pub struct Metadata {
    pub dsek_member: bool,
}

/// The role-connection record sent to Discord.
#[derive(Debug)]
pub struct MetadataUpdate {
    pub platform_name: String,
    pub platform_username: String,
    pub metadata: Metadata,
}

/// The role-connection record for a linked member: the static platform name,
/// the linked Dsek handle as the platform username, and the member flag set.
/// The flag is fixed to `true`: a publish is only reached after a completed
/// Dsek login, which this deployment takes as membership.
pub fn build_metadata_update(stil_id: &str) -> (m: MetadataUpdate)
    ensures
        m.platform_name@ == "D-sektionen inom TLTH"@,
        m.platform_username@ == stil_id@,
        m.metadata.dsek_member == true,
{
    MetadataUpdate {
        platform_name: "D-sektionen inom TLTH".to_owned(),
        platform_username: stil_id.to_owned(),
        metadata: Metadata { dsek_member: true },
    }
}

/// How a publish must proceed with the stored credential.
#[derive(Debug)]
pub enum PublishPlan {
    UseCurrent(DiscordOAuthCredentials),
    RefreshFirst(DiscordOAuthCredentials),
}

/// The refresh decision at time `now`: an expired credential is refreshed
/// before any use, an unexpired one is used as it stands.
pub open spec fn publish_plan_spec(c: DiscordOAuthCredentials, now: int) -> PublishPlan {
    if credential_expired(c@, now) {
        PublishPlan::RefreshFirst(c)
    } else {
        PublishPlan::UseCurrent(c)
    }
}

/// Decides how the metadata push uses the stored credential: refresh first
/// exactly when it is expired at `now`, otherwise use it as it stands.
pub fn plan_publish(credential: DiscordOAuthCredentials, now: i64) -> (p: PublishPlan)
    ensures
        p == publish_plan_spec(credential, now as int),
{
    if credential.expires_at <= now {
        PublishPlan::RefreshFirst(credential)
    } else {
        PublishPlan::UseCurrent(credential)
    }
}

/// An expired credential is always refreshed before it is used against the
/// metadata endpoint, and an unexpired one is used as-is, with no refresh
/// call planned.
pub proof fn lemma_refresh_exactly_when_expired(credential: DiscordOAuthCredentials, now: i64)
    ensures
        credential_expired(credential@, now as int) <==> publish_plan_spec(credential, now as int)
            == PublishPlan::RefreshFirst(credential),
        !credential_expired(credential@, now as int) <==> publish_plan_spec(
            credential,
            now as int,
        ) == PublishPlan::UseCurrent(credential),
{
}

/// Loads what the metadata push needs and takes every decision before any
/// provider call: the stored credential with the refresh decision made at
/// `now`, and the metadata record, whose `platform_username` is the linked
/// Dsek handle — never the raw Discord id.
pub fn prepare_publish(store: &Store, user_id: &str, now: i64) -> (r: Result<
    (PublishPlan, MetadataUpdate),
    LinkError,
>)
    requires
        store.wf(),
    ensures
        (r is Ok) <==> (store@.tokens.contains_key(user_id@) && store@.links.contains_key(
            user_id@,
        )),
        r matches Ok(pm) ==> ({
            &&& (pm.0 matches PublishPlan::RefreshFirst(c) ==> c@ == store@.tokens[user_id@]
                && credential_expired(c@, now as int))
            &&& (pm.0 matches PublishPlan::UseCurrent(c) ==> c@ == store@.tokens[user_id@]
                && !credential_expired(c@, now as int))
            &&& pm.1.platform_username@ == store@.links[user_id@]
            &&& pm.1.platform_name@ == "D-sektionen inom TLTH"@
            &&& pm.1.metadata.dsek_member == true
        }),
        r matches Err(e) ==> e is NotFoundError,
{
    let token = match store.get_token(user_id) {
        Ok(t) => t,
        Err(e) => {
            return Err(e);
        },
    };
    let stil_id = match store.fetch_dsek_username(user_id) {
        Ok(s) => s,
        Err(e) => {
            return Err(e);
        },
    };
    let plan = plan_publish(token, now);
    let payload = build_metadata_update(stil_id.as_str());
    Ok((plan, payload))
}

} // verus!
