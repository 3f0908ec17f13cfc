use crate::discord::{AuthMethod, DiscordOAuthCredentials, DiscordUserData};
use crate::dsek::DsekUserData;
use crate::error::LinkError;
use crate::oauth::OAuthConfig;
use crate::session::PendingLinkSession;
use crate::session::SessionView;
use crate::storage::Store;
use crate::text::str_eq;
use vstd::prelude::*;
use vstd::string::StringExecFns;

verus! {

/// The query parameters a provider sends back to a callback.
#[derive(Debug)]
pub struct OAuthReturn {
    pub code: String,
    pub state: String,
}

/// Which provider's nonce a callback is validated against.
#[derive(Clone, Copy, Debug, PartialEq, Eq, Structural)]
pub enum StateKey {
    Discord,
    Dsek,
}

/// The nonce the session holds under `key`.
pub open spec fn stored_state(s: SessionView, key: StateKey) -> Option<Seq<char>> {
    match key {
        StateKey::Discord => s.discord_state,
        StateKey::Dsek => s.dsek_state,
    }
}

/// Fails closed unless a nonce was stored under `key` and it exactly equals
/// the presented `state`, with no normalization. A missing nonce and a
/// mismatched one yield the same `Forbidden` outcome, so a caller cannot
/// tell which occurred.
pub fn verify_state(
    session: &PendingLinkSession,
    oauth_return: &OAuthReturn,
    key: StateKey,
) -> (r: Result<(), LinkError>)
    ensures
        (r is Ok) <==> stored_state(session@, key) == Some(oauth_return.state@),
        r matches Err(e) ==> e is Forbidden,
{
    let stored = match key {
        StateKey::Discord => &session.discord_uuid_state,
        StateKey::Dsek => &session.dsek_uuid_state,
    };
    match stored {
        Some(nonce) => {
            if str_eq(nonce.as_str(), oauth_return.state.as_str()) {
                Ok(())
            } else {
                Err(LinkError::Forbidden)
            }
        },
        None => Err(LinkError::Forbidden),
    }
}

/// Starts the flow: records a fresh Discord nonce in the session and returns
/// the Discord consent URL embedding that same nonce, to redirect to.
pub fn linked_role(session: &mut PendingLinkSession, discord_config: &OAuthConfig) -> (url: String)
    ensures
        final(session)@.discord_state is Some,
        url@ == crate::discord::discord_auth_url_spec(
            discord_config.client_id@,
            discord_config.redirect_uri@,
            final(session)@.discord_state->0,
        ),
        final(session)@.dsek_state == old(session)@.dsek_state,
        final(session)@.discord_user_id == old(session)@.discord_user_id,
{
    crate::discord::generate_oauth_url(session, discord_config)
}

/// Validates the Discord callback against the stored nonce. On success the
/// returned exchange method carries the presented authorization code; a
/// missing or mismatched state refuses the callback before any exchange.
pub fn begin_discord_callback(
    session: &PendingLinkSession,
    oauth_return: &OAuthReturn,
) -> (r: Result<AuthMethod, LinkError>)
    ensures
        (r is Ok) <==> session@.discord_state == Some(oauth_return.state@),
        r matches Ok(m) ==> m matches AuthMethod::Code(c) && c@ == oauth_return.code@,
        r matches Err(e) ==> e is Forbidden,
{
    match verify_state(session, oauth_return, StateKey::Discord) {
        Ok(_) => Ok(AuthMethod::Code(oauth_return.code.clone())),
        Err(e) => Err(e),
    }
}

/// Completes the Discord step once the token exchange and identity fetch
/// have succeeded: upserts the identity record and the token pair, records
/// the Discord user id in the session, stores a fresh Dsek nonce, and
/// returns the Dsek consent URL for the second hop.
pub fn complete_discord_callback(
    session: &mut PendingLinkSession,
    store: &mut Store,
    user_data: &DiscordUserData,
    oauth_token: DiscordOAuthCredentials,
    dsek_config: &OAuthConfig,
) -> (url: String)
    requires
        old(store).wf(),
    ensures
        final(store).wf(),
        final(store)@.discord_users == old(store)@.discord_users.insert(
            user_data.user_id@,
            user_data.username@,
        ),
        final(store)@.tokens == old(store)@.tokens.insert(user_data.user_id@, oauth_token@),
        final(store)@.dsek_users == old(store)@.dsek_users,
        final(store)@.links == old(store)@.links,
        final(session)@.discord_user_id == Some(user_data.user_id@),
        final(session)@.discord_state == old(session)@.discord_state,
        final(session)@.dsek_state is Some,
        url@ == crate::dsek::dsek_auth_url_spec(
            dsek_config.client_id@,
            dsek_config.redirect_uri@,
            final(session)@.dsek_state->0,
        ),
{
    store.store_discord_user(user_data);
    store.store_discord_token(user_data.user_id.as_str(), oauth_token);
    session.discord_user_id = Some(user_data.user_id.clone());
    crate::dsek::generate_oauth_url(session, dsek_config)
}

/// Validates the Dsek callback against the stored nonce. On success the
/// presented authorization code is returned for the exchange; a missing or
/// mismatched state refuses the callback.
pub fn begin_dsek_callback(
    session: &PendingLinkSession,
    oauth_return: &OAuthReturn,
) -> (r: Result<String, LinkError>)
    ensures
        (r is Ok) <==> session@.dsek_state == Some(oauth_return.state@),
        r matches Ok(c) ==> c@ == oauth_return.code@,
        r matches Err(e) ==> e is Forbidden,
{
    match verify_state(session, oauth_return, StateKey::Dsek) {
        Ok(_) => Ok(oauth_return.code.clone()),
        Err(e) => Err(e),
    }
}

/// A completed link: both display identities, for the confirmation shown to
/// the user and for the metadata push that follows.
#[derive(Debug)]
pub struct LinkSuccess {
    pub discord_user_id: String,
    pub discord_username: String,
    pub stil_id: String,
}

/// Completes the Dsek step once the identity exchange has succeeded: reads
/// back the Discord identity recorded by the first step — its absence is a
/// session inconsistency, reported distinctly from forgery — then upserts
/// the Dsek identity and links the two identities, last write winning. On
/// any failure the store is left unchanged.
pub fn complete_dsek_callback(
    session: &PendingLinkSession,
    store: &mut Store,
    dsek_user: &DsekUserData,
) -> (r: Result<LinkSuccess, LinkError>)
    requires
        old(store).wf(),
    ensures
        final(store).wf(),
        (r is Ok) <==> (session@.discord_user_id matches Some(did) && old(
            store,
        )@.discord_users.contains_key(did)),
        r matches Err(e) ==> (e is SessionError <==> session@.discord_user_id is None),
        r matches Err(e) ==> (e is SessionError || e is NotFoundError),
        r is Err ==> final(store)@ == old(store)@,
        r matches Ok(s) ==> session@.discord_user_id == Some(s.discord_user_id@)
            && s.discord_username@ == old(store)@.discord_users[s.discord_user_id@]
            && s.stil_id@ == dsek_user.stil_id@ && final(store)@.links == old(
            store,
        )@.links.insert(s.discord_user_id@, dsek_user.stil_id@) && final(store)@.dsek_users == old(
            store,
        )@.dsek_users.insert(dsek_user.stil_id@, dsek_user.name@) && final(store)@.tokens == old(
            store,
        )@.tokens && final(store)@.discord_users == old(store)@.discord_users,
{
    let discord_user_id = match &session.discord_user_id {
        Some(id) => id,
        None => {
            return Err(LinkError::SessionError);
        },
    };
    let discord_username = match store.fetch_discord_username(discord_user_id.as_str()) {
        Ok(name) => name,
        Err(e) => {
            return Err(e);
        },
    };
    store.store_dsek_user(dsek_user);
    store.connect_users(discord_user_id.as_str(), dsek_user.stil_id.as_str());
    Ok(
        LinkSuccess {
            discord_user_id: discord_user_id.clone(),
            discord_username,
            stil_id: dsek_user.stil_id.clone(),
        },
    )
}

/// The confirmation shown after a completed link, naming both identities.
pub fn success_message(outcome: &LinkSuccess) -> (r: String)
    ensures
        r@ == "Successfully linked Discord account ("@ + outcome.discord_username@
            + ") with Dsek account ("@ + outcome.stil_id@
            + "). You may return to discord and close this tab."@,
{
    let mut r = "Successfully linked Discord account (".to_owned();
    r.append(outcome.discord_username.as_str());
    r.append(") with Dsek account (");
    r.append(outcome.stil_id.as_str());
    r.append("). You may return to discord and close this tab.");
    r
}

/// Completing both steps leaves the store holding exactly the presented
/// Dsek handle for the Discord identity, and a re-run of the full flow for
/// the same Discord identity overwrites the prior link instead of adding a
/// second one: the link table gains only that identity's key.
pub proof fn lemma_relink_overwrites(
    links: Map<Seq<char>, Seq<char>>,
    discord_id: Seq<char>,
    first_handle: Seq<char>,
    second_handle: Seq<char>,
)
    ensures
        links.insert(discord_id, first_handle)[discord_id] == first_handle,
        links.insert(discord_id, first_handle).insert(discord_id, second_handle) == links.insert(
            discord_id,
            second_handle,
        ),
        links.insert(discord_id, first_handle).dom() == links.dom().insert(discord_id),
{
    assert(links.insert(discord_id, first_handle).insert(discord_id, second_handle) =~= links.insert(
        discord_id,
        second_handle,
    ));
    assert(links.insert(discord_id, first_handle).dom() =~= links.dom().insert(discord_id));
}

} // verus!
