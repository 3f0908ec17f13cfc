use vstd::prelude::*;

verus! {

/// The transient per-visitor linking state, carried in the browser session
/// and nowhere else: the anti-forgery nonce of each provider, and the Discord
/// identity once the first step has completed. Losing it mid-flow fails the
/// flow safely; no server-side state is left behind.
#[derive(Debug)]
pub struct PendingLinkSession {
    pub discord_uuid_state: Option<String>,
    pub dsek_uuid_state: Option<String>,
    pub discord_user_id: Option<String>,
}

/// The abstract session contents.
pub struct SessionView {
    pub discord_state: Option<Seq<char>>,
    pub dsek_state: Option<Seq<char>>,
    pub discord_user_id: Option<Seq<char>>,
}

impl View for PendingLinkSession {
    type V = SessionView;

    open spec fn view(&self) -> SessionView {
        SessionView {
            discord_state: match self.discord_uuid_state {
                Some(s) => Some(s@),
                None => None,
            },
            dsek_state: match self.dsek_uuid_state {
                Some(s) => Some(s@),
                None => None,
            },
            discord_user_id: match self.discord_user_id {
                Some(s) => Some(s@),
                None => None,
            },
        }
    }
}

impl PendingLinkSession {
    /// A fresh session holding nothing.
    pub fn new() -> (s: PendingLinkSession)
        ensures
            s@.discord_state is None,
            s@.dsek_state is None,
            s@.discord_user_id is None,
    {
        PendingLinkSession { discord_uuid_state: None, dsek_uuid_state: None, discord_user_id: None }
    }
}

} // verus!
