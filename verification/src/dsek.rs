use crate::error::LinkError;
use crate::oauth::{auth_url_spec, build_authorization_url, new_state_nonce, OAuthConfig};
use crate::session::PendingLinkSession;
use crate::text::string_from_utf8;
use vstd::prelude::*;
use vstd::slice::slice_to_vec;

verus! {

/// The ASCII code of `.`, which separates the segments of a compact
/// identity token.
pub const DOT: u8 = 46;

/// A Dsek identity as carried in the portal's identity token: the member's
/// name, the groups the member belongs to, and the stable STIL handle.
#[derive(Debug)]
pub struct DsekUserData {
    pub name: String,
    pub groups: Vec<String>,
    pub stil_id: String,
}

/// The Dsek portal's consent URL embedding `state`.
pub open spec fn dsek_auth_url_spec(
    client_id: Seq<char>,
    redirect_uri: Seq<char>,
    state: Seq<char>,
) -> Seq<char> {
    auth_url_spec(
        "https://portal.dsek.se/realms/dsek/protocol/openid-connect/auth"@,
        client_id,
        redirect_uri,
        state,
        "openid"@,
    )
}

/// Draws a fresh state nonce, records it in the session under the Dsek key,
/// and returns the portal's consent URL embedding that same nonce.
pub fn generate_oauth_url(session: &mut PendingLinkSession, config: &OAuthConfig) -> (url: String)
    ensures
        final(session)@.dsek_state is Some,
        url@ == dsek_auth_url_spec(
            config.client_id@,
            config.redirect_uri@,
            final(session)@.dsek_state->0,
        ),
        final(session)@.discord_state == old(session)@.discord_state,
        final(session)@.discord_user_id == old(session)@.discord_user_id,
{
    let state = new_state_nonce();
    let url = build_authorization_url(
        "https://portal.dsek.se/realms/dsek/protocol/openid-connect/auth",
        config.client_id.as_str(),
        config.redirect_uri.as_str(),
        state.as_str(),
        "openid",
    );
    session.dsek_uuid_state = Some(state);
    url
}

/// The `application/x-www-form-urlencoded` fields of a Dsek token request,
/// as key/value pairs in the order they are sent.
pub fn token_request_form(code: String, config: &OAuthConfig) -> (form: Vec<(String, String)>)
    ensures
        form@.len() == 5,
        form@[0].0@ == "grant_type"@ && form@[0].1@ == "authorization_code"@,
        form@[1].0@ == "code"@ && form@[1].1@ == code@,
        form@[2].0@ == "redirect_uri"@ && form@[2].1@ == config.redirect_uri@,
        form@[3].0@ == "client_id"@ && form@[3].1@ == config.client_id@,
        form@[4].0@ == "client_secret"@ && form@[4].1@ == config.client_secret@,
{
    let mut form: Vec<(String, String)> = Vec::new();
    form.push(("grant_type".to_owned(), "authorization_code".to_owned()));
    form.push(("code".to_owned(), code));
    form.push(("redirect_uri".to_owned(), config.redirect_uri.clone()));
    form.push(("client_id".to_owned(), config.client_id.clone()));
    form.push(("client_secret".to_owned(), config.client_secret.clone()));
    form
}

/// The payload segment of a compact identity token: the bytes between the
/// first `.` and the next one, or the end if no second `.` follows. Absent
/// when the token holds no `.` at all.
pub open spec fn jwt_payload_segment(token: Seq<u8>) -> Option<Seq<u8>> {
    match token.index_of_first(DOT) {
        Some(i) => {
            let rest = token.subrange(i + 1, token.len() as int);
            match rest.index_of_first(DOT) {
                Some(j) => Some(rest.subrange(0, j)),
                None => Some(rest),
            }
        },
        None => None,
    }
}

/// What the base64 engine with the standard alphabet and no padding decodes
/// the input to, absent when the input is not valid base64 of that shape.
pub uninterp spec fn b64_nopad_decode(bytes: Seq<u8>) -> Option<Seq<u8>>;

/// Relies on `base64`'s `GeneralPurpose` engine over the standard alphabet
/// with `NO_PAD`: decoding succeeds or fails as a function of the input
/// bytes alone.
#[verifier::external_body]
fn base64_decode_nopad(bytes: &[u8]) -> (r: Option<Vec<u8>>)
    ensures
        r matches Some(v) ==> b64_nopad_decode(bytes@) == Some(v@),
        r is None ==> b64_nopad_decode(bytes@) is None,
{
    let engine = base64::engine::GeneralPurpose::new(
        &base64::alphabet::STANDARD,
        base64::engine::general_purpose::NO_PAD,
    );
    base64::Engine::decode(&engine, bytes).ok()
}

/// The first index of `target` in the slice at or after `from`.
fn find_byte(s: &[u8], from: usize, target: u8) -> (r: Option<usize>)
    requires
        from <= s@.len(),
    ensures
        r matches Some(i) ==> from <= i < s@.len() && s@[i as int] == target && (forall|j: int|
            from <= j < i ==> s@[j] != target),
        r is None ==> forall|j: int| from <= j < s@.len() ==> s@[j] != target,
{
    let mut i: usize = from;
    while i < s.len()
        invariant
            from <= i <= s@.len(),
            forall|j: int| from <= j < i ==> s@[j] != target,
        decreases s@.len() - i,
    {
        if s[i] == target {
            return Some(i);
        }
        i = i + 1;
    }
    None
}

/// Extracts the payload segment of the compact token. A token with no dot in
/// it cannot carry a payload and is malformed.
pub fn extract_payload_segment(token: &[u8]) -> (r: Result<Vec<u8>, LinkError>)
    ensures
        (r is Ok) <==> jwt_payload_segment(token@) is Some,
        r matches Ok(v) ==> jwt_payload_segment(token@) == Some(v@),
        r matches Err(e) ==> e is MalformedResponseError,
{
    let n = token.len();
    proof {
        token@.index_of_first_ensures(DOT);
    }
    match find_byte(token, 0, DOT) {
        None => {
            proof {
                assert(!token@.contains(DOT)) by {
                    if token@.contains(DOT) {
                        let w = choose|w: int| 0 <= w < token@.len() && token@[w] == DOT;
                        assert(token@[w] != DOT);
                    }
                }
            }
            Err(LinkError::MalformedResponseError)
        },
        Some(i) => {
            let ghost fi = token@.index_of_first(DOT)->0;
            proof {
                assert(token@.contains(DOT)) by {
                    assert(token@[i as int] == DOT);
                }
                assert(fi == i as int) by {
                    if fi < i as int {
                        assert(token@[fi] != DOT);
                    }
                    if fi > i as int {
                        assert(token@[i as int] != DOT);
                    }
                }
            }
            let ghost rest = token@.subrange(i + 1, token@.len() as int);
            proof {
                rest.index_of_first_ensures(DOT);
            }
            assert(i < n);
            let end: usize = match find_byte(token, i + 1, DOT) {
                Some(j) => {
                    proof {
                        assert(rest[j - i - 1] == DOT);
                        assert(rest.contains(DOT));
                        let rj = rest.index_of_first(DOT)->0;
                        assert(rj == j - i - 1) by {
                            if rj < j - i - 1 {
                                assert(token@[rj + i + 1] != DOT);
                                assert(rest[rj] == token@[rj + i + 1]);
                            }
                            if rj > j - i - 1 {
                                assert(rest[j - i - 1] != DOT);
                            }
                        }
                    }
                    j
                },
                None => {
                    proof {
                        assert(!rest.contains(DOT)) by {
                            if rest.contains(DOT) {
                                let w = choose|w: int|
                                    0 <= w < rest.len() && rest[w] == DOT;
                                assert(token@[w + i + 1] != DOT);
                            }
                        }
                    }
                    n
                },
            };
            let seg = slice_to_vec(&token[i + 1..end]);
            proof {
                assert(seg@ =~= jwt_payload_segment(token@)->0);
            }
            Ok(seg)
        },
    }
}

/// Decodes the payload of the provider's identity token: the second
/// dot-separated segment, base64-decoded and read as UTF-8. A token that
/// fails any stage is a malformed response.
pub fn decode_id_token_payload(token: &[u8]) -> (r: Result<String, LinkError>)
    ensures
        (r is Ok) <==> (jwt_payload_segment(token@) matches Some(seg) && b64_nopad_decode(seg)
            matches Some(bytes) && vstd::utf8::valid_utf8(bytes)),
        r matches Ok(s) ==> (jwt_payload_segment(token@) matches Some(seg) && b64_nopad_decode(
            seg,
        ) matches Some(bytes) && s@ == vstd::utf8::decode_utf8(bytes)),
        r matches Err(e) ==> e is MalformedResponseError,
{
    let seg = extract_payload_segment(token)?;
    match base64_decode_nopad(seg.as_slice()) {
        None => Err(LinkError::MalformedResponseError),
        Some(bytes) => match string_from_utf8(bytes) {
            None => Err(LinkError::MalformedResponseError),
            Some(s) => Ok(s),
        },
    }
}

} // verus!
