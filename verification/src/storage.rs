use crate::discord::{CredentialView, DiscordOAuthCredentials, DiscordUserData};
use crate::dsek::DsekUserData;
use crate::error::LinkError;
use crate::text::str_eq;
use vstd::prelude::*;

verus! {

/// A keyed table as a map from the key's characters to the value's
/// abstraction. Later rows take precedence, though a well-formed table never
/// holds two rows with the same key.
pub open spec fn table_view<V: View>(rows: Seq<(String, V)>) -> Map<Seq<char>, V::V>
    decreases rows.len(),
{
    if rows.len() == 0 {
        Map::empty()
    } else {
        table_view(rows.drop_last()).insert(rows.last().0@, rows.last().1@)
    }
}

/// Every key appears in at most one row.
pub open spec fn table_wf<V>(rows: Seq<(String, V)>) -> bool {
    forall|i: int, j: int| 0 <= i < j < rows.len() ==> rows[i].0@ != rows[j].0@
}

proof fn lemma_wf_drop_last<V>(rows: Seq<(String, V)>)
    requires
        table_wf(rows),
        rows.len() > 0,
    ensures
        table_wf(rows.drop_last()),
{
    assert forall|i: int, j: int|
        0 <= i < j < rows.drop_last().len() implies rows.drop_last()[i].0@
        != rows.drop_last()[j].0@ by {
        assert(rows.drop_last()[i] == rows[i]);
        assert(rows.drop_last()[j] == rows[j]);
    }
}

/// A key is in the table's map exactly when some row holds it.
proof fn lemma_table_dom<V: View>(rows: Seq<(String, V)>, k: Seq<char>)
    ensures
        table_view(rows).contains_key(k) <==> exists|i: int|
            0 <= i < rows.len() && rows[i].0@ == k,
    decreases rows.len(),
{
    if rows.len() == 0 {
    } else {
        lemma_table_dom(rows.drop_last(), k);
        if table_view(rows).contains_key(k) {
            if k == rows.last().0@ {
                assert(rows[rows.len() - 1].0@ == k);
            } else {
                let i = choose|i: int|
                    0 <= i < rows.drop_last().len() && rows.drop_last()[i].0@ == k;
                assert(rows[i].0@ == k);
            }
        }
        if exists|i: int| 0 <= i < rows.len() && rows[i].0@ == k {
            let i = choose|i: int| 0 <= i < rows.len() && rows[i].0@ == k;
            if i < rows.len() - 1 {
                assert(rows.drop_last()[i].0@ == k);
            }
        }
    }
}

/// In a well-formed table, the row holding a key gives the map's value.
proof fn lemma_table_at<V: View>(rows: Seq<(String, V)>, i: int)
    requires
        table_wf(rows),
        0 <= i < rows.len(),
    ensures
        table_view(rows).contains_key(rows[i].0@),
        table_view(rows)[rows[i].0@] == rows[i].1@,
    decreases rows.len(),
{
    if i == rows.len() - 1 {
    } else {
        lemma_wf_drop_last(rows);
        lemma_table_at(rows.drop_last(), i);
        assert(rows.drop_last()[i] == rows[i]);
        assert(rows[i].0@ != rows[rows.len() - 1].0@);
    }
}

/// Overwriting the row that holds a key updates the map at that key alone.
proof fn lemma_table_update<V: View>(rows: Seq<(String, V)>, i: int, p: (String, V))
    requires
        table_wf(rows),
        0 <= i < rows.len(),
        p.0@ == rows[i].0@,
    ensures
        table_wf(rows.update(i, p)),
        table_view(rows.update(i, p)) == table_view(rows).insert(p.0@, p.1@),
    decreases rows.len(),
{
    let updated = rows.update(i, p);
    assert forall|a: int, b: int|
        0 <= a < b < updated.len() implies updated[a].0@ != updated[b].0@ by {
        assert(rows[a].0@ != rows[b].0@);
    }
    if i == rows.len() - 1 {
        assert(updated.drop_last() =~= rows.drop_last());
        assert(updated.last() == p);
        assert(table_view(updated) =~= table_view(rows).insert(p.0@, p.1@));
    } else {
        lemma_wf_drop_last(rows);
        assert(updated.drop_last() =~= rows.drop_last().update(i, p));
        assert(updated.last() == rows.last());
        lemma_table_update(rows.drop_last(), i, p);
        assert(rows[i].0@ != rows[rows.len() - 1].0@);
        assert(table_view(updated) =~= table_view(rows).insert(p.0@, p.1@));
    }
}

/// The row index holding `key`, if one does.
fn table_find<V: View>(rows: &Vec<(String, V)>, key: &str) -> (r: Option<usize>)
    ensures
        r matches Some(i) ==> i < rows@.len() && rows@[i as int].0@ == key@,
        r is None ==> forall|i: int| 0 <= i < rows@.len() ==> rows@[i].0@ != key@,
{
    let mut i: usize = 0;
    while i < rows.len()
        invariant
            i <= rows@.len(),
            forall|j: int| 0 <= j < i ==> rows@[j].0@ != key@,
        decreases rows@.len() - i,
    {
        if str_eq(rows[i].0.as_str(), key) {
            return Some(i);
        }
        i = i + 1;
    }
    None
}

/// The value stored under `key`, exactly when the table's map holds the key.
fn table_get<'a, V: View>(rows: &'a Vec<(String, V)>, key: &str) -> (r: Option<&'a V>)
    requires
        table_wf(rows@),
    ensures
        r matches Some(v) ==> table_view(rows@).contains_key(key@) && v@ == table_view(rows@)[key@],
        r is None ==> !table_view(rows@).contains_key(key@),
{
    match table_find(rows, key) {
        Some(i) => {
            proof {
                lemma_table_at(rows@, i as int);
            }
            Some(&rows[i].1)
        },
        None => {
            proof {
                lemma_table_dom(rows@, key@);
            }
            None
        },
    }
}

/// Upserts `key` to `value`: the single row holding the key is replaced, or
/// a row is appended when none holds it.
fn table_put<V: View>(rows: &mut Vec<(String, V)>, key: String, value: V)
    requires
        table_wf(old(rows)@),
    ensures
        table_wf(final(rows)@),
        table_view(final(rows)@) == table_view(old(rows)@).insert(key@, value@),
{
    match table_find(rows, key.as_str()) {
        Some(i) => {
            let ghost orig = rows@;
            rows[i] = (key, value);
            proof {
                lemma_table_update(orig, i as int, rows@[i as int]);
            }
        },
        None => {
            rows.push((key, value));
            proof {
                assert(rows@.drop_last() =~= old(rows)@);
                assert forall|a: int, b: int|
                    0 <= a < b < rows@.len() implies rows@[a].0@ != rows@[b].0@ by {
                    if b < rows@.len() - 1 {
                        assert(old(rows)@[a].0@ != old(rows)@[b].0@);
                    } else {
                        assert(old(rows)@[a].0@ != key@);
                    }
                }
            }
        },
    }
}

/// The durable linked-account store: Discord token pairs, the identity
/// records of both providers, and the account links, each an upsert table
/// with point lookups, keyed by the owning identity.
pub struct Store {
    tokens: Vec<(String, DiscordOAuthCredentials)>,
    discord_users: Vec<(String, String)>,
    dsek_users: Vec<(String, String)>,
    links: Vec<(String, String)>,
}

/// What the store holds: token pairs keyed by Discord user id, display names
/// keyed by each provider's identity id, and the Dsek handle linked to each
/// Discord user id.
pub struct StoreView {
    pub tokens: Map<Seq<char>, CredentialView>,
    pub discord_users: Map<Seq<char>, Seq<char>>,
    pub dsek_users: Map<Seq<char>, Seq<char>>,
    pub links: Map<Seq<char>, Seq<char>>,
}

impl View for Store {
    type V = StoreView;

    closed spec fn view(&self) -> StoreView {
        StoreView {
            tokens: table_view(self.tokens@),
            discord_users: table_view(self.discord_users@),
            dsek_users: table_view(self.dsek_users@),
            links: table_view(self.links@),
        }
    }
}

impl Store {
    /// Each table holds at most one row per key.
    pub closed spec fn wf(&self) -> bool {
        table_wf(self.tokens@) && table_wf(self.discord_users@) && table_wf(self.dsek_users@)
            && table_wf(self.links@)
    }

    /// An empty store.
    pub fn new() -> (s: Store)
        ensures
            s.wf(),
            s@.tokens == Map::<Seq<char>, CredentialView>::empty(),
            s@.discord_users == Map::<Seq<char>, Seq<char>>::empty(),
            s@.dsek_users == Map::<Seq<char>, Seq<char>>::empty(),
            s@.links == Map::<Seq<char>, Seq<char>>::empty(),
    {
        Store {
            tokens: Vec::new(),
            discord_users: Vec::new(),
            dsek_users: Vec::new(),
            links: Vec::new(),
        }
    }

    /// The stored token pair of a Discord user; absent exactly when no row
    /// for that user exists.
    pub fn get_token(&self, user_id: &str) -> (r: Result<DiscordOAuthCredentials, LinkError>)
        requires
            self.wf(),
        ensures
            (r is Ok) <==> self@.tokens.contains_key(user_id@),
            r matches Ok(c) ==> c@ == self@.tokens[user_id@],
            r matches Err(e) ==> e is NotFoundError,
    {
        match table_get(&self.tokens, user_id) {
            Some(c) => Ok(c.duplicate()),
            None => Err(LinkError::NotFoundError),
        }
    }

    /// Upserts the token pair of a Discord user; no other table changes.
    pub fn store_discord_token(&mut self, user_id: &str, oauth: DiscordOAuthCredentials)
        requires
            old(self).wf(),
        ensures
            final(self).wf(),
            final(self)@.tokens == old(self)@.tokens.insert(user_id@, oauth@),
            final(self)@.discord_users == old(self)@.discord_users,
            final(self)@.dsek_users == old(self)@.dsek_users,
            final(self)@.links == old(self)@.links,
    {
        table_put(&mut self.tokens, user_id.to_owned(), oauth);
    }

    /// Upserts a Discord identity record, keyed by the user id; no other
    /// table changes.
    pub fn store_discord_user(&mut self, user_data: &DiscordUserData)
        requires
            old(self).wf(),
        ensures
            final(self).wf(),
            final(self)@.discord_users == old(self)@.discord_users.insert(
                user_data.user_id@,
                user_data.username@,
            ),
            final(self)@.tokens == old(self)@.tokens,
            final(self)@.dsek_users == old(self)@.dsek_users,
            final(self)@.links == old(self)@.links,
    {
        table_put(&mut self.discord_users, user_data.user_id.clone(), user_data.username.clone());
    }

    /// Upserts a Dsek identity record, keyed by the STIL handle; no other
    /// table changes.
    pub fn store_dsek_user(&mut self, user: &DsekUserData)
        requires
            old(self).wf(),
        ensures
            final(self).wf(),
            final(self)@.dsek_users == old(self)@.dsek_users.insert(user.stil_id@, user.name@),
            final(self)@.tokens == old(self)@.tokens,
            final(self)@.discord_users == old(self)@.discord_users,
            final(self)@.links == old(self)@.links,
    {
        table_put(&mut self.dsek_users, user.stil_id.clone(), user.name.clone());
    }

    /// Upserts the link from a Discord user to a Dsek handle: the last write
    /// for a Discord user wins. No other table changes.
    pub fn connect_users(&mut self, user_id: &str, stil_id: &str)
        requires
            old(self).wf(),
        ensures
            final(self).wf(),
            final(self)@.links == old(self)@.links.insert(user_id@, stil_id@),
            final(self)@.tokens == old(self)@.tokens,
            final(self)@.discord_users == old(self)@.discord_users,
            final(self)@.dsek_users == old(self)@.dsek_users,
    {
        table_put(&mut self.links, user_id.to_owned(), stil_id.to_owned());
    }

    /// The stored display name of a Discord user.
    pub fn fetch_discord_username(&self, user_id: &str) -> (r: Result<String, LinkError>)
        requires
            self.wf(),
        ensures
            (r is Ok) <==> self@.discord_users.contains_key(user_id@),
            r matches Ok(s) ==> s@ == self@.discord_users[user_id@],
            r matches Err(e) ==> e is NotFoundError,
    {
        match table_get(&self.discord_users, user_id) {
            Some(s) => Ok(s.clone()),
            None => Err(LinkError::NotFoundError),
        }
    }

    /// The Dsek handle linked to a Discord user; absent exactly when the
    /// link was never made.
    pub fn fetch_dsek_username(&self, user_id: &str) -> (r: Result<String, LinkError>)
        requires
            self.wf(),
        ensures
            (r is Ok) <==> self@.links.contains_key(user_id@),
            r matches Ok(s) ==> s@ == self@.links[user_id@],
            r matches Err(e) ==> e is NotFoundError,
    {
        match table_get(&self.links, user_id) {
            Some(s) => Ok(s.clone()),
            None => Err(LinkError::NotFoundError),
        }
    }
}

} // verus!
