//! A store that keeps everything in memory. It implements both storage
//! interfaces, never fails for reasons of its own, and so gives each
//! operation one outcome: the one that its content calls for.

use vstd::prelude::*;
use vstd::hash_map::StringHashMap;
use crate::error::InternalError;
use crate::models::{
    OauthClient,
    OauthClientView,
    OauthSession,
    OauthSessionView,
    OauthToken,
    OauthTokenView,
    User,
    UserView,
};
use crate::store::{redeem, redeemed_record, OauthDatabase, UserDatabase};
use crate::text::{elements, str_eq};

verus! {

/// The fact that a user has granted a scope to a client.
#[derive(Debug)]
pub struct GrantedScope {
    pub client_id: String,
    pub user_id: String,
    pub scope: String,
}

/// Clients, codes, tokens and users by their keys, and the granted scopes
/// as a list of facts that only grows. A record counts as stored where it is
/// filed under its own key.
pub struct MemoryStore {
    clients: StringHashMap<OauthClient>,
    sessions: StringHashMap<OauthSession>,
    tokens: StringHashMap<OauthToken>,
    users: StringHashMap<User>,
    grants: Vec<GrantedScope>,
}

impl MemoryStore {
    /// Whether the `i`-th fact says that `uid` granted `scope` to `cid`.
    closed spec fn grants_at(
        &self,
        i: int,
        cid: Seq<char>,
        uid: Seq<char>,
        scope: Seq<char>,
    ) -> bool {
        &&& 0 <= i < self.grants.len()
        &&& self.grants[i].client_id@ == cid
        &&& self.grants[i].user_id@ == uid
        &&& self.grants[i].scope@ == scope
    }

    /// What was granted depends on the list of facts alone.
    proof fn same_facts_same_grants(a: MemoryStore, b: MemoryStore)
        requires
            a.grants@ == b.grants@,
        ensures
            forall|c: Seq<char>, u: Seq<char>| #[trigger]
                a.granted_scopes(c, u) == b.granted_scopes(c, u),
    {
        assert forall|c: Seq<char>, u: Seq<char>| #[trigger]
            a.granted_scopes(c, u) == b.granted_scopes(c, u) by {
            assert forall|w: Seq<char>|
                a.granted_scopes(c, u).contains(w) <==> b.granted_scopes(c, u).contains(w) by {
                if a.granted_scopes(c, u).contains(w) {
                    let j = choose|j: int| a.grants_at(j, c, u, w);
                    assert(b.grants_at(j, c, u, w));
                }
                if b.granted_scopes(c, u).contains(w) {
                    let j = choose|j: int| b.grants_at(j, c, u, w);
                    assert(a.grants_at(j, c, u, w));
                }
            }
            assert(a.granted_scopes(c, u) =~= b.granted_scopes(c, u));
        }
    }

    /// A store that holds nothing.
    pub fn new() -> (store: MemoryStore)
        ensures
            store.clients() == Map::<Seq<char>, OauthClientView>::empty(),
            store.sessions() == Map::<Seq<char>, OauthSessionView>::empty(),
            store.tokens() == Map::<Seq<char>, OauthTokenView>::empty(),
            store.users() == Map::<Seq<char>, UserView>::empty(),
            forall|c: Seq<char>, u: Seq<char>| #[trigger]
                store.granted_scopes(c, u) == Set::<Seq<char>>::empty(),
    {
        let store = MemoryStore {
            clients: StringHashMap::new(),
            sessions: StringHashMap::new(),
            tokens: StringHashMap::new(),
            users: StringHashMap::new(),
            grants: Vec::new(),
        };
        assert(store.clients() =~= Map::<Seq<char>, OauthClientView>::empty());
        assert(store.sessions() =~= Map::<Seq<char>, OauthSessionView>::empty());
        assert(store.tokens() =~= Map::<Seq<char>, OauthTokenView>::empty());
        assert(store.users() =~= Map::<Seq<char>, UserView>::empty());
        assert forall|c: Seq<char>, u: Seq<char>| #[trigger]
            store.granted_scopes(c, u) == Set::<Seq<char>>::empty() by {
            assert(store.granted_scopes(c, u) =~= Set::<Seq<char>>::empty());
        }
        store
    }

    /// Registers `client` under its id, in place of any client that was
    /// registered under it before.
    pub fn register_client(&mut self, client: OauthClient)
        ensures
            final(self).clients() == old(self).clients().insert(client@.id, client@),
            final(self).sessions() == old(self).sessions(),
            final(self).tokens() == old(self).tokens(),
            final(self).users() == old(self).users(),
            forall|c: Seq<char>, u: Seq<char>| #[trigger]
                final(self).granted_scopes(c, u) == old(self).granted_scopes(c, u),
    {
        let key = client.id.clone();
        self.clients.insert(key, client);
        assert(self.clients() =~= old(self).clients().insert(client@.id, client@));
        proof {
            Self::same_facts_same_grants(*self, *old(self));
        }
    }

    /// Adds `user` under their id, in place of any user that was there under
    /// it before.
    pub fn add_user(&mut self, user: User)
        ensures
            final(self).users() == old(self).users().insert(user@.id, user@),
            final(self).clients() == old(self).clients(),
            final(self).sessions() == old(self).sessions(),
            final(self).tokens() == old(self).tokens(),
            forall|c: Seq<char>, u: Seq<char>| #[trigger]
                final(self).granted_scopes(c, u) == old(self).granted_scopes(c, u),
    {
        let key = user.id.clone();
        self.users.insert(key, user);
        assert(self.users() =~= old(self).users().insert(user@.id, user@));
        proof {
            Self::same_facts_same_grants(*self, *old(self));
        }
    }
}

impl OauthDatabase for MemoryStore {
    open spec fn reliable(&self) -> bool {
        true
    }

    closed spec fn clients(&self) -> Map<Seq<char>, OauthClientView> {
        Map::new(
            |k: Seq<char>| self.clients@.contains_key(k) && self.clients@[k].id@ == k,
            |k: Seq<char>| self.clients@[k]@,
        )
    }

    closed spec fn sessions(&self) -> Map<Seq<char>, OauthSessionView> {
        Map::new(
            |k: Seq<char>| self.sessions@.contains_key(k) && self.sessions@[k].auth_code@ == k,
            |k: Seq<char>| self.sessions@[k]@,
        )
    }

    closed spec fn tokens(&self) -> Map<Seq<char>, OauthTokenView> {
        Map::new(
            |k: Seq<char>| self.tokens@.contains_key(k) && self.tokens@[k].token@ == k,
            |k: Seq<char>| self.tokens@[k]@,
        )
    }

    /// The client registered under `client_id`, or `NotFound`.
    fn fetch_client_config(&self, client_id: &str) -> (r: Result<OauthClient, InternalError>)
        ensures
            r is Ok <==> self.clients().contains_key(client_id@),
            r matches Err(e) ==> e is NotFound,
    {
        match self.clients.get(client_id) {
            Some(client) => {
                if str_eq(client.id.as_str(), client_id) {
                    Ok(client.clone())
                } else {
                    Err(InternalError::NotFound)
                }
            },
            None => Err(InternalError::NotFound),
        }
    }

    /// Stores the code, unless the same code is already there, which is a
    /// failed query.
    fn save_oauth_session(&mut self, session: OauthSession) -> (r: Result<(), InternalError>)
        ensures
            r is Ok <==> !old(self).sessions().contains_key(session@.auth_code),
            r matches Err(e) ==> e is QueryError,
    {
        let taken = match self.sessions.get(session.auth_code.as_str()) {
            Some(other) => str_eq(other.auth_code.as_str(), session.auth_code.as_str()),
            None => false,
        };
        if taken {
            return Err(InternalError::query_fail("error saving new oauth session"));
        }
        let key = session.auth_code.clone();
        self.sessions.insert(key, session);
        assert(self.sessions() =~= old(self).sessions().insert(session@.auth_code, session@));
        Ok(())
    }

    /// Takes the record of `code` out of the store, or finds nothing.
    fn consume_oauth_session_by_code(&mut self, code: &str) -> (r: Result<
        OauthSession,
        InternalError,
    >)
        ensures
            (redeemed_record(r), final(self).sessions()) == redeem(old(self).sessions(), code@),
            r matches Err(e) ==> e is NotFound,
    {
        let found = match self.sessions.get(code) {
            Some(session) => {
                if str_eq(session.auth_code.as_str(), code) {
                    Some(session.clone())
                } else {
                    None
                }
            },
            None => None,
        };
        match found {
            Some(session) => {
                self.sessions.remove(code);
                assert(self.sessions() =~= old(self).sessions().remove(code@));
                Ok(session)
            },
            None => Err(InternalError::NotFound),
        }
    }

    /// Stores the token, unless the same token is already there, which is a
    /// failed query.
    fn save_oauth_token(&mut self, data: &OauthToken) -> (r: Result<(), InternalError>)
        ensures
            r is Ok <==> !old(self).tokens().contains_key(data@.token),
            r matches Err(e) ==> e is QueryError,
    {
        let taken = match self.tokens.get(data.token.as_str()) {
            Some(other) => str_eq(other.token.as_str(), data.token.as_str()),
            None => false,
        };
        if taken {
            return Err(InternalError::query_fail("error saving new oauth token"));
        }
        let key = data.token.clone();
        self.tokens.insert(key, data.clone());
        assert(self.tokens() =~= old(self).tokens().insert(data@.token, data@));
        Ok(())
    }

    /// The record of `token`, or `NotFound`.
    fn load_token_data(&self, token: &str) -> (r: Result<OauthToken, InternalError>)
        ensures
            r is Ok <==> self.tokens().contains_key(token@),
            r matches Err(e) ==> e is NotFound,
    {
        match self.tokens.get(token) {
            Some(data) => {
                if str_eq(data.token.as_str(), token) {
                    Ok(data.clone())
                } else {
                    Err(InternalError::NotFound)
                }
            },
            None => Err(InternalError::NotFound),
        }
    }
}

impl UserDatabase for MemoryStore {
    open spec fn reliable(&self) -> bool {
        true
    }

    closed spec fn users(&self) -> Map<Seq<char>, UserView> {
        Map::new(
            |k: Seq<char>| self.users@.contains_key(k) && self.users@[k].id@ == k,
            |k: Seq<char>| self.users@[k]@,
        )
    }

    closed spec fn granted_scopes(&self, cid: Seq<char>, uid: Seq<char>) -> Set<Seq<char>> {
        Set::new(|scope: Seq<char>| exists|i: int| self.grants_at(i, cid, uid, scope))
    }

    /// The user `mail` where the digest `pass` is theirs, or `NotFound`.
    fn login(&self, mail: &str, pass: &str) -> (r: Result<User, InternalError>)
        ensures
            r is Ok <==> self.users().contains_key(mail@) && self.users()[mail@].password == pass@,
            r matches Err(e) ==> e is NotFound,
    {
        match self.users.get(mail) {
            Some(user) => {
                if str_eq(user.id.as_str(), mail) && str_eq(user.password.as_str(), pass) {
                    Ok(user.clone())
                } else {
                    Err(InternalError::NotFound)
                }
            },
            None => Err(InternalError::NotFound),
        }
    }

    /// The user `mail`, or `NotFound`.
    fn fetch_user(&self, mail: &str) -> (r: Result<User, InternalError>)
        ensures
            r is Ok <==> self.users().contains_key(mail@),
            r matches Err(e) ==> e is NotFound,
    {
        match self.users.get(mail) {
            Some(user) => {
                if str_eq(user.id.as_str(), mail) {
                    Ok(user.clone())
                } else {
                    Err(InternalError::NotFound)
                }
            },
            None => Err(InternalError::NotFound),
        }
    }

    /// The scopes that `uid` has granted to `cid`, in the order in which
    /// they were granted.
    fn fetch_granted_scopes(&self, cid: &str, uid: &str) -> (r: Result<Vec<String>, InternalError>)
        ensures
            r is Ok,
    {
        let mut list: Vec<String> = Vec::new();
        let mut i: usize = 0;
        while i < self.grants.len()
            invariant
                i <= self.grants.len(),
                forall|w: Seq<char>|
                    list.deep_view().contains(w) <==> exists|j: int|
                        j < i && self.grants_at(j, cid@, uid@, w),
            decreases self.grants.len() - i,
        {
            let ghost before = list.deep_view();
            let fact = &self.grants[i];
            if str_eq(fact.client_id.as_str(), cid) && str_eq(fact.user_id.as_str(), uid) {
                list.push(fact.scope.clone());
                assert(list.deep_view() =~= before.push(fact.scope@));
                assert(self.grants_at(i as int, cid@, uid@, fact.scope@));
            }
            assert forall|w: Seq<char>|
                list.deep_view().contains(w) <==> exists|j: int|
                    j < i + 1 && self.grants_at(j, cid@, uid@, w) by {
                if list.deep_view().contains(w) {
                    let now = list.deep_view();
                    let k = choose|k: int| 0 <= k < now.len() && now[k] == w;
                    if k < before.len() {
                        assert(before[k] == w);
                        assert(before.contains(w));
                        let j = choose|j: int| j < i && self.grants_at(j, cid@, uid@, w);
                        assert(j < i + 1 && self.grants_at(j, cid@, uid@, w));
                    } else {
                        assert(self.grants_at(i as int, cid@, uid@, w));
                    }
                }
                if exists|j: int| j < i + 1 && self.grants_at(j, cid@, uid@, w) {
                    let j = choose|j: int| j < i + 1 && self.grants_at(j, cid@, uid@, w);
                    if j < i {
                        assert(before.contains(w));
                        let k = choose|k: int| 0 <= k < before.len() && before[k] == w;
                        assert(list.deep_view()[k] == w);
                    } else {
                        assert(list.deep_view()[list.len() - 1] == w);
                    }
                }
            }
            i = i + 1;
        }
        assert forall|w: Seq<char>|
            list.deep_view().contains(w) <==> self.granted_scopes(cid@, uid@).contains(w) by {
            if list.deep_view().contains(w) {
                let j = choose|j: int| j < i && self.grants_at(j, cid@, uid@, w);
                assert(self.grants_at(j, cid@, uid@, w));
            }
            if self.granted_scopes(cid@, uid@).contains(w) {
                let j = choose|j: int| self.grants_at(j, cid@, uid@, w);
                assert(j < i && self.grants_at(j, cid@, uid@, w));
            }
        }
        Ok(list)
    }

    /// Notes one fact for each of `scopes`.
    fn save_granted_scopes(&mut self, uid: &str, cid: &str, scopes: &Vec<String>) -> (r: Result<
        (),
        InternalError,
    >)
        ensures
            r is Ok,
    {
        let mut i: usize = 0;
        assert(scopes.deep_view().take(0) =~= Seq::<Seq<char>>::empty());
        assert(self.granted_scopes(cid@, uid@) =~= old(self).granted_scopes(cid@, uid@).union(
            elements(scopes.deep_view().take(0)),
        ));
        while i < scopes.len()
            invariant
                i <= scopes.len(),
                self.clients == old(self).clients,
                self.sessions == old(self).sessions,
                self.tokens == old(self).tokens,
                self.users == old(self).users,
                forall|c: Seq<char>, u: Seq<char>|
                    !(c == cid@ && u == uid@) ==> #[trigger] self.granted_scopes(c, u)
                        == old(self).granted_scopes(c, u),
                self.granted_scopes(cid@, uid@) == old(self).granted_scopes(cid@, uid@).union(
                    elements(scopes.deep_view().take(i as int)),
                ),
            decreases scopes.len() - i,
        {
            let ghost before = *self;
            let fact = GrantedScope {
                client_id: cid.to_owned(),
                user_id: uid.to_owned(),
                scope: scopes[i].clone(),
            };
            self.grants.push(fact);
            let ghost n = before.grants.len() as int;
            assert(self.grants@ == before.grants@.push(fact));
            assert forall|c: Seq<char>, u: Seq<char>, w: Seq<char>|
                self.granted_scopes(c, u).contains(w) <==> before.granted_scopes(c, u).contains(w)
                    || (c == cid@ && u == uid@ && w == scopes[i as int]@) by {
                if self.granted_scopes(c, u).contains(w) {
                    let j = choose|j: int| self.grants_at(j, c, u, w);
                    if j < n {
                        assert(before.grants_at(j, c, u, w));
                    }
                }
                if before.granted_scopes(c, u).contains(w) {
                    let j = choose|j: int| before.grants_at(j, c, u, w);
                    assert(self.grants_at(j, c, u, w));
                }
                if c == cid@ && u == uid@ && w == scopes[i as int]@ {
                    assert(self.grants_at(n, c, u, w));
                }
            }
            assert forall|c: Seq<char>, u: Seq<char>| !(c == cid@ && u == uid@) implies #[trigger]
                self.granted_scopes(c, u) == old(self).granted_scopes(c, u) by {
                assert(self.granted_scopes(c, u) =~= before.granted_scopes(c, u));
            }
            assert(self.granted_scopes(cid@, uid@) =~= old(self).granted_scopes(cid@, uid@).union(
                elements(scopes.deep_view().take(i + 1)),
            )) by {
                let now = scopes.deep_view().take(i + 1);
                let earlier = scopes.deep_view().take(i as int);
                let target = old(self).granted_scopes(cid@, uid@).union(elements(now));
                assert(now =~= earlier.push(scopes[i as int]@));
                assert forall|w: Seq<char>|
                    self.granted_scopes(cid@, uid@).contains(w) <==> target.contains(w) by {
                    assert(self.granted_scopes(cid@, uid@).contains(w) <==> before.granted_scopes(
                        cid@,
                        uid@,
                    ).contains(w) || w == scopes[i as int]@);
                    if now.contains(w) {
                        let k = choose|k: int| 0 <= k < now.len() && now[k] == w;
                        if k < earlier.len() {
                            assert(earlier[k] == w);
                            assert(earlier.contains(w));
                        }
                    }
                    if earlier.contains(w) {
                        let k = choose|k: int| 0 <= k < earlier.len() && earlier[k] == w;
                        assert(now[k] == w);
                    }
                    if w == scopes[i as int]@ {
                        assert(now[i as int] == w);
                    }
                }
            }
            i = i + 1;
        }
        assert(scopes.deep_view().take(i as int) =~= scopes.deep_view());
        Ok(())
    }
}

} // verus!
