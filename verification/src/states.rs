//! The entity store: users and posts by id, and the index from email to
//! user id, each held in a concurrent map.

use crate::models::{Post, PostView, User, UserView};
use dashmap::DashMap;
use vstd::prelude::*;

verus! {

/// `dashmap::DashMap`, taken as an opaque type: what a map holds is named
/// by the functions below.
#[verifier::external_type_specification]
#[verifier::external_body]
#[verifier::reject_recursive_types(K)]
#[verifier::reject_recursive_types(V)]
#[verifier::reject_recursive_types(S)]
pub struct ExDashMap<K, V, S>(DashMap<K, V, S>);

/// The entries of a user table: each id with the user stored under it.
pub uninterp spec fn user_rows(m: DashMap<u128, User>) -> Map<u128, UserView>;

/// The entries of a post table: each id with the post stored under it.
pub uninterp spec fn post_rows(m: DashMap<u128, Post>) -> Map<u128, PostView>;

/// The entries of an email index: each email with the id it is reserved
/// for.
pub uninterp spec fn index_rows(m: DashMap<String, u128>) -> Map<Seq<char>, u128>;

/// `DashMap::new`: a table without entries.
#[verifier::external_body]
fn users_new() -> (m: DashMap<u128, User>)
    ensures
        user_rows(m) =~= Map::empty(),
{
    DashMap::new()
}

/// `DashMap::insert`: the id now maps to the user, every other entry stays.
#[verifier::external_body]
fn users_insert(m: &mut DashMap<u128, User>, id: u128, user: User)
    ensures
        user_rows(*final(m)) == user_rows(*old(m)).insert(id, user@),
{
    m.insert(id, user);
}

/// `DashMap::get`, with the value cloned out of the guard: the user stored
/// under the id, `None` where there is none.
#[verifier::external_body]
fn users_get(m: &DashMap<u128, User>, id: u128) -> (r: Option<User>)
    ensures
        r matches Some(user) ==> user_rows(*m).contains_key(id) && user_rows(*m)[id] == user@,
        r is None ==> !user_rows(*m).contains_key(id),
{
    m.get(&id).map(|entry| entry.value().clone())
}

/// `DashMap::new`: a table without entries.
#[verifier::external_body]
fn posts_new() -> (m: DashMap<u128, Post>)
    ensures
        post_rows(m) =~= Map::empty(),
{
    DashMap::new()
}

/// `DashMap::insert`: the id now maps to the post, every other entry stays.
#[verifier::external_body]
fn posts_insert(m: &mut DashMap<u128, Post>, id: u128, post: Post)
    ensures
        post_rows(*final(m)) == post_rows(*old(m)).insert(id, post@),
{
    m.insert(id, post);
}

/// `DashMap::get`, with the value cloned out of the guard: the post stored
/// under the id, `None` where there is none.
#[verifier::external_body]
fn posts_get(m: &DashMap<u128, Post>, id: u128) -> (r: Option<Post>)
    ensures
        r matches Some(post) ==> post_rows(*m).contains_key(id) && post_rows(*m)[id] == post@,
        r is None ==> !post_rows(*m).contains_key(id),
{
    m.get(&id).map(|entry| entry.value().clone())
}

/// `DashMap::remove`: the entry under the id is gone, every other stays.
#[verifier::external_body]
fn posts_remove(m: &mut DashMap<u128, Post>, id: u128)
    ensures
        post_rows(*final(m)) == post_rows(*old(m)).remove(id),
{
    m.remove(&id);
}

/// Whether a list of keyed posts holds each entry of a table once: the
/// keys are those of the table, none twice, each with the post stored
/// under it. The order is left open.
pub open spec fn snapshot_of(entries: Seq<(u128, Post)>, rows: Map<u128, PostView>) -> bool {
    &&& forall|i: int, j: int|
        0 <= i < j < entries.len() ==> (#[trigger] entries[i]).0 != (#[trigger] entries[j]).0
    &&& forall|i: int|
        0 <= i < entries.len() ==> rows.contains_key((#[trigger] entries[i]).0) && rows[entries[i].0]
            == entries[i].1@
    &&& forall|id: u128|
        rows.contains_key(id) ==> exists|i: int|
            0 <= i < entries.len() && (#[trigger] entries[i]).0 == id
}

/// `DashMap::iter`, with each entry's key and a clone of its value
/// collected: every entry of the table once, in the order in which the
/// map is walked, which nothing fixes.
#[verifier::external_body]
fn posts_entries(m: &DashMap<u128, Post>) -> (entries: Vec<(u128, Post)>)
    ensures
        snapshot_of(entries@, post_rows(*m)),
{
    m.iter().map(|entry| (*entry.key(), entry.value().clone())).collect()
}

/// `DashMap::new`: an index without entries.
#[verifier::external_body]
fn index_new() -> (m: DashMap<String, u128>)
    ensures
        index_rows(m) =~= Map::empty(),
{
    DashMap::new()
}

/// `DashMap::insert`: the email now maps to the id, every other entry
/// stays.
#[verifier::external_body]
fn index_insert(m: &mut DashMap<String, u128>, email: String, id: u128)
    ensures
        index_rows(*final(m)) == index_rows(*old(m)).insert(email@, id),
{
    m.insert(email, id);
}

/// `DashMap::get`, with the value copied out of the guard: the id the
/// email is reserved for, `None` where it is free.
#[verifier::external_body]
fn index_get(m: &DashMap<String, u128>, email: &str) -> (r: Option<u128>)
    ensures
        r matches Some(id) ==> index_rows(*m).contains_key(email@) && index_rows(*m)[email@] == id,
        r is None ==> !index_rows(*m).contains_key(email@),
{
    m.get(email).map(|entry| *entry.value())
}

/// `DashMap::contains_key`: whether the email has an entry.
#[verifier::external_body]
fn index_contains(m: &DashMap<String, u128>, email: &str) -> (r: bool)
    ensures
        r == index_rows(*m).contains_key(email@),
{
    m.contains_key(email)
}

/// The store that every request works on, and the secret that signs the
/// tokens.
pub struct AppState {
    users: DashMap<u128, User>,
    posts: DashMap<u128, Post>,
    email_index: DashMap<String, u128>,
    jwt_secret: String,
}

/// What an [`AppState`] holds, as mathematical values.
pub struct StateView {
    pub users: Map<u128, UserView>,
    pub posts: Map<u128, PostView>,
    pub email_index: Map<Seq<char>, u128>,
    pub jwt_secret: Seq<char>,
}

impl StateView {
    /// The user that holds an email, if one does.
    pub open spec fn user_by_email(self, email: Seq<char>) -> Option<UserView> {
        if self.email_index.contains_key(email) && self.users.contains_key(
            self.email_index[email],
        ) {
            Some(self.users[self.email_index[email]])
        } else {
            None
        }
    }

    /// The store's invariant: every user is stored under its own id and its
    /// email is in the index, pointing at it; every index entry points at a
    /// user with that email; every post is stored under its own id.
    pub open spec fn wf(self) -> bool {
        &&& forall|id: u128|
            #![trigger self.users.contains_key(id)]
            self.users.contains_key(id) ==> self.users[id].id == id
                && self.email_index.contains_key(self.users[id].email)
                && self.email_index[self.users[id].email] == id
        &&& forall|email: Seq<char>|
            #![trigger self.email_index.contains_key(email)]
            self.email_index.contains_key(email) ==> self.users.contains_key(
                self.email_index[email],
            ) && self.users[self.email_index[email]].email == email
        &&& forall|id: u128|
            #![trigger self.posts.contains_key(id)]
            self.posts.contains_key(id) ==> self.posts[id].id == id
    }
}

impl View for AppState {
    type V = StateView;

    closed spec fn view(&self) -> StateView {
        StateView {
            users: user_rows(self.users),
            posts: post_rows(self.posts),
            email_index: index_rows(self.email_index),
            jwt_secret: self.jwt_secret@,
        }
    }
}

impl AppState {
    /// An empty store with the given signing secret.
    pub fn new(jwt_secret: String) -> (state: AppState)
        ensures
            state@.users =~= Map::empty(),
            state@.posts =~= Map::empty(),
            state@.email_index =~= Map::empty(),
            state@.jwt_secret == jwt_secret@,
            state@.wf(),
    {
        AppState {
            users: users_new(),
            posts: posts_new(),
            email_index: index_new(),
            jwt_secret,
        }
    }

    /// The signing secret.
    pub fn jwt_secret(&self) -> (secret: &str)
        ensures
            secret@ == self@.jwt_secret,
    {
        self.jwt_secret.as_str()
    }

    /// The user stored under an id.
    pub fn get_user(&self, id: u128) -> (r: Option<User>)
        ensures
            match r {
                Some(user) => self@.users.contains_key(id) && self@.users[id] == user@,
                None => !self@.users.contains_key(id),
            },
    {
        users_get(&self.users, id)
    }

    /// The id an email is reserved for.
    pub fn lookup(&self, email: &str) -> (r: Option<u128>)
        ensures
            match r {
                Some(id) => self@.email_index.contains_key(email@) && self@.email_index[email@]
                    == id,
                None => !self@.email_index.contains_key(email@),
            },
    {
        index_get(&self.email_index, email)
    }

    /// Whether an email is taken.
    pub fn email_taken(&self, email: &str) -> (r: bool)
        ensures
            r == self@.email_index.contains_key(email@),
    {
        index_contains(&self.email_index, email)
    }

    /// Stores a new user and reserves its email for it, in one step.
    /// Refused, with the store unchanged, where the email or the id is
    /// already in use.
    pub fn reserve(&mut self, user: User) -> (stored: bool)
        requires
            old(self)@.wf(),
        ensures
            final(self)@.wf(),
            stored == (!old(self)@.email_index.contains_key(user@.email)
                && !old(self)@.users.contains_key(user@.id)),
            stored ==> final(self)@ == (StateView {
                users: old(self)@.users.insert(user@.id, user@),
                email_index: old(self)@.email_index.insert(user@.email, user@.id),
                ..old(self)@
            }),
            !stored ==> final(self)@ == old(self)@,
    {
        if index_contains(&self.email_index, user.email.as_str()) {
            return false;
        }
        if users_get(&self.users, user.id).is_some() {
            return false;
        }
        let id = user.id;
        let email = user.email.clone();
        let ghost before = self@;
        let ghost row = user@;
        index_insert(&mut self.email_index, email, id);
        users_insert(&mut self.users, id, user);
        proof {
            let after = self@;
            assert(after.users == before.users.insert(id, row));
            assert(after.email_index == before.email_index.insert(row.email, id));
            assert forall|k: u128|
                #![trigger after.users.contains_key(k)]
                after.users.contains_key(k) implies after.users[k].id == k && after.email_index.contains_key(after.users[k].email)
                && after.email_index[after.users[k].email] == k by {
                if k != id {
                    assert(before.users.contains_key(k));
                    assert(before.email_index.contains_key(before.users[k].email));
                }
            }
            assert forall|e: Seq<char>|
                #![trigger after.email_index.contains_key(e)]
                after.email_index.contains_key(e) implies after.users.contains_key(
                after.email_index[e],
            ) && after.users[after.email_index[e]].email == e by {
                if e != row.email {
                    assert(before.email_index.contains_key(e));
                    assert(before.users.contains_key(before.email_index[e]));
                }
            }
            assert(after.posts == before.posts);
        }
        true
    }

    /// Stores a post under its id, in place of any post already there.
    pub fn insert_post(&mut self, post: Post)
        requires
            old(self)@.wf(),
        ensures
            final(self)@.wf(),
            final(self)@ == (StateView {
                posts: old(self)@.posts.insert(post@.id, post@),
                ..old(self)@
            }),
    {
        let id = post.id;
        posts_insert(&mut self.posts, id, post);
        assert(self@.users == old(self)@.users && self@.email_index == old(self)@.email_index);
    }

    /// The post stored under an id.
    pub fn find_post(&self, id: u128) -> (r: Option<Post>)
        ensures
            match r {
                Some(post) => self@.posts.contains_key(id) && self@.posts[id] == post@,
                None => !self@.posts.contains_key(id),
            },
    {
        posts_get(&self.posts, id)
    }

    /// Removes the post stored under an id, if there is one.
    pub fn remove_post(&mut self, id: u128)
        requires
            old(self)@.wf(),
        ensures
            final(self)@.wf(),
            final(self)@ == (StateView { posts: old(self)@.posts.remove(id), ..old(self)@ }),
    {
        posts_remove(&mut self.posts, id);
        assert(self@.users == old(self)@.users && self@.email_index == old(self)@.email_index);
    }

    /// Every post of the store, once, in no particular order.
    pub fn scan_posts(&self) -> (posts: Vec<Post>)
        requires
            self@.wf(),
        ensures
            scan_of(posts@, self@.posts),
    {
        let mut entries = posts_entries(&self.posts);
        let ghost all = entries@;
        let mut posts: Vec<Post> = Vec::new();
        while entries.len() > 0
            invariant
                self@.wf(),
                snapshot_of(all, self@.posts),
                entries@.len() + posts@.len() == all.len(),
                forall|i: int| 0 <= i < entries@.len() ==> entries@[i] == all[i],
                forall|i: int|
                    0 <= i < posts@.len() ==> (#[trigger] posts@[i]) == all[all.len() - 1 - i].1,
            decreases entries.len(),
        {
            let entry = entries.pop().unwrap();
            posts.push(entry.1);
        }
        proof {
            let rows = self@.posts;
            assert forall|i: int| 0 <= i < posts@.len() implies rows.contains_key(
                (#[trigger] posts@[i]).id,
            ) && rows[posts@[i].id] == posts@[i]@ && posts@[i].id == all[all.len() - 1 - i].0 by {
                let e = all[all.len() - 1 - i];
                assert(rows.contains_key(e.0));
            }
            assert forall|i: int, j: int| 0 <= i < j < posts@.len() implies (#[trigger] posts@[i]).id
                != (#[trigger] posts@[j]).id by {
                let a = all[all.len() - 1 - i];
                let b = all[all.len() - 1 - j];
                assert(b.0 != a.0);
            }
            assert forall|id: u128| rows.contains_key(id) implies exists|i: int|
                0 <= i < posts@.len() && (#[trigger] posts@[i]).id == id by {
                let k = choose|k: int| 0 <= k < all.len() && (#[trigger] all[k]).0 == id;
                assert(posts@[all.len() - 1 - k].id == id);
            }
        }
        posts
    }
}

/// Whether a list of posts is a scan of a table: the posts are those of
/// the table, each once, each stored under its own id.
pub open spec fn scan_of(posts: Seq<Post>, rows: Map<u128, PostView>) -> bool {
    &&& forall|i: int, j: int|
        0 <= i < j < posts.len() ==> (#[trigger] posts[i]).id != (#[trigger] posts[j]).id
    &&& forall|i: int|
        0 <= i < posts.len() ==> rows.contains_key((#[trigger] posts[i]).id) && rows[posts[i].id]
            == posts[i]@
    &&& forall|id: u128|
        rows.contains_key(id) ==> exists|i: int|
            0 <= i < posts.len() && (#[trigger] posts[i]).id == id
}

} // verus!
