//! Posts: creation, the paginated listing, lookup and deletion by the
//! owner.

use crate::auth::{authenticate_at, authenticated_user, header_view, require_owner};
use crate::clock::unix_now;
use crate::dto::requests::{post_report, post_valid, CreatePostRequest};
use crate::dto::responses::{PaginatedResponse, PaginationParams};
use crate::errors::ApiError;
use crate::ids::fresh_id;
use crate::listing::{newest_first, page_of, paginate, sort_newest_first};
use crate::models::{Post, PostView};
use crate::states::{scan_of, AppState, StateView};
use vstd::prelude::*;
use vstd::seq_lib::*;

verus! {

/// The status that answers a created post.
pub const CREATED: u16 = 201;

/// The status that answers a deleted post.
pub const NO_CONTENT: u16 = 204;

/// The store after a post has been put under its id.
pub open spec fn with_post(s: StateView, post: PostView) -> StateView {
    StateView { posts: s.posts.insert(post.id, post), ..s }
}

/// The store after the post under an id has been removed.
pub open spec fn without_post(s: StateView, id: u128) -> StateView {
    StateView { posts: s.posts.remove(id), ..s }
}

/// What [`create_post_with`] returns and leaves in the store. The fields
/// are checked first, then the caller's identity.
pub open spec fn post_created(
    old: StateView,
    header: Option<Seq<char>>,
    title: Seq<char>,
    content: Seq<char>,
    id: u128,
    now: i64,
    r: Result<(u16, Post), ApiError>,
    new: StateView,
) -> bool {
    if !post_valid(title, content) {
        r matches Err(ApiError::ValidationError(msg)) && msg@ == post_report(title, content) && new
            == old
    } else {
        match authenticated_user(header, old.jwt_secret, now) {
            None => r matches Err(ApiError::Unauthorized) && new == old,
            Some(user_id) => {
                let post = PostView { id, user_id, title, content, created_at: now };
                r matches Ok(answer) && answer.0 == CREATED && answer.1@ == post && new
                    == with_post(old, post)
            },
        }
    }
}

/// Creates a post under the given id at the given time. The caller
/// becomes its owner.
pub fn create_post_with(
    state: &mut AppState,
    header: Option<&str>,
    payload: CreatePostRequest,
    id: u128,
    now: i64,
) -> (r: Result<(u16, Post), ApiError>)
    requires
        old(state)@.wf(),
    ensures
        final(state)@.wf(),
        post_created(
            old(state)@,
            header_view(header),
            payload.title@,
            payload.content@,
            id,
            now,
            r,
            final(state)@,
        ),
{
    match payload.validate() {
        Ok(_) => {},
        Err(e) => {
            return Err(e);
        },
    }
    let user_id = match authenticate_at(header, state.jwt_secret(), now) {
        Ok(id) => id,
        Err(e) => {
            return Err(e);
        },
    };
    let stored = Post {
        id,
        user_id,
        title: payload.title.clone(),
        content: payload.content.clone(),
        created_at: now,
    };
    state.insert_post(stored);
    let post = Post { id, user_id, title: payload.title, content: payload.content, created_at: now };
    Ok((CREATED, post))
}

/// Creates a post now, under a fresh id. Whatever the id and the time
/// are, the outcome is that of [`create_post_with`] for some id and time.
pub fn create_post(state: &mut AppState, header: Option<&str>, payload: CreatePostRequest) -> (r:
    Result<(u16, Post), ApiError>)
    requires
        old(state)@.wf(),
    ensures
        final(state)@.wf(),
        exists|id: u128, now: i64|
            post_created(
                old(state)@,
                header_view(header),
                payload.title@,
                payload.content@,
                id,
                now,
                r,
                final(state)@,
            ),
{
    let id = fresh_id();
    let now = unix_now();
    create_post_with(state, header, payload, id, now)
}

/// Whether a list is the whole listing of a post table: every post of the
/// table once, newest first.
pub open spec fn listing_of(all: Seq<Post>, rows: Map<u128, PostView>) -> bool {
    scan_of(all, rows) && newest_first(all)
}

/// Lists one page of the posts, newest first. Posts of the same second
/// stand in no particular order. The total counts all posts, whatever the
/// page.
pub fn get_posts(state: &AppState, params: PaginationParams) -> (r: PaginatedResponse<Post>)
    requires
        state@.wf(),
    ensures
        r.page == params.page,
        r.limit == params.limit,
        state@.posts.dom().finite(),
        r.total == state@.posts.dom().len(),
        exists|all: Seq<Post>|
            listing_of(all, state@.posts) && r.data@ == page_of(all, params.page, params.limit),
{
    let posts = state.scan_posts();
    let sorted = sort_newest_first(posts);
    let ghost all = sorted@;
    proof {
        lemma_same_posts_same_scan(posts@, all, state@.posts);
        lemma_scan_counts(all, state@.posts);
    }
    let r = paginate(sorted, params.page, params.limit);
    assert(listing_of(all, state@.posts) && r.data@ == page_of(all, params.page, params.limit));
    r
}

/// A list that holds the same posts as a scan of a table, each as often,
/// is a scan of the table too.
pub proof fn lemma_same_posts_same_scan(a: Seq<Post>, b: Seq<Post>, rows: Map<u128, PostView>)
    requires
        scan_of(a, rows),
        a.to_multiset() == b.to_multiset(),
    ensures
        scan_of(b, rows),
{
    broadcast use vstd::multiset::group_multiset_axioms;

    assert(a.no_duplicates()) by {
        assert forall|i: int, j: int| 0 <= i < a.len() && 0 <= j < a.len() && i != j implies a[i]
            != a[j] by {
            if i < j {
                assert(a[i].id != a[j].id);
            } else {
                assert(a[j].id != a[i].id);
            }
        }
    }
    a.lemma_multiset_has_no_duplicates();
    b.lemma_multiset_has_no_duplicates_conv();
    assert forall|i: int| 0 <= i < b.len() implies a.contains(#[trigger] b[i]) by {
        to_multiset_contains(b, b[i]);
        to_multiset_contains(a, b[i]);
        assert(b.contains(b[i]));
    }
    assert forall|i: int| 0 <= i < b.len() implies rows.contains_key((#[trigger] b[i]).id)
        && rows[b[i].id] == b[i]@ by {
        assert(a.contains(b[i]));
        let k = choose|k: int| 0 <= k < a.len() && a[k] == b[i];
        assert(rows.contains_key(a[k].id));
    }
    assert forall|i: int, j: int| 0 <= i < j < b.len() implies (#[trigger] b[i]).id != (
    #[trigger] b[j]).id by {
        assert(a.contains(b[i]));
        assert(a.contains(b[j]));
        let ki = choose|k: int| 0 <= k < a.len() && a[k] == b[i];
        let kj = choose|k: int| 0 <= k < a.len() && a[k] == b[j];
        assert(b[i] != b[j]);
        if ki < kj {
            assert(a[ki].id != a[kj].id);
        } else {
            assert(a[kj].id != a[ki].id);
        }
    }
    assert forall|id: u128| rows.contains_key(id) implies exists|i: int|
        0 <= i < b.len() && (#[trigger] b[i]).id == id by {
        let k = choose|k: int| 0 <= k < a.len() && (#[trigger] a[k]).id == id;
        to_multiset_contains(a, a[k]);
        to_multiset_contains(b, a[k]);
        assert(a.contains(a[k]));
        assert(b.contains(a[k]));
        let m = choose|m: int| 0 <= m < b.len() && b[m] == a[k];
        assert(b[m].id == id);
    }
}

/// A scan of a table is as long as the table has entries.
pub proof fn lemma_scan_counts(a: Seq<Post>, rows: Map<u128, PostView>)
    requires
        scan_of(a, rows),
    ensures
        rows.dom().finite(),
        rows.dom().len() == a.len(),
{
    let ids = a.map_values(|p: Post| p.id);
    assert(ids.no_duplicates()) by {
        assert forall|i: int, j: int| 0 <= i < ids.len() && 0 <= j < ids.len() && i != j implies ids[i]
            != ids[j] by {
            if i < j {
                assert(a[i].id != a[j].id);
            } else {
                assert(a[j].id != a[i].id);
            }
        }
    }
    ids.unique_seq_to_set();
    assert(ids.to_set() =~= rows.dom()) by {
        assert forall|id: u128| ids.to_set().contains(id) implies rows.dom().contains(id) by {
            let k = choose|k: int| 0 <= k < ids.len() && ids[k] == id;
            assert(rows.contains_key(a[k].id));
        }
        assert forall|id: u128| rows.dom().contains(id) implies ids.to_set().contains(id) by {
            let k = choose|k: int| 0 <= k < a.len() && (#[trigger] a[k]).id == id;
            assert(ids[k] == id);
        }
    }
}

/// What [`get_post`] returns.
pub open spec fn fetched(s: StateView, id: u128, r: Result<Post, ApiError>) -> bool {
    if s.posts.contains_key(id) {
        r matches Ok(post) && post@ == s.posts[id]
    } else {
        r matches Err(ApiError::NotFound)
    }
}

/// The post stored under an id; `NotFound` where there is none.
pub fn get_post(state: &AppState, id: u128) -> (r: Result<Post, ApiError>)
    ensures
        fetched(state@, id, r),
{
    match state.find_post(id) {
        Some(post) => Ok(post),
        None => Err(ApiError::NotFound),
    }
}

/// What [`delete_post_at`] returns and leaves in the store. The caller's
/// identity is checked first, then that the post exists, then that the
/// caller owns it.
pub open spec fn deleted(
    old: StateView,
    header: Option<Seq<char>>,
    id: u128,
    now: i64,
    r: Result<u16, ApiError>,
    new: StateView,
) -> bool {
    match authenticated_user(header, old.jwt_secret, now) {
        None => r matches Err(ApiError::Unauthorized) && new == old,
        Some(user_id) => if !old.posts.contains_key(id) {
            r matches Err(ApiError::NotFound) && new == old
        } else if old.posts[id].user_id != user_id {
            r matches Err(ApiError::Unauthorized) && new == old
        } else {
            r == Ok::<u16, ApiError>(NO_CONTENT) && new == without_post(old, id)
        },
    }
}

/// Deletes a post at a given time, for its owner only.
pub fn delete_post_at(state: &mut AppState, header: Option<&str>, id: u128, now: i64) -> (r: Result<
    u16,
    ApiError,
>)
    requires
        old(state)@.wf(),
    ensures
        final(state)@.wf(),
        deleted(old(state)@, header_view(header), id, now, r, final(state)@),
{
    let user_id = match authenticate_at(header, state.jwt_secret(), now) {
        Ok(id) => id,
        Err(e) => {
            return Err(e);
        },
    };
    let post = match state.find_post(id) {
        Some(post) => post,
        None => {
            return Err(ApiError::NotFound);
        },
    };
    match require_owner(post.user_id, user_id) {
        Ok(_) => {},
        Err(e) => {
            return Err(e);
        },
    }
    state.remove_post(id);
    Ok(NO_CONTENT)
}

/// Deletes a post now, for its owner only.
pub fn delete_post(state: &mut AppState, header: Option<&str>, id: u128) -> (r: Result<
    u16,
    ApiError,
>)
    requires
        old(state)@.wf(),
    ensures
        final(state)@.wf(),
        exists|now: i64| deleted(old(state)@, header_view(header), id, now, r, final(state)@),
{
    let now = unix_now();
    delete_post_at(state, header, id, now)
}

} // verus!
