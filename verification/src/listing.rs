//! Listings: the order in which posts are shown, and the cut of one page.

use crate::dto::responses::PaginatedResponse;
use crate::models::Post;
use vstd::prelude::*;
use vstd::multiset::Multiset;
use vstd::seq_lib::*;

verus! {

/// Whether posts stand newest first: no post is older than one after it.
/// Posts of the same second may stand in either order.
pub open spec fn newest_first(posts: Seq<Post>) -> bool {
    forall|i: int, j: int|
        #![trigger posts[i], posts[j]]
        0 <= i <= j < posts.len() ==> posts[i].created_at >= posts[j].created_at
}

/// Sorts posts by creation time, newest first. The result holds the same
/// posts, each as often as before.
pub fn sort_newest_first(posts: Vec<Post>) -> (sorted: Vec<Post>)
    ensures
        newest_first(sorted@),
        sorted@.to_multiset() == posts@.to_multiset(),
{
    let mut rest = posts;
    let mut sorted: Vec<Post> = Vec::new();
    proof {
        broadcast use vstd::multiset::group_multiset_axioms;

        assert(sorted@.to_multiset() =~= Multiset::<Post>::empty()) by {
            sorted@.to_multiset_ensures();
        }
        assert(sorted@.to_multiset().add(rest@.to_multiset()) =~= posts@.to_multiset());
    }
    while rest.len() > 0
        invariant
            newest_first(sorted@),
            sorted@.to_multiset().add(rest@.to_multiset()) == posts@.to_multiset(),
        decreases rest.len(),
    {
        let ghost rest_before = rest@;
        let ghost sorted_before = sorted@;
        let post = rest.pop().unwrap();
        let mut at: usize = 0;
        while at < sorted.len() && sorted[at].created_at >= post.created_at
            invariant
                at <= sorted.len(),
                forall|k: int| 0 <= k < at ==> (#[trigger] sorted@[k]).created_at >= post.created_at,
            decreases sorted.len() - at,
        {
            at += 1;
        }
        sorted.insert(at, post);
        proof {
            broadcast use vstd::multiset::group_multiset_axioms;

            assert(rest_before =~= rest@.push(post));
            to_multiset_build(rest@, post);
            to_multiset_insert(sorted_before, at as int, post);
            assert(sorted@.to_multiset().add(rest@.to_multiset()) =~= sorted_before.to_multiset().add(
                rest_before.to_multiset(),
            ));
            assert forall|i: int, j: int|
                #![trigger sorted@[i], sorted@[j]]
                0 <= i <= j < sorted@.len() implies sorted@[i].created_at
                >= sorted@[j].created_at by {
                if i < at && j > at {
                    assert(sorted@[i] == sorted_before[i]);
                    assert(sorted@[j] == sorted_before[j - 1]);
                } else if i < at && j < at {
                    assert(sorted@[i] == sorted_before[i]);
                    assert(sorted@[j] == sorted_before[j]);
                } else if i > at {
                    assert(sorted@[i] == sorted_before[i - 1]);
                    assert(sorted@[j] == sorted_before[j - 1]);
                } else if i == at && j > at {
                    assert(sorted@[j] == sorted_before[j - 1]);
                    assert(sorted_before[at as int].created_at < post.created_at);
                    assert(sorted_before[at as int].created_at >= sorted_before[j - 1].created_at);
                } else if i < at && j == at {
                    assert(sorted@[i] == sorted_before[i]);
                }
            }
        }
    }
    proof {
        broadcast use vstd::multiset::group_multiset_axioms;

        assert(rest@.to_multiset() =~= Multiset::<Post>::empty()) by {
            rest@.to_multiset_ensures();
        }
        assert(sorted@.to_multiset().add(rest@.to_multiset()) =~= sorted@.to_multiset());
    }
    sorted
}

/// The index of the first item of a page: pages count from 1, and page 0
/// is read as page 1.
pub open spec fn page_start(page: usize, limit: usize) -> int {
    if page >= 1 {
        (page - 1) * limit
    } else {
        0
    }
}

/// The items of a page: those from the page's first index up to `limit`
/// items on, as far as the listing goes; none where the page starts beyond
/// its end.
pub open spec fn page_of<T>(all: Seq<T>, page: usize, limit: usize) -> Seq<T> {
    let start = page_start(page, limit);
    if start < all.len() {
        if start + limit <= all.len() {
            all.subrange(start, start + limit)
        } else {
            all.subrange(start, all.len() as int)
        }
    } else {
        Seq::empty()
    }
}

/// Cuts one page out of a listing. The total is the length of the whole
/// listing, whatever the page.
pub fn paginate<T>(all: Vec<T>, page: usize, limit: usize) -> (r: PaginatedResponse<T>)
    ensures
        r.data@ == page_of(all@, page, limit),
        r.page == page,
        r.limit == limit,
        r.total == all@.len(),
{
    let mut all = all;
    let ghost whole = all@;
    let total = all.len();
    let first: usize = if page >= 1 {
        page - 1
    } else {
        0
    };
    let data = match first.checked_mul(limit) {
        Some(start) if start < total => {
            let mut tail = all.split_off(start);
            tail.truncate(limit);
            assert(tail@ =~= page_of(whole, page, limit));
            tail
        },
        Some(_) => Vec::new(),
        None => {
            assert(page_start(page, limit) > usize::MAX);
            Vec::new()
        },
    };
    PaginatedResponse { data, page, limit, total }
}

} // verus!
