use vstd::prelude::*;

verus! {

/// A piece of content. Its owner is the user that created it.
#[derive(Debug, Clone)]
pub struct Post {
    pub id: u128,
    pub user_id: u128,
    pub title: String,
    pub content: String,
    pub created_at: i64,
}

/// What a [`Post`] holds, as mathematical values.
pub struct PostView {
    pub id: u128,
    pub user_id: u128,
    pub title: Seq<char>,
    pub content: Seq<char>,
    pub created_at: i64,
}

impl View for Post {
    type V = PostView;

    open spec fn view(&self) -> PostView {
        PostView {
            id: self.id,
            user_id: self.user_id,
            title: self.title@,
            content: self.content@,
            created_at: self.created_at,
        }
    }
}

/// The views of a sequence of posts, in the same order.
pub open spec fn post_views(posts: Seq<Post>) -> Seq<PostView> {
    posts.map_values(|p: Post| p@)
}

} // verus!
