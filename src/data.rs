use vstd::prelude::*;

verus! {

/// A post as the remote source serves it. Replaced whole on reload, never edited.
#[derive(Clone, Debug, PartialEq, Eq)]
pub struct Post {
    pub id: i32,
    pub user_id: i32,
    pub title: String,
    pub body: String,
}

/// A comment on a post. `post_id` refers to a post; nothing here enforces that it exists.
#[derive(Clone, Debug, PartialEq, Eq)]
pub struct Comment {
    pub post_id: i32,
    pub id: i32,
    pub name: String,
    pub email: String,
    pub body: String,
}

} // verus!
