use vstd::prelude::*;

verus! {

/// The screen that is shown: the list of posts, or one post with its comments.
#[derive(Clone, Copy, Debug, PartialEq, Eq, Structural)]
pub enum Route {
    List,
    Detail(i32),
}

} // verus!
