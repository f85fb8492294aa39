use vstd::prelude::*;

use crate::data::{Comment, Post};
use crate::route::Route;

verus! {

/// A slot whose value arrives later: still awaited, or there.
#[derive(Clone, Debug, PartialEq, Eq)]
pub enum Loadable<T> {
    Pending,
    Ready(T),
}

/// A fetch that did not succeed. The cause is not told apart.
#[derive(Clone, Copy, Debug, PartialEq, Eq, Structural)]
pub struct FetchFailed;

/// What the controller reacts to: a user's request, or a fetch that completed.
#[derive(Debug, PartialEq, Eq)]
pub enum Message {
    PostsFound(Result<Vec<Post>, FetchFailed>),
    PostFound(Result<Post, FetchFailed>),
    CommentsFound(Result<Vec<Comment>, FetchFailed>),
    GoToList,
    GoToDetail(i32),
}

/// A fetch that the runtime is asked to run; its completion comes back as a `Message`.
#[derive(Clone, Copy, Debug, PartialEq, Eq, Structural)]
pub enum Work {
    FetchAllPosts,
    FetchPost(i32),
    FetchComments(i32),
}

/// The application state: the route shown and the three slots the fetches fill.
#[derive(Clone, Debug, PartialEq, Eq)]
pub struct App {
    pub route: Route,
    pub posts: Loadable<Vec<Post>>,
    pub post: Loadable<Post>,
    pub comments: Loadable<Vec<Comment>>,
}

/// The state at startup: the list, with every slot pending.
pub open spec fn initial() -> App {
    App {
        route: Route::List,
        posts: Loadable::Pending,
        post: Loadable::Pending,
        comments: Loadable::Pending,
    }
}

/// The state that follows `s` on message `m`.
///
/// Going to the list re-arms the post and comments slots; going to a detail re-arms
/// the posts slot. A successful completion fills its slot whatever the route is now;
/// a failed one leaves the state as it was.
pub open spec fn next_state(s: App, m: Message) -> App {
    match m {
        Message::GoToList => App {
            route: Route::List,
            posts: s.posts,
            post: Loadable::Pending,
            comments: Loadable::Pending,
        },
        Message::GoToDetail(id) => App {
            route: Route::Detail(id),
            posts: Loadable::Pending,
            post: s.post,
            comments: s.comments,
        },
        Message::PostsFound(Ok(v)) => App {
            route: s.route,
            posts: Loadable::Ready(v),
            post: s.post,
            comments: s.comments,
        },
        Message::PostFound(Ok(p)) => App {
            route: s.route,
            posts: s.posts,
            post: Loadable::Ready(p),
            comments: s.comments,
        },
        Message::CommentsFound(Ok(v)) => App {
            route: s.route,
            posts: s.posts,
            post: s.post,
            comments: Loadable::Ready(v),
        },
        _ => s,
    }
}

/// The fetches that message `m` asks for, in the order they are handed out.
pub open spec fn work_for(m: Message) -> Seq<Work> {
    match m {
        Message::GoToList => seq![Work::FetchAllPosts],
        Message::GoToDetail(id) => seq![Work::FetchPost(id), Work::FetchComments(id)],
        _ => seq![],
    }
}

/// Whether `m` reports a fetch that failed.
pub open spec fn is_failure(m: Message) -> bool {
    match m {
        Message::PostsFound(Err(_)) => true,
        Message::PostFound(Err(_)) => true,
        Message::CommentsFound(Err(_)) => true,
        _ => false,
    }
}

/// Going to the list twice in a row: the second step leaves the state that the first
/// one made, and each step asks again for all posts.
pub proof fn lemma_go_to_list_twice(s: App)
    ensures
        next_state(s, Message::GoToList).route == Route::List,
        next_state(s, Message::GoToList).post == Loadable::<Post>::Pending,
        next_state(s, Message::GoToList).comments == Loadable::<Vec<Comment>>::Pending,
        next_state(next_state(s, Message::GoToList), Message::GoToList) == next_state(
            s,
            Message::GoToList,
        ),
        work_for(Message::GoToList) == seq![Work::FetchAllPosts],
{
}

/// A ready slot goes back to pending only by the navigation that re-arms it: the posts
/// slot by going to a detail, the post and comments slots by going to the list. A failed
/// fetch changes nothing at all.
pub proof fn lemma_ready_slots_stay_ready(s: App, m: Message)
    ensures
        s.posts is Ready && !(m is GoToDetail) ==> next_state(s, m).posts is Ready,
        s.post is Ready && !(m is GoToList) ==> next_state(s, m).post is Ready,
        s.comments is Ready && !(m is GoToList) ==> next_state(s, m).comments is Ready,
        is_failure(m) ==> next_state(s, m) == s,
{
}

/// The post and the comments of one navigation may complete in either order: the
/// state reached is the same.
pub proof fn lemma_post_and_comments_commute(
    s: App,
    post: Result<Post, FetchFailed>,
    comments: Result<Vec<Comment>, FetchFailed>,
)
    ensures
        next_state(
            next_state(s, Message::PostFound(post)),
            Message::CommentsFound(comments),
        ) == next_state(
            next_state(s, Message::CommentsFound(comments)),
            Message::PostFound(post),
        ),
{
}

impl App {
    /// The startup state, and the one fetch it starts: all posts.
    pub fn new() -> (r: (App, Vec<Work>))
        ensures
            r.0 == initial(),
            r.1@ == seq![Work::FetchAllPosts],
    {
        let app = App {
            route: Route::List,
            posts: Loadable::Pending,
            post: Loadable::Pending,
            comments: Loadable::Pending,
        };
        (app, vec![Work::FetchAllPosts])
    }

    /// The window title.
    pub fn title(&self) -> (r: String)
        ensures
            r@ == "App - Iced"@,
    {
        String::from_str("App - Iced")
    }

    /// Applies one message. The new state and the fetches to start are functions of
    /// the old state and the message alone.
    pub fn update(&mut self, message: Message) -> (r: Vec<Work>)
        ensures
            *final(self) == next_state(*old(self), message),
            r@ == work_for(message),
    {
        match message {
            Message::GoToList => {
                self.post = Loadable::Pending;
                self.comments = Loadable::Pending;
                self.route = Route::List;
                vec![Work::FetchAllPosts]
            },
            Message::GoToDetail(id) => {
                self.route = Route::Detail(id);
                self.posts = Loadable::Pending;
                vec![Work::FetchPost(id), Work::FetchComments(id)]
            },
            Message::PostsFound(posts) => {
                match posts {
                    Err(_) => {},
                    Ok(data) => {
                        self.posts = Loadable::Ready(data);
                    },
                }
                Vec::new()
            },
            Message::PostFound(post) => {
                match post {
                    Err(_) => {},
                    Ok(data) => {
                        self.post = Loadable::Ready(data);
                    },
                }
                Vec::new()
            },
            Message::CommentsFound(comments) => {
                match comments {
                    Err(_) => {},
                    Ok(data) => {
                        self.comments = Loadable::Ready(data);
                    },
                }
                Vec::new()
            },
        }
    }
}

} // verus!
