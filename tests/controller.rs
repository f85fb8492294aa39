use posts_app::data::{Comment, Post};
use posts_app::route::Route;
use posts_app::state::{App, FetchFailed, Loadable, Message, Work};
use posts_app::view::{Action, Widget};

fn post(id: i32, user_id: i32, title: &str, body: &str) -> Post {
    Post { id, user_id, title: title.to_string(), body: body.to_string() }
}

fn comment(post_id: i32, id: i32, name: &str, email: &str, body: &str) -> Comment {
    Comment {
        post_id,
        id,
        name: name.to_string(),
        email: email.to_string(),
        body: body.to_string(),
    }
}

fn text(content: &str, size: u16) -> Widget {
    Widget::Text { content: content.to_string(), size }
}

fn home() -> Widget {
    Widget::Button { label: "Home".to_string(), on_press: Action::GoToList }
}

fn detail_of_seven() -> App {
    let (mut app, _) = App::new();
    app.update(Message::GoToDetail(7));
    app
}

#[test]
fn start_state_is_list_with_one_fetch() {
    let (app, work) = App::new();
    assert_eq!(app.route, Route::List);
    assert_eq!(app.posts, Loadable::Pending);
    assert_eq!(app.post, Loadable::Pending);
    assert_eq!(app.comments, Loadable::Pending);
    assert_eq!(work, vec![Work::FetchAllPosts]);
}

#[test]
fn title_is_fixed() {
    let (app, _) = App::new();
    assert_eq!(app.title(), "App - Iced");
}

#[test]
fn scenario_posts_loaded_on_start() {
    let (mut app, _) = App::new();
    let posts = vec![post(1, 10, "a", "x"), post(2, 20, "b", "y")];
    let work = app.update(Message::PostsFound(Ok(posts.clone())));
    assert!(work.is_empty());
    assert_eq!(app.route, Route::List);
    assert_eq!(app.posts, Loadable::Ready(posts));
    match &app.posts {
        Loadable::Ready(v) => assert_eq!(v.len(), 2),
        Loadable::Pending => panic!("posts should be ready"),
    }
}

#[test]
fn scenario_navigate_to_detail() {
    let (mut app, _) = App::new();
    app.update(Message::PostsFound(Ok(vec![post(7, 1, "t", "b")])));
    let work = app.update(Message::GoToDetail(7));
    assert_eq!(app.route, Route::Detail(7));
    assert_eq!(app.posts, Loadable::Pending);
    assert_eq!(work, vec![Work::FetchPost(7), Work::FetchComments(7)]);
}

#[test]
fn scenario_failed_post_leaves_state() {
    let mut app = detail_of_seven();
    let before = app.clone();
    let work = app.update(Message::PostFound(Err(FetchFailed)));
    assert!(work.is_empty());
    assert_eq!(app, before);
    assert_eq!(app.post, Loadable::Pending);
}

#[test]
fn scenario_empty_comments_show_label_only() {
    let mut app = detail_of_seven();
    app.update(Message::CommentsFound(Ok(vec![])));
    assert_eq!(app.comments, Loadable::Ready(vec![]));
    let screen = app.view();
    assert_eq!(
        screen,
        vec![
            home(),
            text("Detail page: 7", 50),
            text("loading...", 20),
            text("Comments:", 20),
        ]
    );
}

#[test]
fn scenario_back_to_list_then_stale_post() {
    let mut app = detail_of_seven();
    app.update(Message::PostFound(Ok(post(7, 1, "t", "b"))));
    app.update(Message::CommentsFound(Ok(vec![comment(7, 1, "n", "e", "c")])));
    let work = app.update(Message::GoToList);
    assert_eq!(app.route, Route::List);
    assert_eq!(app.posts, Loadable::Pending);
    assert_eq!(app.post, Loadable::Pending);
    assert_eq!(app.comments, Loadable::Pending);
    assert_eq!(work, vec![Work::FetchAllPosts]);
    app.update(Message::PostFound(Ok(post(3, 2, "old", "late"))));
    assert_eq!(app.post, Loadable::Ready(post(3, 2, "old", "late")));
    assert_eq!(app.route, Route::List);
}

#[test]
fn same_state_and_message_give_same_result() {
    let mut a = detail_of_seven();
    let mut b = detail_of_seven();
    let wa = a.update(Message::PostsFound(Ok(vec![post(1, 1, "t", "b")])));
    let wb = b.update(Message::PostsFound(Ok(vec![post(1, 1, "t", "b")])));
    assert_eq!(a, b);
    assert_eq!(wa, wb);
}

#[test]
fn go_to_list_twice_is_idempotent() {
    let mut app = detail_of_seven();
    app.update(Message::PostFound(Ok(post(7, 1, "t", "b"))));
    let first = app.update(Message::GoToList);
    let once = app.clone();
    let second = app.update(Message::GoToList);
    assert_eq!(app, once);
    assert_eq!(first, vec![Work::FetchAllPosts]);
    assert_eq!(second, vec![Work::FetchAllPosts]);
}

#[test]
fn ready_slots_survive_other_events_and_failures() {
    let mut app = detail_of_seven();
    app.update(Message::PostFound(Ok(post(7, 1, "t", "b"))));
    app.update(Message::CommentsFound(Ok(vec![])));
    app.update(Message::PostsFound(Err(FetchFailed)));
    app.update(Message::CommentsFound(Err(FetchFailed)));
    app.update(Message::GoToDetail(8));
    assert_eq!(app.post, Loadable::Ready(post(7, 1, "t", "b")));
    assert_eq!(app.comments, Loadable::Ready(vec![]));
    app.update(Message::PostsFound(Ok(vec![])));
    app.update(Message::GoToList);
    assert_eq!(app.posts, Loadable::Ready(vec![]));
}

#[test]
fn post_and_comments_in_either_order() {
    let p = post(7, 1, "t", "b");
    let cs = vec![comment(7, 1, "n", "e", "c"), comment(7, 2, "m", "f", "d")];
    let mut a = detail_of_seven();
    a.update(Message::PostFound(Ok(p.clone())));
    a.update(Message::CommentsFound(Ok(cs.clone())));
    let mut b = detail_of_seven();
    b.update(Message::CommentsFound(Ok(cs)));
    b.update(Message::PostFound(Ok(p)));
    assert_eq!(a, b);
}

#[test]
fn view_is_deterministic() {
    let mut app = detail_of_seven();
    app.update(Message::PostFound(Ok(post(7, 1, "t", "b"))));
    assert_eq!(app.view(), app.view());
}

#[test]
fn list_view_pending_and_ready() {
    let (mut app, _) = App::new();
    assert_eq!(
        app.view(),
        vec![home(), text("List page", 50), text("loading...", 20)]
    );
    app.update(Message::PostsFound(Ok(vec![
        post(2, 5, "second", "two"),
        post(1, 4, "first", "one"),
    ])));
    assert_eq!(
        app.view(),
        vec![
            home(),
            text("List page", 50),
            text("2 | 5 | second | two", 12),
            Widget::Button { label: "Detail".to_string(), on_press: Action::GoToDetail(2) },
            text("1 | 4 | first | one", 12),
            Widget::Button { label: "Detail".to_string(), on_press: Action::GoToDetail(1) },
        ]
    );
}

#[test]
fn detail_view_with_post_and_comments() {
    let mut app = detail_of_seven();
    app.update(Message::CommentsFound(Ok(vec![comment(7, 31, "Ann", "a@x.io", "hi")])));
    assert_eq!(
        app.view(),
        vec![
            home(),
            text("Detail page: 7", 50),
            text("loading...", 20),
            text("Comments:", 20),
            text("7 | 31 | Ann | a@x.io | hi", 12),
        ]
    );
    app.update(Message::PostFound(Ok(post(7, 123, "Title", "Body"))));
    assert_eq!(app.view()[2], text("7 | 123 | Title | Body", 12));
}

#[test]
fn detail_view_of_negative_and_extreme_ids() {
    let (mut app, _) = App::new();
    app.update(Message::GoToDetail(-42));
    assert_eq!(app.view()[1], text("Detail page: -42", 50));
    app.update(Message::GoToDetail(i32::MIN));
    assert_eq!(app.view()[1], text("Detail page: -2147483648", 50));
    app.update(Message::PostFound(Ok(post(i32::MAX, 0, "", ""))));
    assert_eq!(app.view()[2], text("2147483647 | 0 |  | ", 12));
}

#[test]
fn detail_button_sends_navigation() {
    assert_eq!(Action::GoToDetail(9).message(), Message::GoToDetail(9));
    assert_eq!(Action::GoToList.message(), Message::GoToList);
}
