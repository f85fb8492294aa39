use vstd::prelude::*;

use crate::data::{Comment, Post};
use crate::route::Route;
use crate::state::{App, Loadable, Message};
use crate::text::{decimal, push_decimal};

verus! {

/// What a button asks for when pressed.
#[derive(Clone, Copy, Debug, PartialEq, Eq, Structural)]
pub enum Action {
    GoToList,
    GoToDetail(i32),
}

/// One element of the rendered screen, independent of any widget toolkit.
#[derive(Clone, Debug, PartialEq, Eq)]
pub enum Widget {
    Text { content: String, size: u16 },
    Button { label: String, on_press: Action },
}

/// The model of a `Widget`: its texts as character sequences.
pub enum WidgetView {
    Text { content: Seq<char>, size: u16 },
    Button { label: Seq<char>, on_press: Action },
}

impl View for Widget {
    type V = WidgetView;

    open spec fn view(&self) -> WidgetView {
        match self {
            Widget::Text { content, size } => WidgetView::Text { content: content@, size: *size },
            Widget::Button { label, on_press } => WidgetView::Button {
                label: label@,
                on_press: *on_press,
            },
        }
    }
}

/// The models of a sequence of widgets.
pub open spec fn views(ws: Seq<Widget>) -> Seq<WidgetView> {
    ws.map_values(|w: Widget| w@)
}

/// A text of the given size.
pub open spec fn text(content: Seq<char>, size: u16) -> WidgetView {
    WidgetView::Text { content, size }
}

/// The placeholder shown for a pending slot.
pub open spec fn loading() -> WidgetView {
    text("loading..."@, 20)
}

/// The line that shows a post: id, author id, title and body.
pub open spec fn post_line(p: Post) -> Seq<char> {
    decimal(p.id as int) + " | "@ + decimal(p.user_id as int) + " | "@ + p.title@ + " | "@
        + p.body@
}

/// The line that shows a comment: post id, id, name, email and body.
pub open spec fn comment_line(c: Comment) -> Seq<char> {
    decimal(c.post_id as int) + " | "@ + decimal(c.id as int) + " | "@ + c.name@ + " | "@
        + c.email@ + " | "@ + c.body@
}

/// A post as a row of the list: its line, then a button that opens its detail.
pub open spec fn post_row(p: Post) -> Seq<WidgetView> {
    seq![
        text(post_line(p), 12),
        WidgetView::Button { label: "Detail"@, on_press: Action::GoToDetail(p.id) },
    ]
}

/// The rows of the list, in the order of the posts.
pub open spec fn post_rows(posts: Seq<Post>) -> Seq<WidgetView>
    decreases posts.len(),
{
    if posts.len() == 0 {
        seq![]
    } else {
        post_rows(posts.drop_last()) + post_row(posts.last())
    }
}

/// One block per comment, in the order of the comments.
pub open spec fn comment_blocks(comments: Seq<Comment>) -> Seq<WidgetView>
    decreases comments.len(),
{
    if comments.len() == 0 {
        seq![]
    } else {
        comment_blocks(comments.drop_last()).push(text(comment_line(comments.last()), 12))
    }
}

/// The comments section: its label, then the comments.
pub open spec fn comments_section(comments: Seq<Comment>) -> Seq<WidgetView> {
    seq![text("Comments:"@, 20)] + comment_blocks(comments)
}

/// The screen for state `s`. A button back to the list always comes first; what follows
/// depends on the route alone, and a pending slot shows as a placeholder.
pub open spec fn project(s: App) -> Seq<WidgetView> {
    seq![WidgetView::Button { label: "Home"@, on_press: Action::GoToList }] + match s.route {
        Route::List => seq![text("List page"@, 50)] + match s.posts {
            Loadable::Pending => seq![loading()],
            Loadable::Ready(posts) => post_rows(posts@),
        },
        Route::Detail(id) => seq![text("Detail page: "@ + decimal(id as int), 50)] + match s.post {
            Loadable::Pending => seq![loading()],
            Loadable::Ready(p) => seq![text(post_line(p), 12)],
        } + match s.comments {
            Loadable::Pending => seq![loading()],
            Loadable::Ready(comments) => comments_section(comments@),
        },
    }
}

impl Action {
    /// The message that pressing the button sends.
    pub fn message(self) -> (r: Message)
        ensures
            r == (match self {
                Action::GoToList => Message::GoToList,
                Action::GoToDetail(id) => Message::GoToDetail(id),
            }),
    {
        match self {
            Action::GoToList => Message::GoToList,
            Action::GoToDetail(id) => Message::GoToDetail(id),
        }
    }
}

fn loading_widget() -> (r: Widget)
    ensures
        r@ == loading(),
{
    Widget::Text { content: String::from_str("loading..."), size: 20 }
}

fn separate(out: &mut String)
    ensures
        final(out)@ == old(out)@ + " | "@,
{
    out.append(" | ");
}

impl Post {
    /// The post's line, as the detail page shows it.
    pub fn view(&self) -> (r: Widget)
        ensures
            r@ == text(post_line(*self), 12),
    {
        let mut line = String::new();
        push_decimal(self.id, &mut line);
        separate(&mut line);
        push_decimal(self.user_id, &mut line);
        separate(&mut line);
        line.append(self.title.as_str());
        separate(&mut line);
        line.append(self.body.as_str());
        assert(line@ =~= post_line(*self));
        Widget::Text { content: line, size: 12 }
    }

    /// The post as a row of the list.
    pub fn view_in_list(&self) -> (r: Vec<Widget>)
        ensures
            views(r@) == post_row(*self),
    {
        let line = self.view();
        let button = Widget::Button {
            label: String::from_str("Detail"),
            on_press: Action::GoToDetail(self.id),
        };
        let r = vec![line, button];
        assert(views(r@) =~= post_row(*self));
        r
    }
}

impl Comment {
    /// The comment's block.
    pub fn view(&self) -> (r: Widget)
        ensures
            r@ == text(comment_line(*self), 12),
    {
        let mut line = String::new();
        push_decimal(self.post_id, &mut line);
        separate(&mut line);
        push_decimal(self.id, &mut line);
        separate(&mut line);
        line.append(self.name.as_str());
        separate(&mut line);
        line.append(self.email.as_str());
        separate(&mut line);
        line.append(self.body.as_str());
        assert(line@ =~= comment_line(*self));
        Widget::Text { content: line, size: 12 }
    }
}

impl App {
    /// One row per post, in the order given.
    pub fn render_posts(posts: &Vec<Post>) -> (r: Vec<Widget>)
        ensures
            views(r@) == post_rows(posts@),
    {
        let mut r: Vec<Widget> = Vec::new();
        let mut i: usize = 0;
        while i < posts.len()
            invariant
                i <= posts@.len(),
                views(r@) == post_rows(posts@.subrange(0, i as int)),
            decreases posts@.len() - i,
        {
            let mut row = posts[i].view_in_list();
            let ghost before = r@;
            r.append(&mut row);
            proof {
                let done = posts@.subrange(0, i + 1);
                assert(done.drop_last() =~= posts@.subrange(0, i as int));
                assert(views(r@) =~= views(before) + post_row(posts@[i as int]));
            }
            i = i + 1;
        }
        assert(posts@.subrange(0, i as int) =~= posts@);
        r
    }

    /// The label of the comments section, then one block per comment, in the order given.
    pub fn render_comments(comments: &Vec<Comment>) -> (r: Vec<Widget>)
        ensures
            views(r@) == comments_section(comments@),
    {
        let mut r: Vec<Widget> = Vec::new();
        r.push(Widget::Text { content: String::from_str("Comments:"), size: 20 });
        let mut i: usize = 0;
        while i < comments.len()
            invariant
                i <= comments@.len(),
                views(r@) == seq![text("Comments:"@, 20)] + comment_blocks(
                    comments@.subrange(0, i as int),
                ),
            decreases comments@.len() - i,
        {
            let block = comments[i].view();
            let ghost before = r@;
            r.push(block);
            proof {
                let done = comments@.subrange(0, i + 1);
                assert(done.drop_last() =~= comments@.subrange(0, i as int));
                assert(views(r@) =~= views(before).push(
                    text(comment_line(comments@[i as int]), 12),
                ));
            }
            i = i + 1;
        }
        assert(comments@.subrange(0, i as int) =~= comments@);
        r
    }

    /// The screen for the current state: a function of the state alone, so two calls on
    /// an unchanged state give equal screens.
    pub fn view(&self) -> (r: Vec<Widget>)
        ensures
            views(r@) == project(*self),
    {
        let mut r: Vec<Widget> = Vec::new();
        r.push(Widget::Button { label: String::from_str("Home"), on_press: Action::GoToList });
        let ghost home = views(r@);
        match &self.route {
            Route::List => {
                r.push(Widget::Text { content: String::from_str("List page"), size: 50 });
                let ghost head = views(r@);
                let mut body = match &self.posts {
                    Loadable::Pending => vec![loading_widget()],
                    Loadable::Ready(posts) => App::render_posts(posts),
                };
                let ghost b = views(body@);
                r.append(&mut body);
                assert(views(r@) =~= head + b);
                assert(views(r@) =~= project(*self));
            },
            Route::Detail(id) => {
                let mut heading = String::from_str("Detail page: ");
                push_decimal(*id, &mut heading);
                r.push(Widget::Text { content: heading, size: 50 });
                let ghost head = views(r@);
                let mut post = match &self.post {
                    Loadable::Pending => vec![loading_widget()],
                    Loadable::Ready(p) => vec![p.view()],
                };
                let ghost pv = views(post@);
                let mut comments = match &self.comments {
                    Loadable::Pending => vec![loading_widget()],
                    Loadable::Ready(cs) => App::render_comments(cs),
                };
                let ghost cv = views(comments@);
                r.append(&mut post);
                r.append(&mut comments);
                assert(views(r@) =~= head + pv + cv);
                assert(views(r@) =~= project(*self));
            },
        }
        r
    }
}

} // verus!
