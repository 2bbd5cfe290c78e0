//! What the pages of the forum compute from the data: the anchors and links
//! of categories, forums and threads, the order of a forum's threads by
//! recent activity, and the notices shown for a failure.

use crate::entity::{views, Post, PostView, Thread, ThreadView};
use crate::error::{message_of, ApiError, ApiErrorView};
use crate::repository::{arrange_rows, arranged, Criterion, Document, Field, Fields, Sort};
use crate::text::{decimal, lemma_filter_step, render_decimal};
use vstd::prelude::*;
use vstd::string::*;

verus! {

/// Whether a character is ASCII white space: space, tab, line feed, form
/// feed or carriage return.
pub open spec fn is_ascii_space(c: char) -> bool {
    c == ' ' || c == '\t' || c == '\n' || c == '\x0C' || c == '\r'
}

/// A text without its ASCII white space.
pub open spec fn without_spaces(text: Seq<char>) -> Seq<char> {
    text.filter(|c: char| !is_ascii_space(c))
}

/// Makes the name of a category usable as the id of an element of a page, by
/// leaving out its ASCII white space.
pub fn clean_name_for_id(name: &str) -> (r: String)
    ensures
        r@ == without_spaces(name@),
{
    let n = name.unicode_len();
    let mut out = String::new();
    let mut i: usize = 0;
    proof {
        reveal(Seq::filter);
    }
    assert(name@.take(0) =~= Seq::<char>::empty());
    assert(out@ =~= without_spaces(name@.take(0)));
    while i < n
        invariant
            i <= n,
            n == name@.len(),
            out@ == without_spaces(name@.take(i as int)),
        decreases n - i,
    {
        let c = name.get_char(i);
        proof {
            lemma_filter_step(name@, |c: char| !is_ascii_space(c), i as int);
        }
        if !(c == ' ' || c == '\t' || c == '\n' || c == '\x0C' || c == '\r') {
            out.push(c);
        }
        i += 1;
    }
    assert(name@.take(n as int) =~= name@);
    out
}

/// The address of a thread's page.
pub open spec fn thread_link_of(thread_id: u32) -> Seq<char> {
    "/thread/"@ + decimal(thread_id as nat)
}

/// The address of a forum's page.
pub open spec fn forum_link_of(forum_id: u32) -> Seq<char> {
    "/forum/"@ + decimal(forum_id as nat)
}

/// The address of a category on the page of all forums.
pub open spec fn category_link_of(name: Seq<char>) -> Seq<char> {
    "/forum#"@ + without_spaces(name)
}

/// The title of a forum's page.
pub open spec fn forum_title_of(name: Seq<char>) -> Seq<char> {
    name + " - Forums | Dafoerum"@
}

/// The address of a thread's page.
pub fn thread_link(thread_id: u32) -> (r: String)
    ensures
        r@ == thread_link_of(thread_id),
{
    let number = render_decimal(thread_id);
    String::from_str("/thread/").concat(number.as_str())
}

/// The address of a forum's page.
pub fn forum_link(forum_id: u32) -> (r: String)
    ensures
        r@ == forum_link_of(forum_id),
{
    let number = render_decimal(forum_id);
    String::from_str("/forum/").concat(number.as_str())
}

/// The address of a category on the page of all forums.
pub fn category_link(name: &str) -> (r: String)
    ensures
        r@ == category_link_of(name@),
{
    let anchor = clean_name_for_id(name);
    String::from_str("/forum#").concat(anchor.as_str())
}

/// The title of a forum's page.
pub fn forum_title(name: &str) -> (r: String)
    ensures
        r@ == forum_title_of(name@),
{
    String::from_str(name).concat(" - Forums | Dafoerum")
}

/// The notice for a failure, as a server reports it.
pub open spec fn server_notice_of(e: ApiErrorView) -> Seq<char> {
    "Error from server: "@ + message_of(e)
}

/// The notice for a failure wherever no page has wording of its own: a
/// missing entity is named by its kind and id, the two rejections of empty
/// input are named as such, and any other failure is shown as the server's.
pub open spec fn notice_of(e: ApiErrorView) -> Seq<char> {
    match e {
        ApiErrorView::NotFound(kind, id) => "There exists no "@ + kind + " with the id "@
            + decimal(id as nat),
        ApiErrorView::EmptyContent => "Post content cannot be empty!"@,
        ApiErrorView::EmptySubject => "Subject cannot be empty!"@,
        _ => server_notice_of(e),
    }
}

/// The notice on a forum's page for a failure to load the forum.
pub open spec fn forum_notice_of(e: ApiErrorView) -> Seq<char> {
    match e {
        ApiErrorView::NotFound(_, id) => "There exists no forum with the id "@ + decimal(id as nat),
        _ => server_notice_of(e),
    }
}

/// The notice in the form that creates a thread.
pub open spec fn thread_form_notice_of(e: ApiErrorView) -> Seq<char> {
    match e {
        ApiErrorView::EmptyContent => "Post content cannot be empty!"@,
        ApiErrorView::EmptySubject => "Subject cannot be empty!"@,
        _ => message_of(e),
    }
}

/// The notice in the form that creates a post.
pub open spec fn post_form_notice_of(e: ApiErrorView) -> Seq<char> {
    match e {
        ApiErrorView::EmptyContent => "Post content cannot be empty!"@,
        _ => server_notice_of(e),
    }
}

/// The notice for a failure, as a server reports it.
pub fn server_notice(e: &ApiError) -> (r: String)
    ensures
        r@ == server_notice_of(e@),
{
    let details = e.message();
    String::from_str("Error from server: ").concat(details.as_str())
}

/// The notice for a failure: a missing entity is named by its kind and id,
/// the two rejections of empty input are named as such, and any other failure
/// is shown as the server's.
pub fn notice(e: &ApiError) -> (r: String)
    ensures
        r@ == notice_of(e@),
{
    match e {
        ApiError::NotFound(kind, id) => {
            let number = render_decimal(*id);
            String::from_str("There exists no ").concat(kind.as_str()).concat(
                " with the id ",
            ).concat(number.as_str())
        },
        ApiError::EmptyContent => String::from_str("Post content cannot be empty!"),
        ApiError::EmptySubject => String::from_str("Subject cannot be empty!"),
        _ => server_notice(e),
    }
}

/// The notice on a forum's page for a failure to load the forum: a missing
/// forum is named by its id, any other failure is shown as the server's.
pub fn forum_notice(e: &ApiError) -> (r: String)
    ensures
        r@ == forum_notice_of(e@),
{
    match e {
        ApiError::NotFound(_, id) => {
            let number = render_decimal(*id);
            String::from_str("There exists no forum with the id ").concat(number.as_str())
        },
        _ => server_notice(e),
    }
}

/// The notice in the form that creates a thread: the two rejections of empty
/// input have wording of their own, any other failure is shown by its own
/// text.
pub fn thread_form_notice(e: &ApiError) -> (r: String)
    ensures
        r@ == thread_form_notice_of(e@),
{
    match e {
        ApiError::EmptyContent => String::from_str("Post content cannot be empty!"),
        ApiError::EmptySubject => String::from_str("Subject cannot be empty!"),
        _ => e.message(),
    }
}

/// The notice in the form that creates a post: empty content has wording of
/// its own, any other failure is shown as the server's.
pub fn post_form_notice(e: &ApiError) -> (r: String)
    ensures
        r@ == post_form_notice_of(e@),
{
    match e {
        ApiError::EmptyContent => String::from_str("Post content cannot be empty!"),
        _ => server_notice(e),
    }
}

/// What a [`ThreadSummary`] holds.
pub struct ThreadSummaryView {
    pub thread: ThreadView,
    pub post_count: u64,
    pub latest_post: PostView,
}

/// A thread as a forum's page lists it: with the number of its posts and the
/// latest of them.
#[derive(Debug)]
pub struct ThreadSummary {
    pub thread: Thread,
    pub post_count: u64,
    pub latest_post: Post,
}

impl View for ThreadSummary {
    type V = ThreadSummaryView;

    open spec fn view(&self) -> ThreadSummaryView {
        ThreadSummaryView {
            thread: self.thread@,
            post_count: self.post_count,
            latest_post: self.latest_post@,
        }
    }
}

impl Clone for ThreadSummary {
    fn clone(&self) -> (r: Self)
        ensures
            r@ == self@,
    {
        ThreadSummary {
            thread: self.thread.clone(),
            post_count: self.post_count,
            latest_post: self.latest_post.clone(),
        }
    }
}

impl Fields for ThreadSummary {
    open spec fn numbers(v: ThreadSummaryView, field: Field) -> Seq<int> {
        match field {
            Field::Id => seq![v.thread.id as int],
            Field::ForumId => seq![v.thread.forum_id as int],
            Field::CreatedAt => seq![v.latest_post.created_at as int],
            _ => Seq::empty(),
        }
    }

    open spec fn texts(v: ThreadSummaryView, field: Field) -> Seq<Seq<char>> {
        Seq::empty()
    }
}

impl Document for ThreadSummary {
    fn meets(&self, criterion: &Criterion) -> (r: bool) {
        match criterion {
            Criterion::Everything => true,
            Criterion::Number { field, value } => {
                proof {
                    if self.thread.id == *value {
                        assert(seq![self.thread.id as int][0] == *value as int);
                    }
                    if self.thread.forum_id == *value {
                        assert(seq![self.thread.forum_id as int][0] == *value as int);
                    }
                    if self.latest_post.created_at == *value as int {
                        assert(seq![self.latest_post.created_at as int][0] == *value as int);
                    }
                }
                match field {
                    Field::Id => self.thread.id == *value,
                    Field::ForumId => self.thread.forum_id == *value,
                    Field::CreatedAt => self.latest_post.created_at == *value as i64,
                    _ => false,
                }
            },
            Criterion::Text { field, text } => false,
        }
    }

    fn rank(&self, field: Field) -> (r: i64) {
        match field {
            Field::Id => self.thread.id as i64,
            Field::ForumId => self.thread.forum_id as i64,
            Field::CreatedAt => self.latest_post.created_at,
            _ => 0,
        }
    }

    fn replica(&self) -> (r: Self) {
        self.clone()
    }
}

/// The sort that shows threads with more recent activity first.
pub open spec fn recent_first() -> Sort {
    Sort { field: Field::CreatedAt, ascending: false }
}

/// The threads arranged by the instant of their latest post, latest first;
/// threads whose latest posts are of one instant keep their order.
pub open spec fn by_recent_activity(rows: Seq<ThreadSummaryView>) -> Seq<ThreadSummaryView> {
    arranged::<ThreadSummary>(rows, recent_first())
}

/// Arranges the threads of a forum's page so that those with more recent
/// activity come first.
pub fn sort_by_recent_activity(rows: Vec<ThreadSummary>) -> (r: Vec<ThreadSummary>)
    ensures
        views(r@) == by_recent_activity(views(rows@)),
{
    arrange_rows(rows, Sort { field: Field::CreatedAt, ascending: false })
}

/// The number of posts in the threads listed.
pub open spec fn posts_in(rows: Seq<ThreadSummaryView>) -> nat
    decreases rows.len(),
{
    if rows.len() == 0 {
        0
    } else {
        posts_in(rows.drop_last()) + rows.last().post_count as nat
    }
}

/// The number of threads listed and the number of posts in them, as a
/// forum's row shows them; a number of posts that does not fit is shown as
/// the largest that does.
pub fn count_threads_and_posts(rows: &Vec<ThreadSummary>) -> (r: (u64, u64))
    ensures
        r.0 == rows@.len(),
        r.1 == if posts_in(views(rows@)) <= u64::MAX {
            posts_in(views(rows@))
        } else {
            u64::MAX as nat
        },
{
    let mut posts: u64 = 0;
    let mut i: usize = 0;
    assert(views(rows@).take(0) =~= Seq::<ThreadSummaryView>::empty());
    while i < rows.len()
        invariant
            i <= rows.len(),
            posts == if posts_in(views(rows@).take(i as int)) <= u64::MAX {
                posts_in(views(rows@).take(i as int))
            } else {
                u64::MAX as nat
            },
        decreases rows.len() - i,
    {
        let more = rows[i].post_count;
        proof {
            let upto = views(rows@).take(i as int + 1);
            assert(upto.drop_last() =~= views(rows@).take(i as int));
            assert(upto.last().post_count == more);
        }
        if posts > u64::MAX - more {
            posts = u64::MAX;
        } else {
            posts = posts + more;
        }
        i += 1;
    }
    assert(views(rows@).take(rows@.len() as int) =~= views(rows@));
    (rows.len() as u64, posts)
}

} // verus!
