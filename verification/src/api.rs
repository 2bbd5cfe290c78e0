//! The operations of the data layer, each against a store held in memory.
//!
//! The lookups that they are built from are in [`helper`].

pub mod helper;

pub use crate::entity::{Category, Counter, Forum, Post, Thread};
pub use crate::error::ApiError;

use crate::api::helper::{after_issue, forum_of, id_issued, thread_of};
use crate::clock::{clock_reading, system_millis};
use crate::entity::{CategoryView, PostView, ThreadView};
use crate::error::ApiErrorView;
use crate::protocol::Request;
use crate::repository::{
    arranged, lemma_selected_everything, selected, truncated, CriterionView, Field, Sort,
};
use crate::resolve::{
    categories_of_reply, latest_posts_of_reply, posts_of_reply, seen, seen_forum, seen_rows,
    threads_of_reply,
};
use crate::store::{effect, outcome, Store, StoreView};
use crate::workflow::{
    post_begin, post_resumed, thread_begin, thread_resumed, CreatePost, CreatePostView,
    CreateThread, CreateThreadView, PostStage, Step, StepView, ThreadStage,
};
use vstd::prelude::*;

verus! {

/// All categories, by ascending display rank.
pub open spec fn categories_listed(s: StoreView) -> Result<Seq<CategoryView>, ApiErrorView> {
    Ok(arranged::<Category>(s.categories, Sort { field: Field::Order, ascending: true }))
}

/// The threads of a forum, by descending id.
pub open spec fn threads_listed(s: StoreView, forum_id: u32) -> Result<
    Seq<ThreadView>,
    ApiErrorView,
> {
    Ok(
        arranged::<Thread>(
            selected::<Thread>(
                s.threads,
                CriterionView::Number { field: Field::ForumId, value: forum_id },
            ),
            Sort { field: Field::Id, ascending: false },
        ),
    )
}

/// The posts of a thread, by ascending id.
pub open spec fn posts_listed(s: StoreView, thread_id: u32) -> Result<Seq<PostView>, ApiErrorView> {
    Ok(
        arranged::<Post>(
            selected::<Post>(
                s.posts,
                CriterionView::Number { field: Field::ThreadId, value: thread_id },
            ),
            Sort { field: Field::Id, ascending: true },
        ),
    )
}

/// The `num` posts with the largest ids, by descending id; none where `num`
/// is not positive.
pub open spec fn latest_listed(s: StoreView, num: i64) -> Result<Seq<PostView>, ApiErrorView> {
    if num <= 0 {
        Ok(Seq::empty())
    } else {
        Ok(
            truncated(
                arranged::<Post>(s.posts, Sort { field: Field::Id, ascending: false }),
                num as u64,
            ),
        )
    }
}

/// What the creation of a post does: the store afterwards, and the result.
///
/// Empty content is rejected first, then a missing thread; in both cases the
/// store is untouched. Then the counter of posts is advanced, and the post
/// is stored under the identifier that it yields.
pub open spec fn post_created(s: StoreView, thread_id: u32, content: Seq<char>, now: i64) -> (
    StoreView,
    Result<(), ApiErrorView>,
) {
    if content.len() == 0 {
        (s, Err(ApiErrorView::EmptyContent))
    } else {
        match thread_of(s, thread_id) {
            Err(e) => (s, Err(e)),
            Ok(_) => match id_issued(s, "post"@) {
                Err(e) => (s, Err(e)),
                Ok(id) => (
                    StoreView {
                        posts: s.posts.push(PostView { id, content, created_at: now, thread_id }),
                        ..after_issue(s, "post"@)
                    },
                    Ok(()),
                ),
            },
        }
    }
}

/// What the creation of a thread does: the store afterwards, and the result.
///
/// An empty subject is rejected first, then empty content, then a missing
/// forum; in these cases the store is untouched. Then the counter of threads
/// is advanced, then the counter of posts; where the second fails, the
/// thread's identifier stays used. Then the origin post is stored, then the
/// thread, each referring to the other.
pub open spec fn thread_created(
    s: StoreView,
    forum_id: u32,
    subject: Seq<char>,
    post_content: Seq<char>,
    now: i64,
) -> (StoreView, Result<u32, ApiErrorView>) {
    if subject.len() == 0 {
        (s, Err(ApiErrorView::EmptySubject))
    } else if post_content.len() == 0 {
        (s, Err(ApiErrorView::EmptyContent))
    } else {
        match forum_of(s, forum_id) {
            Err(e) => (s, Err(e)),
            Ok(_) => match id_issued(s, "thread"@) {
                Err(e) => (s, Err(e)),
                Ok(thread_id) => {
                    let numbered = after_issue(s, "thread"@);
                    match id_issued(numbered, "post"@) {
                        Err(e) => (numbered, Err(e)),
                        Ok(post_id) => (
                            StoreView {
                                posts: s.posts.push(
                                    PostView {
                                        id: post_id,
                                        content: post_content,
                                        created_at: now,
                                        thread_id,
                                    },
                                ),
                                threads: s.threads.push(
                                    ThreadView {
                                        id: thread_id,
                                        origin_post_id: post_id,
                                        forum_id,
                                        subject,
                                    },
                                ),
                                ..after_issue(numbered, "post"@)
                            },
                            Ok(thread_id),
                        ),
                    }
                },
            },
        }
    }
}

/// What the creation of a post does where the clock gives no instant: it is
/// rejected as ever for empty content and for a missing thread, and fails as
/// ever where no identifier is to be had. Otherwise it ends with
/// `ClockOutOfRange`; the identifier that was allocated stays used and no
/// post is stored.
pub open spec fn post_unstamped(s: StoreView, thread_id: u32, content: Seq<char>) -> (
    StoreView,
    Result<(), ApiErrorView>,
) {
    if content.len() == 0 {
        (s, Err(ApiErrorView::EmptyContent))
    } else {
        match thread_of(s, thread_id) {
            Err(e) => (s, Err(e)),
            Ok(_) => match id_issued(s, "post"@) {
                Err(e) => (s, Err(e)),
                Ok(_) => (after_issue(s, "post"@), Err(ApiErrorView::ClockOutOfRange)),
            },
        }
    }
}

/// What the creation of a post does, given what the clock read.
pub open spec fn post_made(
    s: StoreView,
    thread_id: u32,
    content: Seq<char>,
    clock: Option<i64>,
) -> (StoreView, Result<(), ApiErrorView>) {
    match clock {
        Some(now) => post_created(s, thread_id, content, now),
        None => post_unstamped(s, thread_id, content),
    }
}

/// What the creation of a thread does where the clock gives no instant: it
/// is rejected as ever for empty input and for a missing forum, and fails as
/// ever where an identifier is not to be had. Otherwise it ends with
/// `ClockOutOfRange`; both identifiers that were allocated stay used and
/// nothing is stored.
pub open spec fn thread_unstamped(
    s: StoreView,
    forum_id: u32,
    subject: Seq<char>,
    post_content: Seq<char>,
) -> (StoreView, Result<u32, ApiErrorView>) {
    if subject.len() == 0 {
        (s, Err(ApiErrorView::EmptySubject))
    } else if post_content.len() == 0 {
        (s, Err(ApiErrorView::EmptyContent))
    } else {
        match forum_of(s, forum_id) {
            Err(e) => (s, Err(e)),
            Ok(_) => match id_issued(s, "thread"@) {
                Err(e) => (s, Err(e)),
                Ok(_) => {
                    let numbered = after_issue(s, "thread"@);
                    match id_issued(numbered, "post"@) {
                        Err(e) => (numbered, Err(e)),
                        Ok(_) => (
                            after_issue(numbered, "post"@),
                            Err(ApiErrorView::ClockOutOfRange),
                        ),
                    }
                },
            },
        }
    }
}

/// What the creation of a thread does, given what the clock read.
pub open spec fn thread_made(
    s: StoreView,
    forum_id: u32,
    subject: Seq<char>,
    post_content: Seq<char>,
    clock: Option<i64>,
) -> (StoreView, Result<u32, ApiErrorView>) {
    match clock {
        Some(now) => thread_created(s, forum_id, subject, post_content, now),
        None => thread_unstamped(s, forum_id, subject, post_content),
    }
}

/// The calls that the creation of a post may still make.
pub open spec fn post_calls_left(stage: PostStage) -> nat {
    match stage {
        PostStage::ResolvingThread => 3,
        PostStage::AllocatingId => 2,
        PostStage::Inserting => 1,
        PostStage::Finished => 0,
    }
}

/// The calls that the creation of a thread may still make.
pub open spec fn thread_calls_left(stage: ThreadStage) -> nat {
    match stage {
        ThreadStage::ResolvingForum => 5,
        ThreadStage::AllocatingThreadId => 4,
        ThreadStage::AllocatingPostId { .. } => 3,
        ThreadStage::InsertingPost { .. } => 2,
        ThreadStage::InsertingThread { .. } => 1,
        ThreadStage::Finished => 0,
    }
}

/// Where the creation of a post ends when each call that it asks for is made
/// on the store `s` and answered by it, and the clock reads `clock` at every
/// step.
pub open spec fn post_run(
    m: CreatePostView,
    step: StepView<()>,
    s: StoreView,
    clock: Option<i64>,
) -> (StoreView, Result<(), ApiErrorView>)
    decreases post_calls_left(m.stage), (if step is Ask {
        1nat
    } else {
        0nat
    }),
{
    match step {
        StepView::Done(r) => (s, r),
        StepView::Ask(q) => {
            let next = post_resumed(m, outcome(s, q), clock);
            post_run(next.0, next.1, effect(s, q), clock)
        },
    }
}

/// Where the creation of a thread ends when each call that it asks for is
/// made on the store `s` and answered by it, and the clock reads `clock` at
/// every step.
pub open spec fn thread_run(
    m: CreateThreadView,
    step: StepView<u32>,
    s: StoreView,
    clock: Option<i64>,
) -> (StoreView, Result<u32, ApiErrorView>)
    decreases thread_calls_left(m.stage), (if step is Ask {
        1nat
    } else {
        0nat
    }),
{
    match step {
        StepView::Done(r) => (s, r),
        StepView::Ask(q) => {
            let next = thread_resumed(m, outcome(s, q), clock);
            thread_run(next.0, next.1, effect(s, q), clock)
        },
    }
}

/// Driving the creation of a post against a store does what [`post_made`]
/// says.
pub proof fn lemma_post_run(s: StoreView, thread_id: u32, content: Seq<char>, clock: Option<i64>)
    ensures
        post_run(post_begin(thread_id, content).0, post_begin(thread_id, content).1, s, clock)
            == post_made(s, thread_id, content, clock),
{
    reveal_with_fuel(post_run, 5);
}

/// Driving the creation of a thread against a store does what
/// [`thread_made`] says.
pub proof fn lemma_thread_run(
    s: StoreView,
    forum_id: u32,
    subject: Seq<char>,
    post_content: Seq<char>,
    clock: Option<i64>,
)
    ensures
        thread_run(
            thread_begin(forum_id, subject, post_content).0,
            thread_begin(forum_id, subject, post_content).1,
            s,
            clock,
        ) == thread_made(s, forum_id, subject, post_content, clock),
{
    reveal_with_fuel(thread_run, 7);
}

/// Lists all categories, by ascending display rank.
pub fn get_categories(store: &Store) -> (r: Result<Vec<Category>, ApiError>)
    ensures
        seen_rows(r) == categories_listed(store@),
{
    proof {
        lemma_selected_everything::<Category>(store@.categories);
    }
    categories_of_reply(store.read(&Request::categories()))
}

/// Looks up the forum with the given id, with the name of its category.
pub fn get_forum(forum_id: u32, store: &Store) -> (r: Result<(Forum, String), ApiError>)
    ensures
        seen_forum(r) == forum_of(store@, forum_id),
{
    helper::get_forum(forum_id, store)
}

/// Looks up the thread with the given id.
pub fn get_thread(thread_id: u32, store: &Store) -> (r: Result<Thread, ApiError>)
    ensures
        seen(r) == thread_of(store@, thread_id),
{
    helper::get_thread(thread_id, store)
}

/// Lists the threads of a forum, by descending id.
pub fn get_threads(forum_id: u32, store: &Store) -> (r: Result<Vec<Thread>, ApiError>)
    ensures
        seen_rows(r) == threads_listed(store@, forum_id),
{
    threads_of_reply(store.read(&Request::threads_of_forum(forum_id)))
}

/// Lists the `num` posts with the largest ids, by descending id. Where `num`
/// is not positive, there is nothing to list and the store is not asked.
pub fn get_latest_posts(num: i64, store: &Store) -> (r: Result<Vec<Post>, ApiError>)
    ensures
        seen_rows(r) == latest_listed(store@, num),
{
    proof {
        lemma_selected_everything::<Post>(store@.posts);
    }
    let reply = match Request::latest(num) {
        Some(request) => Some(store.read(&request)),
        None => None,
    };
    latest_posts_of_reply(reply)
}

/// Lists the posts of a thread, by ascending id.
pub fn get_posts_from_thread(thread_id: u32, store: &Store) -> (r: Result<Vec<Post>, ApiError>)
    ensures
        seen_rows(r) == posts_listed(store@, thread_id),
{
    posts_of_reply(store.read(&Request::posts_of_thread(thread_id)))
}

/// Creates a post with the given content in the given thread, given what the
/// clock read: the post is created at that instant, and cannot be created
/// where the clock gave none.
pub fn create_post_clocked(
    thread_id: u32,
    content: String,
    clock: Option<i64>,
    store: &mut Store,
) -> (r: Result<(), ApiError>)
    ensures
        (final(store)@, seen(r)) == post_made(old(store)@, thread_id, content@, clock),
{
    let (op, step) = CreatePost::begin(thread_id, content);
    let mut op = op;
    let mut step = step;
    proof {
        lemma_post_run(store@, thread_id, content@, clock);
    }
    loop
        invariant
            post_run(op@, step@, store@, clock) == post_made(
                old(store)@,
                thread_id,
                content@,
                clock,
            ),
        decreases
            post_calls_left(op@.stage),
            (if step is Ask {
                1nat
            } else {
                0nat
            }),
    {
        match step {
            Step::Done(r) => {
                return r;
            },
            Step::Ask(q) => {
                let reply = store.perform(q);
                step = op.resume_clocked(reply, clock);
            },
        }
    }
}

/// Creates a post with the given content in the given thread, at the instant
/// `now`.
pub fn create_post_at(thread_id: u32, content: String, now: i64, store: &mut Store) -> (r: Result<
    (),
    ApiError,
>)
    ensures
        (final(store)@, seen(r)) == post_created(old(store)@, thread_id, content@, now),
{
    create_post_clocked(thread_id, content, Some(now), store)
}

/// Creates a post with the given content in the given thread, at the current
/// instant. Where the system clock gives no instant, the creation ends with
/// `ClockOutOfRange` in place of storing the post.
pub fn create_post(thread_id: u32, content: String, store: &mut Store) -> (r: Result<(), ApiError>)
    ensures
        exists|clock: Option<i64>|
            clock_reading(clock) && (final(store)@, seen(r)) == #[trigger] post_made(
                old(store)@,
                thread_id,
                content@,
                clock,
            ),
{
    let clock = system_millis();
    create_post_clocked(thread_id, content, clock, store)
}

/// Creates a thread with the given subject in the given forum, opened by a
/// post with the given content, given what the clock read: the post is
/// created at that instant, and nothing can be created where the clock gave
/// none. Returns the id of the thread.
pub fn create_thread_clocked(
    forum_id: u32,
    subject: String,
    post_content: String,
    clock: Option<i64>,
    store: &mut Store,
) -> (r: Result<u32, ApiError>)
    ensures
        (final(store)@, seen(r)) == thread_made(
            old(store)@,
            forum_id,
            subject@,
            post_content@,
            clock,
        ),
{
    let (op, step) = CreateThread::begin(forum_id, subject, post_content);
    let mut op = op;
    let mut step = step;
    proof {
        lemma_thread_run(store@, forum_id, subject@, post_content@, clock);
    }
    loop
        invariant
            thread_run(op@, step@, store@, clock) == thread_made(
                old(store)@,
                forum_id,
                subject@,
                post_content@,
                clock,
            ),
        decreases
            thread_calls_left(op@.stage),
            (if step is Ask {
                1nat
            } else {
                0nat
            }),
    {
        match step {
            Step::Done(r) => {
                return r;
            },
            Step::Ask(q) => {
                let reply = store.perform(q);
                step = op.resume_clocked(reply, clock);
            },
        }
    }
}

/// Creates a thread with the given subject in the given forum, opened by a
/// post with the given content, at the instant `now`. Returns the id of the
/// thread.
pub fn create_thread_at(
    forum_id: u32,
    subject: String,
    post_content: String,
    now: i64,
    store: &mut Store,
) -> (r: Result<u32, ApiError>)
    ensures
        (final(store)@, seen(r)) == thread_created(
            old(store)@,
            forum_id,
            subject@,
            post_content@,
            now,
        ),
{
    create_thread_clocked(forum_id, subject, post_content, Some(now), store)
}

/// Creates a thread with the given subject in the given forum, opened by a
/// post with the given content, at the current instant. Returns the id of the
/// thread. Where the system clock gives no instant, the creation ends with
/// `ClockOutOfRange` in place of storing anything.
pub fn create_thread(forum_id: u32, subject: String, post_content: String, store: &mut Store) -> (r:
    Result<u32, ApiError>)
    ensures
        exists|clock: Option<i64>|
            clock_reading(clock) && (final(store)@, seen(r)) == #[trigger] thread_made(
                old(store)@,
                forum_id,
                subject@,
                post_content@,
                clock,
            ),
{
    let clock = system_millis();
    create_thread_clocked(forum_id, subject, post_content, clock, store)
}

} // verus!
