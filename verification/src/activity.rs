//! The threads of a forum by recent activity: each thread with the number of
//! its posts and the latest of them, threads with a later latest post first.
//!
//! The listing needs one call on the store for the threads and one more for
//! each thread, so it is a state machine like the writing operations.

use crate::api::{posts_listed, threads_listed};
use crate::entity::{views, PostView, Thread, ThreadView};
use crate::error::{ApiError, ApiErrorView};
use crate::forum::{
    by_recent_activity, sort_by_recent_activity, ThreadSummary, ThreadSummaryView,
};
use crate::protocol::{
    posts_of_thread_request, threads_of_forum_request, Reply, ReplyView, Request,
};
use crate::resolve::{
    misfit, missing, posts_from, posts_of_reply, seen_rows, threads_from, threads_of_reply,
    unexpected_reply,
};
use crate::store::{answer, Store, StoreView};
use crate::workflow::{Step, StepView};
use vstd::prelude::*;

verus! {

/// The view of a step that ends with rows.
pub open spec fn seen_rows_step<T: View>(step: Step<Vec<T>>) -> StepView<Seq<T::V>> {
    match step {
        Step::Ask(q) => StepView::Ask(q@),
        Step::Done(Ok(rows)) => StepView::Done(Ok(views(rows@))),
        Step::Done(Err(e)) => StepView::Done(Err(e@)),
    }
}

/// How far the listing has come.
#[derive(Debug, Clone, Copy, PartialEq, Eq, Structural)]
pub enum ActivityStage {
    /// The threads of the forum are being listed.
    ListingThreads,
    /// The posts of the first waiting thread are being listed.
    Summarising,
    /// The listing has ended.
    Finished,
}

/// What a [`ListByActivity`] holds.
pub struct ListByActivityView {
    pub forum_id: u32,
    pub stage: ActivityStage,
    pub waiting: Seq<ThreadView>,
    pub done: Seq<ThreadSummaryView>,
}

/// The listing of a forum's threads by recent activity.
#[derive(Debug)]
pub struct ListByActivity {
    pub forum_id: u32,
    pub stage: ActivityStage,
    /// The threads whose posts were not yet looked at, in the order listed.
    pub waiting: Vec<Thread>,
    /// The threads whose posts were looked at, in the order listed.
    pub done: Vec<ThreadSummary>,
}

impl View for ListByActivity {
    type V = ListByActivityView;

    open spec fn view(&self) -> ListByActivityView {
        ListByActivityView {
            forum_id: self.forum_id,
            stage: self.stage,
            waiting: views(self.waiting@),
            done: views(self.done@),
        }
    }
}

/// How the listing begins: with the lookup of the forum's threads.
pub open spec fn activity_begin(forum_id: u32) -> (
    ListByActivityView,
    StepView<Seq<ThreadSummaryView>>,
) {
    (
        ListByActivityView {
            forum_id,
            stage: ActivityStage::ListingThreads,
            waiting: Seq::empty(),
            done: Seq::empty(),
        },
        StepView::Ask(threads_of_forum_request(forum_id)),
    )
}

/// The listing ended by a failure.
pub open spec fn activity_failed(m: ListByActivityView, e: ApiErrorView) -> (
    ListByActivityView,
    StepView<Seq<ThreadSummaryView>>,
) {
    (ListByActivityView { stage: ActivityStage::Finished, ..m }, StepView::Done(Err(e)))
}

/// What comes once a thread was dealt with: the posts of the next waiting
/// thread are asked for, or, where none waits, the listing ends with the
/// threads arranged.
pub open spec fn activity_onward(m: ListByActivityView) -> (
    ListByActivityView,
    StepView<Seq<ThreadSummaryView>>,
) {
    if m.waiting.len() == 0 {
        (
            ListByActivityView { stage: ActivityStage::Finished, done: Seq::empty(), ..m },
            StepView::Done(Ok(by_recent_activity(m.done))),
        )
    } else {
        (
            ListByActivityView { stage: ActivityStage::Summarising, ..m },
            StepView::Ask(posts_of_thread_request(m.waiting[0].id)),
        )
    }
}

/// A thread with the posts listed for it, by ascending id: their number and
/// the last of them. A thread without posts has lost its origin post, which
/// is reported as missing.
pub open spec fn summarised(thread: ThreadView, posts: Seq<PostView>) -> Result<
    ThreadSummaryView,
    ApiErrorView,
> {
    if posts.len() == 0 {
        Err(missing("post"@, thread.origin_post_id))
    } else {
        Ok(
            ThreadSummaryView {
                thread,
                post_count: posts.len() as u64,
                latest_post: posts.last(),
            },
        )
    }
}

/// How the listing goes on when a reply comes.
pub open spec fn activity_next(m: ListByActivityView, reply: ReplyView) -> (
    ListByActivityView,
    StepView<Seq<ThreadSummaryView>>,
) {
    match m.stage {
        ActivityStage::ListingThreads => match threads_from(reply) {
            Ok(rows) => activity_onward(ListByActivityView { waiting: rows, ..m }),
            Err(e) => activity_failed(m, e),
        },
        ActivityStage::Summarising => if m.waiting.len() == 0 {
            activity_failed(m, misfit())
        } else {
            match posts_from(reply) {
                Ok(posts) => match summarised(m.waiting[0], posts) {
                    Ok(summary) => activity_onward(
                        ListByActivityView {
                            waiting: m.waiting.remove(0),
                            done: m.done.push(summary),
                            ..m
                        },
                    ),
                    Err(e) => activity_failed(m, e),
                },
                Err(e) => activity_failed(m, e),
            }
        },
        ActivityStage::Finished => (m, StepView::Done(Err(misfit()))),
    }
}

impl ListByActivity {
    /// Begins the listing of the threads of a forum.
    pub fn begin(forum_id: u32) -> (r: (ListByActivity, Step<Vec<ThreadSummary>>))
        ensures
            (r.0@, seen_rows_step(r.1)) == activity_begin(forum_id),
    {
        let op = ListByActivity {
            forum_id,
            stage: ActivityStage::ListingThreads,
            waiting: Vec::new(),
            done: Vec::new(),
        };
        assert(views(op.waiting@) =~= Seq::<ThreadView>::empty());
        assert(views(op.done@) =~= Seq::<ThreadSummaryView>::empty());
        (op, Step::Ask(Request::threads_of_forum(forum_id)))
    }

    /// Ends the listing with a failure.
    fn fail(&mut self, e: ApiError) -> (step: Step<Vec<ThreadSummary>>)
        ensures
            (final(self)@, seen_rows_step(step)) == activity_failed(old(self)@, e@),
    {
        self.stage = ActivityStage::Finished;
        Step::Done(Err(e))
    }

    /// Asks for the posts of the next waiting thread, or ends the listing.
    fn onward(&mut self) -> (step: Step<Vec<ThreadSummary>>)
        ensures
            (final(self)@, seen_rows_step(step)) == activity_onward(old(self)@),
    {
        if self.waiting.len() == 0 {
            self.stage = ActivityStage::Finished;
            let mut rows: Vec<ThreadSummary> = Vec::new();
            std::mem::swap(&mut self.done, &mut rows);
            assert(views(self.done@) =~= Seq::<ThreadSummaryView>::empty());
            Step::Done(Ok(sort_by_recent_activity(rows)))
        } else {
            self.stage = ActivityStage::Summarising;
            Step::Ask(Request::posts_of_thread(self.waiting[0].id))
        }
    }

    /// Goes on with the reply to the call that the last step asked for.
    pub fn resume(&mut self, reply: Reply) -> (step: Step<Vec<ThreadSummary>>)
        ensures
            (final(self)@, seen_rows_step(step)) == activity_next(old(self)@, reply@),
    {
        match self.stage {
            ActivityStage::ListingThreads => match threads_of_reply(reply) {
                Ok(rows) => {
                    self.waiting = rows;
                    self.onward()
                },
                Err(e) => self.fail(e),
            },
            ActivityStage::Summarising => {
                if self.waiting.len() == 0 {
                    self.fail(unexpected_reply())
                } else {
                    match posts_of_reply(reply) {
                        Ok(posts) => {
                            let mut posts = posts;
                            let post_count = posts.len() as u64;
                            let ghost listed = views(posts@);
                            match posts.pop() {
                                Some(latest_post) => {
                                    assert(latest_post@ == listed.last());
                                    let ghost waited = views(self.waiting@);
                                    let ghost held = views(self.done@);
                                    let thread = self.waiting.remove(0);
                                    assert(views(self.waiting@) =~= waited.remove(0));
                                    let summary = ThreadSummary { thread, post_count, latest_post };
                                    self.done.push(summary);
                                    assert(views(self.done@) =~= held.push(summary@));
                                    self.onward()
                                },
                                None => {
                                    let id = self.waiting[0].origin_post_id;
                                    self.fail(ApiError::not_found("post", id))
                                },
                            }
                        },
                        Err(e) => self.fail(e),
                    }
                }
            },
            ActivityStage::Finished => Step::Done(Err(unexpected_reply())),
        }
    }
}

/// The rank of a stage: no step leads to a stage of a higher rank.
pub open spec fn stage_rank(stage: ActivityStage) -> nat {
    match stage {
        ActivityStage::ListingThreads => 2,
        ActivityStage::Summarising => 1,
        ActivityStage::Finished => 0,
    }
}

/// Where the listing ends when each call that it asks for is answered by the
/// store `s`.
pub open spec fn activity_run(
    m: ListByActivityView,
    step: StepView<Seq<ThreadSummaryView>>,
    s: StoreView,
) -> Result<Seq<ThreadSummaryView>, ApiErrorView>
    decreases stage_rank(m.stage), m.waiting.len(), (if step is Ask {
        1nat
    } else {
        0nat
    }),
{
    match step {
        StepView::Done(r) => r,
        StepView::Ask(q) => {
            let next = activity_next(m, answer(s, q));
            activity_run(next.0, next.1, s)
        },
    }
}

/// The summaries of the threads in the order given, behind those that are
/// done; the first failure ends them.
pub open spec fn summaries_from(
    s: StoreView,
    threads: Seq<ThreadView>,
    done: Seq<ThreadSummaryView>,
) -> Result<Seq<ThreadSummaryView>, ApiErrorView>
    decreases threads.len(),
{
    if threads.len() == 0 {
        Ok(done)
    } else {
        match posts_listed(s, threads[0].id) {
            Ok(posts) => match summarised(threads[0], posts) {
                Ok(summary) => summaries_from(s, threads.remove(0), done.push(summary)),
                Err(e) => Err(e),
            },
            Err(e) => Err(e),
        }
    }
}

/// The threads of a forum, each with the number of its posts and the one of
/// the largest id among them, arranged by the instant of that post, latest
/// first.
pub open spec fn activity_listed(s: StoreView, forum_id: u32) -> Result<
    Seq<ThreadSummaryView>,
    ApiErrorView,
> {
    match threads_listed(s, forum_id) {
        Ok(threads) => match summaries_from(s, threads, Seq::empty()) {
            Ok(rows) => Ok(by_recent_activity(rows)),
            Err(e) => Err(e),
        },
        Err(e) => Err(e),
    }
}

/// Going on from a thread that was dealt with ends where the summaries of
/// the waiting threads say.
pub proof fn lemma_activity_onward(m: ListByActivityView, s: StoreView)
    ensures
        activity_run(activity_onward(m).0, activity_onward(m).1, s) == match summaries_from(
            s,
            m.waiting,
            m.done,
        ) {
            Ok(rows) => Ok::<Seq<ThreadSummaryView>, ApiErrorView>(by_recent_activity(rows)),
            Err(e) => Err(e),
        },
    decreases m.waiting.len(),
{
    reveal_with_fuel(activity_run, 3);
    if m.waiting.len() > 0 {
        let asked = activity_onward(m).0;
        match posts_listed(s, m.waiting[0].id) {
            Ok(posts) => match summarised(m.waiting[0], posts) {
                Ok(summary) => {
                    let after = ListByActivityView {
                        waiting: asked.waiting.remove(0),
                        done: asked.done.push(summary),
                        ..asked
                    };
                    lemma_activity_onward(after, s);
                },
                Err(e) => {},
            },
            Err(e) => {},
        }
    }
}

/// Driving the listing against a store yields what [`activity_listed`] says.
pub proof fn lemma_activity_run(s: StoreView, forum_id: u32)
    ensures
        activity_run(activity_begin(forum_id).0, activity_begin(forum_id).1, s) == activity_listed(
            s,
            forum_id,
        ),
{
    reveal_with_fuel(activity_run, 3);
    let begun = activity_begin(forum_id).0;
    match threads_listed(s, forum_id) {
        Ok(threads) => {
            lemma_activity_onward(ListByActivityView { waiting: threads, ..begun }, s);
        },
        Err(e) => {},
    }
}

/// Lists the threads of a forum by recent activity: each with the number of
/// its posts and the latest of them, threads with a later latest post first.
pub fn get_threads_by_activity(forum_id: u32, store: &Store) -> (r: Result<
    Vec<ThreadSummary>,
    ApiError,
>)
    ensures
        seen_rows(r) == activity_listed(store@, forum_id),
{
    let (op, step) = ListByActivity::begin(forum_id);
    let mut op = op;
    let mut step = step;
    proof {
        lemma_activity_run(store@, forum_id);
    }
    loop
        invariant
            activity_run(op@, seen_rows_step(step), store@) == activity_listed(store@, forum_id),
        decreases
            stage_rank(op@.stage),
            op@.waiting.len(),
            (if step is Ask {
                1nat
            } else {
                0nat
            }),
    {
        match step {
            Step::Done(r) => {
                return r;
            },
            Step::Ask(q) => {
                let reply = store.read(&q);
                step = op.resume(reply);
            },
        }
    }
}

} // verus!
