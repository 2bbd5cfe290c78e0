//! The two writing operations as state machines.
//!
//! An operation that needs several calls on the store is a value that is
//! stepped: each step either asks for one call or ends with the result. The
//! caller makes the call, however its store is reached, and hands the reply
//! to the next step. Every decision of the operation is taken here.

use crate::clock::{clock_reading, system_millis};
use crate::entity::{Post, PostView, Thread, ThreadView};
use crate::error::{ApiError, ApiErrorView};
use crate::protocol::{
    category_of_forum_request, thread_request, Reply, ReplyView, Request, RequestView,
};
use crate::resolve::{
    forum_from, forum_of_reply, id_from, id_of_reply, misfit, stored_from, stored_of_reply,
    thread_from, thread_of_reply, unexpected_reply,
};
use vstd::prelude::*;
use vstd::string::*;

verus! {

/// What a [`Step`] holds.
pub enum StepView<T> {
    Ask(RequestView),
    Done(Result<T, ApiErrorView>),
}

/// What an operation wants next.
#[derive(Debug)]
pub enum Step<T> {
    /// Make this call on the store and resume with its reply.
    Ask(Request),
    /// The operation has ended with this result.
    Done(Result<T, ApiError>),
}

impl<T> View for Step<T> {
    type V = StepView<T>;

    open spec fn view(&self) -> StepView<T> {
        match self {
            Step::Ask(q) => StepView::Ask(q@),
            Step::Done(Ok(t)) => StepView::Done(Ok(*t)),
            Step::Done(Err(e)) => StepView::Done(Err(e@)),
        }
    }
}

/// The advance of the counter that numbers posts.
pub open spec fn advance_posts() -> RequestView {
    RequestView::Advance { category: "post"@ }
}

/// The advance of the counter that numbers threads.
pub open spec fn advance_threads() -> RequestView {
    RequestView::Advance { category: "thread"@ }
}

/// How far the creation of a post has come.
#[derive(Debug, Clone, Copy, PartialEq, Eq, Structural)]
pub enum PostStage {
    /// The thread is being looked up.
    ResolvingThread,
    /// The post's id is being allocated.
    AllocatingId,
    /// The post is being stored.
    Inserting,
    /// The operation has ended.
    Finished,
}

/// What a [`CreatePost`] holds.
pub struct CreatePostView {
    pub thread_id: u32,
    pub content: Seq<char>,
    pub stage: PostStage,
}

/// The creation of a post in a thread.
#[derive(Debug)]
pub struct CreatePost {
    pub thread_id: u32,
    pub content: String,
    pub stage: PostStage,
}

impl View for CreatePost {
    type V = CreatePostView;

    open spec fn view(&self) -> CreatePostView {
        CreatePostView { thread_id: self.thread_id, content: self.content@, stage: self.stage }
    }
}

/// How the creation of a post begins: empty content is rejected before the
/// store is asked anything; otherwise the thread is looked up.
pub open spec fn post_begin(thread_id: u32, content: Seq<char>) -> (CreatePostView, StepView<()>) {
    if content.len() == 0 {
        (
            CreatePostView { thread_id, content, stage: PostStage::Finished },
            StepView::Done(Err(ApiErrorView::EmptyContent)),
        )
    } else {
        (
            CreatePostView { thread_id, content, stage: PostStage::ResolvingThread },
            StepView::Ask(thread_request(thread_id)),
        )
    }
}

/// How the creation of a post goes on when a reply comes, at the instant
/// `now`.
pub open spec fn post_next(m: CreatePostView, reply: ReplyView, now: i64) -> (
    CreatePostView,
    StepView<()>,
) {
    match m.stage {
        PostStage::ResolvingThread => match thread_from(reply, m.thread_id) {
            Ok(_) => (
                CreatePostView { stage: PostStage::AllocatingId, ..m },
                StepView::Ask(advance_posts()),
            ),
            Err(e) => (CreatePostView { stage: PostStage::Finished, ..m }, StepView::Done(Err(e))),
        },
        PostStage::AllocatingId => match id_from(reply, "post"@) {
            Ok(id) => (
                CreatePostView { stage: PostStage::Inserting, ..m },
                StepView::Ask(
                    RequestView::InsertPost {
                        post: PostView {
                            id,
                            content: m.content,
                            created_at: now,
                            thread_id: m.thread_id,
                        },
                    },
                ),
            ),
            Err(e) => (CreatePostView { stage: PostStage::Finished, ..m }, StepView::Done(Err(e))),
        },
        PostStage::Inserting => (
            CreatePostView { stage: PostStage::Finished, ..m },
            StepView::Done(stored_from(reply)),
        ),
        PostStage::Finished => (m, StepView::Done(Err(misfit()))),
    }
}

/// The creation of a post ended by a failure.
pub open spec fn post_failed(m: CreatePostView, e: ApiErrorView) -> (CreatePostView, StepView<()>) {
    (CreatePostView { stage: PostStage::Finished, ..m }, StepView::Done(Err(e)))
}

/// How the creation of a post goes on when a reply comes and the clock was
/// read. With an instant it goes on at that instant. Without one it ends in
/// failure where a post would have been built, and goes on as ever where
/// none is built.
pub open spec fn post_resumed(m: CreatePostView, reply: ReplyView, clock: Option<i64>) -> (
    CreatePostView,
    StepView<()>,
) {
    match clock {
        Some(now) => post_next(m, reply, now),
        None => if m.stage == PostStage::AllocatingId && id_from(reply, "post"@) is Ok {
            post_failed(m, ApiErrorView::ClockOutOfRange)
        } else {
            post_next(m, reply, 0)
        },
    }
}

impl CreatePost {
    /// Begins the creation of a post with the given content in the given
    /// thread.
    pub fn begin(thread_id: u32, content: String) -> (r: (CreatePost, Step<()>))
        ensures
            (r.0@, r.1@) == post_begin(thread_id, content@),
    {
        if content.as_str().is_empty() {
            (
                CreatePost { thread_id, content, stage: PostStage::Finished },
                Step::Done(Err(ApiError::EmptyContent)),
            )
        } else {
            (
                CreatePost { thread_id, content, stage: PostStage::ResolvingThread },
                Step::Ask(Request::thread(thread_id)),
            )
        }
    }

    /// Goes on with the reply to the call that the last step asked for; a
    /// post that is built in this step is created at `now`.
    pub fn resume_at(&mut self, reply: Reply, now: i64) -> (step: Step<()>)
        ensures
            (final(self)@, step@) == post_next(old(self)@, reply@, now),
    {
        match self.stage {
            PostStage::ResolvingThread => match thread_of_reply(reply, self.thread_id) {
                Ok(_) => {
                    self.stage = PostStage::AllocatingId;
                    Step::Ask(Request::advance("post"))
                },
                Err(e) => {
                    self.stage = PostStage::Finished;
                    Step::Done(Err(e))
                },
            },
            PostStage::AllocatingId => match id_of_reply(reply, "post") {
                Ok(id) => {
                    self.stage = PostStage::Inserting;
                    Step::Ask(
                        Request::InsertPost {
                            post: Post {
                                id,
                                content: self.content.clone(),
                                created_at: now,
                                thread_id: self.thread_id,
                            },
                        },
                    )
                },
                Err(e) => {
                    self.stage = PostStage::Finished;
                    Step::Done(Err(e))
                },
            },
            PostStage::Inserting => {
                self.stage = PostStage::Finished;
                Step::Done(stored_of_reply(reply))
            },
            PostStage::Finished => Step::Done(Err(unexpected_reply())),
        }
    }

    /// Goes on with the reply to the call that the last step asked for, given
    /// what the clock read: a post that is built in this step is created at
    /// that instant, and cannot be built where the clock gave none.
    pub fn resume_clocked(&mut self, reply: Reply, clock: Option<i64>) -> (step: Step<()>)
        ensures
            (final(self)@, step@) == post_resumed(old(self)@, reply@, clock),
    {
        match clock {
            Some(now) => self.resume_at(reply, now),
            None => match self.stage {
                PostStage::AllocatingId => match id_of_reply(reply, "post") {
                    Ok(_) => {
                        self.stage = PostStage::Finished;
                        Step::Done(Err(ApiError::ClockOutOfRange))
                    },
                    Err(e) => {
                        self.stage = PostStage::Finished;
                        Step::Done(Err(e))
                    },
                },
                _ => self.resume_at(reply, 0),
            },
        }
    }

    /// Goes on with the reply to the call that the last step asked for; a
    /// post that is built in this step is created at the current instant.
    /// Where the system clock gives no instant, the operation ends with
    /// `ClockOutOfRange` in place of building the post.
    pub fn resume(&mut self, reply: Reply) -> (step: Step<()>)
        ensures
            exists|clock: Option<i64>|
                clock_reading(clock) && (final(self)@, step@) == #[trigger] post_resumed(
                    old(self)@,
                    reply@,
                    clock,
                ),
    {
        let clock = system_millis();
        self.resume_clocked(reply, clock)
    }
}

/// How far the creation of a thread has come.
#[derive(Debug, Clone, Copy, PartialEq, Eq, Structural)]
pub enum ThreadStage {
    /// The forum is being looked up.
    ResolvingForum,
    /// The thread's id is being allocated.
    AllocatingThreadId,
    /// The id of the origin post is being allocated.
    AllocatingPostId { thread_id: u32 },
    /// The origin post is being stored.
    InsertingPost { thread_id: u32, post_id: u32 },
    /// The thread is being stored.
    InsertingThread { thread_id: u32 },
    /// The operation has ended.
    Finished,
}

/// What a [`CreateThread`] holds.
pub struct CreateThreadView {
    pub forum_id: u32,
    pub subject: Seq<char>,
    pub post_content: Seq<char>,
    pub stage: ThreadStage,
}

/// The creation of a thread together with its origin post.
#[derive(Debug)]
pub struct CreateThread {
    pub forum_id: u32,
    pub subject: String,
    pub post_content: String,
    pub stage: ThreadStage,
}

impl View for CreateThread {
    type V = CreateThreadView;

    open spec fn view(&self) -> CreateThreadView {
        CreateThreadView {
            forum_id: self.forum_id,
            subject: self.subject@,
            post_content: self.post_content@,
            stage: self.stage,
        }
    }
}

/// How the creation of a thread begins: an empty subject, then empty content,
/// is rejected before the store is asked anything; otherwise the forum is
/// looked up.
pub open spec fn thread_begin(forum_id: u32, subject: Seq<char>, post_content: Seq<char>) -> (
    CreateThreadView,
    StepView<u32>,
) {
    if subject.len() == 0 {
        (
            CreateThreadView { forum_id, subject, post_content, stage: ThreadStage::Finished },
            StepView::Done(Err(ApiErrorView::EmptySubject)),
        )
    } else if post_content.len() == 0 {
        (
            CreateThreadView { forum_id, subject, post_content, stage: ThreadStage::Finished },
            StepView::Done(Err(ApiErrorView::EmptyContent)),
        )
    } else {
        (
            CreateThreadView {
                forum_id,
                subject,
                post_content,
                stage: ThreadStage::ResolvingForum,
            },
            StepView::Ask(category_of_forum_request(forum_id)),
        )
    }
}

/// The operation ended by a failure.
pub open spec fn thread_failed(m: CreateThreadView, e: ApiErrorView) -> (
    CreateThreadView,
    StepView<u32>,
) {
    (CreateThreadView { stage: ThreadStage::Finished, ..m }, StepView::Done(Err(e)))
}

/// How the creation of a thread goes on when a reply comes, at the instant
/// `now`: the thread's id is allocated first, then the id of the origin post;
/// the post is stored first, then the thread.
pub open spec fn thread_next(m: CreateThreadView, reply: ReplyView, now: i64) -> (
    CreateThreadView,
    StepView<u32>,
) {
    match m.stage {
        ThreadStage::ResolvingForum => match forum_from(reply, m.forum_id) {
            Ok(_) => (
                CreateThreadView { stage: ThreadStage::AllocatingThreadId, ..m },
                StepView::Ask(advance_threads()),
            ),
            Err(e) => thread_failed(m, e),
        },
        ThreadStage::AllocatingThreadId => match id_from(reply, "thread"@) {
            Ok(thread_id) => (
                CreateThreadView { stage: ThreadStage::AllocatingPostId { thread_id }, ..m },
                StepView::Ask(advance_posts()),
            ),
            Err(e) => thread_failed(m, e),
        },
        ThreadStage::AllocatingPostId { thread_id } => match id_from(reply, "post"@) {
            Ok(post_id) => (
                CreateThreadView { stage: ThreadStage::InsertingPost { thread_id, post_id }, ..m },
                StepView::Ask(
                    RequestView::InsertPost {
                        post: PostView {
                            id: post_id,
                            content: m.post_content,
                            created_at: now,
                            thread_id,
                        },
                    },
                ),
            ),
            Err(e) => thread_failed(m, e),
        },
        ThreadStage::InsertingPost { thread_id, post_id } => match stored_from(reply) {
            Ok(_) => (
                CreateThreadView { stage: ThreadStage::InsertingThread { thread_id }, ..m },
                StepView::Ask(
                    RequestView::InsertThread {
                        thread: ThreadView {
                            id: thread_id,
                            origin_post_id: post_id,
                            forum_id: m.forum_id,
                            subject: m.subject,
                        },
                    },
                ),
            ),
            Err(e) => thread_failed(m, e),
        },
        ThreadStage::InsertingThread { thread_id } => match stored_from(reply) {
            Ok(_) => (
                CreateThreadView { stage: ThreadStage::Finished, ..m },
                StepView::Done(Ok(thread_id)),
            ),
            Err(e) => thread_failed(m, e),
        },
        ThreadStage::Finished => (m, StepView::Done(Err(misfit()))),
    }
}

/// How the creation of a thread goes on when a reply comes and the clock was
/// read. With an instant it goes on at that instant. Without one it ends in
/// failure where the origin post would have been built, and goes on as ever
/// where none is built.
pub open spec fn thread_resumed(m: CreateThreadView, reply: ReplyView, clock: Option<i64>) -> (
    CreateThreadView,
    StepView<u32>,
) {
    match clock {
        Some(now) => thread_next(m, reply, now),
        None => if m.stage is AllocatingPostId && id_from(reply, "post"@) is Ok {
            thread_failed(m, ApiErrorView::ClockOutOfRange)
        } else {
            thread_next(m, reply, 0)
        },
    }
}

impl CreateThread {
    /// Begins the creation of a thread with the given subject in the given
    /// forum, opened by a post with the given content.
    pub fn begin(forum_id: u32, subject: String, post_content: String) -> (r: (
        CreateThread,
        Step<u32>,
    ))
        ensures
            (r.0@, r.1@) == thread_begin(forum_id, subject@, post_content@),
    {
        if subject.as_str().is_empty() {
            (
                CreateThread { forum_id, subject, post_content, stage: ThreadStage::Finished },
                Step::Done(Err(ApiError::EmptySubject)),
            )
        } else if post_content.as_str().is_empty() {
            (
                CreateThread { forum_id, subject, post_content, stage: ThreadStage::Finished },
                Step::Done(Err(ApiError::EmptyContent)),
            )
        } else {
            (
                CreateThread {
                    forum_id,
                    subject,
                    post_content,
                    stage: ThreadStage::ResolvingForum,
                },
                Step::Ask(Request::category_of_forum(forum_id)),
            )
        }
    }

    /// Ends the operation with a failure.
    fn fail(&mut self, e: ApiError) -> (step: Step<u32>)
        ensures
            (final(self)@, step@) == thread_failed(old(self)@, e@),
    {
        self.stage = ThreadStage::Finished;
        Step::Done(Err(e))
    }

    /// Goes on with the reply to the call that the last step asked for; a
    /// post that is built in this step is created at `now`.
    pub fn resume_at(&mut self, reply: Reply, now: i64) -> (step: Step<u32>)
        ensures
            (final(self)@, step@) == thread_next(old(self)@, reply@, now),
    {
        match self.stage {
            ThreadStage::ResolvingForum => match forum_of_reply(reply, self.forum_id) {
                Ok(_) => {
                    self.stage = ThreadStage::AllocatingThreadId;
                    Step::Ask(Request::advance("thread"))
                },
                Err(e) => self.fail(e),
            },
            ThreadStage::AllocatingThreadId => match id_of_reply(reply, "thread") {
                Ok(thread_id) => {
                    self.stage = ThreadStage::AllocatingPostId { thread_id };
                    Step::Ask(Request::advance("post"))
                },
                Err(e) => self.fail(e),
            },
            ThreadStage::AllocatingPostId { thread_id } => match id_of_reply(reply, "post") {
                Ok(post_id) => {
                    self.stage = ThreadStage::InsertingPost { thread_id, post_id };
                    Step::Ask(
                        Request::InsertPost {
                            post: Post {
                                id: post_id,
                                content: self.post_content.clone(),
                                created_at: now,
                                thread_id,
                            },
                        },
                    )
                },
                Err(e) => self.fail(e),
            },
            ThreadStage::InsertingPost { thread_id, post_id } => match stored_of_reply(reply) {
                Ok(_) => {
                    self.stage = ThreadStage::InsertingThread { thread_id };
                    Step::Ask(
                        Request::InsertThread {
                            thread: Thread {
                                id: thread_id,
                                origin_post_id: post_id,
                                forum_id: self.forum_id,
                                subject: self.subject.clone(),
                            },
                        },
                    )
                },
                Err(e) => self.fail(e),
            },
            ThreadStage::InsertingThread { thread_id } => match stored_of_reply(reply) {
                Ok(_) => {
                    self.stage = ThreadStage::Finished;
                    Step::Done(Ok(thread_id))
                },
                Err(e) => self.fail(e),
            },
            ThreadStage::Finished => Step::Done(Err(unexpected_reply())),
        }
    }

    /// Goes on with the reply to the call that the last step asked for, given
    /// what the clock read: a post that is built in this step is created at
    /// that instant, and cannot be built where the clock gave none.
    pub fn resume_clocked(&mut self, reply: Reply, clock: Option<i64>) -> (step: Step<u32>)
        ensures
            (final(self)@, step@) == thread_resumed(old(self)@, reply@, clock),
    {
        match clock {
            Some(now) => self.resume_at(reply, now),
            None => match self.stage {
                ThreadStage::AllocatingPostId { thread_id } => match id_of_reply(reply, "post") {
                    Ok(_) => self.fail(ApiError::ClockOutOfRange),
                    Err(e) => self.fail(e),
                },
                _ => self.resume_at(reply, 0),
            },
        }
    }

    /// Goes on with the reply to the call that the last step asked for; a
    /// post that is built in this step is created at the current instant.
    /// Where the system clock gives no instant, the operation ends with
    /// `ClockOutOfRange` in place of building the origin post.
    pub fn resume(&mut self, reply: Reply) -> (step: Step<u32>)
        ensures
            exists|clock: Option<i64>|
                clock_reading(clock) && (final(self)@, step@) == #[trigger] thread_resumed(
                    old(self)@,
                    reply@,
                    clock,
                ),
    {
        let clock = system_millis();
        self.resume_clocked(reply, clock)
    }
}

} // verus!
