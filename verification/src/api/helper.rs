//! The lookups and the allocator that the operations of [`super`] are built
//! from, each against a store held in memory.

use crate::entity::{Category, Counter, Forum, ForumView, Post, PostView, Thread, ThreadView};
use crate::error::{ApiError, ApiErrorView};
use crate::protocol::Request;
use crate::repository::{counted, found_one, CriterionView, Field};
use crate::resolve::{
    count_of_reply, forum_in, forum_of_reply, id_of_reply, missing, next_id, post_of_reply, seen,
    seen_forum, thread_of_reply,
};
use crate::store::{bumped, counter_of, Store, StoreView};
use vstd::prelude::*;

verus! {

/// The identifier that the counter of `category` yields next.
pub open spec fn id_issued(s: StoreView, category: Seq<char>) -> Result<u32, ApiErrorView> {
    next_id(found_one::<Counter>(s.counters, counter_of(category)), category)
}

/// The store after the counter of `category` was advanced.
pub open spec fn after_issue(s: StoreView, category: Seq<char>) -> StoreView {
    StoreView { counters: bumped(s.counters, category), ..s }
}

/// The first stored post with the given id, or the failure that says it is
/// missing.
pub open spec fn post_of(s: StoreView, post_id: u32) -> Result<PostView, ApiErrorView> {
    match found_one::<Post>(s.posts, CriterionView::Number { field: Field::Id, value: post_id }) {
        Some(post) => Ok(post),
        None => Err(missing("post"@, post_id)),
    }
}

/// The first stored thread with the given id, or the failure that says it is
/// missing.
pub open spec fn thread_of(s: StoreView, thread_id: u32) -> Result<ThreadView, ApiErrorView> {
    match found_one::<Thread>(
        s.threads,
        CriterionView::Number { field: Field::Id, value: thread_id },
    ) {
        Some(thread) => Ok(thread),
        None => Err(missing("thread"@, thread_id)),
    }
}

/// The forum with the given id out of the first stored category that embeds
/// one, with the name of that category, or the failure that says it is
/// missing.
pub open spec fn forum_of(s: StoreView, forum_id: u32) -> Result<
    (ForumView, Seq<char>),
    ApiErrorView,
> {
    forum_in(
        found_one::<Category>(
            s.categories,
            CriterionView::Number { field: Field::ForumsId, value: forum_id },
        ),
        forum_id,
    )
}

/// The number of threads that refer to the forum.
pub open spec fn threads_counted(s: StoreView, forum_id: u32) -> Result<u64, ApiErrorView> {
    Ok(
        counted::<Thread>(
            s.threads,
            CriterionView::Number { field: Field::ForumId, value: forum_id },
        ) as u64,
    )
}

/// The number of posts that refer to the thread.
pub open spec fn posts_counted(s: StoreView, thread_id: u32) -> Result<u64, ApiErrorView> {
    Ok(
        counted::<Post>(
            s.posts,
            CriterionView::Number { field: Field::ThreadId, value: thread_id },
        ) as u64,
    )
}

/// Gives access to the store that was supplied to the caller, and reports
/// that none was.
pub fn get_db<S>(supplied: Option<S>) -> (r: Result<S, ApiError>)
    ensures
        match supplied {
            Some(store) => r == Ok::<S, ApiError>(store),
            None => r is Err && r->Err_0@ == ApiErrorView::DbNotInContext,
        },
{
    match supplied {
        Some(store) => Ok(store),
        None => Err(ApiError::DbNotInContext),
    }
}

/// Advances the counter of `category` and returns the identifier that it
/// yields: one more than its sequence before the call. Fails where no counter
/// is provisioned for the category or where its identifiers are used up; the
/// store is then unchanged.
pub fn get_and_increment_id_of(category: &str, store: &mut Store) -> (r: Result<u32, ApiError>)
    ensures
        seen(r) == id_issued(old(store)@, category@),
        final(store)@ == after_issue(old(store)@, category@),
{
    let reply = store.perform(Request::advance(category));
    id_of_reply(reply, category)
}

/// Looks up the post with the given id.
pub fn get_post(post_id: u32, store: &Store) -> (r: Result<Post, ApiError>)
    ensures
        seen(r) == post_of(store@, post_id),
{
    post_of_reply(store.read(&Request::post(post_id)), post_id)
}

/// Looks up the thread with the given id.
pub fn get_thread(thread_id: u32, store: &Store) -> (r: Result<Thread, ApiError>)
    ensures
        seen(r) == thread_of(store@, thread_id),
{
    thread_of_reply(store.read(&Request::thread(thread_id)), thread_id)
}

/// Looks up the forum with the given id, with the name of the category that
/// embeds it.
pub fn get_forum(forum_id: u32, store: &Store) -> (r: Result<(Forum, String), ApiError>)
    ensures
        seen_forum(r) == forum_of(store@, forum_id),
{
    forum_of_reply(store.read(&Request::category_of_forum(forum_id)), forum_id)
}

/// Counts the threads that refer to the forum, whether or not the forum
/// exists.
pub fn count_threads_of(forum_id: u32, store: &Store) -> (r: Result<u64, ApiError>)
    ensures
        seen(r) == threads_counted(store@, forum_id),
{
    count_of_reply(store.read(&Request::count_threads(forum_id)))
}

/// Counts the posts that refer to the thread, whether or not the thread
/// exists.
pub fn count_posts_of(thread_id: u32, store: &Store) -> (r: Result<u64, ApiError>)
    ensures
        seen(r) == posts_counted(store@, thread_id),
{
    count_of_reply(store.read(&Request::count_posts(thread_id)))
}

} // verus!
