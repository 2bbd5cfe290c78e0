//! What each reply of the store means to the caller: the entity that was
//! looked up, the failure that says it is missing, or the identifier that a
//! counter yields.

use crate::entity::{
    views, Category, CategoryView, Counter, CounterView, Forum, ForumView, Post, PostView, Thread,
    ThreadView,
};
use crate::error::{ApiError, ApiErrorView};
use crate::protocol::{maybe, Reply, ReplyView};
use vstd::prelude::*;
use vstd::string::*;

verus! {

/// The view of a result that carries one value.
pub open spec fn seen<T: View>(r: Result<T, ApiError>) -> Result<T::V, ApiErrorView> {
    match r {
        Ok(t) => Ok(t@),
        Err(e) => Err(e@),
    }
}

/// The view of a result that carries rows.
pub open spec fn seen_rows<T: View>(r: Result<Vec<T>, ApiError>) -> Result<
    Seq<T::V>,
    ApiErrorView,
> {
    match r {
        Ok(rows) => Ok(views(rows@)),
        Err(e) => Err(e@),
    }
}

/// The view of a result that carries a forum and the name of its category.
pub open spec fn seen_forum(r: Result<(Forum, String), ApiError>) -> Result<
    (ForumView, Seq<char>),
    ApiErrorView,
> {
    match r {
        Ok(pair) => Ok((pair.0@, pair.1@)),
        Err(e) => Err(e@),
    }
}

/// The failure for a reply of a shape that the request cannot have.
pub open spec fn misfit() -> ApiErrorView {
    ApiErrorView::DbDeSer("the reply of the store does not fit the request"@)
}

/// The failure for a missing entity.
pub open spec fn missing(kind: Seq<char>, id: u32) -> ApiErrorView {
    ApiErrorView::NotFound(kind, id)
}

/// The forum with the given id and the name of the category that embeds it,
/// out of the category that a lookup by forum id gave.
pub open spec fn forum_in(category: Option<CategoryView>, forum_id: u32) -> Result<
    (ForumView, Seq<char>),
    ApiErrorView,
> {
    match category {
        Some(c) => if c.has_forum(forum_id) {
            Ok((c.forums[c.forum_position(forum_id)], c.name))
        } else {
            Err(missing("forum"@, forum_id))
        },
        None => Err(missing("forum"@, forum_id)),
    }
}

/// What the reply to the lookup of a forum's category means.
pub open spec fn forum_from(reply: ReplyView, forum_id: u32) -> Result<
    (ForumView, Seq<char>),
    ApiErrorView,
> {
    match reply {
        ReplyView::Category(c) => forum_in(c, forum_id),
        ReplyView::Failed(e) => Err(e),
        _ => Err(misfit()),
    }
}

/// What the reply to the lookup of a thread means.
pub open spec fn thread_from(reply: ReplyView, thread_id: u32) -> Result<ThreadView, ApiErrorView> {
    match reply {
        ReplyView::Thread(Some(t)) => Ok(t),
        ReplyView::Thread(None) => Err(missing("thread"@, thread_id)),
        ReplyView::Failed(e) => Err(e),
        _ => Err(misfit()),
    }
}

/// What the reply to the lookup of a post means.
pub open spec fn post_from(reply: ReplyView, post_id: u32) -> Result<PostView, ApiErrorView> {
    match reply {
        ReplyView::Post(Some(p)) => Ok(p),
        ReplyView::Post(None) => Err(missing("post"@, post_id)),
        ReplyView::Failed(e) => Err(e),
        _ => Err(misfit()),
    }
}

/// The identifier that a counter yields: one more than the sequence that it
/// had before it was advanced.
pub open spec fn next_id(counter: Option<CounterView>, category: Seq<char>) -> Result<
    u32,
    ApiErrorView,
> {
    match counter {
        Some(c) => if c.sequence < u32::MAX {
            Ok((c.sequence + 1) as u32)
        } else {
            Err(ApiErrorView::CounterExhausted(category))
        },
        None => Err(ApiErrorView::CounterNotProvisioned(category)),
    }
}

/// What the reply to the advance of a counter means.
pub open spec fn id_from(reply: ReplyView, category: Seq<char>) -> Result<u32, ApiErrorView> {
    match reply {
        ReplyView::Counter(c) => next_id(c, category),
        ReplyView::Failed(e) => Err(e),
        _ => Err(misfit()),
    }
}

/// What the reply to a listing of categories means.
pub open spec fn categories_from(reply: ReplyView) -> Result<Seq<CategoryView>, ApiErrorView> {
    match reply {
        ReplyView::Categories(rows) => Ok(rows),
        ReplyView::Failed(e) => Err(e),
        _ => Err(misfit()),
    }
}

/// What the reply to a listing of threads means.
pub open spec fn threads_from(reply: ReplyView) -> Result<Seq<ThreadView>, ApiErrorView> {
    match reply {
        ReplyView::Threads(rows) => Ok(rows),
        ReplyView::Failed(e) => Err(e),
        _ => Err(misfit()),
    }
}

/// What the reply to a listing of posts means.
pub open spec fn posts_from(reply: ReplyView) -> Result<Seq<PostView>, ApiErrorView> {
    match reply {
        ReplyView::Posts(rows) => Ok(rows),
        ReplyView::Failed(e) => Err(e),
        _ => Err(misfit()),
    }
}

/// What the lookup of the latest posts yields: where nothing was looked up,
/// because no posts were asked for, there are none; otherwise what the reply
/// holds.
pub open spec fn latest_from(reply: Option<ReplyView>) -> Result<Seq<PostView>, ApiErrorView> {
    match reply {
        Some(r) => posts_from(r),
        None => Ok(Seq::empty()),
    }
}

/// The failure for a call that the store did not answer within the time
/// allowed.
pub open spec fn unanswered() -> ApiErrorView {
    ApiErrorView::Db("the store did not answer in time"@)
}

/// What the reply to a count means.
pub open spec fn count_from(reply: ReplyView) -> Result<u64, ApiErrorView> {
    match reply {
        ReplyView::Count(n) => Ok(n),
        ReplyView::Failed(e) => Err(e),
        _ => Err(misfit()),
    }
}

/// What the reply to an insert means.
pub open spec fn stored_from(reply: ReplyView) -> Result<(), ApiErrorView> {
    match reply {
        ReplyView::Inserted => Ok(()),
        ReplyView::Failed(e) => Err(e),
        _ => Err(misfit()),
    }
}

/// The failure for a reply of a shape that the request cannot have.
pub fn unexpected_reply() -> (r: ApiError)
    ensures
        r@ == misfit(),
{
    ApiError::DbDeSer(String::from_str("the reply of the store does not fit the request"))
}

/// Picks the forum with the given id out of the category that embeds it, with
/// the category's name. Reports the forum as missing where no category was
/// found, or where the one found does not embed it.
pub fn pick_forum(category: Option<Category>, forum_id: u32) -> (r: Result<
    (Forum, String),
    ApiError,
>)
    ensures
        seen_forum(r) == forum_in(maybe(category), forum_id),
{
    match category {
        Some(category) => {
            match category.position_of_forum(forum_id) {
                Some(i) => {
                    let Category { name, order, forums } = category;
                    let mut forums = forums;
                    let forum = forums.swap_remove(i);
                    Ok((forum, name))
                },
                None => Err(ApiError::not_found("forum", forum_id)),
            }
        },
        None => Err(ApiError::not_found("forum", forum_id)),
    }
}

/// Reads the reply to the lookup of a forum's category.
pub fn forum_of_reply(reply: Reply, forum_id: u32) -> (r: Result<(Forum, String), ApiError>)
    ensures
        seen_forum(r) == forum_from(reply@, forum_id),
{
    match reply {
        Reply::Category(category) => pick_forum(category, forum_id),
        Reply::Failed(e) => Err(e),
        _ => Err(unexpected_reply()),
    }
}

/// Reads the reply to the lookup of a thread.
pub fn thread_of_reply(reply: Reply, thread_id: u32) -> (r: Result<Thread, ApiError>)
    ensures
        seen(r) == thread_from(reply@, thread_id),
{
    match reply {
        Reply::Thread(Some(thread)) => Ok(thread),
        Reply::Thread(None) => Err(ApiError::not_found("thread", thread_id)),
        Reply::Failed(e) => Err(e),
        _ => Err(unexpected_reply()),
    }
}

/// Reads the reply to the lookup of a post.
pub fn post_of_reply(reply: Reply, post_id: u32) -> (r: Result<Post, ApiError>)
    ensures
        seen(r) == post_from(reply@, post_id),
{
    match reply {
        Reply::Post(Some(post)) => Ok(post),
        Reply::Post(None) => Err(ApiError::not_found("post", post_id)),
        Reply::Failed(e) => Err(e),
        _ => Err(unexpected_reply()),
    }
}

/// The identifier after the one that the counter last issued.
pub fn id_after(counter: Option<Counter>, category: &str) -> (r: Result<u32, ApiError>)
    ensures
        seen(r) == next_id(maybe(counter), category@),
{
    match counter {
        Some(counter) => {
            if counter.sequence() < u32::MAX {
                Ok(counter.sequence() + 1)
            } else {
                Err(ApiError::CounterExhausted(String::from_str(category)))
            }
        },
        None => Err(ApiError::CounterNotProvisioned(String::from_str(category))),
    }
}

/// Reads the reply to the advance of a counter.
pub fn id_of_reply(reply: Reply, category: &str) -> (r: Result<u32, ApiError>)
    ensures
        seen(r) == id_from(reply@, category@),
{
    match reply {
        Reply::Counter(counter) => id_after(counter, category),
        Reply::Failed(e) => Err(e),
        _ => Err(unexpected_reply()),
    }
}

/// Reads the reply to a listing of categories.
pub fn categories_of_reply(reply: Reply) -> (r: Result<Vec<Category>, ApiError>)
    ensures
        seen_rows(r) == categories_from(reply@),
{
    match reply {
        Reply::Categories(rows) => Ok(rows),
        Reply::Failed(e) => Err(e),
        _ => Err(unexpected_reply()),
    }
}

/// Reads the reply to a listing of threads.
pub fn threads_of_reply(reply: Reply) -> (r: Result<Vec<Thread>, ApiError>)
    ensures
        seen_rows(r) == threads_from(reply@),
{
    match reply {
        Reply::Threads(rows) => Ok(rows),
        Reply::Failed(e) => Err(e),
        _ => Err(unexpected_reply()),
    }
}

/// Reads the reply to a listing of posts.
pub fn posts_of_reply(reply: Reply) -> (r: Result<Vec<Post>, ApiError>)
    ensures
        seen_rows(r) == posts_from(reply@),
{
    match reply {
        Reply::Posts(rows) => Ok(rows),
        Reply::Failed(e) => Err(e),
        _ => Err(unexpected_reply()),
    }
}

/// Reads what the lookup of the latest posts gave: the reply, or nothing
/// where no lookup was made.
pub fn latest_posts_of_reply(reply: Option<Reply>) -> (r: Result<Vec<Post>, ApiError>)
    ensures
        seen_rows(r) == latest_from(maybe(reply)),
{
    match reply {
        Some(reply) => posts_of_reply(reply),
        None => {
            let none: Vec<Post> = Vec::new();
            assert(views(none@) =~= Seq::<PostView>::empty());
            Ok(none)
        },
    }
}

/// The reply that stands for a call that the store did not answer within
/// the time allowed: a failure of the store.
pub fn timed_out() -> (r: Reply)
    ensures
        r@ == ReplyView::Failed(unanswered()),
{
    Reply::Failed(ApiError::Db(String::from_str("the store did not answer in time")))
}

/// Reads the reply to a count.
pub fn count_of_reply(reply: Reply) -> (r: Result<u64, ApiError>)
    ensures
        seen(r) == count_from(reply@),
{
    match reply {
        Reply::Count(n) => Ok(n),
        Reply::Failed(e) => Err(e),
        _ => Err(unexpected_reply()),
    }
}

/// Reads the reply to an insert.
pub fn stored_of_reply(reply: Reply) -> (r: Result<(), ApiError>)
    ensures
        seen(r) == stored_from(reply@),
{
    match reply {
        Reply::Inserted => Ok(()),
        Reply::Failed(e) => Err(e),
        _ => Err(unexpected_reply()),
    }
}

} // verus!
