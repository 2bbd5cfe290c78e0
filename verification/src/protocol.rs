//! The plain values that the data layer exchanges with a document store: a
//! [`Request`] says which call to make on which collection, a [`Reply`]
//! carries what came back.

use crate::entity::{
    views, Category, CategoryView, CollectionName, Counter, CounterView, Post, PostView, Thread,
    ThreadView,
};
use crate::error::{ApiError, ApiErrorView};
use crate::repository::{Criterion, CriterionView, Field, Sort};
use vstd::prelude::*;
use vstd::string::*;

verus! {

/// The seconds that a call on a remote store may take before it counts as
/// failed.
pub const CALL_TIMEOUT_SECONDS: u64 = 10;

/// The collections of the store, one per entity type.
#[derive(Debug, Clone, Copy, PartialEq, Eq, Structural)]
pub enum Collection {
    Counters,
    Categories,
    Threads,
    Posts,
}

impl Collection {
    /// The name under which the store keeps the collection: the one that the
    /// entity type is bound to.
    pub open spec fn label(self) -> Seq<char> {
        match self {
            Collection::Counters => Counter::bound_name(),
            Collection::Categories => Category::bound_name(),
            Collection::Threads => Thread::bound_name(),
            Collection::Posts => Post::bound_name(),
        }
    }

    /// The name under which the store keeps the collection.
    pub fn name(&self) -> (r: &'static str)
        ensures
            r@ == self.label(),
    {
        match self {
            Collection::Counters => Counter::collection_name(),
            Collection::Categories => Category::collection_name(),
            Collection::Threads => Thread::collection_name(),
            Collection::Posts => Post::collection_name(),
        }
    }
}

/// No two collections are kept under one name.
pub proof fn lemma_bindings_differ(a: Collection, b: Collection)
    requires
        a != b,
    ensures
        a.label() != b.label(),
{
    reveal_strlit("counters");
    reveal_strlit("categories");
    reveal_strlit("threads");
    reveal_strlit("posts");
    assert("counters"@.len() == 8);
    assert("categories"@.len() == 10);
    assert("threads"@.len() == 7);
    assert("posts"@.len() == 5);
}

/// What a [`Request`] holds.
pub enum RequestView {
    FindOne { collection: Collection, criterion: CriterionView },
    Find { collection: Collection, criterion: CriterionView, sort: Sort, limit: u64 },
    Count { collection: Collection, criterion: CriterionView },
    Advance { category: Seq<char> },
    InsertPost { post: PostView },
    InsertThread { thread: ThreadView },
}

/// One call on the store.
#[derive(Debug)]
pub enum Request {
    /// The first stored document of the collection that meets the criterion.
    FindOne { collection: Collection, criterion: Criterion },
    /// The documents of the collection that meet the criterion, arranged by
    /// `sort`, at most `limit` of them; a limit of zero is no limit.
    Find { collection: Collection, criterion: Criterion, sort: Sort, limit: u64 },
    /// The number of documents of the collection that meet the criterion.
    Count { collection: Collection, criterion: Criterion },
    /// In one atomic step, find the counter of the category, add one to its
    /// sequence, and hand back the counter as it was before.
    Advance { category: String },
    /// Store a post.
    InsertPost { post: Post },
    /// Store a thread.
    InsertThread { thread: Thread },
}

impl View for Request {
    type V = RequestView;

    open spec fn view(&self) -> RequestView {
        match self {
            Request::FindOne { collection, criterion } => RequestView::FindOne {
                collection: *collection,
                criterion: criterion@,
            },
            Request::Find { collection, criterion, sort, limit } => RequestView::Find {
                collection: *collection,
                criterion: criterion@,
                sort: *sort,
                limit: *limit,
            },
            Request::Count { collection, criterion } => RequestView::Count {
                collection: *collection,
                criterion: criterion@,
            },
            Request::Advance { category } => RequestView::Advance { category: category@ },
            Request::InsertPost { post } => RequestView::InsertPost { post: post@ },
            Request::InsertThread { thread } => RequestView::InsertThread { thread: thread@ },
        }
    }
}

impl RequestView {
    /// Whether the call changes what the store holds.
    pub open spec fn writes(self) -> bool {
        self is Advance || self is InsertPost || self is InsertThread
    }

    /// The collection on which the call is made.
    pub open spec fn target(self) -> Collection {
        match self {
            RequestView::FindOne { collection, .. } => collection,
            RequestView::Find { collection, .. } => collection,
            RequestView::Count { collection, .. } => collection,
            RequestView::Advance { .. } => Collection::Counters,
            RequestView::InsertPost { .. } => Collection::Posts,
            RequestView::InsertThread { .. } => Collection::Threads,
        }
    }

    /// The criterion by which the call picks documents; an insert picks none.
    pub open spec fn filter(self) -> CriterionView {
        match self {
            RequestView::FindOne { criterion, .. } => criterion,
            RequestView::Find { criterion, .. } => criterion,
            RequestView::Count { criterion, .. } => criterion,
            RequestView::Advance { category } => CriterionView::Text {
                field: Field::Category,
                text: category,
            },
            RequestView::InsertPost { .. } => CriterionView::Everything,
            RequestView::InsertThread { .. } => CriterionView::Everything,
        }
    }
}

/// The lookup of all categories by display rank.
pub open spec fn categories_request() -> RequestView {
    RequestView::Find {
        collection: Collection::Categories,
        criterion: CriterionView::Everything,
        sort: Sort { field: Field::Order, ascending: true },
        limit: 0,
    }
}

/// The lookup of the category that embeds a forum.
pub open spec fn category_of_forum_request(forum_id: u32) -> RequestView {
    RequestView::FindOne {
        collection: Collection::Categories,
        criterion: CriterionView::Number { field: Field::ForumsId, value: forum_id },
    }
}

/// The lookup of a thread by id.
pub open spec fn thread_request(thread_id: u32) -> RequestView {
    RequestView::FindOne {
        collection: Collection::Threads,
        criterion: CriterionView::Number { field: Field::Id, value: thread_id },
    }
}

/// The lookup of a post by id.
pub open spec fn post_request(post_id: u32) -> RequestView {
    RequestView::FindOne {
        collection: Collection::Posts,
        criterion: CriterionView::Number { field: Field::Id, value: post_id },
    }
}

/// The lookup of a forum's threads, newest id first.
pub open spec fn threads_of_forum_request(forum_id: u32) -> RequestView {
    RequestView::Find {
        collection: Collection::Threads,
        criterion: CriterionView::Number { field: Field::ForumId, value: forum_id },
        sort: Sort { field: Field::Id, ascending: false },
        limit: 0,
    }
}

/// The lookup of a thread's posts, oldest id first.
pub open spec fn posts_of_thread_request(thread_id: u32) -> RequestView {
    RequestView::Find {
        collection: Collection::Posts,
        criterion: CriterionView::Number { field: Field::ThreadId, value: thread_id },
        sort: Sort { field: Field::Id, ascending: true },
        limit: 0,
    }
}

/// The lookup of the posts with the largest ids, newest first.
pub open spec fn latest_posts_request(limit: u64) -> RequestView {
    RequestView::Find {
        collection: Collection::Posts,
        criterion: CriterionView::Everything,
        sort: Sort { field: Field::Id, ascending: false },
        limit,
    }
}

/// The count of a forum's threads.
pub open spec fn count_threads_request(forum_id: u32) -> RequestView {
    RequestView::Count {
        collection: Collection::Threads,
        criterion: CriterionView::Number { field: Field::ForumId, value: forum_id },
    }
}

/// The count of a thread's posts.
pub open spec fn count_posts_request(thread_id: u32) -> RequestView {
    RequestView::Count {
        collection: Collection::Posts,
        criterion: CriterionView::Number { field: Field::ThreadId, value: thread_id },
    }
}

impl Request {
    /// All categories, by ascending `order`.
    pub fn categories() -> (r: Request)
        ensures
            r@ == categories_request(),
    {
        Request::Find {
            collection: Collection::Categories,
            criterion: Criterion::Everything,
            sort: Sort { field: Field::Order, ascending: true },
            limit: 0,
        }
    }

    /// The category among whose forums one has the given id.
    pub fn category_of_forum(forum_id: u32) -> (r: Request)
        ensures
            r@ == category_of_forum_request(forum_id),
    {
        Request::FindOne {
            collection: Collection::Categories,
            criterion: Criterion::Number { field: Field::ForumsId, value: forum_id },
        }
    }

    /// The thread with the given id.
    pub fn thread(thread_id: u32) -> (r: Request)
        ensures
            r@ == thread_request(thread_id),
    {
        Request::FindOne {
            collection: Collection::Threads,
            criterion: Criterion::Number { field: Field::Id, value: thread_id },
        }
    }

    /// The post with the given id.
    pub fn post(post_id: u32) -> (r: Request)
        ensures
            r@ == post_request(post_id),
    {
        Request::FindOne {
            collection: Collection::Posts,
            criterion: Criterion::Number { field: Field::Id, value: post_id },
        }
    }

    /// The threads of a forum, by descending id.
    pub fn threads_of_forum(forum_id: u32) -> (r: Request)
        ensures
            r@ == threads_of_forum_request(forum_id),
    {
        Request::Find {
            collection: Collection::Threads,
            criterion: Criterion::Number { field: Field::ForumId, value: forum_id },
            sort: Sort { field: Field::Id, ascending: false },
            limit: 0,
        }
    }

    /// The posts of a thread, by ascending id.
    pub fn posts_of_thread(thread_id: u32) -> (r: Request)
        ensures
            r@ == posts_of_thread_request(thread_id),
    {
        Request::Find {
            collection: Collection::Posts,
            criterion: Criterion::Number { field: Field::ThreadId, value: thread_id },
            sort: Sort { field: Field::Id, ascending: true },
            limit: 0,
        }
    }

    /// The `limit` posts with the largest ids, by descending id.
    pub fn latest_posts(limit: u64) -> (r: Request)
        ensures
            r@ == latest_posts_request(limit),
    {
        Request::Find {
            collection: Collection::Posts,
            criterion: Criterion::Everything,
            sort: Sort { field: Field::Id, ascending: false },
            limit,
        }
    }

    /// The lookup of the `num` latest posts; none where `num` is not
    /// positive, since there is then nothing to look up.
    pub fn latest(num: i64) -> (r: Option<Request>)
        ensures
            num <= 0 ==> r is None,
            num > 0 ==> r is Some && r->0@ == latest_posts_request(num as u64),
    {
        if num <= 0 {
            None
        } else {
            Some(Request::latest_posts(num as u64))
        }
    }

    /// The number of threads of a forum.
    pub fn count_threads(forum_id: u32) -> (r: Request)
        ensures
            r@ == count_threads_request(forum_id),
    {
        Request::Count {
            collection: Collection::Threads,
            criterion: Criterion::Number { field: Field::ForumId, value: forum_id },
        }
    }

    /// The number of posts of a thread.
    pub fn count_posts(thread_id: u32) -> (r: Request)
        ensures
            r@ == count_posts_request(thread_id),
    {
        Request::Count {
            collection: Collection::Posts,
            criterion: Criterion::Number { field: Field::ThreadId, value: thread_id },
        }
    }

    /// The atomic increment of the counter of a category.
    pub fn advance(category: &str) -> (r: Request)
        ensures
            r@ == (RequestView::Advance { category: category@ }),
    {
        Request::Advance { category: String::from_str(category) }
    }

    /// The collection on which the call is made.
    pub fn collection(&self) -> (r: Collection)
        ensures
            r == self@.target(),
    {
        match self {
            Request::FindOne { collection, .. } => *collection,
            Request::Find { collection, .. } => *collection,
            Request::Count { collection, .. } => *collection,
            Request::Advance { .. } => Collection::Counters,
            Request::InsertPost { .. } => Collection::Posts,
            Request::InsertThread { .. } => Collection::Threads,
        }
    }

    /// The criterion by which the call picks documents.
    pub fn criterion(&self) -> (r: Criterion)
        ensures
            r@ == self@.filter(),
    {
        match self {
            Request::FindOne { criterion, .. } => criterion.clone(),
            Request::Find { criterion, .. } => criterion.clone(),
            Request::Count { criterion, .. } => criterion.clone(),
            Request::Advance { category } => Criterion::Text {
                field: Field::Category,
                text: category.clone(),
            },
            Request::InsertPost { .. } => Criterion::Everything,
            Request::InsertThread { .. } => Criterion::Everything,
        }
    }

    /// Whether the call changes what the store holds.
    pub fn is_write(&self) -> (r: bool)
        ensures
            r == self@.writes(),
    {
        match self {
            Request::Advance { .. } => true,
            Request::InsertPost { .. } => true,
            Request::InsertThread { .. } => true,
            _ => false,
        }
    }
}

/// The view of what may be absent.
pub open spec fn maybe<T: View>(o: Option<T>) -> Option<T::V> {
    match o {
        Some(t) => Some(t@),
        None => None,
    }
}

/// What a [`Reply`] holds.
pub enum ReplyView {
    Counter(Option<CounterView>),
    Category(Option<CategoryView>),
    Thread(Option<ThreadView>),
    Post(Option<PostView>),
    Counters(Seq<CounterView>),
    Categories(Seq<CategoryView>),
    Threads(Seq<ThreadView>),
    Posts(Seq<PostView>),
    Count(u64),
    Inserted,
    Failed(ApiErrorView),
}

/// What came back from one call on the store.
#[derive(Debug)]
pub enum Reply {
    /// The counter looked up, if there is one.
    Counter(Option<Counter>),
    /// The category looked up, if there is one.
    Category(Option<Category>),
    /// The thread looked up, if there is one.
    Thread(Option<Thread>),
    /// The post looked up, if there is one.
    Post(Option<Post>),
    /// The counters found.
    Counters(Vec<Counter>),
    /// The categories found.
    Categories(Vec<Category>),
    /// The threads found.
    Threads(Vec<Thread>),
    /// The posts found.
    Posts(Vec<Post>),
    /// The number of documents counted.
    Count(u64),
    /// The document was stored.
    Inserted,
    /// The call failed.
    Failed(ApiError),
}

impl View for Reply {
    type V = ReplyView;

    open spec fn view(&self) -> ReplyView {
        match self {
            Reply::Counter(o) => ReplyView::Counter(maybe(*o)),
            Reply::Category(o) => ReplyView::Category(maybe(*o)),
            Reply::Thread(o) => ReplyView::Thread(maybe(*o)),
            Reply::Post(o) => ReplyView::Post(maybe(*o)),
            Reply::Counters(v) => ReplyView::Counters(views(v@)),
            Reply::Categories(v) => ReplyView::Categories(views(v@)),
            Reply::Threads(v) => ReplyView::Threads(views(v@)),
            Reply::Posts(v) => ReplyView::Posts(views(v@)),
            Reply::Count(n) => ReplyView::Count(*n),
            Reply::Inserted => ReplyView::Inserted,
            Reply::Failed(e) => ReplyView::Failed(e@),
        }
    }
}

} // verus!
