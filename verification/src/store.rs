//! A document store held in memory: the reference for what each call on a
//! store answers and changes.

use crate::entity::{
    views, Category, CategoryView, Counter, CounterView, Post, PostView, Thread, ThreadView,
};
use crate::error::{ApiError, ApiErrorView};
use crate::protocol::{Collection, Reply, ReplyView, Request, RequestView};
use crate::repository::{
    count_rows, counted, find_position, find_row, find_rows, first_meeting, found, found_one,
    Criterion, CriterionView, Document, Field,
};
use vstd::prelude::*;
use vstd::string::*;

verus! {

/// What a [`Store`] holds: the documents of each collection, in the order in
/// which they were stored.
pub struct StoreView {
    pub counters: Seq<CounterView>,
    pub categories: Seq<CategoryView>,
    pub threads: Seq<ThreadView>,
    pub posts: Seq<PostView>,
}

/// The four collections, held in memory.
#[derive(Debug)]
pub struct Store {
    pub counters: Vec<Counter>,
    pub categories: Vec<Category>,
    pub threads: Vec<Thread>,
    pub posts: Vec<Post>,
}

impl View for Store {
    type V = StoreView;

    open spec fn view(&self) -> StoreView {
        StoreView {
            counters: views(self.counters@),
            categories: views(self.categories@),
            threads: views(self.threads@),
            posts: views(self.posts@),
        }
    }
}

/// The criterion that picks the counter of a category.
pub open spec fn counter_of(category: Seq<char>) -> CriterionView {
    CriterionView::Text { field: Field::Category, text: category }
}

/// The counters after the counter of `category` went one further. Nothing
/// changes where there is no such counter, or where it stands at the largest
/// identifier.
pub open spec fn bumped(counters: Seq<CounterView>, category: Seq<char>) -> Seq<CounterView> {
    let i = first_meeting::<Counter>(counters, counter_of(category));
    if i < counters.len() && counters[i].sequence < u32::MAX {
        counters.update(
            i,
            CounterView {
                category: counters[i].category,
                sequence: (counters[i].sequence + 1) as u32,
            },
        )
    } else {
        counters
    }
}

/// What the store answers to a call.
pub open spec fn outcome(s: StoreView, q: RequestView) -> ReplyView {
    match q {
        RequestView::FindOne { collection, criterion } => match collection {
            Collection::Counters => ReplyView::Counter(found_one::<Counter>(s.counters, criterion)),
            Collection::Categories => ReplyView::Category(
                found_one::<Category>(s.categories, criterion),
            ),
            Collection::Threads => ReplyView::Thread(found_one::<Thread>(s.threads, criterion)),
            Collection::Posts => ReplyView::Post(found_one::<Post>(s.posts, criterion)),
        },
        RequestView::Find { collection, criterion, sort, limit } => match collection {
            Collection::Counters => ReplyView::Counters(
                found::<Counter>(s.counters, criterion, sort, limit),
            ),
            Collection::Categories => ReplyView::Categories(
                found::<Category>(s.categories, criterion, sort, limit),
            ),
            Collection::Threads => ReplyView::Threads(
                found::<Thread>(s.threads, criterion, sort, limit),
            ),
            Collection::Posts => ReplyView::Posts(found::<Post>(s.posts, criterion, sort, limit)),
        },
        RequestView::Count { collection, criterion } => match collection {
            Collection::Counters => ReplyView::Count(
                counted::<Counter>(s.counters, criterion) as u64,
            ),
            Collection::Categories => ReplyView::Count(
                counted::<Category>(s.categories, criterion) as u64,
            ),
            Collection::Threads => ReplyView::Count(counted::<Thread>(s.threads, criterion) as u64),
            Collection::Posts => ReplyView::Count(counted::<Post>(s.posts, criterion) as u64),
        },
        RequestView::Advance { category } => ReplyView::Counter(
            found_one::<Counter>(s.counters, counter_of(category)),
        ),
        RequestView::InsertPost { post } => ReplyView::Inserted,
        RequestView::InsertThread { thread } => ReplyView::Inserted,
    }
}

/// What the store holds after a call.
pub open spec fn effect(s: StoreView, q: RequestView) -> StoreView {
    match q {
        RequestView::Advance { category } => StoreView {
            counters: bumped(s.counters, category),
            ..s
        },
        RequestView::InsertPost { post } => StoreView { posts: s.posts.push(post), ..s },
        RequestView::InsertThread { thread } => StoreView { threads: s.threads.push(thread), ..s },
        _ => s,
    }
}

/// What the store answers to a call that may only read: a call that would
/// write is refused.
pub open spec fn answer(s: StoreView, q: RequestView) -> ReplyView {
    if q.writes() {
        ReplyView::Failed(ApiErrorView::Db("the store was opened for reading"@))
    } else {
        outcome(s, q)
    }
}

/// A call that does not write leaves the store as it is.
pub proof fn lemma_read_keeps(s: StoreView, q: RequestView)
    requires
        !q.writes(),
    ensures
        effect(s, q) == s,
{
}

impl Store {
    /// A store without documents.
    pub fn new() -> (r: Store)
        ensures
            r@.counters.len() == 0,
            r@.categories.len() == 0,
            r@.threads.len() == 0,
            r@.posts.len() == 0,
    {
        Store {
            counters: Vec::new(),
            categories: Vec::new(),
            threads: Vec::new(),
            posts: Vec::new(),
        }
    }

    /// Answers a call that reads; the store stays as it is.
    pub fn read(&self, request: &Request) -> (reply: Reply)
        ensures
            reply@ == answer(self@, request@),
    {
        match request {
            Request::FindOne { collection, criterion } => match collection {
                Collection::Counters => Reply::Counter(find_row(&self.counters, criterion)),
                Collection::Categories => Reply::Category(find_row(&self.categories, criterion)),
                Collection::Threads => Reply::Thread(find_row(&self.threads, criterion)),
                Collection::Posts => Reply::Post(find_row(&self.posts, criterion)),
            },
            Request::Find { collection, criterion, sort, limit } => match collection {
                Collection::Counters => Reply::Counters(
                    find_rows(&self.counters, criterion, *sort, *limit),
                ),
                Collection::Categories => Reply::Categories(
                    find_rows(&self.categories, criterion, *sort, *limit),
                ),
                Collection::Threads => Reply::Threads(
                    find_rows(&self.threads, criterion, *sort, *limit),
                ),
                Collection::Posts => Reply::Posts(find_rows(&self.posts, criterion, *sort, *limit)),
            },
            Request::Count { collection, criterion } => match collection {
                Collection::Counters => Reply::Count(count_rows(&self.counters, criterion)),
                Collection::Categories => Reply::Count(count_rows(&self.categories, criterion)),
                Collection::Threads => Reply::Count(count_rows(&self.threads, criterion)),
                Collection::Posts => Reply::Count(count_rows(&self.posts, criterion)),
            },
            _ => Reply::Failed(ApiError::Db(String::from_str("the store was opened for reading"))),
        }
    }

    /// Makes a call on the store and answers it.
    pub fn perform(&mut self, request: Request) -> (reply: Reply)
        ensures
            reply@ == outcome(old(self)@, request@),
            final(self)@ == effect(old(self)@, request@),
    {
        match request {
            Request::Advance { category } => {
                let criterion = Criterion::Text { field: Field::Category, text: category };
                match find_position(&self.counters, &criterion) {
                    Some(i) => {
                        let before = self.counters[i].replica();
                        match before.advanced() {
                            Some(next) => {
                                let ghost was = views(self.counters@);
                                self.counters.set(i, next);
                                assert(views(self.counters@) =~= was.update(i as int, next@));
                            },
                            None => {},
                        }
                        Reply::Counter(Some(before))
                    },
                    None => Reply::Counter(None),
                }
            },
            Request::InsertPost { post } => {
                let ghost was = views(self.posts@);
                self.posts.push(post);
                assert(views(self.posts@) =~= was.push(post@));
                Reply::Inserted
            },
            Request::InsertThread { thread } => {
                let ghost was = views(self.threads@);
                self.threads.push(thread);
                assert(views(self.threads@) =~= was.push(thread@));
                Reply::Inserted
            },
            _ => self.read(&request),
        }
    }
}

} // verus!
