//! The stored entities and their mathematical views.
//!
//! Each entity is one document of one named collection. The view of an
//! entity replaces every string by its sequence of characters, so that
//! contracts speak of what a document holds.

use crate::clock::{berlin_text, EARLIEST_MILLIS, LATEST_MILLIS};
use crate::repository::{Criterion, Document, Field, Fields};
use crate::text::same_text;
use vstd::prelude::*;
use vstd::string::*;

verus! {

/// The views of the elements of a sequence, in order.
pub open spec fn views<T: View>(s: Seq<T>) -> Seq<T::V> {
    Seq::new(s.len(), |i: int| s[i]@)
}

/// What a [`Forum`] holds.
pub struct ForumView {
    pub id: u32,
    pub name: Seq<char>,
}

/// A topic area that holds threads. Threads live in a collection of their own
/// and refer to their forum by its id.
#[derive(Debug)]
pub struct Forum {
    pub id: u32,
    pub name: String,
}

impl View for Forum {
    type V = ForumView;

    open spec fn view(&self) -> ForumView {
        ForumView { id: self.id, name: self.name@ }
    }
}

impl Clone for Forum {
    fn clone(&self) -> (r: Self)
        ensures
            r@ == self@,
    {
        Forum { id: self.id, name: self.name.clone() }
    }
}

/// What a [`Category`] holds.
pub struct CategoryView {
    pub name: Seq<char>,
    pub order: u32,
    pub forums: Seq<ForumView>,
}

impl CategoryView {
    /// Whether one of the embedded forums has the given id.
    pub open spec fn has_forum(self, forum_id: u32) -> bool {
        exists|i: int| 0 <= i < self.forums.len() && (#[trigger] self.forums[i]).id == forum_id
    }

    /// The position of the first embedded forum with the given id, or the
    /// number of forums where there is none.
    pub open spec fn forum_position(self, forum_id: u32) -> int {
        first_forum(self.forums, forum_id)
    }
}

/// The least index at which `forums` holds a forum with the given id; the
/// length of `forums` where no forum has it.
pub open spec fn first_forum(forums: Seq<ForumView>, forum_id: u32) -> int
    decreases forums.len(),
{
    if forums.len() == 0 {
        0
    } else if forums[0].id == forum_id {
        0
    } else {
        1 + first_forum(forums.subrange(1, forums.len() as int), forum_id)
    }
}

/// `first_forum` is the least matching index, and in range exactly when a
/// forum matches.
pub proof fn lemma_first_forum(forums: Seq<ForumView>, forum_id: u32)
    ensures
        0 <= first_forum(forums, forum_id) <= forums.len(),
        first_forum(forums, forum_id) < forums.len() ==> forums[first_forum(
            forums,
            forum_id,
        )].id == forum_id,
        forall|i: int|
            0 <= i < first_forum(forums, forum_id) ==> (#[trigger] forums[i]).id != forum_id,
    decreases forums.len(),
{
    if forums.len() > 0 && forums[0].id != forum_id {
        let rest = forums.subrange(1, forums.len() as int);
        lemma_first_forum(rest, forum_id);
        assert forall|i: int| 0 <= i < first_forum(forums, forum_id) implies (
        #[trigger] forums[i]).id != forum_id by {
            if i > 0 {
                assert(forums[i] == rest[i - 1]);
            }
        }
    }
}

/// A display group of forums, ranked by `order`. The forums are embedded
/// copies that carry the id and the name.
#[derive(Debug)]
pub struct Category {
    pub name: String,
    pub order: u32,
    pub forums: Vec<Forum>,
}

impl View for Category {
    type V = CategoryView;

    open spec fn view(&self) -> CategoryView {
        CategoryView { name: self.name@, order: self.order, forums: views(self.forums@) }
    }
}

impl Clone for Category {
    fn clone(&self) -> (r: Self)
        ensures
            r@ == self@,
    {
        let mut forums: Vec<Forum> = Vec::new();
        let mut i: usize = 0;
        while i < self.forums.len()
            invariant
                i <= self.forums.len(),
                forums@.len() == i,
                forall|j: int| 0 <= j < i ==> forums@[j]@ == self.forums@[j]@,
            decreases self.forums.len() - i,
        {
            forums.push(self.forums[i].clone());
            i += 1;
        }
        assert(views(forums@) =~= views(self.forums@));
        Category { name: self.name.clone(), order: self.order, forums }
    }
}

/// What a [`Thread`] holds.
pub struct ThreadView {
    pub id: u32,
    pub origin_post_id: u32,
    pub forum_id: u32,
    pub subject: Seq<char>,
}

impl ThreadView {
    /// A thread that may be stored has a subject.
    pub open spec fn wf(self) -> bool {
        self.subject.len() > 0
    }
}

/// A discussion inside a forum, opened by its origin post.
#[derive(Debug)]
pub struct Thread {
    pub id: u32,
    pub origin_post_id: u32,
    pub forum_id: u32,
    pub subject: String,
}

impl View for Thread {
    type V = ThreadView;

    open spec fn view(&self) -> ThreadView {
        ThreadView {
            id: self.id,
            origin_post_id: self.origin_post_id,
            forum_id: self.forum_id,
            subject: self.subject@,
        }
    }
}

impl Clone for Thread {
    fn clone(&self) -> (r: Self)
        ensures
            r@ == self@,
    {
        Thread {
            id: self.id,
            origin_post_id: self.origin_post_id,
            forum_id: self.forum_id,
            subject: self.subject.clone(),
        }
    }
}

/// What a [`Post`] holds.
pub struct PostView {
    pub id: u32,
    pub content: Seq<char>,
    pub created_at: i64,
    pub thread_id: u32,
}

impl PostView {
    /// A post that may be stored has content.
    pub open spec fn wf(self) -> bool {
        self.content.len() > 0
    }
}

/// A single message inside a thread.
///
/// `created_at` is the instant of creation in whole milliseconds since the
/// Unix epoch, which is the precision that the store keeps.
#[derive(Debug)]
pub struct Post {
    pub id: u32,
    pub content: String,
    pub created_at: i64,
    pub thread_id: u32,
}

impl View for Post {
    type V = PostView;

    open spec fn view(&self) -> PostView {
        PostView {
            id: self.id,
            content: self.content@,
            created_at: self.created_at,
            thread_id: self.thread_id,
        }
    }
}

impl Post {
    /// The instant of creation as Berlin wall time with its offset, as in
    /// `2025-03-07T02:12:38+01:00`. `None` where the instant lies outside the
    /// years that the calendar covers, or where the machine does not know the
    /// time zone.
    pub fn date_in_berlin(&self) -> (r: Option<String>)
        ensures
            r is Some ==> EARLIEST_MILLIS <= self.created_at <= LATEST_MILLIS,
    {
        berlin_text(self.created_at)
    }
}

impl Clone for Post {
    fn clone(&self) -> (r: Self)
        ensures
            r@ == self@,
    {
        Post {
            id: self.id,
            content: self.content.clone(),
            created_at: self.created_at,
            thread_id: self.thread_id,
        }
    }
}

/// What a [`Counter`] holds.
pub struct CounterView {
    pub category: Seq<char>,
    pub sequence: u32,
}

/// The high-water mark of the identifiers handed out for one kind of entity
/// ("thread", "post"). The record of a kind must be provisioned before the
/// first identifier of that kind is asked for.
#[derive(Debug)]
pub struct Counter {
    category: String,
    sequence: u32,
}

impl View for Counter {
    type V = CounterView;

    closed spec fn view(&self) -> CounterView {
        CounterView { category: self.category@, sequence: self.sequence }
    }
}

impl Clone for Counter {
    fn clone(&self) -> (r: Self)
        ensures
            r@ == self@,
    {
        Counter { category: self.category.clone(), sequence: self.sequence }
    }
}

impl Counter {
    /// A counter of the given kind whose last issued identifier is `sequence`.
    pub fn new(category: String, sequence: u32) -> (r: Self)
        ensures
            r@ == (CounterView { category: category@, sequence }),
    {
        Counter { category, sequence }
    }

    /// The kind of entity that this counter numbers.
    pub fn category(&self) -> (r: &String)
        ensures
            r@ == self@.category,
    {
        &self.category
    }

    /// The last identifier issued.
    pub fn sequence(&self) -> (r: u32)
        ensures
            r == self@.sequence,
    {
        self.sequence
    }

    /// The same counter one identifier further; `None` where the identifiers
    /// of this kind are used up.
    pub fn advanced(&self) -> (r: Option<Counter>)
        ensures
            self@.sequence < u32::MAX ==> r is Some && r->0@ == (CounterView {
                category: self@.category,
                sequence: (self@.sequence + 1) as u32,
            }),
            self@.sequence == u32::MAX ==> r is None,
    {
        if self.sequence < u32::MAX {
            Some(Counter { category: self.category.clone(), sequence: self.sequence + 1 })
        } else {
            None
        }
    }
}

/// The fixed binding of an entity type to the collection that stores it.
pub trait CollectionName: Sized {
    /// The collection's name, as a sequence of characters.
    spec fn bound_name() -> Seq<char>;

    /// Name of the collection that holds the documents of this type.
    fn collection_name() -> (r: &'static str)
        ensures
            r@ == Self::bound_name(),
    ;
}

impl CollectionName for Counter {
    open spec fn bound_name() -> Seq<char> {
        "counters"@
    }

    fn collection_name() -> (r: &'static str) {
        "counters"
    }
}

impl CollectionName for Category {
    open spec fn bound_name() -> Seq<char> {
        "categories"@
    }

    fn collection_name() -> (r: &'static str) {
        "categories"
    }
}

impl CollectionName for Thread {
    open spec fn bound_name() -> Seq<char> {
        "threads"@
    }

    fn collection_name() -> (r: &'static str) {
        "threads"
    }
}

impl CollectionName for Post {
    open spec fn bound_name() -> Seq<char> {
        "posts"@
    }

    fn collection_name() -> (r: &'static str) {
        "posts"
    }
}

/// The one number of a plain field.
pub open spec fn single(n: u32) -> Seq<int> {
    seq![n as int]
}

/// The ids of embedded forums, in order.
pub open spec fn forum_ids(forums: Seq<ForumView>) -> Seq<int> {
    Seq::new(forums.len(), |i: int| forums[i].id as int)
}

/// A plain field holds a number exactly when it is that number.
pub proof fn lemma_single_contains(n: u32, value: u32)
    ensures
        single(n).contains(value as int) <==> n == value,
{
    if n == value {
        assert(single(n)[0] == value as int);
    }
}

/// Nothing is held where there is no field.
pub proof fn lemma_empty_contains<A>(value: A)
    ensures
        !Seq::<A>::empty().contains(value),
{
}

impl Fields for Thread {
    open spec fn numbers(v: ThreadView, field: Field) -> Seq<int> {
        match field {
            Field::Id => single(v.id),
            Field::ForumId => single(v.forum_id),
            _ => Seq::empty(),
        }
    }

    open spec fn texts(v: ThreadView, field: Field) -> Seq<Seq<char>> {
        Seq::empty()
    }
}

impl Document for Thread {
    fn meets(&self, criterion: &Criterion) -> (r: bool) {
        match criterion {
            Criterion::Everything => true,
            Criterion::Number { field, value } => {
                proof {
                    lemma_single_contains(self.id, *value);
                    lemma_single_contains(self.forum_id, *value);
                    lemma_empty_contains::<int>(*value as int);
                }
                match field {
                    Field::Id => self.id == *value,
                    Field::ForumId => self.forum_id == *value,
                    _ => false,
                }
            },
            Criterion::Text { field, text } => {
                proof {
                    lemma_empty_contains::<Seq<char>>(text@);
                }
                false
            },
        }
    }

    fn rank(&self, field: Field) -> (r: i64) {
        match field {
            Field::Id => self.id as i64,
            Field::ForumId => self.forum_id as i64,
            _ => 0,
        }
    }

    fn replica(&self) -> (r: Self) {
        self.clone()
    }
}

impl Fields for Post {
    open spec fn numbers(v: PostView, field: Field) -> Seq<int> {
        match field {
            Field::Id => single(v.id),
            Field::ThreadId => single(v.thread_id),
            Field::CreatedAt => seq![v.created_at as int],
            _ => Seq::empty(),
        }
    }

    open spec fn texts(v: PostView, field: Field) -> Seq<Seq<char>> {
        Seq::empty()
    }
}

impl Document for Post {
    fn meets(&self, criterion: &Criterion) -> (r: bool) {
        match criterion {
            Criterion::Everything => true,
            Criterion::Number { field, value } => {
                proof {
                    lemma_single_contains(self.id, *value);
                    lemma_single_contains(self.thread_id, *value);
                    lemma_empty_contains::<int>(*value as int);
                }
                proof {
                    if self.created_at == *value as int {
                        assert(seq![self.created_at as int][0] == *value as int);
                    }
                }
                match field {
                    Field::Id => self.id == *value,
                    Field::ThreadId => self.thread_id == *value,
                    Field::CreatedAt => self.created_at == *value as i64,
                    _ => false,
                }
            },
            Criterion::Text { field, text } => {
                proof {
                    lemma_empty_contains::<Seq<char>>(text@);
                }
                false
            },
        }
    }

    fn rank(&self, field: Field) -> (r: i64) {
        match field {
            Field::Id => self.id as i64,
            Field::ThreadId => self.thread_id as i64,
            Field::CreatedAt => self.created_at,
            _ => 0,
        }
    }

    fn replica(&self) -> (r: Self) {
        self.clone()
    }
}

impl Fields for Counter {
    open spec fn numbers(v: CounterView, field: Field) -> Seq<int> {
        match field {
            Field::Sequence => single(v.sequence),
            _ => Seq::empty(),
        }
    }

    open spec fn texts(v: CounterView, field: Field) -> Seq<Seq<char>> {
        match field {
            Field::Category => seq![v.category],
            _ => Seq::empty(),
        }
    }
}

impl Document for Counter {
    fn meets(&self, criterion: &Criterion) -> (r: bool) {
        match criterion {
            Criterion::Everything => true,
            Criterion::Number { field, value } => {
                proof {
                    lemma_single_contains(self.sequence, *value);
                    lemma_empty_contains::<int>(*value as int);
                }
                match field {
                    Field::Sequence => self.sequence == *value,
                    _ => false,
                }
            },
            Criterion::Text { field, text } => {
                proof {
                    lemma_empty_contains::<Seq<char>>(text@);
                    if self.category@ == text@ {
                        assert(seq![self.category@][0] == text@);
                    }
                }
                match field {
                    Field::Category => same_text(self.category.as_str(), text.as_str()),
                    _ => false,
                }
            },
        }
    }

    fn rank(&self, field: Field) -> (r: i64) {
        match field {
            Field::Sequence => self.sequence as i64,
            _ => 0,
        }
    }

    fn replica(&self) -> (r: Self) {
        self.clone()
    }
}

impl Fields for Category {
    open spec fn numbers(v: CategoryView, field: Field) -> Seq<int> {
        match field {
            Field::Order => single(v.order),
            Field::ForumsId => forum_ids(v.forums),
            _ => Seq::empty(),
        }
    }

    open spec fn texts(v: CategoryView, field: Field) -> Seq<Seq<char>> {
        Seq::empty()
    }
}

impl Category {
    /// The position of the first embedded forum with the given id.
    pub fn position_of_forum(&self, forum_id: u32) -> (r: Option<usize>)
        ensures
            match r {
                Some(i) => i < self@.forums.len() && i == self@.forum_position(forum_id),
                None => self@.forum_position(forum_id) == self@.forums.len(),
            },
            r is Some <==> self@.has_forum(forum_id),
    {
        let mut i: usize = 0;
        while i < self.forums.len()
            invariant
                i <= self.forums.len(),
                forall|j: int| 0 <= j < i ==> (#[trigger] self@.forums[j]).id != forum_id,
            decreases self.forums.len() - i,
        {
            if self.forums[i].id == forum_id {
                proof {
                    lemma_first_forum(self@.forums, forum_id);
                    assert(self@.forums[i as int].id == forum_id);
                }
                return Some(i);
            }
            i += 1;
        }
        proof {
            lemma_first_forum(self@.forums, forum_id);
        }
        None
    }
}

/// A category holds a forum id among its embedded forums exactly when it has
/// a forum of that id.
pub proof fn lemma_forum_ids_contains(v: CategoryView, forum_id: u32)
    ensures
        forum_ids(v.forums).contains(forum_id as int) <==> v.has_forum(forum_id),
{
    if forum_ids(v.forums).contains(forum_id as int) {
        let i = choose|i: int|
            0 <= i < forum_ids(v.forums).len() && forum_ids(v.forums)[i] == forum_id as int;
        assert(v.forums[i].id == forum_id);
    }
    if v.has_forum(forum_id) {
        let i = choose|i: int| 0 <= i < v.forums.len() && (#[trigger] v.forums[i]).id == forum_id;
        assert(forum_ids(v.forums)[i] == forum_id as int);
    }
}

impl Document for Category {
    fn meets(&self, criterion: &Criterion) -> (r: bool) {
        match criterion {
            Criterion::Everything => true,
            Criterion::Number { field, value } => {
                proof {
                    lemma_single_contains(self.order, *value);
                    lemma_empty_contains::<int>(*value as int);
                    lemma_forum_ids_contains(self@, *value);
                }
                match field {
                    Field::Order => self.order == *value,
                    Field::ForumsId => self.position_of_forum(*value).is_some(),
                    _ => false,
                }
            },
            Criterion::Text { field, text } => {
                proof {
                    lemma_empty_contains::<Seq<char>>(text@);
                }
                false
            },
        }
    }

    fn rank(&self, field: Field) -> (r: i64) {
        match field {
            Field::Order => self.order as i64,
            Field::ForumsId => {
                if self.forums.len() > 0 {
                    self.forums[0].id as i64
                } else {
                    0
                }
            },
            _ => 0,
        }
    }

    fn replica(&self) -> (r: Self) {
        self.clone()
    }
}

} // verus!
