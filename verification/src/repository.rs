//! The repository: what it means to look documents up in a collection, and
//! the routines that do it on rows held in memory.
//!
//! A lookup is described by plain values: a [`Criterion`] that a document
//! must meet, a [`Sort`] that ranks the documents found, and a limit on
//! their number. The same values describe the call to a remote store, so
//! the meaning given here is the one a store is expected to honour.

use crate::entity::views;
use vstd::prelude::*;
use vstd::string::*;

verus! {

/// A path into a document at which a criterion or a sort looks.
#[derive(Debug, Clone, Copy, PartialEq, Eq, Structural)]
pub enum Field {
    /// `id`
    Id,
    /// `forum_id`
    ForumId,
    /// `thread_id`
    ThreadId,
    /// `order`
    Order,
    /// `forums.id`: the ids of the forums embedded in a category
    ForumsId,
    /// `category`
    Category,
    /// `sequence`
    Sequence,
    /// `created_at`
    CreatedAt,
}

impl Field {
    /// The path as the store spells it.
    pub open spec fn path(self) -> Seq<char> {
        match self {
            Field::Id => "id"@,
            Field::ForumId => "forum_id"@,
            Field::ThreadId => "thread_id"@,
            Field::Order => "order"@,
            Field::ForumsId => "forums.id"@,
            Field::Category => "category"@,
            Field::Sequence => "sequence"@,
            Field::CreatedAt => "created_at"@,
        }
    }

    /// The path as the store spells it.
    pub fn name(&self) -> (r: &'static str)
        ensures
            r@ == self.path(),
    {
        match self {
            Field::Id => "id",
            Field::ForumId => "forum_id",
            Field::ThreadId => "thread_id",
            Field::Order => "order",
            Field::ForumsId => "forums.id",
            Field::Category => "category",
            Field::Sequence => "sequence",
            Field::CreatedAt => "created_at",
        }
    }
}

/// What a [`Criterion`] holds.
pub enum CriterionView {
    Everything,
    Number { field: Field, value: u32 },
    Text { field: Field, text: Seq<char> },
}

/// The condition that a document must meet to be found.
#[derive(Debug)]
pub enum Criterion {
    /// Every document is found.
    Everything,
    /// The document holds the number at the field; for a field inside an
    /// embedded list, one of the list's elements does.
    Number { field: Field, value: u32 },
    /// The document holds the text at the field.
    Text { field: Field, text: String },
}

impl View for Criterion {
    type V = CriterionView;

    open spec fn view(&self) -> CriterionView {
        match self {
            Criterion::Everything => CriterionView::Everything,
            Criterion::Number { field, value } => CriterionView::Number {
                field: *field,
                value: *value,
            },
            Criterion::Text { field, text } => CriterionView::Text { field: *field, text: text@ },
        }
    }
}

impl Clone for Criterion {
    fn clone(&self) -> (r: Self)
        ensures
            r@ == self@,
    {
        match self {
            Criterion::Everything => Criterion::Everything,
            Criterion::Number { field, value } => Criterion::Number {
                field: *field,
                value: *value,
            },
            Criterion::Text { field, text } => Criterion::Text {
                field: *field,
                text: text.clone(),
            },
        }
    }
}

/// The rank by which found documents are arranged: the number at `field`,
/// smallest first if `ascending`, largest first otherwise.
#[derive(Debug, Clone, Copy, PartialEq, Eq, Structural)]
pub struct Sort {
    pub field: Field,
    pub ascending: bool,
}

impl Sort {
    /// Whether a document of rank `a` must stand before one of rank `b`.
    pub fn ranks_first(&self, a: i64, b: i64) -> (r: bool)
        ensures
            r == if self.ascending {
                a < b
            } else {
                a > b
            },
    {
        if self.ascending {
            a < b
        } else {
            a > b
        }
    }
}

/// What the documents of a type hold at each field.
pub trait Fields: View + Sized {
    /// The numbers that a document holds at a field: one for a plain field,
    /// one per element for a field inside an embedded list, none where the
    /// document has no number there.
    spec fn numbers(v: Self::V, field: Field) -> Seq<int>;

    /// The texts that a document holds at a field.
    spec fn texts(v: Self::V, field: Field) -> Seq<Seq<char>>;
}

/// A type whose values are the documents of a collection.
pub trait Document: Fields {
    /// Whether this document meets the criterion.
    fn meets(&self, criterion: &Criterion) -> (r: bool)
        ensures
            r == satisfies::<Self>(self@, criterion@),
    ;

    /// The number by which a sort on `field` ranks this document.
    fn rank(&self, field: Field) -> (r: i64)
        ensures
            r == rank_of::<Self>(self@, field),
    ;

    /// A copy of this document.
    fn replica(&self) -> (r: Self)
        ensures
            r@ == self@,
    ;
}

/// Whether a document meets a criterion.
pub open spec fn satisfies<T: Fields>(v: T::V, criterion: CriterionView) -> bool {
    match criterion {
        CriterionView::Everything => true,
        CriterionView::Number { field, value } => T::numbers(v, field).contains(value as int),
        CriterionView::Text { field, text } => T::texts(v, field).contains(text),
    }
}

/// The number by which a sort on `field` ranks a document: the first number
/// that it holds there, and zero where it holds none.
pub open spec fn rank_of<T: Fields>(v: T::V, field: Field) -> int {
    if T::numbers(v, field).len() > 0 {
        T::numbers(v, field)[0]
    } else {
        0
    }
}

/// Whether `a` must stand before `b` under `sort`.
pub open spec fn precedes<T: Fields>(a: T::V, b: T::V, sort: Sort) -> bool {
    if sort.ascending {
        rank_of::<T>(a, sort.field) < rank_of::<T>(b, sort.field)
    } else {
        rank_of::<T>(a, sort.field) > rank_of::<T>(b, sort.field)
    }
}

/// The documents that meet the criterion, in the order in which they are
/// stored.
pub open spec fn selected<T: Fields>(rows: Seq<T::V>, criterion: CriterionView) -> Seq<T::V> {
    rows.filter(|v: T::V| satisfies::<T>(v, criterion))
}

/// `v` put into an arranged sequence: behind every document that it need not
/// precede.
pub open spec fn placed<T: Fields>(arranged: Seq<T::V>, v: T::V, sort: Sort) -> Seq<T::V>
    decreases arranged.len(),
{
    if arranged.len() == 0 {
        seq![v]
    } else if precedes::<T>(v, arranged.last(), sort) {
        placed::<T>(arranged.drop_last(), v, sort).push(arranged.last())
    } else {
        arranged.push(v)
    }
}

/// The documents arranged by `sort`; documents of equal rank keep the order
/// in which they are stored.
pub open spec fn arranged<T: Fields>(rows: Seq<T::V>, sort: Sort) -> Seq<T::V>
    decreases rows.len(),
{
    if rows.len() == 0 {
        Seq::empty()
    } else {
        placed::<T>(arranged::<T>(rows.drop_last(), sort), rows.last(), sort)
    }
}

/// At most `limit` leading documents; a limit of zero is no limit.
pub open spec fn truncated<A>(rows: Seq<A>, limit: u64) -> Seq<A> {
    if limit == 0 || limit >= rows.len() {
        rows
    } else {
        rows.take(limit as int)
    }
}

/// What a lookup of many documents finds: those that meet the criterion,
/// arranged by `sort`, cut at `limit`.
pub open spec fn found<T: Fields>(
    rows: Seq<T::V>,
    criterion: CriterionView,
    sort: Sort,
    limit: u64,
) -> Seq<T::V> {
    truncated(arranged::<T>(selected::<T>(rows, criterion), sort), limit)
}

/// The position of the first stored document that meets the criterion; the
/// number of documents where none does.
pub open spec fn first_meeting<T: Fields>(rows: Seq<T::V>, criterion: CriterionView) -> int
    decreases rows.len(),
{
    if rows.len() == 0 {
        0
    } else if satisfies::<T>(rows[0], criterion) {
        0
    } else {
        1 + first_meeting::<T>(rows.subrange(1, rows.len() as int), criterion)
    }
}

/// What a lookup of one document finds: the first stored one that meets the
/// criterion.
pub open spec fn found_one<T: Fields>(rows: Seq<T::V>, criterion: CriterionView) -> Option<
    T::V,
> {
    let i = first_meeting::<T>(rows, criterion);
    if i < rows.len() {
        Some(rows[i])
    } else {
        None
    }
}

/// `first_meeting` is the least position of a document that meets the
/// criterion, and in range exactly when one does.
pub proof fn lemma_first_meeting<T: Fields>(rows: Seq<T::V>, criterion: CriterionView)
    ensures
        0 <= first_meeting::<T>(rows, criterion) <= rows.len(),
        first_meeting::<T>(rows, criterion) < rows.len() ==> satisfies::<T>(
            rows[first_meeting::<T>(rows, criterion)],
            criterion,
        ),
        forall|i: int|
            0 <= i < first_meeting::<T>(rows, criterion) ==> !satisfies::<T>(
                #[trigger] rows[i],
                criterion,
            ),
    decreases rows.len(),
{
    if rows.len() > 0 && !satisfies::<T>(rows[0], criterion) {
        let rest = rows.subrange(1, rows.len() as int);
        lemma_first_meeting::<T>(rest, criterion);
        assert forall|i: int| 0 <= i < first_meeting::<T>(rows, criterion) implies !satisfies::<T>(
            #[trigger] rows[i],
            criterion,
        ) by {
            if i > 0 {
                assert(rows[i] == rest[i - 1]);
            }
        }
    }
}

/// How many documents meet the criterion.
pub open spec fn counted<T: Fields>(rows: Seq<T::V>, criterion: CriterionView) -> nat {
    selected::<T>(rows, criterion).len()
}

/// Selecting from one more row adds that row if it meets the criterion.
pub proof fn lemma_selected_step<T: Fields>(rows: Seq<T::V>, criterion: CriterionView, i: int)
    requires
        0 <= i < rows.len(),
    ensures
        selected::<T>(rows.take(i + 1), criterion) == if satisfies::<T>(rows[i], criterion) {
            selected::<T>(rows.take(i), criterion).push(rows[i])
        } else {
            selected::<T>(rows.take(i), criterion)
        },
{
    crate::text::lemma_filter_step(rows, |v: T::V| satisfies::<T>(v, criterion), i);
}

/// Placing a document is inserting it at the position behind the last
/// document that it need not precede.
pub proof fn lemma_placed_at<T: Fields>(s: Seq<T::V>, v: T::V, sort: Sort, p: int)
    requires
        0 <= p <= s.len(),
        forall|k: int| p <= k < s.len() ==> precedes::<T>(v, #[trigger] s[k], sort),
        p > 0 ==> !precedes::<T>(v, s[p - 1], sort),
    ensures
        placed::<T>(s, v, sort) == s.insert(p, v),
    decreases s.len(),
{
    if s.len() == 0 {
        assert(seq![v] =~= s.insert(p, v));
    } else if p == s.len() {
        assert(s.push(v) =~= s.insert(p, v));
    } else {
        lemma_placed_at::<T>(s.drop_last(), v, sort, p);
        assert(s.drop_last().insert(p, v).push(s.last()) =~= s.insert(p, v));
    }
}

/// Puts a row into arranged rows: behind every row that it need not precede.
pub fn place_row<T: Document>(out: &mut Vec<T>, row: T, sort: Sort)
    ensures
        views(final(out)@) == placed::<T>(views(old(out)@), row@, sort),
{
    let key = row.rank(sort.field);
    let mut p: usize = out.len();
    while p > 0 && sort.ranks_first(key, out[p - 1].rank(sort.field))
        invariant
            p <= out.len(),
            key == rank_of::<T>(row@, sort.field),
            forall|k: int|
                p <= k < out.len() ==> precedes::<T>(row@, #[trigger] views(out@)[k], sort),
        decreases p,
    {
        p -= 1;
    }
    let ghost before = views(out@);
    out.insert(p, row);
    proof {
        lemma_placed_at::<T>(before, row@, sort, p as int);
        assert(views(out@) =~= before.insert(p as int, row@));
    }
}

/// The rows that meet the criterion, arranged and cut.
pub fn find_rows<T: Document>(rows: &Vec<T>, criterion: &Criterion, sort: Sort, limit: u64) -> (r:
    Vec<T>)
    ensures
        views(r@) == found::<T>(views(rows@), criterion@, sort, limit),
{
    let mut out: Vec<T> = Vec::new();
    let mut i: usize = 0;
    assert(views(rows@).take(0) =~= Seq::empty());
    proof {
        reveal(Seq::filter);
    }
    assert(views(out@) =~= arranged::<T>(selected::<T>(views(rows@).take(0), criterion@), sort));
    while i < rows.len()
        invariant
            i <= rows.len(),
            views(out@) == arranged::<T>(
                selected::<T>(views(rows@).take(i as int), criterion@),
                sort,
            ),
        decreases rows.len() - i,
    {
        proof {
            lemma_selected_step::<T>(views(rows@), criterion@, i as int);
        }
        if rows[i].meets(criterion) {
            let ghost hits = selected::<T>(views(rows@).take(i as int), criterion@);
            place_row(&mut out, rows[i].replica(), sort);
            assert(hits.push(rows@[i as int]@).drop_last() =~= hits);
        }
        i += 1;
    }
    assert(views(rows@).take(rows@.len() as int) =~= views(rows@));
    if limit != 0 && limit < out.len() as u64 {
        let ghost whole = views(out@);
        out.truncate(limit as usize);
        assert(views(out@) =~= whole.take(limit as int));
    }
    out
}

/// The rows, arranged by `sort`.
pub fn arrange_rows<T: Document>(rows: Vec<T>, sort: Sort) -> (r: Vec<T>)
    ensures
        views(r@) == arranged::<T>(views(rows@), sort),
{
    let ghost all = views(rows@);
    let mut rest = rows;
    let mut out: Vec<T> = Vec::new();
    assert(all.take(0) =~= Seq::empty());
    assert(views(out@) =~= arranged::<T>(all.take(0), sort));
    assert(views(rest@) =~= all.skip(0));
    while rest.len() > 0
        invariant
            rest@.len() <= all.len(),
            views(rest@) == all.skip(all.len() - rest@.len()),
            views(out@) == arranged::<T>(all.take(all.len() - rest@.len()), sort),
        decreases rest.len(),
    {
        let ghost k = all.len() - rest@.len();
        let ghost tail = views(rest@);
        let ghost held = rest@;
        let row = rest.remove(0);
        assert(row@ == tail[0]);
        assert forall|i: int| 0 <= i < rest@.len() implies views(rest@)[i] == all.skip(
            k + 1,
        )[i] by {
            assert(rest@[i] == held[i + 1]);
            assert(tail[i + 1] == held[i + 1]@);
        }
        assert(views(rest@) =~= all.skip(k + 1));
        assert(all.take(k + 1).drop_last() =~= all.take(k));
        assert(all.take(k + 1).last() == row@);
        place_row(&mut out, row, sort);
    }
    assert(all.take(all.len() as int) =~= all);
    out
}

/// The position of the first row that meets the criterion.
pub fn find_position<T: Document>(rows: &Vec<T>, criterion: &Criterion) -> (r: Option<usize>)
    ensures
        match r {
            Some(i) => i < rows@.len() && i == first_meeting::<T>(views(rows@), criterion@),
            None => first_meeting::<T>(views(rows@), criterion@) == rows@.len(),
        },
{
    let mut i: usize = 0;
    while i < rows.len()
        invariant
            i <= rows.len(),
            forall|j: int| 0 <= j < i ==> !satisfies::<T>(#[trigger] views(rows@)[j], criterion@),
        decreases rows.len() - i,
    {
        if rows[i].meets(criterion) {
            proof {
                lemma_first_meeting::<T>(views(rows@), criterion@);
                assert(satisfies::<T>(views(rows@)[i as int], criterion@));
            }
            return Some(i);
        }
        i += 1;
    }
    proof {
        lemma_first_meeting::<T>(views(rows@), criterion@);
    }
    None
}

/// The first row that meets the criterion.
pub fn find_row<T: Document>(rows: &Vec<T>, criterion: &Criterion) -> (r: Option<T>)
    ensures
        match r {
            Some(row) => found_one::<T>(views(rows@), criterion@) == Some(row@),
            None => found_one::<T>(views(rows@), criterion@) is None,
        },
{
    match find_position(rows, criterion) {
        Some(i) => Some(rows[i].replica()),
        None => None,
    }
}

/// The number of rows that meet the criterion.
pub fn count_rows<T: Document>(rows: &Vec<T>, criterion: &Criterion) -> (r: u64)
    ensures
        r == counted::<T>(views(rows@), criterion@),
{
    let mut n: u64 = 0;
    let mut i: usize = 0;
    assert(views(rows@).take(0) =~= Seq::empty());
    proof {
        reveal(Seq::filter);
    }
    while i < rows.len()
        invariant
            i <= rows.len(),
            n <= i,
            n == selected::<T>(views(rows@).take(i as int), criterion@).len(),
        decreases rows.len() - i,
    {
        proof {
            lemma_selected_step::<T>(views(rows@), criterion@, i as int);
        }
        if rows[i].meets(criterion) {
            n += 1;
        }
        i += 1;
    }
    assert(views(rows@).take(rows@.len() as int) =~= views(rows@));
    n
}

/// Whether no document stands behind one that it must precede.
pub open spec fn ordered<T: Fields>(s: Seq<T::V>, sort: Sort) -> bool {
    forall|i: int, j: int| 0 <= i < j < s.len() ==> !precedes::<T>(s[j], s[i], sort)
}

/// Whether every document precedes all that stand behind it.
pub open spec fn strictly_ordered<T: Fields>(s: Seq<T::V>, sort: Sort) -> bool {
    forall|i: int, j: int| 0 <= i < j < s.len() ==> precedes::<T>(s[i], s[j], sort)
}

/// Whether no two documents have the same rank at `field`.
pub open spec fn distinct_ranks<T: Fields>(s: Seq<T::V>, field: Field) -> bool {
    forall|i: int, j: int|
        0 <= i < s.len() && 0 <= j < s.len() && i != j ==> rank_of::<T>(s[i], field) != rank_of::<
            T,
        >(s[j], field)
}

/// The position at which `placed` puts a document.
pub open spec fn place_index<T: Fields>(s: Seq<T::V>, v: T::V, sort: Sort) -> int
    decreases s.len(),
{
    if s.len() == 0 {
        0
    } else if precedes::<T>(v, s.last(), sort) {
        place_index::<T>(s.drop_last(), v, sort)
    } else {
        s.len() as int
    }
}

/// `placed` inserts the document at `place_index`: in front of the documents
/// that it must precede, and behind one that it need not.
pub proof fn lemma_place_index<T: Fields>(s: Seq<T::V>, v: T::V, sort: Sort)
    ensures
        0 <= place_index::<T>(s, v, sort) <= s.len(),
        forall|k: int|
            place_index::<T>(s, v, sort) <= k < s.len() ==> precedes::<T>(v, #[trigger] s[k], sort),
        place_index::<T>(s, v, sort) > 0 ==> !precedes::<T>(
            v,
            s[place_index::<T>(s, v, sort) - 1],
            sort,
        ),
        placed::<T>(s, v, sort) == s.insert(place_index::<T>(s, v, sort), v),
    decreases s.len(),
{
    if s.len() > 0 && precedes::<T>(v, s.last(), sort) {
        lemma_place_index::<T>(s.drop_last(), v, sort);
        let p = place_index::<T>(s, v, sort);
        assert forall|k: int| p <= k < s.len() implies precedes::<T>(v, #[trigger] s[k], sort) by {
            if k < s.len() - 1 {
                assert(s[k] == s.drop_last()[k]);
            }
        }
        if p > 0 {
            assert(s[p - 1] == s.drop_last()[p - 1]);
        }
    }
    lemma_placed_at::<T>(s, v, sort, place_index::<T>(s, v, sort));
}

/// Placing a document into an ordered sequence keeps it ordered.
pub proof fn lemma_placed_ordered<T: Fields>(s: Seq<T::V>, v: T::V, sort: Sort)
    requires
        ordered::<T>(s, sort),
    ensures
        ordered::<T>(placed::<T>(s, v, sort), sort),
{
    lemma_place_index::<T>(s, v, sort);
    let p = place_index::<T>(s, v, sort);
    let r = s.insert(p, v);
    assert forall|i: int, j: int| 0 <= i < j < r.len() implies !precedes::<T>(r[j], r[i], sort) by {
        if j == p {
            // r[j] is v, r[i] stands in front of the place
            assert(r[i] == s[i]);
            if i < p - 1 {
                assert(!precedes::<T>(s[p - 1], s[i], sort));
            }
        } else if i == p {
            assert(r[j] == s[j - 1]);
            assert(precedes::<T>(v, s[j - 1], sort));
        } else {
            let a = if i < p {
                i
            } else {
                i - 1
            };
            let b = if j < p {
                j
            } else {
                j - 1
            };
            assert(r[i] == s[a]);
            assert(r[j] == s[b]);
        }
    }
}

/// Arranging keeps the documents, each as often as it was there, and puts
/// them in order.
pub proof fn lemma_arranged<T: Fields>(rows: Seq<T::V>, sort: Sort)
    ensures
        arranged::<T>(rows, sort).len() == rows.len(),
        arranged::<T>(rows, sort).to_multiset() == rows.to_multiset(),
        ordered::<T>(arranged::<T>(rows, sort), sort),
    decreases rows.len(),
{
    if rows.len() == 0 {
        assert(arranged::<T>(rows, sort) =~= rows);
    } else {
        let rest = arranged::<T>(rows.drop_last(), sort);
        lemma_arranged::<T>(rows.drop_last(), sort);
        lemma_place_index::<T>(rest, rows.last(), sort);
        lemma_placed_ordered::<T>(rest, rows.last(), sort);
        vstd::seq_lib::to_multiset_insert(
            rest,
            place_index::<T>(rest, rows.last(), sort),
            rows.last(),
        );
        vstd::seq_lib::to_multiset_build(rows.drop_last(), rows.last());
        assert(rows.drop_last().push(rows.last()) =~= rows);
    }
}

/// Arranging neither adds nor loses a document.
pub proof fn lemma_arranged_contains<T: Fields>(rows: Seq<T::V>, sort: Sort, v: T::V)
    ensures
        arranged::<T>(rows, sort).contains(v) <==> rows.contains(v),
{
    lemma_arranged::<T>(rows, sort);
    vstd::seq_lib::to_multiset_contains(rows, v);
    vstd::seq_lib::to_multiset_contains(arranged::<T>(rows, sort), v);
}

/// Documents of distinct ranks still have distinct ranks when arranged.
pub proof fn lemma_arranged_distinct<T: Fields>(rows: Seq<T::V>, sort: Sort)
    requires
        distinct_ranks::<T>(rows, sort.field),
    ensures
        distinct_ranks::<T>(arranged::<T>(rows, sort), sort.field),
    decreases rows.len(),
{
    if rows.len() > 0 {
        let front = rows.drop_last();
        let rest = arranged::<T>(front, sort);
        assert forall|i: int, j: int|
            0 <= i < front.len() && 0 <= j < front.len() && i != j implies rank_of::<T>(
            front[i],
            sort.field,
        ) != rank_of::<T>(front[j], sort.field) by {
            assert(front[i] == rows[i] && front[j] == rows[j]);
        }
        lemma_arranged_distinct::<T>(front, sort);
        lemma_place_index::<T>(rest, rows.last(), sort);
        let p = place_index::<T>(rest, rows.last(), sort);
        let r = rest.insert(p, rows.last());
        assert forall|k: int| 0 <= k < rest.len() implies rank_of::<T>(
            #[trigger] rest[k],
            sort.field,
        ) != rank_of::<T>(rows.last(), sort.field) by {
            lemma_arranged_contains::<T>(front, sort, rest[k]);
            assert(rest.contains(rest[k]));
            let a = choose|a: int| 0 <= a < front.len() && front[a] == rest[k];
            assert(front[a] == rows[a]);
        }
        assert forall|i: int, j: int|
            0 <= i < r.len() && 0 <= j < r.len() && i != j implies rank_of::<T>(r[i], sort.field)
            != rank_of::<T>(r[j], sort.field) by {
            let a = if i < p {
                i
            } else {
                i - 1
            };
            let b = if j < p {
                j
            } else {
                j - 1
            };
            if i != p {
                assert(r[i] == rest[a]);
            }
            if j != p {
                assert(r[j] == rest[b]);
            }
        }
    }
}

/// Documents of distinct ranks are arranged strictly: each precedes all that
/// stand behind it.
pub proof fn lemma_arranged_strict<T: Fields>(rows: Seq<T::V>, sort: Sort)
    requires
        distinct_ranks::<T>(rows, sort.field),
    ensures
        strictly_ordered::<T>(arranged::<T>(rows, sort), sort),
{
    lemma_arranged::<T>(rows, sort);
    lemma_arranged_distinct::<T>(rows, sort);
    let r = arranged::<T>(rows, sort);
    assert forall|i: int, j: int| 0 <= i < j < r.len() implies precedes::<T>(r[i], r[j], sort) by {
        assert(!precedes::<T>(r[j], r[i], sort));
        assert(rank_of::<T>(r[i], sort.field) != rank_of::<T>(r[j], sort.field));
    }
}

/// What is selected is what is stored and meets the criterion.
pub proof fn lemma_selected_contains<T: Fields>(rows: Seq<T::V>, criterion: CriterionView, v: T::V)
    ensures
        selected::<T>(rows, criterion).contains(v) <==> rows.contains(v) && satisfies::<T>(
            v,
            criterion,
        ),
{
    let pred = |x: T::V| satisfies::<T>(x, criterion);
    if selected::<T>(rows, criterion).contains(v) {
        rows.lemma_filter_contains_rev(pred, v);
    }
    if rows.contains(v) && satisfies::<T>(v, criterion) {
        let i = choose|i: int| 0 <= i < rows.len() && rows[i] == v;
        rows.lemma_filter_contains(pred, i);
    }
}

/// Documents selected from documents of distinct ranks have distinct ranks.
pub proof fn lemma_selected_distinct<T: Fields>(
    rows: Seq<T::V>,
    criterion: CriterionView,
    field: Field,
)
    requires
        distinct_ranks::<T>(rows, field),
    ensures
        distinct_ranks::<T>(selected::<T>(rows, criterion), field),
    decreases rows.len(),
{
    reveal(Seq::filter);
    if rows.len() > 0 {
        let front = rows.drop_last();
        assert forall|i: int, j: int|
            0 <= i < front.len() && 0 <= j < front.len() && i != j implies rank_of::<T>(
            front[i],
            field,
        ) != rank_of::<T>(front[j], field) by {
            assert(front[i] == rows[i] && front[j] == rows[j]);
        }
        lemma_selected_distinct::<T>(front, criterion, field);
        let sel = selected::<T>(front, criterion);
        if satisfies::<T>(rows.last(), criterion) {
            assert forall|k: int| 0 <= k < sel.len() implies rank_of::<T>(#[trigger] sel[k], field)
                != rank_of::<T>(rows.last(), field) by {
                lemma_selected_contains::<T>(front, criterion, sel[k]);
                assert(sel.contains(sel[k]));
                let a = choose|a: int| 0 <= a < front.len() && front[a] == sel[k];
                assert(front[a] == rows[a]);
            }
            let r = sel.push(rows.last());
            assert(selected::<T>(rows, criterion) == r);
            assert forall|i: int, j: int|
                0 <= i < r.len() && 0 <= j < r.len() && i != j implies rank_of::<T>(r[i], field)
                != rank_of::<T>(r[j], field) by {
                if i < sel.len() {
                    assert(r[i] == sel[i]);
                }
                if j < sel.len() {
                    assert(r[j] == sel[j]);
                }
            }
        }
    }
}

/// Selecting everything selects every document, in the stored order.
pub proof fn lemma_selected_everything<T: Fields>(rows: Seq<T::V>)
    ensures
        selected::<T>(rows, CriterionView::Everything) == rows,
    decreases rows.len(),
{
    reveal(Seq::filter);
    if rows.len() > 0 {
        lemma_selected_everything::<T>(rows.drop_last());
        assert(rows.drop_last().push(rows.last()) =~= rows);
    } else {
        assert(selected::<T>(rows, CriterionView::Everything) =~= rows);
    }
}

} // verus!
