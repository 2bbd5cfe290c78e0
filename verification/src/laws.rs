//! What holds of the operations on every store: the identifiers that a
//! counter yields, the order of what the listings return, and the integrity
//! of what the two writing operations leave behind.

use crate::activity::{activity_listed, summaries_from, summarised};
use crate::api::helper::{
    after_issue, forum_of, id_issued, posts_counted, thread_of, threads_counted,
};
use crate::api::{
    categories_listed, latest_listed, post_calls_left, post_created, posts_listed,
    thread_calls_left, thread_created, threads_listed,
};
use crate::entity::{
    lemma_forum_ids_contains, lemma_single_contains, Category, Counter, CounterView, Post,
    PostView, Thread, ThreadView,
};
use crate::error::ApiErrorView;
use crate::forum::{by_recent_activity, recent_first, ThreadSummary, ThreadSummaryView};
use crate::protocol::{thread_request, ReplyView, RequestView};
use crate::repository::{
    arranged, distinct_ranks, first_meeting, found_one, lemma_arranged, lemma_arranged_contains,
    lemma_arranged_strict, lemma_first_meeting, lemma_selected_contains, lemma_selected_distinct,
    precedes, rank_of, satisfies, selected, truncated, CriterionView, Field, Fields, Sort,
};
use crate::resolve::{forum_from, missing, thread_from};
use crate::store::{bumped, counter_of, effect, outcome, StoreView};
use crate::workflow::{
    advance_posts, post_begin, post_next, thread_begin, thread_next, CreatePostView,
    CreateThreadView, PostStage, StepView,
};
use vstd::prelude::*;

verus! {

/// The criterion that picks the documents with a number at a field.
pub open spec fn number_is(field: Field, value: u32) -> CriterionView {
    CriterionView::Number { field, value }
}

/// The first document that meets a criterion is the one at `i` where that
/// one meets it and none in front of it does.
pub proof fn lemma_first_meeting_is<T: Fields>(rows: Seq<T::V>, criterion: CriterionView, i: int)
    requires
        0 <= i < rows.len(),
        satisfies::<T>(rows[i], criterion),
        forall|j: int| 0 <= j < i ==> !satisfies::<T>(#[trigger] rows[j], criterion),
    ensures
        first_meeting::<T>(rows, criterion) == i,
{
    lemma_first_meeting::<T>(rows, criterion);
}

/// No document meets a criterion exactly when the search runs to the end.
pub proof fn lemma_first_meeting_none<T: Fields>(rows: Seq<T::V>, criterion: CriterionView)
    requires
        forall|j: int| 0 <= j < rows.len() ==> !satisfies::<T>(#[trigger] rows[j], criterion),
    ensures
        first_meeting::<T>(rows, criterion) == rows.len(),
{
    lemma_first_meeting::<T>(rows, criterion);
}

/// A counter is picked for a category exactly when it is the counter of that
/// category.
pub proof fn lemma_counter_picked(v: CounterView, category: Seq<char>)
    ensures
        satisfies::<Counter>(v, counter_of(category)) <==> v.category == category,
{
    if v.category == category {
        assert(seq![v.category][0] == category);
    }
}

/// The last identifier that the counter of a category issued; zero where the
/// category has no counter.
pub open spec fn high_water(s: StoreView, category: Seq<char>) -> int {
    match found_one::<Counter>(s.counters, counter_of(category)) {
        Some(c) => c.sequence as int,
        None => 0,
    }
}

/// Advancing the counter of one category moves that counter one further,
/// unless it stands at the end, and leaves the counters of other categories
/// where they are.
pub proof fn lemma_bumped_lookup(counters: Seq<CounterView>, category: Seq<char>, other: Seq<char>)
    ensures
        bumped(counters, category).len() == counters.len(),
        found_one::<Counter>(bumped(counters, category), counter_of(other)) == match found_one::<
            Counter,
        >(counters, counter_of(other)) {
            Some(c) => if other == category && c.sequence < u32::MAX {
                Some(CounterView { category: c.category, sequence: (c.sequence + 1) as u32 })
            } else {
                Some(c)
            },
            None => None,
        },
{
    let after = bumped(counters, category);
    let i = first_meeting::<Counter>(counters, counter_of(category));
    let j = first_meeting::<Counter>(counters, counter_of(other));
    lemma_first_meeting::<Counter>(counters, counter_of(category));
    lemma_first_meeting::<Counter>(counters, counter_of(other));
    assert forall|k: int| 0 <= k < counters.len() implies satisfies::<Counter>(
        #[trigger] after[k],
        counter_of(other),
    ) == satisfies::<Counter>(counters[k], counter_of(other)) by {
        lemma_counter_picked(after[k], other);
        lemma_counter_picked(counters[k], other);
    }
    if j < counters.len() {
        lemma_first_meeting_is::<Counter>(after, counter_of(other), j);
        lemma_counter_picked(counters[j], other);
        if i < counters.len() {
            lemma_counter_picked(counters[i], category);
        }
    } else {
        lemma_first_meeting_none::<Counter>(after, counter_of(other));
    }
}

/// The store after `n` identifiers of a category were asked for in turn.
pub open spec fn after_issues(s: StoreView, category: Seq<char>, n: nat) -> StoreView
    decreases n,
{
    if n == 0 {
        s
    } else {
        after_issue(after_issues(s, category, (n - 1) as nat), category)
    }
}

/// Where the counter of a category stands after `n` identifiers were asked
/// for in turn: `n` further, or at the end.
pub proof fn lemma_counter_after_issues(s: StoreView, category: Seq<char>, n: nat)
    ensures
        found_one::<Counter>(after_issues(s, category, n).counters, counter_of(category))
            == match found_one::<Counter>(s.counters, counter_of(category)) {
            Some(c) => Some(
                CounterView {
                    category: c.category,
                    sequence: if c.sequence + n < u32::MAX {
                        (c.sequence + n) as u32
                    } else {
                        u32::MAX
                    },
                },
            ),
            None => None,
        },
    decreases n,
{
    if n > 0 {
        lemma_counter_after_issues(s, category, (n - 1) as nat);
        lemma_bumped_lookup(
            after_issues(s, category, (n - 1) as nat).counters,
            category,
            category,
        );
    }
}

/// Identifiers asked for in turn are consecutive: on a counter that stands at
/// `q`, the call after `k` earlier ones yields `q + k + 1`, so the
/// identifiers of a category are distinct, increase strictly and leave no
/// gap. Once the counter stands at the largest identifier every call fails,
/// and without a counter every call fails.
pub proof fn lemma_ids_in_turn(s: StoreView, category: Seq<char>, k: nat)
    ensures
        id_issued(after_issues(s, category, k), category) == match found_one::<Counter>(
            s.counters,
            counter_of(category),
        ) {
            Some(c) => if c.sequence + k < u32::MAX {
                Ok((c.sequence + k + 1) as u32)
            } else {
                Err(ApiErrorView::CounterExhausted(category))
            },
            None => Err(ApiErrorView::CounterNotProvisioned(category)),
        },
{
    lemma_counter_after_issues(s, category, k);
}

/// An identifier that was issued marks the counter: the high-water mark
/// after the call is the identifier.
pub proof fn lemma_issue_marks(s: StoreView, category: Seq<char>)
    requires
        id_issued(s, category) is Ok,
    ensures
        high_water(after_issue(s, category), category) == id_issued(s, category)->Ok_0,
        high_water(s, category) + 1 == id_issued(s, category)->Ok_0,
{
    lemma_bumped_lookup(s.counters, category, category);
}

/// A failed call for an identifier leaves the store as it is.
pub proof fn lemma_failed_issue_keeps(s: StoreView, category: Seq<char>)
    requires
        id_issued(s, category) is Err,
    ensures
        after_issue(s, category) == s,
{
}

/// The store after the calls were made on it, one after the other.
pub open spec fn applied(s: StoreView, calls: Seq<RequestView>) -> StoreView
    decreases calls.len(),
{
    if calls.len() == 0 {
        s
    } else {
        effect(applied(s, calls.drop_last()), calls.last())
    }
}

/// No call takes a counter away, adds one, or moves one back; the advance of
/// a counter that can still yield an identifier moves that counter on.
pub proof fn lemma_counters_only_rise(s: StoreView, q: RequestView, category: Seq<char>)
    ensures
        found_one::<Counter>(effect(s, q).counters, counter_of(category)) is Some <==> found_one::<
            Counter,
        >(s.counters, counter_of(category)) is Some,
        high_water(effect(s, q), category) >= high_water(s, category),
        q == (RequestView::Advance { category }) && id_issued(s, category) is Ok ==> high_water(
            effect(s, q),
            category,
        ) == high_water(s, category) + 1,
{
    match q {
        RequestView::Advance { category: advanced } => {
            lemma_bumped_lookup(s.counters, advanced, category);
        },
        _ => {},
    }
}

/// Over any calls, a counter stands at least where it stood before them.
pub proof fn lemma_counter_over_calls(
    s: StoreView,
    calls: Seq<RequestView>,
    from: int,
    to: int,
    category: Seq<char>,
)
    requires
        0 <= from <= to <= calls.len(),
    ensures
        high_water(applied(s, calls.take(to)), category) >= high_water(
            applied(s, calls.take(from)),
            category,
        ),
    decreases to - from,
{
    if from < to {
        lemma_counter_over_calls(s, calls, from, to - 1, category);
        assert(calls.take(to).drop_last() =~= calls.take(to - 1));
        assert(calls.take(to).last() == calls[to - 1]);
        lemma_counters_only_rise(applied(s, calls.take(to - 1)), calls[to - 1], category);
    }
}

/// Identifiers never repeat, however the calls of several operations are
/// interleaved: of two advances of one counter among any calls on the store,
/// the later yields the larger identifier. Each advance is one call, which
/// the store answers in one step.
pub proof fn lemma_ids_never_repeat(
    s: StoreView,
    calls: Seq<RequestView>,
    earlier: int,
    later: int,
    category: Seq<char>,
)
    requires
        0 <= earlier < later < calls.len(),
        calls[earlier] == (RequestView::Advance { category }),
        calls[later] == (RequestView::Advance { category }),
        id_issued(applied(s, calls.take(earlier)), category) is Ok,
        id_issued(applied(s, calls.take(later)), category) is Ok,
    ensures
        id_issued(applied(s, calls.take(earlier)), category)->Ok_0 < id_issued(
            applied(s, calls.take(later)),
            category,
        )->Ok_0,
{
    let before = applied(s, calls.take(earlier));
    assert(calls.take(earlier + 1).drop_last() =~= calls.take(earlier));
    assert(calls.take(earlier + 1).last() == calls[earlier]);
    lemma_counters_only_rise(before, calls[earlier], category);
    lemma_counter_over_calls(s, calls, earlier + 1, later, category);
}

/// The two kinds of entity that are numbered have different names.
pub proof fn lemma_kinds_differ()
    ensures
        "post"@ != "thread"@,
{
    reveal_strlit("post");
    reveal_strlit("thread");
    assert("post"@.len() == 4);
    assert("thread"@.len() == 6);
}

/// Whether the store is one that the operations may have produced: no two
/// threads and no two posts share an id, no id lies above the mark of its
/// counter, and every subject and every content is there.
pub open spec fn wf(s: StoreView) -> bool {
    &&& distinct_ranks::<Thread>(s.threads, Field::Id)
    &&& distinct_ranks::<Post>(s.posts, Field::Id)
    &&& forall|i: int|
        0 <= i < s.threads.len() ==> (#[trigger] s.threads[i]).id <= high_water(s, "thread"@)
    &&& forall|i: int|
        0 <= i < s.posts.len() ==> (#[trigger] s.posts[i]).id <= high_water(s, "post"@)
    &&& forall|i: int| 0 <= i < s.threads.len() ==> (#[trigger] s.threads[i]).wf()
    &&& forall|i: int| 0 <= i < s.posts.len() ==> (#[trigger] s.posts[i]).wf()
}

/// Whether a forum with the given id is embedded in a category of the store.
pub open spec fn forum_exists(s: StoreView, forum_id: u32) -> bool {
    exists|i: int| 0 <= i < s.categories.len() && (#[trigger] s.categories[i]).has_forum(forum_id)
}

/// Whether a thread with the given id is stored.
pub open spec fn thread_exists(s: StoreView, thread_id: u32) -> bool {
    exists|i: int| 0 <= i < s.threads.len() && (#[trigger] s.threads[i]).id == thread_id
}

/// Whether a post with the given id is stored in the given thread.
pub open spec fn post_exists_in(s: StoreView, post_id: u32, thread_id: u32) -> bool {
    exists|i: int|
        0 <= i < s.posts.len() && (#[trigger] s.posts[i]).id == post_id && s.posts[i].thread_id
            == thread_id
}

/// Whether every reference in the store has its target: each thread's forum
/// is embedded in a category, each thread's origin post is stored and lies in
/// that thread, and each post's thread is stored.
pub open spec fn linked(s: StoreView) -> bool {
    &&& forall|i: int|
        0 <= i < s.threads.len() ==> forum_exists(s, (#[trigger] s.threads[i]).forum_id)
    &&& forall|i: int|
        0 <= i < s.threads.len() ==> post_exists_in(
            s,
            (#[trigger] s.threads[i]).origin_post_id,
            s.threads[i].id,
        )
    &&& forall|i: int|
        0 <= i < s.posts.len() ==> thread_exists(s, (#[trigger] s.posts[i]).thread_id)
}

/// A forum that is embedded in a category stays so in every store with the
/// same categories.
pub proof fn lemma_forum_stays(s: StoreView, after: StoreView, forum_id: u32)
    requires
        forum_exists(s, forum_id),
        after.categories == s.categories,
    ensures
        forum_exists(after, forum_id),
{
    let k = choose|k: int|
        0 <= k < s.categories.len() && (#[trigger] s.categories[k]).has_forum(forum_id);
    assert(after.categories[k].has_forum(forum_id));
}

/// A thread is found by its id exactly when one with that id is stored, and
/// the one found has that id.
pub proof fn lemma_thread_lookup(s: StoreView, thread_id: u32)
    ensures
        thread_of(s, thread_id) is Ok <==> thread_exists(s, thread_id),
        thread_of(s, thread_id) is Ok ==> thread_of(s, thread_id)->Ok_0.id == thread_id
            && s.threads.contains(thread_of(s, thread_id)->Ok_0),
        thread_of(s, thread_id) is Err ==> thread_of(s, thread_id) == Err::<
            ThreadView,
            ApiErrorView,
        >(missing("thread"@, thread_id)),
{
    let criterion = number_is(Field::Id, thread_id);
    lemma_first_meeting::<Thread>(s.threads, criterion);
    let i = first_meeting::<Thread>(s.threads, criterion);
    assert forall|k: int| 0 <= k < s.threads.len() implies (satisfies::<Thread>(
        #[trigger] s.threads[k],
        criterion,
    ) <==> s.threads[k].id == thread_id) by {
        lemma_single_contains(s.threads[k].id, thread_id);
    }
    if thread_exists(s, thread_id) {
        let k = choose|k: int|
            0 <= k < s.threads.len() && (#[trigger] s.threads[k]).id == thread_id;
        assert(satisfies::<Thread>(s.threads[k], criterion));
    }
    if i < s.threads.len() {
        assert(s.threads[i].id == thread_id);
    }
}

/// A forum is found by its id exactly when a category embeds one with that
/// id; the one found has that id, and a forum that is not found is reported
/// as missing.
pub proof fn lemma_forum_lookup(s: StoreView, forum_id: u32)
    ensures
        forum_of(s, forum_id) is Ok <==> forum_exists(s, forum_id),
        forum_of(s, forum_id) is Ok ==> forum_of(s, forum_id)->Ok_0.0.id == forum_id,
        forum_of(s, forum_id) is Err ==> forum_of(s, forum_id) == Err::<
            (crate::entity::ForumView, Seq<char>),
            ApiErrorView,
        >(missing("forum"@, forum_id)),
{
    let criterion = number_is(Field::ForumsId, forum_id);
    lemma_first_meeting::<Category>(s.categories, criterion);
    let i = first_meeting::<Category>(s.categories, criterion);
    assert forall|k: int| 0 <= k < s.categories.len() implies (satisfies::<Category>(
        #[trigger] s.categories[k],
        criterion,
    ) <==> s.categories[k].has_forum(forum_id)) by {
        lemma_forum_ids_contains(s.categories[k], forum_id);
    }
    if forum_exists(s, forum_id) {
        let k = choose|k: int|
            0 <= k < s.categories.len() && (#[trigger] s.categories[k]).has_forum(forum_id);
        assert(satisfies::<Category>(s.categories[k], criterion));
    }
    if i < s.categories.len() {
        assert(s.categories[i].has_forum(forum_id));
        crate::entity::lemma_first_forum(s.categories[i].forums, forum_id);
    }
}

/// The creation of a thread with an empty subject is rejected as such, and
/// the store stays as it is: no identifier is used and nothing is stored.
pub proof fn lemma_empty_subject_rejected(
    s: StoreView,
    forum_id: u32,
    subject: Seq<char>,
    post_content: Seq<char>,
    now: i64,
)
    requires
        subject.len() == 0,
    ensures
        thread_created(s, forum_id, subject, post_content, now) == (
            s,
            Err::<u32, ApiErrorView>(ApiErrorView::EmptySubject),
        ),
{
}

/// The creation of a thread with a subject and with empty content is
/// rejected as such, and the store stays as it is.
pub proof fn lemma_empty_content_rejected(
    s: StoreView,
    forum_id: u32,
    subject: Seq<char>,
    post_content: Seq<char>,
    now: i64,
)
    requires
        subject.len() > 0,
        post_content.len() == 0,
    ensures
        thread_created(s, forum_id, subject, post_content, now) == (
            s,
            Err::<u32, ApiErrorView>(ApiErrorView::EmptyContent),
        ),
{
}

/// The creation of a thread in a forum that no category embeds reports the
/// forum as missing, and the store stays as it is.
pub proof fn lemma_unknown_forum_rejected(
    s: StoreView,
    forum_id: u32,
    subject: Seq<char>,
    post_content: Seq<char>,
    now: i64,
)
    requires
        subject.len() > 0,
        post_content.len() > 0,
        !forum_exists(s, forum_id),
    ensures
        thread_created(s, forum_id, subject, post_content, now) == (
            s,
            Err::<u32, ApiErrorView>(missing("forum"@, forum_id)),
        ),
{
    lemma_forum_lookup(s, forum_id);
}

/// The creation of a post with empty content is rejected as such, and the
/// creation of one in a thread that is not stored reports the thread as
/// missing; the store stays as it is either way.
pub proof fn lemma_post_rejected(s: StoreView, thread_id: u32, content: Seq<char>, now: i64)
    ensures
        content.len() == 0 ==> post_created(s, thread_id, content, now) == (
            s,
            Err::<(), ApiErrorView>(ApiErrorView::EmptyContent),
        ),
        content.len() > 0 && !thread_exists(s, thread_id) ==> post_created(
            s,
            thread_id,
            content,
            now,
        ) == (s, Err::<(), ApiErrorView>(missing("thread"@, thread_id))),
{
    lemma_thread_lookup(s, thread_id);
}

/// The posts of a thread are listed by ascending id: every post listed lies
/// in the thread, every stored post of the thread is listed, and no post
/// stands behind one of a larger id. Where no two stored posts share an id,
/// the ids ascend strictly.
pub proof fn lemma_posts_ascending(s: StoreView, thread_id: u32)
    ensures
        posts_listed(s, thread_id) is Ok,
        forall|p: PostView|
            posts_listed(s, thread_id)->Ok_0.contains(p) <==> s.posts.contains(p) && p.thread_id
                == thread_id,
        forall|k: int|
            0 <= k < posts_listed(s, thread_id)->Ok_0.len() ==> (#[trigger] posts_listed(
                s,
                thread_id,
            )->Ok_0[k]).thread_id == thread_id,
        forall|i: int, j: int|
            0 <= i < j < posts_listed(s, thread_id)->Ok_0.len() ==> posts_listed(
                s,
                thread_id,
            )->Ok_0[i].id <= posts_listed(s, thread_id)->Ok_0[j].id,
        distinct_ranks::<Post>(s.posts, Field::Id) ==> forall|i: int, j: int|
            0 <= i < j < posts_listed(s, thread_id)->Ok_0.len() ==> posts_listed(
                s,
                thread_id,
            )->Ok_0[i].id < posts_listed(s, thread_id)->Ok_0[j].id,
{
    let criterion = number_is(Field::ThreadId, thread_id);
    let sort = Sort { field: Field::Id, ascending: true };
    let hits = selected::<Post>(s.posts, criterion);
    let rows = arranged::<Post>(hits, sort);
    assert(posts_listed(s, thread_id) == Ok::<Seq<PostView>, ApiErrorView>(rows));
    lemma_arranged::<Post>(hits, sort);
    assert forall|p: PostView| rows.contains(p) <==> s.posts.contains(p) && p.thread_id
        == thread_id by {
        lemma_arranged_contains::<Post>(hits, sort, p);
        lemma_selected_contains::<Post>(s.posts, criterion, p);
        lemma_single_contains(p.thread_id, thread_id);
    }
    assert forall|k: int| 0 <= k < rows.len() implies (#[trigger] rows[k]).thread_id
        == thread_id by {
        assert(rows.contains(rows[k]));
    }
    assert forall|i: int, j: int| 0 <= i < j < rows.len() implies rows[i].id <= rows[j].id by {
        assert(!precedes::<Post>(rows[j], rows[i], sort));
    }
    if distinct_ranks::<Post>(s.posts, Field::Id) {
        lemma_selected_distinct::<Post>(s.posts, criterion, Field::Id);
        lemma_arranged_strict::<Post>(hits, sort);
        assert forall|i: int, j: int| 0 <= i < j < rows.len() implies rows[i].id < rows[j].id by {
            assert(precedes::<Post>(rows[i], rows[j], sort));
        }
    }
}

/// The threads of a forum are listed by descending id: every thread listed
/// lies in the forum, every stored thread of the forum is listed, and no
/// thread stands behind one of a smaller id.
pub proof fn lemma_threads_descending(s: StoreView, forum_id: u32)
    ensures
        threads_listed(s, forum_id) is Ok,
        forall|t: ThreadView|
            threads_listed(s, forum_id)->Ok_0.contains(t) <==> s.threads.contains(t) && t.forum_id
                == forum_id,
        forall|k: int|
            0 <= k < threads_listed(s, forum_id)->Ok_0.len() ==> (#[trigger] threads_listed(
                s,
                forum_id,
            )->Ok_0[k]).forum_id == forum_id,
        forall|i: int, j: int|
            0 <= i < j < threads_listed(s, forum_id)->Ok_0.len() ==> threads_listed(
                s,
                forum_id,
            )->Ok_0[i].id >= threads_listed(s, forum_id)->Ok_0[j].id,
{
    let criterion = number_is(Field::ForumId, forum_id);
    let sort = Sort { field: Field::Id, ascending: false };
    let hits = selected::<Thread>(s.threads, criterion);
    let rows = arranged::<Thread>(hits, sort);
    assert(threads_listed(s, forum_id) == Ok::<Seq<ThreadView>, ApiErrorView>(rows));
    lemma_arranged::<Thread>(hits, sort);
    assert forall|t: ThreadView| rows.contains(t) <==> s.threads.contains(t) && t.forum_id
        == forum_id by {
        lemma_arranged_contains::<Thread>(hits, sort, t);
        lemma_selected_contains::<Thread>(s.threads, criterion, t);
        lemma_single_contains(t.forum_id, forum_id);
    }
    assert forall|k: int| 0 <= k < rows.len() implies (#[trigger] rows[k]).forum_id
        == forum_id by {
        assert(rows.contains(rows[k]));
    }
    assert forall|i: int, j: int| 0 <= i < j < rows.len() implies rows[i].id >= rows[j].id by {
        assert(!precedes::<Thread>(rows[j], rows[i], sort));
    }
}

/// All stored posts, by descending id.
pub open spec fn posts_newest_first(s: StoreView) -> Seq<PostView> {
    arranged::<Post>(s.posts, Sort { field: Field::Id, ascending: false })
}

/// The latest posts are the leading ones of all posts by descending id: a
/// positive `num` yields at most `num` posts, all of them stored, none behind
/// one of a smaller id, and strictly descending where no two stored posts
/// share an id.
pub proof fn lemma_latest_posts(s: StoreView, num: i64)
    requires
        num > 0,
    ensures
        latest_listed(s, num) == Ok::<Seq<PostView>, ApiErrorView>(
            truncated(posts_newest_first(s), num as u64),
        ),
        latest_listed(s, num)->Ok_0.len() <= num,
        latest_listed(s, num)->Ok_0.len() <= s.posts.len(),
        forall|k: int|
            0 <= k < latest_listed(s, num)->Ok_0.len() ==> s.posts.contains(
                #[trigger] latest_listed(s, num)->Ok_0[k],
            ),
        forall|i: int, j: int|
            0 <= i < j < latest_listed(s, num)->Ok_0.len() ==> latest_listed(s, num)->Ok_0[i].id
                >= latest_listed(s, num)->Ok_0[j].id,
        distinct_ranks::<Post>(s.posts, Field::Id) ==> forall|i: int, j: int|
            0 <= i < j < latest_listed(s, num)->Ok_0.len() ==> latest_listed(s, num)->Ok_0[i].id
                > latest_listed(s, num)->Ok_0[j].id,
{
    let sort = Sort { field: Field::Id, ascending: false };
    let all = posts_newest_first(s);
    let rows = truncated(all, num as u64);
    lemma_arranged::<Post>(s.posts, sort);
    assert forall|k: int| 0 <= k < rows.len() implies s.posts.contains(#[trigger] rows[k]) by {
        assert(rows[k] == all[k]);
        assert(all.contains(all[k]));
        lemma_arranged_contains::<Post>(s.posts, sort, rows[k]);
    }
    assert forall|i: int, j: int| 0 <= i < j < rows.len() implies rows[i].id >= rows[j].id by {
        assert(rows[i] == all[i] && rows[j] == all[j]);
        assert(!precedes::<Post>(all[j], all[i], sort));
    }
    if distinct_ranks::<Post>(s.posts, Field::Id) {
        lemma_arranged_strict::<Post>(s.posts, sort);
        assert forall|i: int, j: int| 0 <= i < j < rows.len() implies rows[i].id > rows[j].id by {
            assert(rows[i] == all[i] && rows[j] == all[j]);
            assert(precedes::<Post>(all[i], all[j], sort));
        }
    }
}

/// Asking for fewer of the latest posts yields the leading ones of what
/// asking for more yields, on the same store.
pub proof fn lemma_latest_posts_prefix(s: StoreView, fewer: i64, more: i64)
    requires
        0 < fewer <= more,
    ensures
        latest_listed(s, fewer) is Ok,
        latest_listed(s, more) is Ok,
        latest_listed(s, fewer)->Ok_0 == truncated(latest_listed(s, more)->Ok_0, fewer as u64),
        latest_listed(s, fewer)->Ok_0.len() <= latest_listed(s, more)->Ok_0.len(),
        forall|k: int|
            0 <= k < latest_listed(s, fewer)->Ok_0.len() ==> latest_listed(s, fewer)->Ok_0[k]
                == latest_listed(s, more)->Ok_0[k],
{
    lemma_latest_posts(s, fewer);
    lemma_latest_posts(s, more);
    let all = posts_newest_first(s);
    assert(truncated(all, fewer as u64) =~= truncated(truncated(all, more as u64), fewer as u64));
}

/// After a thread was created in a store that the operations may have
/// produced, the thread is found by the id that was returned, and its origin
/// post is among the posts listed for it, where every post lies in the
/// thread.
pub proof fn lemma_created_thread_resolves(
    s: StoreView,
    forum_id: u32,
    subject: Seq<char>,
    post_content: Seq<char>,
    now: i64,
)
    requires
        wf(s),
        thread_created(s, forum_id, subject, post_content, now).1 is Ok,
    ensures
        ({
            let after = thread_created(s, forum_id, subject, post_content, now).0;
            let thread_id = thread_created(s, forum_id, subject, post_content, now).1->Ok_0;
            let thread = thread_of(after, thread_id);
            let posts = posts_listed(after, thread_id);
            &&& thread is Ok
            &&& thread->Ok_0.id == thread_id
            &&& thread->Ok_0.forum_id == forum_id
            &&& thread->Ok_0.subject == subject
            &&& posts is Ok
            &&& exists|k: int|
                0 <= k < posts->Ok_0.len() && (#[trigger] posts->Ok_0[k]).id
                    == thread->Ok_0.origin_post_id && posts->Ok_0[k].thread_id == thread_id
                    && posts->Ok_0[k].content == post_content
            &&& forall|k: int|
                0 <= k < posts->Ok_0.len() ==> (#[trigger] posts->Ok_0[k]).thread_id == thread_id
        }),
{
    let after = thread_created(s, forum_id, subject, post_content, now).0;
    let thread_id = thread_created(s, forum_id, subject, post_content, now).1->Ok_0;
    let numbered = after_issue(s, "thread"@);
    let post_id = id_issued(numbered, "post"@)->Ok_0;
    lemma_issue_marks(s, "thread"@);
    let criterion = number_is(Field::Id, thread_id);
    let made = ThreadView { id: thread_id, origin_post_id: post_id, forum_id, subject };
    assert(after.threads == s.threads.push(made));
    assert forall|k: int| 0 <= k < s.threads.len() implies !satisfies::<Thread>(
        #[trigger] after.threads[k],
        criterion,
    ) by {
        assert(after.threads[k] == s.threads[k]);
        lemma_single_contains(s.threads[k].id, thread_id);
    }
    lemma_single_contains(thread_id, thread_id);
    assert(after.threads[s.threads.len() as int] == made);
    lemma_first_meeting_is::<Thread>(after.threads, criterion, s.threads.len() as int);
    lemma_posts_ascending(after, thread_id);
    let posts = posts_listed(after, thread_id)->Ok_0;
    let first = PostView { id: post_id, content: post_content, created_at: now, thread_id };
    assert(after.posts == s.posts.push(first));
    assert(after.posts[s.posts.len() as int] == first);
    assert(after.posts.contains(first));
    assert(posts.contains(first));
    let k = choose|k: int| 0 <= k < posts.len() && posts[k] == first;
    assert(posts[k].id == post_id);
}

/// The creation of a post keeps the store one that the operations may have
/// produced, and keeps every reference with its target.
pub proof fn lemma_post_created_keeps(s: StoreView, thread_id: u32, content: Seq<char>, now: i64)
    ensures
        wf(s) ==> wf(post_created(s, thread_id, content, now).0),
        linked(s) ==> linked(post_created(s, thread_id, content, now).0),
        post_created(s, thread_id, content, now).0.categories == s.categories,
        post_created(s, thread_id, content, now).0.threads == s.threads,
        post_created(s, thread_id, content, now).1 is Err ==> post_created(
            s,
            thread_id,
            content,
            now,
        ).0 == s,
{
    let after = post_created(s, thread_id, content, now).0;
    if post_created(s, thread_id, content, now).1 is Ok {
        let id = id_issued(s, "post"@)->Ok_0;
        let made = PostView { id, content, created_at: now, thread_id };
        lemma_kinds_differ();
        lemma_issue_marks(s, "post"@);
        lemma_bumped_lookup(s.counters, "post"@, "thread"@);
        lemma_bumped_lookup(s.counters, "post"@, "post"@);
        lemma_thread_lookup(s, thread_id);
        assert(after.posts == s.posts.push(made));
        assert(high_water(after, "thread"@) == high_water(s, "thread"@));
        assert(high_water(after, "post"@) == id);
        if wf(s) {
            assert forall|i: int| 0 <= i < after.posts.len() implies (#[trigger] after.posts[i]).id
                <= id && after.posts[i].wf() by {
                if i < s.posts.len() {
                    assert(after.posts[i] == s.posts[i]);
                }
            }
            assert forall|i: int, j: int|
                0 <= i < after.posts.len() && 0 <= j < after.posts.len() && i != j implies rank_of::<
                    Post,
                >(after.posts[i], Field::Id) != rank_of::<Post>(after.posts[j], Field::Id) by {
                if i < s.posts.len() {
                    assert(after.posts[i] == s.posts[i]);
                }
                if j < s.posts.len() {
                    assert(after.posts[j] == s.posts[j]);
                }
            }
        }
        if linked(s) {
            assert forall|i: int| 0 <= i < after.threads.len() implies post_exists_in(
                after,
                (#[trigger] after.threads[i]).origin_post_id,
                after.threads[i].id,
            ) by {
                let k = choose|k: int|
                    0 <= k < s.posts.len() && (#[trigger] s.posts[k]).id
                        == s.threads[i].origin_post_id && s.posts[k].thread_id == s.threads[i].id;
                assert(after.posts[k] == s.posts[k]);
            }
            assert forall|i: int| 0 <= i < after.posts.len() implies thread_exists(
                after,
                (#[trigger] after.posts[i]).thread_id,
            ) by {
                if i < s.posts.len() {
                    assert(after.posts[i] == s.posts[i]);
                }
            }
            assert forall|i: int| 0 <= i < after.threads.len() implies forum_exists(
                after,
                (#[trigger] after.threads[i]).forum_id,
            ) by {
                assert(forum_exists(s, s.threads[i].forum_id));
                lemma_forum_stays(s, after, s.threads[i].forum_id);
            }
        }
    }
}

/// The creation of a thread keeps the store one that the operations may have
/// produced, and keeps every reference with its target. Where it fails, no
/// document was stored.
pub proof fn lemma_thread_created_keeps(
    s: StoreView,
    forum_id: u32,
    subject: Seq<char>,
    post_content: Seq<char>,
    now: i64,
)
    ensures
        wf(s) ==> wf(thread_created(s, forum_id, subject, post_content, now).0),
        linked(s) ==> linked(thread_created(s, forum_id, subject, post_content, now).0),
        thread_created(s, forum_id, subject, post_content, now).0.categories == s.categories,
        thread_created(s, forum_id, subject, post_content, now).1 is Err ==> thread_created(
            s,
            forum_id,
            subject,
            post_content,
            now,
        ).0.threads == s.threads && thread_created(s, forum_id, subject, post_content, now).0.posts
            == s.posts,
{
    let after = thread_created(s, forum_id, subject, post_content, now).0;
    let numbered = after_issue(s, "thread"@);
    lemma_kinds_differ();
    lemma_bumped_lookup(s.counters, "thread"@, "thread"@);
    lemma_bumped_lookup(s.counters, "thread"@, "post"@);
    lemma_bumped_lookup(numbered.counters, "post"@, "thread"@);
    lemma_bumped_lookup(numbered.counters, "post"@, "post"@);
    lemma_forum_lookup(s, forum_id);
    if thread_created(s, forum_id, subject, post_content, now).1 is Ok {
        let thread_id = id_issued(s, "thread"@)->Ok_0;
        let post_id = id_issued(numbered, "post"@)->Ok_0;
        let made = ThreadView { id: thread_id, origin_post_id: post_id, forum_id, subject };
        let first = PostView { id: post_id, content: post_content, created_at: now, thread_id };
        assert(after.threads == s.threads.push(made));
        assert(after.posts == s.posts.push(first));
        assert(high_water(after, "thread"@) == thread_id);
        assert(high_water(after, "post"@) == post_id);
        assert(high_water(s, "thread"@) + 1 == thread_id);
        assert(high_water(s, "post"@) + 1 == post_id);
        if wf(s) {
            assert forall|i: int| 0 <= i < after.posts.len() implies (#[trigger] after.posts[i]).id
                <= post_id && after.posts[i].wf() by {
                if i < s.posts.len() {
                    assert(after.posts[i] == s.posts[i]);
                }
            }
            assert forall|i: int|
                0 <= i < after.threads.len() implies (#[trigger] after.threads[i]).id <= thread_id
                && after.threads[i].wf() by {
                if i < s.threads.len() {
                    assert(after.threads[i] == s.threads[i]);
                }
            }
            assert forall|i: int, j: int|
                0 <= i < after.posts.len() && 0 <= j < after.posts.len() && i != j implies rank_of::<
                    Post,
                >(after.posts[i], Field::Id) != rank_of::<Post>(after.posts[j], Field::Id) by {
                if i < s.posts.len() {
                    assert(after.posts[i] == s.posts[i]);
                }
                if j < s.posts.len() {
                    assert(after.posts[j] == s.posts[j]);
                }
            }
            assert forall|i: int, j: int|
                0 <= i < after.threads.len() && 0 <= j < after.threads.len() && i
                    != j implies rank_of::<Thread>(after.threads[i], Field::Id) != rank_of::<Thread>(
                after.threads[j],
                Field::Id,
            ) by {
                if i < s.threads.len() {
                    assert(after.threads[i] == s.threads[i]);
                }
                if j < s.threads.len() {
                    assert(after.threads[j] == s.threads[j]);
                }
            }
        }
        if linked(s) {
            assert(after.posts[s.posts.len() as int] == first);
            assert(after.threads[s.threads.len() as int] == made);
            assert forall|i: int| 0 <= i < after.threads.len() implies post_exists_in(
                after,
                (#[trigger] after.threads[i]).origin_post_id,
                after.threads[i].id,
            ) by {
                if i < s.threads.len() {
                    assert(after.threads[i] == s.threads[i]);
                    let k = choose|k: int|
                        0 <= k < s.posts.len() && (#[trigger] s.posts[k]).id
                            == s.threads[i].origin_post_id && s.posts[k].thread_id
                            == s.threads[i].id;
                    assert(after.posts[k] == s.posts[k]);
                }
            }
            assert forall|i: int| 0 <= i < after.posts.len() implies thread_exists(
                after,
                (#[trigger] after.posts[i]).thread_id,
            ) by {
                if i < s.posts.len() {
                    assert(after.posts[i] == s.posts[i]);
                    let k = choose|k: int|
                        0 <= k < s.threads.len() && (#[trigger] s.threads[k]).id
                            == s.posts[i].thread_id;
                    assert(after.threads[k] == s.threads[k]);
                }
            }
            assert forall|i: int| 0 <= i < after.threads.len() implies forum_exists(
                after,
                (#[trigger] after.threads[i]).forum_id,
            ) by {
                if i < s.threads.len() {
                    assert(after.threads[i] == s.threads[i]);
                    assert(forum_exists(s, s.threads[i].forum_id));
                    lemma_forum_stays(s, after, s.threads[i].forum_id);
                } else {
                    lemma_forum_stays(s, after, forum_id);
                }
            }
        }
    } else {
        if wf(s) {
            assert(high_water(after, "thread"@) >= high_water(s, "thread"@));
            assert(high_water(after, "post"@) == high_water(s, "post"@));
        }
        if linked(s) {
            assert forall|i: int| 0 <= i < after.threads.len() implies forum_exists(
                after,
                (#[trigger] after.threads[i]).forum_id,
            ) by {
                assert(forum_exists(s, s.threads[i].forum_id));
                lemma_forum_stays(s, after, s.threads[i].forum_id);
            }
            assert forall|i: int| 0 <= i < after.threads.len() implies post_exists_in(
                after,
                (#[trigger] after.threads[i]).origin_post_id,
                after.threads[i].id,
            ) by {
                assert(post_exists_in(s, s.threads[i].origin_post_id, s.threads[i].id));
            }
            assert forall|i: int| 0 <= i < after.posts.len() implies thread_exists(
                after,
                (#[trigger] after.posts[i]).thread_id,
            ) by {
                assert(thread_exists(s, s.posts[i].thread_id));
            }
        }
    }
}

/// Whatever store answers, the creation of a thread writes nothing before
/// its input is accepted and its forum is found: rejected input ends the
/// operation before any call, the first call only reads, and a reply that
/// does not yield the forum ends the operation with that failure.
pub proof fn lemma_thread_rejected_before_writing(
    forum_id: u32,
    subject: Seq<char>,
    post_content: Seq<char>,
    reply: ReplyView,
    now: i64,
)
    ensures
        subject.len() == 0 ==> thread_begin(forum_id, subject, post_content).1 == StepView::<
            u32,
        >::Done(Err(ApiErrorView::EmptySubject)),
        subject.len() > 0 && post_content.len() == 0 ==> thread_begin(
            forum_id,
            subject,
            post_content,
        ).1 == StepView::<u32>::Done(Err(ApiErrorView::EmptyContent)),
        subject.len() > 0 && post_content.len() > 0 ==> thread_begin(
            forum_id,
            subject,
            post_content,
        ).1 is Ask && !thread_begin(forum_id, subject, post_content).1->Ask_0.writes(),
        subject.len() > 0 && post_content.len() > 0 && forum_from(reply, forum_id) is Err
            ==> thread_next(thread_begin(forum_id, subject, post_content).0, reply, now).1
            == StepView::<u32>::Done(Err(forum_from(reply, forum_id)->Err_0)),
{
}

/// Whatever store answers, the creation of a post writes nothing before its
/// content is accepted and its thread is found.
pub proof fn lemma_post_rejected_before_writing(
    thread_id: u32,
    content: Seq<char>,
    reply: ReplyView,
    now: i64,
)
    ensures
        content.len() == 0 ==> post_begin(thread_id, content).1 == StepView::<()>::Done(
            Err(ApiErrorView::EmptyContent),
        ),
        content.len() > 0 ==> post_begin(thread_id, content).1 is Ask && !post_begin(
            thread_id,
            content,
        ).1->Ask_0.writes(),
        content.len() > 0 && thread_from(reply, thread_id) is Err ==> post_next(
            post_begin(thread_id, content).0,
            reply,
            now,
        ).1 == StepView::<()>::Done(Err(thread_from(reply, thread_id)->Err_0)),
{
}

/// A count agrees with the listing: as many posts are counted for a thread
/// as are listed for it, and as many threads for a forum; a parent that does
/// not exist has none.
pub proof fn lemma_counts_match_listings(s: StoreView, id: u32)
    ensures
        posts_counted(s, id) == Ok::<u64, ApiErrorView>(posts_listed(s, id)->Ok_0.len() as u64),
        threads_counted(s, id) == Ok::<u64, ApiErrorView>(threads_listed(s, id)->Ok_0.len() as u64),
        !thread_exists(s, id) && linked(s) ==> posts_counted(s, id) == Ok::<u64, ApiErrorView>(0),
{
    let of_posts = number_is(Field::ThreadId, id);
    let of_threads = number_is(Field::ForumId, id);
    lemma_arranged::<Post>(
        selected::<Post>(s.posts, of_posts),
        Sort { field: Field::Id, ascending: true },
    );
    lemma_arranged::<Thread>(
        selected::<Thread>(s.threads, of_threads),
        Sort { field: Field::Id, ascending: false },
    );
    if !thread_exists(s, id) && linked(s) {
        let hits = selected::<Post>(s.posts, of_posts);
        if hits.len() > 0 {
            assert(hits.contains(hits[0]));
            lemma_selected_contains::<Post>(s.posts, of_posts, hits[0]);
            lemma_single_contains(hits[0].thread_id, id);
            let k = choose|k: int| 0 <= k < s.posts.len() && s.posts[k] == hits[0];
            assert(thread_exists(s, s.posts[k].thread_id));
        }
    }
}

/// A post that was created is counted: its thread has one post more than
/// before, and every other thread as many as before.
pub proof fn lemma_created_post_is_counted(
    s: StoreView,
    thread_id: u32,
    content: Seq<char>,
    now: i64,
    other: u32,
)
    requires
        post_created(s, thread_id, content, now).1 is Ok,
    ensures
        posts_listed(post_created(s, thread_id, content, now).0, other)->Ok_0.len() == posts_listed(
            s,
            other,
        )->Ok_0.len() + if other == thread_id {
            1int
        } else {
            0int
        },
{
    let after = post_created(s, thread_id, content, now).0;
    let criterion = number_is(Field::ThreadId, other);
    let sort = Sort { field: Field::Id, ascending: true };
    let made = after.posts.last();
    assert(after.posts.drop_last() =~= s.posts);
    assert(selected::<Post>(after.posts, criterion) == if satisfies::<Post>(made, criterion) {
        selected::<Post>(s.posts, criterion).push(made)
    } else {
        selected::<Post>(s.posts, criterion)
    }) by {
        reveal(Seq::filter);
    }
    lemma_single_contains(made.thread_id, other);
    lemma_arranged::<Post>(selected::<Post>(after.posts, criterion), sort);
    lemma_arranged::<Post>(selected::<Post>(s.posts, criterion), sort);
}

/// Where the creation of a post ends on a store that answers `served` calls
/// and fails every later one with `e`.
pub open spec fn post_run_failing(
    m: CreatePostView,
    step: StepView<()>,
    s: StoreView,
    now: i64,
    served: nat,
    e: ApiErrorView,
) -> (StoreView, Result<(), ApiErrorView>)
    decreases post_calls_left(m.stage), (if step is Ask {
        1nat
    } else {
        0nat
    }),
{
    match step {
        StepView::Done(r) => (s, r),
        StepView::Ask(q) => if served == 0 {
            let next = post_next(m, ReplyView::Failed(e), now);
            post_run_failing(next.0, next.1, s, now, 0, e)
        } else {
            let next = post_next(m, outcome(s, q), now);
            post_run_failing(next.0, next.1, effect(s, q), now, (served - 1) as nat, e)
        },
    }
}

/// Where the creation of a thread ends on a store that answers `served`
/// calls and fails every later one with `e`.
pub open spec fn thread_run_failing(
    m: CreateThreadView,
    step: StepView<u32>,
    s: StoreView,
    now: i64,
    served: nat,
    e: ApiErrorView,
) -> (StoreView, Result<u32, ApiErrorView>)
    decreases thread_calls_left(m.stage), (if step is Ask {
        1nat
    } else {
        0nat
    }),
{
    match step {
        StepView::Done(r) => (s, r),
        StepView::Ask(q) => if served == 0 {
            let next = thread_next(m, ReplyView::Failed(e), now);
            thread_run_failing(next.0, next.1, s, now, 0, e)
        } else {
            let next = thread_next(m, outcome(s, q), now);
            thread_run_failing(next.0, next.1, effect(s, q), now, (served - 1) as nat, e)
        },
    }
}

/// There is no rollback. Where the store fails the insert of a post whose
/// identifier was allocated, the creation ends with that failure and the
/// identifier stays used: the counter stands one further and no post was
/// stored.
pub proof fn lemma_failed_post_burns_id(
    s: StoreView,
    thread_id: u32,
    content: Seq<char>,
    now: i64,
    e: ApiErrorView,
)
    requires
        post_created(s, thread_id, content, now).1 is Ok,
    ensures
        post_run_failing(
            post_begin(thread_id, content).0,
            post_begin(thread_id, content).1,
            s,
            now,
            2,
            e,
        ) == (after_issue(s, "post"@), Err::<(), ApiErrorView>(e)),
{
    reveal_with_fuel(post_run_failing, 5);
}

/// There is no rollback. Where the store fails the insert of a thread whose
/// origin post was stored, the creation ends with that failure and the post
/// stays: it refers to a thread that was never stored, and both identifiers
/// stay used.
pub proof fn lemma_failed_thread_leaves_post(
    s: StoreView,
    forum_id: u32,
    subject: Seq<char>,
    post_content: Seq<char>,
    now: i64,
    e: ApiErrorView,
)
    requires
        thread_created(s, forum_id, subject, post_content, now).1 is Ok,
    ensures
        thread_run_failing(
            thread_begin(forum_id, subject, post_content).0,
            thread_begin(forum_id, subject, post_content).1,
            s,
            now,
            4,
            e,
        ) == (
            StoreView {
                threads: s.threads,
                ..thread_created(s, forum_id, subject, post_content, now).0
            },
            Err::<u32, ApiErrorView>(e),
        ),
{
    reveal_with_fuel(thread_run_failing, 7);
}

/// The categories are listed by ascending display rank: every stored
/// category is listed, as often as it is stored, and no category stands
/// behind one of a larger rank.
pub proof fn lemma_categories_ascending(s: StoreView)
    ensures
        categories_listed(s) is Ok,
        categories_listed(s)->Ok_0.to_multiset() == s.categories.to_multiset(),
        categories_listed(s)->Ok_0.len() == s.categories.len(),
        forall|i: int, j: int|
            0 <= i < j < categories_listed(s)->Ok_0.len() ==> categories_listed(s)->Ok_0[i].order
                <= categories_listed(s)->Ok_0[j].order,
{
    let sort = Sort { field: Field::Order, ascending: true };
    let rows = arranged::<Category>(s.categories, sort);
    lemma_arranged::<Category>(s.categories, sort);
    assert forall|i: int, j: int| 0 <= i < j < rows.len() implies rows[i].order
        <= rows[j].order by {
        assert(!precedes::<Category>(rows[j], rows[i], sort));
    }
}

/// Whether a summary is one of a thread with its own posts: it counts at
/// least one post, and its latest post lies in the thread.
pub open spec fn summary_fits(v: ThreadSummaryView) -> bool {
    v.post_count > 0 && v.latest_post.thread_id == v.thread.id
}

/// The summaries of threads are one per thread, in the order of the threads,
/// behind those that were done; each is of its thread with that thread's own
/// posts.
pub proof fn lemma_summaries(s: StoreView, threads: Seq<ThreadView>, done: Seq<ThreadSummaryView>)
    requires
        summaries_from(s, threads, done) is Ok,
        s.posts.len() <= u64::MAX,
    ensures
        summaries_from(s, threads, done)->Ok_0.len() == done.len() + threads.len(),
        forall|k: int|
            0 <= k < done.len() ==> (#[trigger] summaries_from(s, threads, done)->Ok_0[k])
                == done[k],
        forall|k: int|
            done.len() <= k < done.len() + threads.len() ==> (#[trigger] summaries_from(
                s,
                threads,
                done,
            )->Ok_0[k]).thread == threads[k - done.len()] && summary_fits(
                summaries_from(s, threads, done)->Ok_0[k],
            ),
    decreases threads.len(),
{
    if threads.len() > 0 {
        let posts = posts_listed(s, threads[0].id)->Ok_0;
        lemma_posts_ascending(s, threads[0].id);
        let summary = summarised(threads[0], posts)->Ok_0;
        lemma_arranged::<Post>(
            selected::<Post>(s.posts, number_is(Field::ThreadId, threads[0].id)),
            Sort { field: Field::Id, ascending: true },
        );
        s.posts.lemma_filter_len(
            |v: PostView| satisfies::<Post>(v, number_is(Field::ThreadId, threads[0].id)),
        );
        assert(posts.len() > 0);
        assert(summary.latest_post == posts[posts.len() - 1]);
        assert(summary_fits(summary));
        let rest = threads.remove(0);
        lemma_summaries(s, rest, done.push(summary));
        let all = summaries_from(s, threads, done)->Ok_0;
        assert forall|k: int| 0 <= k < done.len() implies (#[trigger] all[k]) == done[k] by {
            assert(done.push(summary)[k] == done[k]);
        }
        assert forall|k: int| done.len() <= k < done.len() + threads.len() implies (
        #[trigger] all[k]).thread == threads[k - done.len()] && summary_fits(all[k]) by {
            if k == done.len() {
                assert(all[k] == done.push(summary)[k]);
            } else {
                assert(rest[k - done.len() - 1] == threads[k - done.len()]);
            }
        }
    }
}

/// The threads of a forum by recent activity are as many as the forum's
/// threads; each comes with posts of its own, and no thread stands behind
/// one whose latest post is later.
pub proof fn lemma_activity_arranged(s: StoreView, forum_id: u32)
    requires
        activity_listed(s, forum_id) is Ok,
        s.posts.len() <= u64::MAX,
    ensures
        activity_listed(s, forum_id)->Ok_0.len() == threads_listed(s, forum_id)->Ok_0.len(),
        forall|k: int|
            0 <= k < activity_listed(s, forum_id)->Ok_0.len() ==> summary_fits(
                #[trigger] activity_listed(s, forum_id)->Ok_0[k],
            ) && activity_listed(s, forum_id)->Ok_0[k].thread.forum_id == forum_id,
        forall|i: int, j: int|
            0 <= i < j < activity_listed(s, forum_id)->Ok_0.len() ==> activity_listed(
                s,
                forum_id,
            )->Ok_0[i].latest_post.created_at >= activity_listed(
                s,
                forum_id,
            )->Ok_0[j].latest_post.created_at,
{
    let threads = threads_listed(s, forum_id)->Ok_0;
    lemma_threads_descending(s, forum_id);
    lemma_summaries(s, threads, Seq::empty());
    let summaries = summaries_from(s, threads, Seq::empty())->Ok_0;
    let rows = by_recent_activity(summaries);
    lemma_arranged::<ThreadSummary>(summaries, recent_first());
    assert forall|k: int| 0 <= k < rows.len() implies summary_fits(#[trigger] rows[k])
        && rows[k].thread.forum_id == forum_id by {
        assert(rows.contains(rows[k]));
        lemma_arranged_contains::<ThreadSummary>(summaries, recent_first(), rows[k]);
        let a = choose|a: int| 0 <= a < summaries.len() && summaries[a] == rows[k];
        assert(summaries[a].thread == threads[a]);
        assert(threads[a].forum_id == forum_id);
    }
    assert forall|i: int, j: int| 0 <= i < j < rows.len() implies rows[i].latest_post.created_at
        >= rows[j].latest_post.created_at by {
        assert(!precedes::<ThreadSummary>(rows[j], rows[i], recent_first()));
    }
}

/// How many of the calls advance the counter of the category.
pub open spec fn advances_of(calls: Seq<RequestView>, category: Seq<char>) -> nat
    decreases calls.len(),
{
    if calls.len() == 0 {
        0
    } else {
        advances_of(calls.drop_last(), category) + if calls.last() == (RequestView::Advance {
            category,
        }) {
            1nat
        } else {
            0nat
        }
    }
}

/// After any calls, whoever made them and in whatever order, a counter stands
/// as many further as there were advances of it among them, or at the end.
pub proof fn lemma_counter_counts_advances(
    s: StoreView,
    calls: Seq<RequestView>,
    category: Seq<char>,
)
    ensures
        found_one::<Counter>(applied(s, calls).counters, counter_of(category)) == match found_one::<
            Counter,
        >(s.counters, counter_of(category)) {
            Some(c) => Some(
                CounterView {
                    category: c.category,
                    sequence: if c.sequence + advances_of(calls, category) < u32::MAX {
                        (c.sequence + advances_of(calls, category)) as u32
                    } else {
                        u32::MAX
                    },
                },
            ),
            None => None,
        },
    decreases calls.len(),
{
    if calls.len() > 0 {
        lemma_counter_counts_advances(s, calls.drop_last(), category);
        let before = applied(s, calls.drop_last());
        match calls.last() {
            RequestView::Advance { category: advanced } => {
                lemma_bumped_lookup(before.counters, advanced, category);
            },
            _ => {},
        }
    }
}

/// However the calls of several operations are interleaved, the advances of
/// one counter yield the identifiers that follow its sequence, one after the
/// other and without a gap: the advance that has `k` advances of the same
/// counter before it yields the sequence plus `k + 1`. With
/// [`lemma_counter_counts_advances`], `n` advances yield exactly the next `n`
/// identifiers and leave the counter `n` further.
pub proof fn lemma_ids_of_interleaved_calls(
    s: StoreView,
    calls: Seq<RequestView>,
    at: int,
    category: Seq<char>,
)
    requires
        0 <= at < calls.len(),
        calls[at] == (RequestView::Advance { category }),
    ensures
        id_issued(applied(s, calls.take(at)), category) == match found_one::<Counter>(
            s.counters,
            counter_of(category),
        ) {
            Some(c) => if c.sequence + advances_of(calls.take(at), category) < u32::MAX {
                Ok((c.sequence + advances_of(calls.take(at), category) + 1) as u32)
            } else {
                Err(ApiErrorView::CounterExhausted(category))
            },
            None => Err(ApiErrorView::CounterNotProvisioned(category)),
        },
        advances_of(calls.take(at + 1), category) == advances_of(calls.take(at), category) + 1,
{
    lemma_counter_counts_advances(s, calls.take(at), category);
    assert(calls.take(at + 1).drop_last() =~= calls.take(at));
    assert(calls.take(at + 1).last() == calls[at]);
}

/// How far a creation of a post is from its end: a measure that every step
/// lowers.
pub open spec fn post_weight(m: CreatePostView, step: StepView<()>) -> nat {
    2 * post_calls_left(m.stage) + if step is Ask {
        1nat
    } else {
        0nat
    }
}

/// Where two creations of posts end when their steps are interleaved on one
/// store. `schedule` says whose step comes next, the first creation's where
/// it holds `true`; a creation that has ended is passed over, and when the
/// schedule is used up the first creation runs to its end, then the second.
/// Every interleaving of the two is the run of some schedule.
pub open spec fn posts_interleaved(
    m1: CreatePostView,
    step1: StepView<()>,
    m2: CreatePostView,
    step2: StepView<()>,
    s: StoreView,
    now1: i64,
    now2: i64,
    schedule: Seq<bool>,
) -> (StoreView, Result<(), ApiErrorView>, Result<(), ApiErrorView>)
    decreases post_weight(m1, step1) + post_weight(m2, step2), schedule.len(),
{
    if step1 is Done && step2 is Done {
        (s, step1->Done_0, step2->Done_0)
    } else {
        let first = if schedule.len() > 0 {
            schedule[0]
        } else {
            step1 is Ask
        };
        let rest = if schedule.len() > 0 {
            schedule.drop_first()
        } else {
            schedule
        };
        if first {
            match step1 {
                StepView::Ask(q) => {
                    let next = post_next(m1, outcome(s, q), now1);
                    posts_interleaved(next.0, next.1, m2, step2, effect(s, q), now1, now2, rest)
                },
                StepView::Done(_) => posts_interleaved(m1, step1, m2, step2, s, now1, now2, rest),
            }
        } else {
            match step2 {
                StepView::Ask(q) => {
                    let next = post_next(m2, outcome(s, q), now2);
                    posts_interleaved(m1, step1, next.0, next.1, effect(s, q), now1, now2, rest)
                },
                StepView::Done(_) => posts_interleaved(m1, step1, m2, step2, s, now1, now2, rest),
            }
        }
    }
}

/// Whether a creation of a post stands at the given place of its way: about
/// to look its thread up (0), about to allocate its id (1), about to store
/// the post of the given id (2), or ended well (3).
pub open spec fn post_stands(
    m: CreatePostView,
    step: StepView<()>,
    place: int,
    thread_id: u32,
    content: Seq<char>,
    now: i64,
    id: u32,
) -> bool {
    &&& m.thread_id == thread_id
    &&& m.content == content
    &&& if place == 0 {
        m.stage == PostStage::ResolvingThread && step == StepView::<()>::Ask(
            thread_request(thread_id),
        )
    } else if place == 1 {
        m.stage == PostStage::AllocatingId && step == StepView::<()>::Ask(advance_posts())
    } else if place == 2 {
        m.stage == PostStage::Inserting && step == StepView::<()>::Ask(
            RequestView::InsertPost {
                post: PostView { id, content, created_at: now, thread_id },
            },
        )
    } else {
        place == 3 && m.stage == PostStage::Finished && step == StepView::<()>::Done(Ok(()))
    }
}

/// What the store `cur` holds while two creations of posts in one thread
/// stand at the places `p1` and `p2`, having begun on the store `s` whose
/// counter of posts stood at `q`: the counter stands as many further as ids
/// were allocated, the ids allocated are the next ones and differ, and the
/// posts stored are those of the creations that ended, behind the posts that
/// were there.
pub open spec fn posts_underway(
    cur: StoreView,
    s: StoreView,
    q: u32,
    thread_id: u32,
    c1: Seq<char>,
    c2: Seq<char>,
    now1: i64,
    now2: i64,
    p1: int,
    p2: int,
    id1: u32,
    id2: u32,
) -> bool {
    let one = PostView { id: id1, content: c1, created_at: now1, thread_id };
    let two = PostView { id: id2, content: c2, created_at: now2, thread_id };
    let allocated = (if p1 >= 2 {
        1int
    } else {
        0int
    }) + (if p2 >= 2 {
        1int
    } else {
        0int
    });
    &&& 0 <= p1 <= 3 && 0 <= p2 <= 3
    &&& q + 2 <= u32::MAX
    &&& cur.categories == s.categories
    &&& cur.threads == s.threads
    &&& thread_exists(s, thread_id)
    &&& found_one::<Counter>(cur.counters, counter_of("post"@)) is Some
    &&& high_water(cur, "post"@) == q + allocated
    &&& p1 >= 2 ==> id1 == q + 1 || id1 == q + 2
    &&& p2 >= 2 ==> id2 == q + 1 || id2 == q + 2
    &&& p1 >= 2 && p2 >= 2 ==> id1 != id2
    &&& p1 >= 2 && p2 < 2 ==> id1 == q + 1
    &&& p2 >= 2 && p1 < 2 ==> id2 == q + 1
    &&& p1 < 3 && p2 < 3 ==> cur.posts == s.posts
    &&& p1 == 3 && p2 < 3 ==> cur.posts == s.posts.push(one)
    &&& p1 < 3 && p2 == 3 ==> cur.posts == s.posts.push(two)
    &&& p1 == 3 && p2 == 3 ==> cur.posts == s.posts.push(one).push(two) || cur.posts
        == s.posts.push(two).push(one)
}

/// From wherever two creations of posts stand, every interleaving of their
/// remaining steps ends both well, with the store as [`posts_underway`] says
/// of two creations that ended. Returns the ids of the two posts.
pub proof fn lemma_posts_interleaved_from(
    m1: CreatePostView,
    step1: StepView<()>,
    m2: CreatePostView,
    step2: StepView<()>,
    cur: StoreView,
    s: StoreView,
    q: u32,
    thread_id: u32,
    c1: Seq<char>,
    c2: Seq<char>,
    now1: i64,
    now2: i64,
    p1: int,
    p2: int,
    id1: u32,
    id2: u32,
    schedule: Seq<bool>,
) -> (ids: (u32, u32))
    requires
        c1.len() > 0,
        c2.len() > 0,
        post_stands(m1, step1, p1, thread_id, c1, now1, id1),
        post_stands(m2, step2, p2, thread_id, c2, now2, id2),
        posts_underway(cur, s, q, thread_id, c1, c2, now1, now2, p1, p2, id1, id2),
    ensures
        posts_interleaved(m1, step1, m2, step2, cur, now1, now2, schedule).1 == Ok::<
            (),
            ApiErrorView,
        >(()),
        posts_interleaved(m1, step1, m2, step2, cur, now1, now2, schedule).2 == Ok::<
            (),
            ApiErrorView,
        >(()),
        posts_underway(
            posts_interleaved(m1, step1, m2, step2, cur, now1, now2, schedule).0,
            s,
            q,
            thread_id,
            c1,
            c2,
            now1,
            now2,
            3,
            3,
            ids.0,
            ids.1,
        ),
        p1 >= 2 ==> ids.0 == id1,
        p2 >= 2 ==> ids.1 == id2,
    decreases post_weight(m1, step1) + post_weight(m2, step2), schedule.len(),
{
    if p1 == 3 && p2 == 3 {
        (id1, id2)
    } else {
        let first = if schedule.len() > 0 {
            schedule[0]
        } else {
            step1 is Ask
        };
        let rest = if schedule.len() > 0 {
            schedule.drop_first()
        } else {
            schedule
        };
        lemma_thread_lookup(cur, thread_id);
        lemma_bumped_lookup(cur.counters, "post"@, "post"@);
        assert(thread_exists(cur, thread_id)) by {
            let k = choose|k: int|
                0 <= k < s.threads.len() && (#[trigger] s.threads[k]).id == thread_id;
            assert(cur.threads[k].id == thread_id);
        }
        if first {
            match step1 {
                StepView::Ask(call) => {
                    let next = post_next(m1, outcome(cur, call), now1);
                    let after = effect(cur, call);
                    let id = if p1 == 1 {
                        (q + 1 + if p2 >= 2 {
                            1int
                        } else {
                            0int
                        }) as u32
                    } else {
                        id1
                    };
                    lemma_posts_interleaved_from(
                        next.0,
                        next.1,
                        m2,
                        step2,
                        after,
                        s,
                        q,
                        thread_id,
                        c1,
                        c2,
                        now1,
                        now2,
                        p1 + 1,
                        p2,
                        id,
                        id2,
                        rest,
                    )
                },
                StepView::Done(_) => lemma_posts_interleaved_from(
                    m1,
                    step1,
                    m2,
                    step2,
                    cur,
                    s,
                    q,
                    thread_id,
                    c1,
                    c2,
                    now1,
                    now2,
                    p1,
                    p2,
                    id1,
                    id2,
                    rest,
                ),
            }
        } else {
            match step2 {
                StepView::Ask(call) => {
                    let next = post_next(m2, outcome(cur, call), now2);
                    let after = effect(cur, call);
                    let id = if p2 == 1 {
                        (q + 1 + if p1 >= 2 {
                            1int
                        } else {
                            0int
                        }) as u32
                    } else {
                        id2
                    };
                    lemma_posts_interleaved_from(
                        m1,
                        step1,
                        next.0,
                        next.1,
                        after,
                        s,
                        q,
                        thread_id,
                        c1,
                        c2,
                        now1,
                        now2,
                        p1,
                        p2 + 1,
                        id1,
                        id,
                        rest,
                    )
                },
                StepView::Done(_) => lemma_posts_interleaved_from(
                    m1,
                    step1,
                    m2,
                    step2,
                    cur,
                    s,
                    q,
                    thread_id,
                    c1,
                    c2,
                    now1,
                    now2,
                    p1,
                    p2,
                    id1,
                    id2,
                    rest,
                ),
            }
        }
    }
}

/// One more stored post is one more post selected for its thread, and none
/// more for any other thread.
pub proof fn lemma_selection_grows(posts: Seq<PostView>, made: PostView, thread_id: u32)
    ensures
        selected::<Post>(posts.push(made), number_is(Field::ThreadId, thread_id)).len()
            == selected::<Post>(posts, number_is(Field::ThreadId, thread_id)).len() + if thread_id
            == made.thread_id {
            1int
        } else {
            0int
        },
{
    reveal(Seq::filter);
    assert(posts.push(made).drop_last() =~= posts);
    lemma_single_contains(made.thread_id, thread_id);
}

/// Two creations of posts in one thread, with content each, on a store whose
/// counter of posts can yield two identifiers: however their steps are
/// interleaved, both end well. The two posts get the two identifiers that
/// follow the counter, in either order; the counter ends two further; the
/// store ends with the posts that were there and the two new ones behind
/// them, each with its content and in the thread, and nothing else changed;
/// and two more posts are listed and counted for the thread. Returns the ids
/// of the first and of the second creation's post.
pub proof fn lemma_two_posts_interleaved(
    s: StoreView,
    thread_id: u32,
    c1: Seq<char>,
    c2: Seq<char>,
    now1: i64,
    now2: i64,
    schedule: Seq<bool>,
) -> (ids: (u32, u32))
    requires
        c1.len() > 0,
        c2.len() > 0,
        thread_exists(s, thread_id),
        found_one::<Counter>(s.counters, counter_of("post"@)) is Some,
        high_water(s, "post"@) + 2 <= u32::MAX,
    ensures
        ({
            let end = posts_interleaved(
                post_begin(thread_id, c1).0,
                post_begin(thread_id, c1).1,
                post_begin(thread_id, c2).0,
                post_begin(thread_id, c2).1,
                s,
                now1,
                now2,
                schedule,
            );
            let one = PostView { id: ids.0, content: c1, created_at: now1, thread_id };
            let two = PostView { id: ids.1, content: c2, created_at: now2, thread_id };
            &&& end.1 == Ok::<(), ApiErrorView>(())
            &&& end.2 == Ok::<(), ApiErrorView>(())
            &&& (ids.0 == high_water(s, "post"@) + 1 && ids.1 == high_water(s, "post"@) + 2) || (
            ids.0 == high_water(s, "post"@) + 2 && ids.1 == high_water(s, "post"@) + 1)
            &&& high_water(end.0, "post"@) == high_water(s, "post"@) + 2
            &&& end.0.posts == s.posts.push(one).push(two) || end.0.posts == s.posts.push(
                two,
            ).push(one)
            &&& end.0.threads == s.threads
            &&& end.0.categories == s.categories
            &&& posts_listed(end.0, thread_id)->Ok_0.len() == posts_listed(s, thread_id)->Ok_0.len()
                + 2
            &&& posts_counted(end.0, thread_id) == Ok::<u64, ApiErrorView>(
                (posts_listed(s, thread_id)->Ok_0.len() + 2) as u64,
            )
        }),
{
    let q = high_water(s, "post"@) as u32;
    let b1 = post_begin(thread_id, c1);
    let b2 = post_begin(thread_id, c2);
    let ids = lemma_posts_interleaved_from(
        b1.0,
        b1.1,
        b2.0,
        b2.1,
        s,
        s,
        q,
        thread_id,
        c1,
        c2,
        now1,
        now2,
        0,
        0,
        0,
        0,
        schedule,
    );
    let end = posts_interleaved(b1.0, b1.1, b2.0, b2.1, s, now1, now2, schedule);
    let one = PostView { id: ids.0, content: c1, created_at: now1, thread_id };
    let two = PostView { id: ids.1, content: c2, created_at: now2, thread_id };
    lemma_selection_grows(s.posts, one, thread_id);
    lemma_selection_grows(s.posts.push(one), two, thread_id);
    lemma_selection_grows(s.posts, two, thread_id);
    lemma_selection_grows(s.posts.push(two), one, thread_id);
    lemma_counts_match_listings(end.0, thread_id);
    lemma_counts_match_listings(s, thread_id);
    let sort = Sort { field: Field::Id, ascending: true };
    let of_thread = number_is(Field::ThreadId, thread_id);
    lemma_arranged::<Post>(selected::<Post>(end.0.posts, of_thread), sort);
    lemma_arranged::<Post>(selected::<Post>(s.posts, of_thread), sort);
    ids
}

} // verus!
