use dafoerum::api::{ApiError, Category, Counter, Forum, Post, Thread};
use dafoerum::entity::CollectionName;
use dafoerum::protocol::{Collection, Reply, Request};
use dafoerum::repository::{Criterion, Field, Sort};
use dafoerum::resolve::{
    categories_of_reply, count_of_reply, forum_of_reply, id_after, id_of_reply,
    latest_posts_of_reply, pick_forum, post_of_reply, posts_of_reply, stored_of_reply,
    thread_of_reply, threads_of_reply, timed_out,
};
use dafoerum::store::Store;
use dafoerum::workflow::{CreatePost, CreateThread, PostStage, Step, ThreadStage};

fn a_thread() -> Thread {
    Thread { id: 4, origin_post_id: 9, forum_id: 1, subject: "s".to_string() }
}

fn a_category() -> Category {
    Category {
        name: "General".to_string(),
        order: 1,
        forums: vec![
            Forum { id: 1, name: "one".to_string() },
            Forum { id: 2, name: "two".to_string() },
            Forum { id: 2, name: "two again".to_string() },
        ],
    }
}

fn is_misfit(e: &ApiError) -> bool {
    matches!(e, ApiError::DbDeSer(d) if d == "the reply of the store does not fit the request")
}

#[test]
fn collections_are_bound_to_their_names() {
    assert_eq!(Counter::collection_name(), "counters");
    assert_eq!(Category::collection_name(), "categories");
    assert_eq!(Thread::collection_name(), "threads");
    assert_eq!(Post::collection_name(), "posts");
    assert_eq!(Collection::Counters.name(), "counters");
    assert_eq!(Collection::Categories.name(), "categories");
    assert_eq!(Collection::Threads.name(), "threads");
    assert_eq!(Collection::Posts.name(), "posts");
}

#[test]
fn fields_are_spelled_as_the_store_spells_them() {
    assert_eq!(Field::Id.name(), "id");
    assert_eq!(Field::ForumId.name(), "forum_id");
    assert_eq!(Field::ThreadId.name(), "thread_id");
    assert_eq!(Field::Order.name(), "order");
    assert_eq!(Field::ForumsId.name(), "forums.id");
    assert_eq!(Field::Category.name(), "category");
    assert_eq!(Field::Sequence.name(), "sequence");
    assert_eq!(Field::CreatedAt.name(), "created_at");
}

#[test]
fn requests_of_the_listings() {
    match Request::categories() {
        Request::Find { collection, criterion, sort, limit } => {
            assert_eq!(collection, Collection::Categories);
            assert!(matches!(criterion, Criterion::Everything));
            assert_eq!(sort, Sort { field: Field::Order, ascending: true });
            assert_eq!(limit, 0);
        }
        other => panic!("unexpected request: {:?}", other),
    }
    match Request::threads_of_forum(3) {
        Request::Find { collection, criterion, sort, limit } => {
            assert_eq!(collection, Collection::Threads);
            assert!(matches!(criterion, Criterion::Number { field: Field::ForumId, value: 3 }));
            assert_eq!(sort, Sort { field: Field::Id, ascending: false });
            assert_eq!(limit, 0);
        }
        other => panic!("unexpected request: {:?}", other),
    }
    match Request::posts_of_thread(3) {
        Request::Find { collection, criterion, sort, limit } => {
            assert_eq!(collection, Collection::Posts);
            assert!(matches!(criterion, Criterion::Number { field: Field::ThreadId, value: 3 }));
            assert_eq!(sort, Sort { field: Field::Id, ascending: true });
            assert_eq!(limit, 0);
        }
        other => panic!("unexpected request: {:?}", other),
    }
    match Request::latest_posts(10) {
        Request::Find { collection, criterion, sort, limit } => {
            assert_eq!(collection, Collection::Posts);
            assert!(matches!(criterion, Criterion::Everything));
            assert_eq!(sort, Sort { field: Field::Id, ascending: false });
            assert_eq!(limit, 10);
        }
        other => panic!("unexpected request: {:?}", other),
    }
}

#[test]
fn requests_of_the_lookups_and_counts() {
    assert!(matches!(
        Request::category_of_forum(3),
        Request::FindOne {
            collection: Collection::Categories,
            criterion: Criterion::Number { field: Field::ForumsId, value: 3 }
        }
    ));
    assert!(matches!(
        Request::thread(3),
        Request::FindOne {
            collection: Collection::Threads,
            criterion: Criterion::Number { field: Field::Id, value: 3 }
        }
    ));
    assert!(matches!(
        Request::post(3),
        Request::FindOne {
            collection: Collection::Posts,
            criterion: Criterion::Number { field: Field::Id, value: 3 }
        }
    ));
    assert!(matches!(
        Request::count_threads(3),
        Request::Count {
            collection: Collection::Threads,
            criterion: Criterion::Number { field: Field::ForumId, value: 3 }
        }
    ));
    assert!(matches!(
        Request::count_posts(3),
        Request::Count {
            collection: Collection::Posts,
            criterion: Criterion::Number { field: Field::ThreadId, value: 3 }
        }
    ));
}

#[test]
fn advance_is_a_write_on_the_counters() {
    let request = Request::advance("post");
    assert!(request.is_write());
    assert_eq!(request.collection(), Collection::Counters);
    assert!(matches!(
        request.criterion(),
        Criterion::Text { field: Field::Category, ref text } if text == "post"
    ));
    assert!(!Request::thread(1).is_write());
    assert!(!Request::categories().is_write());
    assert!(!Request::count_posts(1).is_write());
    let insert = Request::InsertThread { thread: a_thread() };
    assert!(insert.is_write());
    assert_eq!(insert.collection(), Collection::Threads);
    let insert = Request::InsertPost {
        post: Post { id: 1, content: "c".to_string(), created_at: 0, thread_id: 1 },
    };
    assert!(insert.is_write());
    assert_eq!(insert.collection(), Collection::Posts);
}

#[test]
fn a_store_that_reads_refuses_to_write() {
    let mut store = Store::new();
    store.counters.push(Counter::new("post".to_string(), 1));
    let reply = store.read(&Request::advance("post"));
    assert!(matches!(
        reply,
        Reply::Failed(ApiError::Db(ref d)) if d == "the store was opened for reading"
    ));
    assert_eq!(store.counters[0].sequence(), 1);
    let reply = store.perform(Request::advance("post"));
    assert!(matches!(reply, Reply::Counter(Some(ref c)) if c.sequence() == 1));
    assert_eq!(store.counters[0].sequence(), 2);
    assert_eq!(store.counters[0].category(), "post");
}

#[test]
fn forum_is_picked_out_of_its_category() {
    let (forum, name) = pick_forum(Some(a_category()), 2).unwrap();
    assert_eq!(forum.id, 2);
    assert_eq!(forum.name, "two");
    assert_eq!(name, "General");
    assert!(matches!(
        pick_forum(Some(a_category()), 5),
        Err(ApiError::NotFound(ref k, 5)) if k == "forum"
    ));
    assert!(matches!(pick_forum(None, 5), Err(ApiError::NotFound(ref k, 5)) if k == "forum"));
}

#[test]
fn identifier_after_a_counter() {
    assert_eq!(id_after(Some(Counter::new("post".to_string(), 0)), "post").unwrap(), 1);
    assert_eq!(
        id_after(Some(Counter::new("post".to_string(), u32::MAX - 1)), "post").unwrap(),
        u32::MAX
    );
    assert!(matches!(
        id_after(Some(Counter::new("post".to_string(), u32::MAX)), "post"),
        Err(ApiError::CounterExhausted(ref c)) if c == "post"
    ));
    assert!(matches!(
        id_after(None, "thread"),
        Err(ApiError::CounterNotProvisioned(ref c)) if c == "thread"
    ));
}

#[test]
fn a_failed_call_is_handed_on() {
    let failed = || Reply::Failed(ApiError::Db("down".to_string()));
    assert!(matches!(forum_of_reply(failed(), 1), Err(ApiError::Db(ref d)) if d == "down"));
    assert!(matches!(thread_of_reply(failed(), 1), Err(ApiError::Db(ref d)) if d == "down"));
    assert!(matches!(post_of_reply(failed(), 1), Err(ApiError::Db(ref d)) if d == "down"));
    assert!(matches!(id_of_reply(failed(), "post"), Err(ApiError::Db(ref d)) if d == "down"));
    assert!(matches!(categories_of_reply(failed()), Err(ApiError::Db(ref d)) if d == "down"));
    assert!(matches!(threads_of_reply(failed()), Err(ApiError::Db(ref d)) if d == "down"));
    assert!(matches!(posts_of_reply(failed()), Err(ApiError::Db(ref d)) if d == "down"));
    assert!(matches!(count_of_reply(failed()), Err(ApiError::Db(ref d)) if d == "down"));
    assert!(matches!(stored_of_reply(failed()), Err(ApiError::Db(ref d)) if d == "down"));
}

#[test]
fn a_reply_of_the_wrong_shape_is_a_failure() {
    assert!(is_misfit(&forum_of_reply(Reply::Inserted, 1).unwrap_err()));
    assert!(is_misfit(&thread_of_reply(Reply::Count(1), 1).unwrap_err()));
    assert!(is_misfit(&post_of_reply(Reply::Thread(None), 1).unwrap_err()));
    assert!(is_misfit(&id_of_reply(Reply::Inserted, "post").unwrap_err()));
    assert!(is_misfit(&categories_of_reply(Reply::Posts(vec![])).unwrap_err()));
    assert!(is_misfit(&threads_of_reply(Reply::Posts(vec![])).unwrap_err()));
    assert!(is_misfit(&posts_of_reply(Reply::Threads(vec![])).unwrap_err()));
    assert!(is_misfit(&count_of_reply(Reply::Inserted).unwrap_err()));
    assert!(is_misfit(&stored_of_reply(Reply::Count(0)).unwrap_err()));
    assert_eq!(count_of_reply(Reply::Count(7)).unwrap(), 7);
    assert!(stored_of_reply(Reply::Inserted).is_ok());
}

#[test]
fn creation_of_a_post_step_by_step() {
    let (mut op, step) = CreatePost::begin(4, "hello".to_string());
    assert!(matches!(
        step,
        Step::Ask(Request::FindOne {
            collection: Collection::Threads,
            criterion: Criterion::Number { field: Field::Id, value: 4 }
        })
    ));
    assert_eq!(op.stage, PostStage::ResolvingThread);

    let step = op.resume_at(Reply::Thread(Some(a_thread())), 77);
    assert!(matches!(step, Step::Ask(Request::Advance { ref category }) if category == "post"));
    assert_eq!(op.stage, PostStage::AllocatingId);

    let step = op.resume_at(Reply::Counter(Some(Counter::new("post".to_string(), 5))), 77);
    match step {
        Step::Ask(Request::InsertPost { post }) => {
            assert_eq!(post.id, 6);
            assert_eq!(post.thread_id, 4);
            assert_eq!(post.content, "hello");
            assert_eq!(post.created_at, 77);
        }
        other => panic!("unexpected step: {:?}", other),
    }
    assert_eq!(op.stage, PostStage::Inserting);

    let step = op.resume_at(Reply::Inserted, 77);
    assert!(matches!(step, Step::Done(Ok(()))));
    assert_eq!(op.stage, PostStage::Finished);

    let step = op.resume_at(Reply::Inserted, 77);
    assert!(matches!(step, Step::Done(Err(ref e)) if is_misfit(e)));
}

#[test]
fn creation_of_a_post_ends_at_the_first_failure() {
    let (op, step) = CreatePost::begin(4, String::new());
    assert!(matches!(step, Step::Done(Err(ApiError::EmptyContent))));
    assert_eq!(op.stage, PostStage::Finished);

    let (mut op, _) = CreatePost::begin(4, "hello".to_string());
    let step = op.resume_at(Reply::Thread(None), 0);
    assert!(matches!(step, Step::Done(Err(ApiError::NotFound(ref k, 4))) if k == "thread"));
    assert_eq!(op.stage, PostStage::Finished);

    let (mut op, _) = CreatePost::begin(4, "hello".to_string());
    let _ = op.resume_at(Reply::Thread(Some(a_thread())), 0);
    let step = op.resume_at(Reply::Failed(ApiError::Db("down".to_string())), 0);
    assert!(matches!(step, Step::Done(Err(ApiError::Db(ref d))) if d == "down"));

    let (mut op, _) = CreatePost::begin(4, "hello".to_string());
    let _ = op.resume_at(Reply::Thread(Some(a_thread())), 0);
    let _ = op.resume_at(Reply::Counter(Some(Counter::new("post".to_string(), 5))), 0);
    let step = op.resume_at(Reply::Failed(ApiError::Db("full".to_string())), 0);
    assert!(matches!(step, Step::Done(Err(ApiError::Db(ref d))) if d == "full"));
    assert_eq!(op.stage, PostStage::Finished);
}

#[test]
fn creation_of_a_thread_step_by_step() {
    let (mut op, step) = CreateThread::begin(2, "Chess".to_string(), "Anyone?".to_string());
    assert!(matches!(
        step,
        Step::Ask(Request::FindOne {
            collection: Collection::Categories,
            criterion: Criterion::Number { field: Field::ForumsId, value: 2 }
        })
    ));
    assert_eq!(op.stage, ThreadStage::ResolvingForum);

    let step = op.resume_at(Reply::Category(Some(a_category())), 55);
    assert!(matches!(step, Step::Ask(Request::Advance { ref category }) if category == "thread"));

    let step = op.resume_at(Reply::Counter(Some(Counter::new("thread".to_string(), 10))), 55);
    assert!(matches!(step, Step::Ask(Request::Advance { ref category }) if category == "post"));
    assert_eq!(op.stage, ThreadStage::AllocatingPostId { thread_id: 11 });

    let step = op.resume_at(Reply::Counter(Some(Counter::new("post".to_string(), 20))), 55);
    match step {
        Step::Ask(Request::InsertPost { post }) => {
            assert_eq!(post.id, 21);
            assert_eq!(post.thread_id, 11);
            assert_eq!(post.content, "Anyone?");
            assert_eq!(post.created_at, 55);
        }
        other => panic!("unexpected step: {:?}", other),
    }
    assert_eq!(op.stage, ThreadStage::InsertingPost { thread_id: 11, post_id: 21 });

    let step = op.resume_at(Reply::Inserted, 55);
    match step {
        Step::Ask(Request::InsertThread { thread }) => {
            assert_eq!(thread.id, 11);
            assert_eq!(thread.origin_post_id, 21);
            assert_eq!(thread.forum_id, 2);
            assert_eq!(thread.subject, "Chess");
        }
        other => panic!("unexpected step: {:?}", other),
    }

    let step = op.resume_at(Reply::Inserted, 55);
    assert!(matches!(step, Step::Done(Ok(11))));
    assert_eq!(op.stage, ThreadStage::Finished);
}

#[test]
fn creation_of_a_thread_ends_at_the_first_failure() {
    let (_, step) = CreateThread::begin(2, String::new(), String::new());
    assert!(matches!(step, Step::Done(Err(ApiError::EmptySubject))));
    let (_, step) = CreateThread::begin(2, "s".to_string(), String::new());
    assert!(matches!(step, Step::Done(Err(ApiError::EmptyContent))));

    let (mut op, _) = CreateThread::begin(5, "s".to_string(), "c".to_string());
    let step = op.resume_at(Reply::Category(None), 0);
    assert!(matches!(step, Step::Done(Err(ApiError::NotFound(ref k, 5))) if k == "forum"));

    let (mut op, _) = CreateThread::begin(5, "s".to_string(), "c".to_string());
    let step = op.resume_at(Reply::Category(Some(a_category())), 0);
    assert!(matches!(step, Step::Done(Err(ApiError::NotFound(ref k, 5))) if k == "forum"));

    // the post was stored, the thread was not: the failure is handed on
    let (mut op, _) = CreateThread::begin(2, "s".to_string(), "c".to_string());
    let _ = op.resume_at(Reply::Category(Some(a_category())), 0);
    let _ = op.resume_at(Reply::Counter(Some(Counter::new("thread".to_string(), 10))), 0);
    let _ = op.resume_at(Reply::Counter(Some(Counter::new("post".to_string(), 20))), 0);
    let _ = op.resume_at(Reply::Inserted, 0);
    let step = op.resume_at(Reply::Failed(ApiError::Db("down".to_string())), 0);
    assert!(matches!(step, Step::Done(Err(ApiError::Db(ref d))) if d == "down"));
    assert_eq!(op.stage, ThreadStage::Finished);
}

#[test]
fn a_step_made_now_stamps_the_post_with_a_current_instant() {
    let (mut op, _) = CreatePost::begin(4, "hello".to_string());
    let _ = op.resume(Reply::Thread(Some(a_thread())));
    match op.resume(Reply::Counter(Some(Counter::new("post".to_string(), 5)))) {
        Step::Ask(Request::InsertPost { post }) => {
            assert!(post.created_at > 1_577_836_800_000);
            assert!(post.created_at < 7_258_118_400_000);
        }
        other => panic!("unexpected step: {:?}", other),
    }
    let (mut op, _) = CreateThread::begin(2, "s".to_string(), "c".to_string());
    let _ = op.resume(Reply::Category(Some(a_category())));
    let _ = op.resume(Reply::Counter(Some(Counter::new("thread".to_string(), 10))));
    match op.resume(Reply::Counter(Some(Counter::new("post".to_string(), 20)))) {
        Step::Ask(Request::InsertPost { post }) => {
            assert!(post.created_at > 1_577_836_800_000);
        }
        other => panic!("unexpected step: {:?}", other),
    }
}

#[test]
fn nothing_is_looked_up_for_a_limit_that_is_not_positive() {
    assert!(Request::latest(0).is_none());
    assert!(Request::latest(-1).is_none());
    assert!(Request::latest(i64::MIN).is_none());
    assert!(matches!(Request::latest(1), Some(Request::Find { limit: 1, .. })));
    assert!(matches!(
        Request::latest(i64::MAX),
        Some(Request::Find { limit: 9_223_372_036_854_775_807, .. })
    ));
}

#[test]
fn without_an_instant_no_post_is_built() {
    // the clock matters only in the step that builds the post
    let (mut op, _) = CreatePost::begin(4, "hello".to_string());
    let step = op.resume_clocked(Reply::Thread(Some(a_thread())), None);
    assert!(matches!(step, Step::Ask(Request::Advance { ref category }) if category == "post"));
    let step = op.resume_clocked(Reply::Counter(Some(Counter::new("post".to_string(), 5))), None);
    assert!(matches!(step, Step::Done(Err(ApiError::ClockOutOfRange))));
    assert_eq!(op.stage, PostStage::Finished);

    // a failure of the store comes before the failure of the clock
    let (mut op, _) = CreatePost::begin(4, "hello".to_string());
    let _ = op.resume_clocked(Reply::Thread(Some(a_thread())), None);
    let step = op.resume_clocked(Reply::Counter(None), None);
    assert!(matches!(
        step,
        Step::Done(Err(ApiError::CounterNotProvisioned(ref c))) if c == "post"
    ));

    let (mut op, _) = CreateThread::begin(2, "s".to_string(), "c".to_string());
    let _ = op.resume_clocked(Reply::Category(Some(a_category())), None);
    let step = op.resume_clocked(Reply::Counter(Some(Counter::new("thread".to_string(), 1))), None);
    assert!(matches!(step, Step::Ask(Request::Advance { ref category }) if category == "post"));
    let step = op.resume_clocked(Reply::Counter(Some(Counter::new("post".to_string(), 1))), None);
    assert!(matches!(step, Step::Done(Err(ApiError::ClockOutOfRange))));
    assert_eq!(op.stage, ThreadStage::Finished);

    let (mut op, _) = CreateThread::begin(2, "s".to_string(), "c".to_string());
    let _ = op.resume_clocked(Reply::Category(Some(a_category())), None);
    let _ = op.resume_clocked(Reply::Counter(Some(Counter::new("thread".to_string(), 1))), None);
    let step = op.resume_clocked(Reply::Failed(ApiError::Db("down".to_string())), None);
    assert!(matches!(step, Step::Done(Err(ApiError::Db(ref d))) if d == "down"));
}

#[test]
fn with_an_instant_the_post_is_built_at_it() {
    let (mut op, _) = CreatePost::begin(4, "hello".to_string());
    let _ = op.resume_clocked(Reply::Thread(Some(a_thread())), Some(9));
    match op.resume_clocked(Reply::Counter(Some(Counter::new("post".to_string(), 5))), Some(9)) {
        Step::Ask(Request::InsertPost { post }) => {
            assert_eq!(post.id, 6);
            assert_eq!(post.created_at, 9);
        }
        other => panic!("unexpected step: {:?}", other),
    }
}

#[test]
fn latest_posts_of_no_lookup_are_none() {
    assert!(latest_posts_of_reply(None).unwrap().is_empty());
    let post = Post { id: 3, content: "c".to_string(), created_at: 0, thread_id: 1 };
    let rows = latest_posts_of_reply(Some(Reply::Posts(vec![post]))).unwrap();
    assert_eq!(rows.len(), 1);
    assert_eq!(rows[0].id, 3);
    let failed = Reply::Failed(ApiError::Db("down".to_string()));
    assert!(matches!(latest_posts_of_reply(Some(failed)), Err(ApiError::Db(ref d)) if d == "down"));
    assert!(is_misfit(&latest_posts_of_reply(Some(Reply::Inserted)).unwrap_err()));
}

#[test]
fn a_call_that_is_not_answered_in_time_is_a_failure_of_the_store() {
    assert_eq!(dafoerum::protocol::CALL_TIMEOUT_SECONDS, 10);
    assert!(matches!(
        timed_out(),
        Reply::Failed(ApiError::Db(ref d)) if d == "the store did not answer in time"
    ));
    assert!(matches!(
        thread_of_reply(timed_out(), 1),
        Err(ApiError::Db(ref d)) if d == "the store did not answer in time"
    ));
}
