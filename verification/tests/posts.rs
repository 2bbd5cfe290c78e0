use dafoerum::api::helper::{count_posts_of, count_threads_of, get_post, get_thread};
use dafoerum::api::{
    create_post, create_post_at, create_post_clocked, ApiError, Counter, Post, Thread,
};
use dafoerum::store::Store;
use dafoerum::workflow::{CreatePost, Step};

fn store_with_thread(thread_id: u32, post_sequence: u32) -> Store {
    let mut store = Store::new();
    store.counters.push(Counter::new("thread".to_string(), thread_id));
    store.counters.push(Counter::new("post".to_string(), post_sequence));
    store.posts.push(Post {
        id: post_sequence,
        content: "first".to_string(),
        created_at: 0,
        thread_id,
    });
    store.threads.push(Thread {
        id: thread_id,
        origin_post_id: post_sequence,
        forum_id: 1,
        subject: "subject".to_string(),
    });
    store
}

#[test]
fn two_posts_get_the_next_two_ids() {
    let mut store = store_with_thread(3, 5);
    create_post_at(3, "one".to_string(), 10, &mut store).unwrap();
    create_post_at(3, "two".to_string(), 20, &mut store).unwrap();
    assert_eq!(store.posts[1].id, 6);
    assert_eq!(store.posts[2].id, 7);
    assert_eq!(store.posts[1].content, "one");
    assert_eq!(store.posts[2].content, "two");
    assert_eq!(store.posts[1].created_at, 10);
    assert_eq!(store.posts[2].created_at, 20);
    assert_eq!(store.counters[1].sequence(), 7);
    assert_eq!(count_posts_of(3, &store).unwrap(), 3);
}

#[test]
fn post_in_unknown_thread_is_rejected() {
    let mut store = store_with_thread(3, 5);
    let r = create_post_at(999, "hi".to_string(), 10, &mut store);
    match r {
        Err(ApiError::NotFound(kind, id)) => {
            assert_eq!(kind, "thread");
            assert_eq!(id, 999);
        }
        other => panic!("unexpected result: {:?}", other),
    }
    assert_eq!(store.counters[1].sequence(), 5);
    assert_eq!(store.posts.len(), 1);
}

#[test]
fn empty_post_is_rejected_before_the_thread_is_looked_up() {
    let mut store = store_with_thread(3, 5);
    let r = create_post_at(999, String::new(), 10, &mut store);
    assert!(matches!(r, Err(ApiError::EmptyContent)));
    let r = create_post_at(3, String::new(), 10, &mut store);
    assert!(matches!(r, Err(ApiError::EmptyContent)));
    assert_eq!(store.counters[1].sequence(), 5);
    assert_eq!(store.posts.len(), 1);
}

#[test]
fn post_without_counter_is_rejected() {
    let mut store = Store::new();
    store.threads.push(Thread {
        id: 1,
        origin_post_id: 1,
        forum_id: 1,
        subject: "s".to_string(),
    });
    let r = create_post_at(1, "hi".to_string(), 10, &mut store);
    assert!(matches!(r, Err(ApiError::CounterNotProvisioned(ref c)) if c == "post"));
    assert!(store.posts.is_empty());
}

#[test]
fn post_on_exhausted_counter_is_rejected() {
    let mut store = store_with_thread(3, u32::MAX);
    let r = create_post_at(3, "hi".to_string(), 10, &mut store);
    assert!(matches!(r, Err(ApiError::CounterExhausted(ref c)) if c == "post"));
    assert_eq!(store.posts.len(), 1);
    assert_eq!(store.counters[1].sequence(), u32::MAX);
}

#[test]
fn post_created_now_carries_a_current_instant() {
    let mut store = store_with_thread(3, 5);
    create_post(3, "hi".to_string(), &mut store).unwrap();
    assert_eq!(store.posts[1].id, 6);
    assert!(store.posts[1].created_at > 1_577_836_800_000);
    assert!(store.posts[1].created_at < 7_258_118_400_000);
}

#[test]
fn lookups_by_id() {
    let store = store_with_thread(3, 5);
    assert_eq!(get_thread(3, &store).unwrap().subject, "subject");
    assert_eq!(get_post(5, &store).unwrap().content, "first");
    match get_thread(4, &store) {
        Err(ApiError::NotFound(kind, id)) => {
            assert_eq!(kind, "thread");
            assert_eq!(id, 4);
        }
        other => panic!("unexpected result: {:?}", other),
    }
    match get_post(6, &store) {
        Err(ApiError::NotFound(kind, id)) => {
            assert_eq!(kind, "post");
            assert_eq!(id, 6);
        }
        other => panic!("unexpected result: {:?}", other),
    }
}

#[test]
fn counts_of_unknown_parents_are_zero() {
    let store = store_with_thread(3, 5);
    assert_eq!(count_posts_of(3, &store).unwrap(), 1);
    assert_eq!(count_posts_of(4, &store).unwrap(), 0);
    assert_eq!(count_threads_of(1, &store).unwrap(), 1);
    assert_eq!(count_threads_of(2, &store).unwrap(), 0);
}

fn step_once(op: &mut CreatePost, step: Step<()>, store: &mut Store, now: i64) -> Step<()> {
    match step {
        Step::Ask(request) => {
            let reply = store.perform(request);
            op.resume_at(reply, now)
        }
        done => done,
    }
}

#[test]
fn interleaved_posts_get_distinct_ids() {
    let mut store = store_with_thread(3, 5);
    let (mut first, mut first_step) = CreatePost::begin(3, "one".to_string());
    let (mut second, mut second_step) = CreatePost::begin(3, "two".to_string());
    // both look their thread up, the second allocates before the first
    first_step = step_once(&mut first, first_step, &mut store, 10);
    second_step = step_once(&mut second, second_step, &mut store, 20);
    second_step = step_once(&mut second, second_step, &mut store, 20);
    first_step = step_once(&mut first, first_step, &mut store, 10);
    // the first stores before the second
    first_step = step_once(&mut first, first_step, &mut store, 10);
    second_step = step_once(&mut second, second_step, &mut store, 20);
    assert!(matches!(first_step, Step::Done(Ok(()))));
    assert!(matches!(second_step, Step::Done(Ok(()))));

    assert_eq!(store.counters[1].sequence(), 7);
    assert_eq!(store.posts.len(), 3);
    assert_eq!((store.posts[1].id, store.posts[1].content.as_str()), (7, "one"));
    assert_eq!((store.posts[2].id, store.posts[2].content.as_str()), (6, "two"));
    assert_eq!(count_posts_of(3, &store).unwrap(), 3);
    let listed = dafoerum::api::get_posts_from_thread(3, &store).unwrap();
    let ids: Vec<u32> = listed.iter().map(|p| p.id).collect();
    assert_eq!(ids, vec![5, 6, 7]);
}

#[test]
fn without_an_instant_the_post_is_not_stored_and_its_id_is_used() {
    let mut store = store_with_thread(3, 5);
    let r = create_post_clocked(3, "hi".to_string(), None, &mut store);
    assert!(matches!(r, Err(ApiError::ClockOutOfRange)));
    assert_eq!(store.posts.len(), 1);
    assert_eq!(store.counters[1].sequence(), 6);

    // the rejections come before the clock is missed
    let r = create_post_clocked(3, String::new(), None, &mut store);
    assert!(matches!(r, Err(ApiError::EmptyContent)));
    let r = create_post_clocked(999, "hi".to_string(), None, &mut store);
    assert!(matches!(r, Err(ApiError::NotFound(ref k, 999)) if k == "thread"));
    assert_eq!(store.counters[1].sequence(), 6);

    create_post_clocked(3, "hi".to_string(), Some(44), &mut store).unwrap();
    assert_eq!(store.posts[1].id, 7);
    assert_eq!(store.posts[1].created_at, 44);
}

#[test]
fn every_interleaving_of_two_posts_ends_with_both_stored() {
    // each of the 64 schedules of six turns; a creation that has ended is passed over
    for schedule in 0u32..64 {
        let mut store = store_with_thread(3, 5);
        let (mut first, mut first_step) = CreatePost::begin(3, "one".to_string());
        let (mut second, mut second_step) = CreatePost::begin(3, "two".to_string());
        for turn in 0..6 {
            if schedule & (1 << turn) != 0 {
                first_step = step_once(&mut first, first_step, &mut store, 10);
            } else {
                second_step = step_once(&mut second, second_step, &mut store, 20);
            }
        }
        for _ in 0..3 {
            first_step = step_once(&mut first, first_step, &mut store, 10);
        }
        for _ in 0..3 {
            second_step = step_once(&mut second, second_step, &mut store, 20);
        }
        assert!(matches!(first_step, Step::Done(Ok(()))));
        assert!(matches!(second_step, Step::Done(Ok(()))));
        assert_eq!(store.counters[1].sequence(), 7);
        assert_eq!(store.posts.len(), 3);
        let mut made: Vec<(u32, &str, u32)> = store.posts[1..]
            .iter()
            .map(|p| (p.id, p.content.as_str(), p.thread_id))
            .collect();
        made.sort();
        assert!(
            made == vec![(6, "one", 3), (7, "two", 3)] || made == vec![(6, "two", 3), (7, "one", 3)]
        );
        assert_eq!(count_posts_of(3, &store).unwrap(), 3);
    }
}
