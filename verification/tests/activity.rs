use dafoerum::activity::get_threads_by_activity;
use dafoerum::api::{ApiError, Post, Thread};
use dafoerum::forum::{count_threads_and_posts, sort_by_recent_activity, ThreadSummary};
use dafoerum::store::Store;

fn post(id: u32, thread_id: u32, created_at: i64) -> Post {
    Post { id, content: format!("post {}", id), created_at, thread_id }
}

fn thread(id: u32, forum_id: u32, origin_post_id: u32) -> Thread {
    Thread { id, origin_post_id, forum_id, subject: format!("thread {}", id) }
}

fn summary(thread_id: u32, created_at: i64) -> ThreadSummary {
    ThreadSummary {
        thread: thread(thread_id, 1, thread_id),
        post_count: 1,
        latest_post: post(thread_id, thread_id, created_at),
    }
}

#[test]
fn threads_with_later_posts_come_first() {
    let rows = vec![summary(1, 50), summary(2, 90), summary(3, 10), summary(4, 70)];
    let sorted = sort_by_recent_activity(rows);
    let order: Vec<u32> = sorted.iter().map(|r| r.thread.id).collect();
    assert_eq!(order, vec![2, 4, 1, 3]);
}

#[test]
fn threads_of_one_instant_keep_their_order() {
    let rows = vec![summary(1, 50), summary(2, 90), summary(3, 50), summary(4, 90)];
    let sorted = sort_by_recent_activity(rows);
    let order: Vec<u32> = sorted.iter().map(|r| r.thread.id).collect();
    assert_eq!(order, vec![2, 4, 1, 3]);
}

#[test]
fn forum_is_listed_by_recent_activity() {
    let mut store = Store::new();
    store.threads.push(thread(1, 5, 1));
    store.threads.push(thread(2, 5, 2));
    store.threads.push(thread(3, 6, 3));
    store.threads.push(thread(4, 5, 4));
    store.posts.push(post(1, 1, 100));
    store.posts.push(post(2, 2, 200));
    store.posts.push(post(3, 3, 300));
    store.posts.push(post(4, 4, 400));
    store.posts.push(post(5, 1, 500));
    store.posts.push(post(6, 2, 450));
    let rows = get_threads_by_activity(5, &store).unwrap();
    let order: Vec<u32> = rows.iter().map(|r| r.thread.id).collect();
    assert_eq!(order, vec![1, 2, 4]);
    let counts: Vec<u64> = rows.iter().map(|r| r.post_count).collect();
    assert_eq!(counts, vec![2, 2, 1]);
    let latest: Vec<u32> = rows.iter().map(|r| r.latest_post.id).collect();
    assert_eq!(latest, vec![5, 6, 4]);
    assert!(get_threads_by_activity(9, &store).unwrap().is_empty());
}

#[test]
fn thread_without_posts_is_reported() {
    let mut store = Store::new();
    store.threads.push(thread(1, 5, 11));
    match get_threads_by_activity(5, &store) {
        Err(ApiError::NotFound(kind, id)) => {
            assert_eq!(kind, "post");
            assert_eq!(id, 11);
        }
        other => panic!("unexpected result: {:?}", other),
    }
}

#[test]
fn threads_and_posts_of_a_forum_are_counted() {
    let mut rows = vec![summary(1, 50), summary(2, 90), summary(3, 10)];
    rows[0].post_count = 4;
    rows[1].post_count = 0;
    rows[2].post_count = 7;
    assert_eq!(count_threads_and_posts(&rows), (3, 11));
    assert_eq!(count_threads_and_posts(&vec![]), (0, 0));
    rows[1].post_count = u64::MAX - 5;
    assert_eq!(count_threads_and_posts(&rows), (3, u64::MAX));
}
