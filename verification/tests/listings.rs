use dafoerum::api::{
    get_categories, get_latest_posts, get_posts_from_thread, get_threads, Category, Post, Thread,
};
use dafoerum::store::Store;

fn post(id: u32, thread_id: u32) -> Post {
    Post { id, content: format!("post {}", id), created_at: 1_000 + (id as i64), thread_id }
}

fn thread(id: u32, forum_id: u32) -> Thread {
    Thread { id, origin_post_id: id, forum_id, subject: format!("thread {}", id) }
}

fn ids(posts: &Vec<Post>) -> Vec<u32> {
    let mut out = Vec::new();
    for p in posts {
        out.push(p.id);
    }
    out
}

fn shuffled_posts() -> Store {
    let mut store = Store::new();
    for (id, thread_id) in [(4, 1), (9, 2), (1, 1), (7, 1), (3, 2), (12, 1), (5, 3)] {
        store.posts.push(post(id, thread_id));
    }
    store
}

#[test]
fn categories_come_by_ascending_order() {
    let mut store = Store::new();
    for (name, order) in [("c", 3), ("a", 1), ("b", 2)] {
        store.categories.push(Category { name: name.to_string(), order, forums: vec![] });
    }
    let categories = get_categories(&store).unwrap();
    let orders: Vec<u32> = categories.iter().map(|c| c.order).collect();
    assert_eq!(orders, vec![1, 2, 3]);
    let names: Vec<&str> = categories.iter().map(|c| c.name.as_str()).collect();
    assert_eq!(names, vec!["a", "b", "c"]);
}

#[test]
fn categories_of_equal_order_keep_their_stored_order() {
    let mut store = Store::new();
    for (name, order) in [("x", 2), ("y", 1), ("z", 2), ("w", 1)] {
        store.categories.push(Category { name: name.to_string(), order, forums: vec![] });
    }
    let categories = get_categories(&store).unwrap();
    let names: Vec<&str> = categories.iter().map(|c| c.name.as_str()).collect();
    assert_eq!(names, vec!["y", "w", "x", "z"]);
}

#[test]
fn posts_of_a_thread_come_by_ascending_id() {
    let store = shuffled_posts();
    let posts = get_posts_from_thread(1, &store).unwrap();
    assert_eq!(ids(&posts), vec![1, 4, 7, 12]);
    assert!(posts.iter().all(|p| p.thread_id == 1));
    let posts = get_posts_from_thread(2, &store).unwrap();
    assert_eq!(ids(&posts), vec![3, 9]);
    let posts = get_posts_from_thread(8, &store).unwrap();
    assert!(posts.is_empty());
}

#[test]
fn latest_posts_come_by_descending_id() {
    let store = shuffled_posts();
    let three = get_latest_posts(3, &store).unwrap();
    assert_eq!(ids(&three), vec![12, 9, 7]);
    let ten = get_latest_posts(10, &store).unwrap();
    assert_eq!(ids(&ten), vec![12, 9, 7, 5, 4, 3, 1]);
    assert_eq!(ids(&three), ids(&ten)[..3].to_vec());
    let again = get_latest_posts(3, &store).unwrap();
    assert_eq!(ids(&again), ids(&three));
}

#[test]
fn latest_posts_of_a_limit_that_is_not_positive_are_none() {
    let store = shuffled_posts();
    assert!(get_latest_posts(0, &store).unwrap().is_empty());
    assert!(get_latest_posts(-4, &store).unwrap().is_empty());
    assert!(get_latest_posts(i64::MIN, &store).unwrap().is_empty());
}

#[test]
fn latest_posts_of_a_large_limit_are_all() {
    let store = shuffled_posts();
    assert_eq!(get_latest_posts(7, &store).unwrap().len(), 7);
    assert_eq!(get_latest_posts(i64::MAX, &store).unwrap().len(), 7);
    assert_eq!(ids(&get_latest_posts(1, &store).unwrap()), vec![12]);
}

#[test]
fn threads_of_a_forum_come_by_descending_id() {
    let mut store = Store::new();
    for (id, forum_id) in [(2, 1), (8, 1), (5, 2), (3, 1), (9, 2)] {
        store.threads.push(thread(id, forum_id));
    }
    let threads = get_threads(1, &store).unwrap();
    let found: Vec<u32> = threads.iter().map(|t| t.id).collect();
    assert_eq!(found, vec![8, 3, 2]);
    assert!(get_threads(3, &store).unwrap().is_empty());
}

#[test]
fn listings_leave_the_store_as_it_is() {
    let store = shuffled_posts();
    let _ = get_latest_posts(3, &store).unwrap();
    let _ = get_posts_from_thread(1, &store).unwrap();
    let stored: Vec<u32> = store.posts.iter().map(|p| p.id).collect();
    assert_eq!(stored, vec![4, 9, 1, 7, 3, 12, 5]);
}
