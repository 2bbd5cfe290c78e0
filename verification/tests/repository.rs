use dafoerum::api::{Category, Counter, Forum, Post, Thread};
use dafoerum::protocol::{Collection, Reply, Request};
use dafoerum::repository::{
    arrange_rows, count_rows, find_position, find_row, find_rows, place_row, Criterion, Document,
    Field, Sort,
};
use dafoerum::store::Store;

fn post(id: u32, thread_id: u32, created_at: i64) -> Post {
    Post { id, content: format!("post {}", id), created_at, thread_id }
}

fn posts() -> Vec<Post> {
    vec![post(4, 1, 40), post(9, 2, 10), post(1, 1, 30), post(7, 1, 20), post(3, 2, 50)]
}

fn ids(rows: &Vec<Post>) -> Vec<u32> {
    rows.iter().map(|p| p.id).collect()
}

fn in_thread(thread_id: u32) -> Criterion {
    Criterion::Number { field: Field::ThreadId, value: thread_id }
}

#[test]
fn rows_are_found_arranged_and_cut() {
    let rows = posts();
    let up = Sort { field: Field::Id, ascending: true };
    let down = Sort { field: Field::Id, ascending: false };
    assert_eq!(ids(&find_rows(&rows, &Criterion::Everything, up, 0)), vec![1, 3, 4, 7, 9]);
    assert_eq!(ids(&find_rows(&rows, &Criterion::Everything, down, 0)), vec![9, 7, 4, 3, 1]);
    assert_eq!(ids(&find_rows(&rows, &Criterion::Everything, down, 2)), vec![9, 7]);
    assert_eq!(ids(&find_rows(&rows, &Criterion::Everything, down, 5)), vec![9, 7, 4, 3, 1]);
    assert_eq!(ids(&find_rows(&rows, &Criterion::Everything, down, 6)), vec![9, 7, 4, 3, 1]);
    assert_eq!(ids(&find_rows(&rows, &Criterion::Everything, down, u64::MAX)).len(), 5);
    assert_eq!(ids(&find_rows(&rows, &in_thread(1), up, 0)), vec![1, 4, 7]);
    assert_eq!(ids(&find_rows(&rows, &in_thread(1), up, 1)), vec![1]);
    assert_eq!(ids(&find_rows(&rows, &in_thread(5), up, 0)), Vec::<u32>::new());
    assert_eq!(ids(&find_rows(&Vec::new(), &Criterion::Everything, up, 0)), Vec::<u32>::new());
}

#[test]
fn rows_can_be_arranged_by_any_number() {
    let rows = posts();
    let by_time = Sort { field: Field::CreatedAt, ascending: true };
    assert_eq!(ids(&find_rows(&rows, &Criterion::Everything, by_time, 0)), vec![9, 7, 1, 4, 3]);
    let by_thread = Sort { field: Field::ThreadId, ascending: false };
    // rows of one thread keep their stored order
    assert_eq!(ids(&find_rows(&rows, &Criterion::Everything, by_thread, 0)), vec![9, 3, 4, 1, 7]);
    // a field that posts do not have ranks them all alike
    let by_order = Sort { field: Field::Order, ascending: true };
    assert_eq!(ids(&find_rows(&rows, &Criterion::Everything, by_order, 0)), vec![4, 9, 1, 7, 3]);
    assert_eq!(ids(&arrange_rows(posts(), by_time)), vec![9, 7, 1, 4, 3]);
    assert_eq!(ids(&arrange_rows(Vec::new(), by_time)), Vec::<u32>::new());
}

#[test]
fn a_row_is_placed_behind_its_equals() {
    let up = Sort { field: Field::ThreadId, ascending: true };
    let mut rows = vec![post(1, 1, 0), post(2, 2, 0), post(3, 2, 0), post(4, 3, 0)];
    place_row(&mut rows, post(5, 2, 0), up);
    assert_eq!(ids(&rows), vec![1, 2, 3, 5, 4]);
    place_row(&mut rows, post(6, 0, 0), up);
    assert_eq!(ids(&rows), vec![6, 1, 2, 3, 5, 4]);
    place_row(&mut rows, post(7, 9, 0), up);
    assert_eq!(ids(&rows), vec![6, 1, 2, 3, 5, 4, 7]);
    assert!(up.ranks_first(1, 2));
    assert!(!up.ranks_first(2, 2));
    let down = Sort { field: Field::ThreadId, ascending: false };
    assert!(down.ranks_first(3, 2));
    assert!(!down.ranks_first(2, 2));
}

#[test]
fn the_first_row_that_meets_a_criterion_is_found() {
    let rows = posts();
    assert_eq!(find_position(&rows, &in_thread(2)), Some(1));
    assert_eq!(find_position(&rows, &in_thread(1)), Some(0));
    assert_eq!(find_position(&rows, &in_thread(3)), None);
    assert_eq!(find_position(&rows, &Criterion::Everything), Some(0));
    assert_eq!(find_position(&Vec::<Post>::new(), &Criterion::Everything), None);
    assert_eq!(find_row(&rows, &in_thread(2)).unwrap().id, 9);
    assert!(find_row(&rows, &in_thread(3)).is_none());
    let by_id = Criterion::Number { field: Field::Id, value: 7 };
    assert_eq!(find_row(&rows, &by_id).unwrap().created_at, 20);
}

#[test]
fn rows_are_counted() {
    let rows = posts();
    assert_eq!(count_rows(&rows, &Criterion::Everything), 5);
    assert_eq!(count_rows(&rows, &in_thread(1)), 3);
    assert_eq!(count_rows(&rows, &in_thread(2)), 2);
    assert_eq!(count_rows(&rows, &in_thread(3)), 0);
    assert_eq!(count_rows(&Vec::<Post>::new(), &Criterion::Everything), 0);
}

#[test]
fn what_each_document_holds() {
    let p = post(4, 1, 40);
    assert!(p.meets(&Criterion::Number { field: Field::Id, value: 4 }));
    assert!(!p.meets(&Criterion::Number { field: Field::Id, value: 1 }));
    assert!(p.meets(&Criterion::Number { field: Field::CreatedAt, value: 40 }));
    assert!(!p.meets(&Criterion::Number { field: Field::ForumId, value: 4 }));
    assert!(!p.meets(&Criterion::Text { field: Field::Category, text: "post".to_string() }));
    assert_eq!(p.rank(Field::ThreadId), 1);
    assert_eq!(p.rank(Field::Sequence), 0);

    let t = Thread { id: 2, origin_post_id: 9, forum_id: 5, subject: "s".to_string() };
    assert!(t.meets(&Criterion::Number { field: Field::ForumId, value: 5 }));
    assert!(!t.meets(&Criterion::Number { field: Field::ThreadId, value: 2 }));
    assert_eq!(t.rank(Field::Id), 2);
    assert_eq!(t.replica().subject, "s");

    let c = Counter::new("post".to_string(), 8);
    assert!(c.meets(&Criterion::Text { field: Field::Category, text: "post".to_string() }));
    assert!(!c.meets(&Criterion::Text { field: Field::Category, text: "thread".to_string() }));
    assert!(!c.meets(&Criterion::Text { field: Field::Id, text: "post".to_string() }));
    assert!(c.meets(&Criterion::Number { field: Field::Sequence, value: 8 }));
    assert_eq!(c.rank(Field::Sequence), 8);

    let g = Category {
        name: "General".to_string(),
        order: 3,
        forums: vec![
            Forum { id: 6, name: "a".to_string() },
            Forum { id: 2, name: "b".to_string() },
        ],
    };
    assert!(g.meets(&Criterion::Number { field: Field::ForumsId, value: 2 }));
    assert!(g.meets(&Criterion::Number { field: Field::ForumsId, value: 6 }));
    assert!(!g.meets(&Criterion::Number { field: Field::ForumsId, value: 3 }));
    assert!(g.meets(&Criterion::Number { field: Field::Order, value: 3 }));
    assert_eq!(g.rank(Field::Order), 3);
    assert_eq!(g.rank(Field::ForumsId), 6);
    assert_eq!(g.position_of_forum(2), Some(1));
    assert_eq!(g.position_of_forum(7), None);
    let copy = g.clone();
    assert_eq!(copy.forums.len(), 2);
    assert_eq!(copy.forums[1].name, "b");
}

#[test]
fn the_store_answers_each_kind_of_call() {
    let mut store = Store::new();
    store.counters.push(Counter::new("thread".to_string(), 1));
    store.counters.push(Counter::new("post".to_string(), 9));
    store.posts = posts();
    let reply = store.read(&Request::Find {
        collection: Collection::Counters,
        criterion: Criterion::Everything,
        sort: Sort { field: Field::Sequence, ascending: false },
        limit: 1,
    });
    assert!(matches!(reply, Reply::Counters(ref rows) if rows.len() == 1 && rows[0].sequence() == 9));
    let reply = store.read(&Request::Count {
        collection: Collection::Counters,
        criterion: Criterion::Everything,
    });
    assert!(matches!(reply, Reply::Count(2)));
    let reply = store.read(&Request::FindOne {
        collection: Collection::Counters,
        criterion: Criterion::Text { field: Field::Category, text: "post".to_string() },
    });
    assert!(matches!(reply, Reply::Counter(Some(ref c)) if c.sequence() == 9));
    let reply = store.read(&Request::post(7));
    assert!(matches!(reply, Reply::Post(Some(ref p)) if p.created_at == 20));
    let reply = store.read(&Request::thread(7));
    assert!(matches!(reply, Reply::Thread(None)));
    let reply = store.read(&Request::category_of_forum(7));
    assert!(matches!(reply, Reply::Category(None)));
    let reply = store.perform(Request::count_posts(1));
    assert!(matches!(reply, Reply::Count(3)));
    let reply = store.perform(Request::InsertPost { post: post(10, 1, 60) });
    assert!(matches!(reply, Reply::Inserted));
    assert_eq!(store.posts.len(), 6);
    assert_eq!(store.posts[5].id, 10);
    let reply = store.perform(Request::advance("forum"));
    assert!(matches!(reply, Reply::Counter(None)));
    assert_eq!(store.counters.len(), 2);
}
