use dafoerum::api::{ApiError, Post};
use dafoerum::clock::representable;
use dafoerum::forum::{
    category_link, clean_name_for_id, forum_link, forum_notice, forum_title, notice,
    post_form_notice, server_notice, thread_form_notice, thread_link,
};
use dafoerum::route::any_matches;
use dafoerum::MatchPath;

#[test]
fn names_lose_their_white_space() {
    assert_eq!(clean_name_for_id("Off Topic"), "OffTopic");
    assert_eq!(clean_name_for_id("  a \t b\nc\r\x0Cd  "), "abcd");
    assert_eq!(clean_name_for_id(""), "");
    assert_eq!(clean_name_for_id(" \t\n"), "");
    assert_eq!(clean_name_for_id("General"), "General");
    // a space that is not ASCII stays
    assert_eq!(clean_name_for_id("a\u{a0}b c"), "a\u{a0}bc");
    assert_eq!(clean_name_for_id("Größe und Maß"), "GrößeundMaß");
}

#[test]
fn links_and_titles() {
    assert_eq!(thread_link(17), "/thread/17");
    assert_eq!(thread_link(0), "/thread/0");
    assert_eq!(forum_link(3), "/forum/3");
    assert_eq!(forum_link(u32::MAX), "/forum/4294967295");
    assert_eq!(category_link("Off Topic"), "/forum#OffTopic");
    assert_eq!(forum_title("Chat"), "Chat - Forums | Dafoerum");
}

#[test]
fn notices_for_failures() {
    let missing = ApiError::NotFound("forum".to_string(), 12);
    assert_eq!(forum_notice(&missing), "There exists no forum with the id 12");
    assert_eq!(
        forum_notice(&ApiError::Db("down".to_string())),
        "Error from server: opaque mongodb error: down"
    );
    assert_eq!(
        server_notice(&ApiError::DbNotInContext),
        "Error from server: database not in leptos context"
    );
    assert_eq!(thread_form_notice(&ApiError::EmptyContent), "Post content cannot be empty!");
    assert_eq!(thread_form_notice(&ApiError::EmptySubject), "Subject cannot be empty!");
    assert_eq!(
        thread_form_notice(&missing),
        "forum with id 12 doesn't exist in the database"
    );
    assert_eq!(post_form_notice(&ApiError::EmptyContent), "Post content cannot be empty!");
    assert_eq!(
        post_form_notice(&ApiError::EmptySubject),
        "Error from server: subject cannot be empty"
    );
    assert_eq!(
        post_form_notice(&ApiError::NotFound("thread".to_string(), 999)),
        "Error from server: thread with id 999 doesn't exist in the database"
    );
}

#[test]
fn notice_for_each_failure() {
    assert_eq!(
        notice(&ApiError::NotFound("thread".to_string(), 999)),
        "There exists no thread with the id 999"
    );
    assert_eq!(notice(&ApiError::EmptyContent), "Post content cannot be empty!");
    assert_eq!(notice(&ApiError::EmptySubject), "Subject cannot be empty!");
    assert_eq!(
        notice(&ApiError::Db("down".to_string())),
        "Error from server: opaque mongodb error: down"
    );
    assert_eq!(
        notice(&ApiError::DbDeSer("bad".to_string())),
        "Error from server: (de)serialization error in db: bad"
    );
    assert_eq!(
        notice(&ApiError::DbNotInContext),
        "Error from server: database not in leptos context"
    );
    assert_eq!(
        notice(&ApiError::ServerFn("lost".to_string())),
        "Error from server: server fn error: lost"
    );
    assert_eq!(
        notice(&ApiError::CounterNotProvisioned("post".to_string())),
        "Error from server: no counter is provisioned for post"
    );
    assert_eq!(
        notice(&ApiError::CounterExhausted("post".to_string())),
        "Error from server: the counter is exhausted for post"
    );
    assert_eq!(
        notice(&ApiError::ClockOutOfRange),
        "Error from server: the system clock is out of range"
    );
}

#[test]
fn full_pattern_covers_the_path_only() {
    assert!(MatchPath::Full("forum").matches("/forum"));
    assert!(MatchPath::Full("forum").matches("forum"));
    assert!(!MatchPath::Full("forum").matches("/forum/3"));
    assert!(!MatchPath::Full("forum").matches("/foru"));
    assert!(!MatchPath::Full("forum").matches("//forum"));
    assert!(MatchPath::Full("").matches("/"));
    assert!(MatchPath::Full("").matches(""));
    assert!(!MatchPath::Full("").matches("/latest"));
}

#[test]
fn start_pattern_covers_what_begins_with_it() {
    assert!(MatchPath::Start("forum").matches("/forum"));
    assert!(MatchPath::Start("forum").matches("/forum/3"));
    assert!(MatchPath::Start("forum").matches("forums"));
    assert!(!MatchPath::Start("forum").matches("/thread/3"));
    assert!(!MatchPath::Start("forum").matches("/for"));
    assert!(!MatchPath::Start("forum").matches("x/forum"));
    assert!(MatchPath::Start("").matches("/anything"));
    assert!(MatchPath::Start("wiki").matches("/wiki/änderung"));
}

#[test]
fn a_link_is_highlighted_on_any_of_its_pages() {
    let forums = [MatchPath::Start("forum"), MatchPath::Start("thread")];
    assert!(any_matches(&forums, "/forum"));
    assert!(any_matches(&forums, "/thread/4"));
    assert!(!any_matches(&forums, "/latest"));
    assert!(!any_matches(&[], "/latest"));
    assert!(any_matches(&[MatchPath::Full("latest")], "/latest"));
}

#[test]
fn instants_that_the_calendar_covers() {
    assert!(representable(0));
    assert!(representable(-377_705_023_201_000));
    assert!(!representable(-377_705_023_201_001));
    assert!(representable(253_402_207_200_000));
    assert!(!representable(253_402_207_200_001));
    assert!(!representable(i64::MAX));
    assert!(!representable(i64::MIN));
}

#[test]
fn berlin_date_of_a_post() {
    let post = |created_at: i64| Post { id: 1, content: "c".to_string(), created_at, thread_id: 1 };
    assert!(post(i64::MAX).date_in_berlin().is_none());
    assert!(post(253_402_207_200_001).date_in_berlin().is_none());
    // 2025-03-07T01:12:38Z; the text is there where the machine knows the zone
    if let Some(text) = post(1_741_309_958_000).date_in_berlin() {
        assert_eq!(text, "2025-03-07T02:12:38+01:00");
    }
    if let Some(text) = post(1_751_328_000_123).date_in_berlin() {
        assert_eq!(text, "2025-07-01T02:00:00+02:00");
    }
}
