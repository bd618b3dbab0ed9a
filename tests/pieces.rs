use neo_bridge::announcement::Announcement;
use neo_bridge::changes::new_uids;
use neo_bridge::notify::{webhook_message, ACCENT_COLOUR, ASSESSMENT_IMAGE_URL, THUMBNAIL_URL};
use neo_bridge::ordering::order;
use neo_bridge::query::{ignored_subjects, search_query};
use neo_bridge::text::starts_with;

fn ann(title: &str, timestamp: i64) -> Announcement {
    Announcement {
        title: title.to_string(),
        description: "d".to_string(),
        author: "a".to_string(),
        avatar_url: "https://x.test/a.png".to_string(),
        timestamp,
        utc_offset: 28800,
    }
}

fn titles(v: &[Announcement]) -> Vec<String> {
    v.iter().map(|a| a.title.clone()).collect()
}

#[test]
fn diff_of_superset() {
    assert_eq!(new_uids(&vec![1, 2, 3], &vec![1, 2, 3, 4, 5]), vec![4, 5]);
}

#[test]
fn diff_of_same_set_is_empty() {
    assert!(new_uids(&vec![1, 2, 3], &vec![3, 2, 1]).is_empty());
    assert!(new_uids(&vec![], &vec![]).is_empty());
}

#[test]
fn diff_ignores_removals() {
    assert_eq!(new_uids(&vec![1, 2, 3], &vec![2, 7]), vec![7]);
}

#[test]
fn order_sorts_by_time() {
    let r = order(vec![ann("c", 30), ann("a", 10), ann("b", 20)]);
    assert_eq!(titles(&r), vec!["a", "b", "c"]);
}

#[test]
fn order_keeps_equal_times_in_input_order() {
    let r = order(vec![ann("x", 5), ann("first", 1), ann("y", 5), ann("z", 5)]);
    assert_eq!(titles(&r), vec!["first", "x", "y", "z"]);
}

#[test]
fn order_of_ordered_is_unchanged() {
    let once = order(vec![ann("b", 2), ann("a", 1), ann("c", 2)]);
    let twice = order(order(vec![ann("b", 2), ann("a", 1), ann("c", 2)]));
    assert_eq!(titles(&once), titles(&twice));
    assert_eq!(titles(&once), vec!["a", "b", "c"]);
}

#[test]
fn order_of_empty() {
    assert!(order(vec![]).is_empty());
}

#[test]
fn query_quotes_each_subject() {
    let q = search_query(&vec!["Graded: ".to_string(), "Lesson ".to_string()]);
    assert_eq!(
        q,
        "X-GM-RAW \"from:iACADEMY-NEO <messages@neolms.com> -subject:(\\\"Graded: \\\" OR \\\"Lesson \\\")\""
    );
}

#[test]
fn query_of_fixed_subjects() {
    let subjects = ignored_subjects();
    assert_eq!(subjects.len(), 12);
    let q = search_query(&subjects);
    assert!(q.starts_with("X-GM-RAW \"from:iACADEMY-NEO <messages@neolms.com> -subject:(\\\"Graded: \\\" OR "));
    assert!(q.ends_with(" OR \\\"Status of \\\")\""));
}

#[test]
fn message_carries_announcement() {
    let m = webhook_message(ann("Quiz", 99), "Heads up", "https://x.test/repo");
    assert_eq!(m.username, "a");
    assert_eq!(m.avatar_url, "https://x.test/a.png");
    assert_eq!(m.content, "Heads up");
    assert_eq!(m.title, "Quiz");
    assert_eq!(m.description, "d");
    assert_eq!(m.thumbnail_url, THUMBNAIL_URL);
    assert_eq!(m.colour, ACCENT_COLOUR);
    assert_eq!(m.colour, 0x014FB3);
    assert_eq!(m.footer, "Automatic notification via https://x.test/repo");
    assert_eq!(m.timestamp, 99);
    assert_eq!(m.image_url, None);
}

#[test]
fn assessment_gets_illustration() {
    let m = webhook_message(ann("Given: assessment Essay 1", 1), "", "");
    assert_eq!(m.image_url.as_deref(), Some(ASSESSMENT_IMAGE_URL));
    let m = webhook_message(ann("Given: assessment", 1), "", "");
    assert_eq!(m.image_url, None);
}

#[test]
fn prefix_test() {
    assert!(starts_with("abc", "ab"));
    assert!(starts_with("abc", ""));
    assert!(!starts_with("ab", "abc"));
    assert!(!starts_with("xbc", "ab"));
}
