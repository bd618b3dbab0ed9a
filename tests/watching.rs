use neo_bridge::watch::{fetch_set, Action, Event, Phase, WatchError, Watcher, IDLE_TIMEOUT_SECS};

fn layout_email(title: &str, date: &str) -> Vec<u8> {
    let html = format!(
        "<html><body><table>\
         <tr><td>NEO</td></tr>\
         <tr><td>\
         <table>\
         <tr><td>From</td><td><img src=\"https://x.test/t.png\"></td><td>Teacher</td></tr>\
         <tr><td>Subject</td><td>{title}</td></tr>\
         </table>\
         <table>\
         <tr><td>Message</td></tr>\
         <tr><td>Details.</td></tr>\
         </table>\
         </td></tr>\
         </table></body></html>"
    );
    format!("Date: {date}\r\nContent-Type: text/html; charset=utf-8\r\n\r\n{html}").into_bytes()
}

fn idle_with(known: Vec<u32>) -> Watcher {
    let mut w = Watcher::new();
    assert!(matches!(w.step(Event::Connected), Action::Search));
    assert!(matches!(w.step(Event::Searched(known)), Action::AwaitChange(IDLE_TIMEOUT_SECS)));
    assert_eq!(w.phase, Phase::Idle);
    w
}

#[test]
fn new_messages_delivered_in_time_order() {
    let mut w = idle_with(vec![1, 2, 3]);
    assert!(matches!(w.step(Event::NewData), Action::Search));
    match w.step(Event::Searched(vec![1, 2, 3, 4, 5])) {
        Action::Fetch(uids) => assert_eq!(uids, vec![4, 5]),
        _ => panic!("expected a fetch"),
    }
    let four = layout_email("Fourth", "Mon, 02 Oct 2023 09:30:00 +0800");
    let five = layout_email("Fifth", "Mon, 02 Oct 2023 07:00:00 +0800");
    match w.step(Event::Fetched(vec![Some(four), Some(five)])) {
        Action::Deliver(list) => {
            let titles: Vec<&str> = list.iter().map(|a| a.title.as_str()).collect();
            assert_eq!(titles, vec!["Fifth", "Fourth"]);
        }
        _ => panic!("expected a delivery"),
    }
    assert_eq!(w.phase, Phase::Deliver);
    assert!(matches!(w.step(Event::Delivered), Action::AwaitChange(IDLE_TIMEOUT_SECS)));
    assert_eq!(w.phase, Phase::Idle);
    assert_eq!(w.known, vec![1, 2, 3, 4, 5]);
}

#[test]
fn unchanged_search_returns_to_waiting() {
    let mut w = idle_with(vec![1, 2, 3]);
    assert!(matches!(w.step(Event::NewData), Action::Search));
    assert!(matches!(w.step(Event::Searched(vec![1, 2, 3])), Action::AwaitChange(IDLE_TIMEOUT_SECS)));
    assert_eq!(w.phase, Phase::Idle);
}

#[test]
fn removals_alone_deliver_nothing() {
    let mut w = idle_with(vec![1, 2, 3]);
    w.step(Event::NewData);
    assert!(matches!(w.step(Event::Searched(vec![1, 3])), Action::AwaitChange(IDLE_TIMEOUT_SECS)));
    assert_eq!(w.known, vec![1, 3]);
}

#[test]
fn timeout_rearms_without_search() {
    let mut w = idle_with(vec![1, 2, 3]);
    assert!(matches!(w.step(Event::TimedOut), Action::AwaitChange(IDLE_TIMEOUT_SECS)));
    assert_eq!(w.phase, Phase::Idle);
    assert_eq!(w.known, vec![1, 2, 3]);
}

#[test]
fn lost_connection_reconnects_and_searches_afresh() {
    let mut w = idle_with(vec![1, 2, 3]);
    assert!(matches!(w.step(Event::ConnectionLost), Action::Connect));
    assert_eq!(w.phase, Phase::Connecting);
    assert!(matches!(w.step(Event::Connected), Action::Search));
    assert_eq!(w.phase, Phase::Baseline);
    assert!(matches!(w.step(Event::Searched(vec![1, 2, 3, 6])), Action::AwaitChange(IDLE_TIMEOUT_SECS)));
    assert_eq!(w.known, vec![1, 2, 3, 6]);
    assert_eq!(w.phase, Phase::Idle);
}

#[test]
fn unexpected_event_halts() {
    let mut w = idle_with(vec![1]);
    assert!(matches!(
        w.step(Event::Connected),
        Action::Halt(WatchError::UnexpectedEvent)
    ));
    assert_eq!(w.phase, Phase::Idle);
}

#[test]
fn malformed_message_halts() {
    let mut w = idle_with(vec![1]);
    w.step(Event::NewData);
    w.step(Event::Searched(vec![1, 2]));
    let raw = b"Content-Type: text/html\r\n\r\n<p>x</p>".to_vec();
    match w.step(Event::Fetched(vec![Some(raw)])) {
        Action::Halt(WatchError::Malformed(e)) => {
            assert_eq!(e, neo_bridge::announcement::ExtractError::MissingDate)
        }
        _ => panic!("expected a halt"),
    }
}

#[test]
fn messages_without_content_are_skipped() {
    let mut w = idle_with(vec![1]);
    w.step(Event::NewData);
    w.step(Event::Searched(vec![1, 2]));
    match w.step(Event::Fetched(vec![None])) {
        Action::Deliver(list) => assert!(list.is_empty()),
        _ => panic!("expected a delivery"),
    }
}

#[test]
fn fetch_set_is_comma_separated() {
    assert_eq!(fetch_set(&vec![4, 5, 120]), "4,5,120");
    assert_eq!(fetch_set(&vec![]), "");
}

#[test]
fn wait_is_rearmed_every_nine_minutes() {
    assert_eq!(IDLE_TIMEOUT_SECS, 9 * 60);
}
