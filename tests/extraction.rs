use neo_bridge::announcement::{announcement_from_parts, extract, extract_fields, ExtractError};
use neo_bridge::links::collapse_url_links;

fn layout(author: &str, avatar: &str, title: &str, description: &str) -> String {
    format!(
        "<html><body><table>\
         <tr><td>NEO</td></tr>\
         <tr><td>\
         <table>\
         <tr><td>From</td><td><img src=\"{avatar}\"></td><td> {author} </td></tr>\
         <tr><td>Subject</td><td> {title} </td></tr>\
         </table>\
         <table>\
         <tr><td>Message</td></tr>\
         <tr><td>{description}</td></tr>\
         </table>\
         </td></tr>\
         </table></body></html>"
    )
}

fn email(date: Option<&str>, html: &str) -> Vec<u8> {
    let mut raw = String::from("From: iACADEMY-NEO <messages@neolms.com>\r\nSubject: New announcement\r\n");
    if let Some(d) = date {
        raw.push_str(&format!("Date: {d}\r\n"));
    }
    raw.push_str("Content-Type: text/html; charset=utf-8\r\n\r\n");
    raw.push_str(html);
    raw.into_bytes()
}

#[test]
fn fixture_extracts_exact_fields() {
    let html = layout(
        "Jane Doe",
        "https://x.test/avatar.png",
        "Quiz tomorrow",
        "Bring your notebooks.",
    );
    let raw = email(Some("Mon, 02 Oct 2023 09:30:00 +0800"), &html);
    let a = extract(&raw).unwrap();
    assert_eq!(a.title, "Quiz tomorrow");
    assert_eq!(a.author, "Jane Doe");
    assert_eq!(a.avatar_url, "https://x.test/avatar.png");
    assert_eq!(a.description, "Bring your notebooks.\n");
    assert_eq!(a.timestamp, 1696210200);
    assert_eq!(a.utc_offset, 8 * 3600);
}

#[test]
fn fields_from_body_alone() {
    let html = layout("Ann", "https://x.test/a.png", "Given: assessment Essay", "Due Friday.");
    let a = extract_fields(&html, 1696201200, 28800).unwrap();
    assert_eq!(a.title, "Given: assessment Essay");
    assert_eq!(a.author, "Ann");
    assert_eq!(a.timestamp, 1696201200);
}

#[test]
fn url_text_link_collapses() {
    let r = collapse_url_links("See [https://x.test/a](https://x.test/a)");
    assert_eq!(r, "See https://x.test/a");
}

#[test]
fn named_link_is_kept() {
    let text = "See [Click here](https://x.test/a)";
    assert_eq!(collapse_url_links(text), text);
}

#[test]
fn missing_date_header() {
    let html = layout("Ann", "https://x.test/a.png", "T", "D");
    let raw = email(None, &html);
    assert_eq!(extract(&raw).err(), Some(ExtractError::MissingDate));
}

#[test]
fn invalid_date_header() {
    let html = layout("Ann", "https://x.test/a.png", "T", "D");
    let raw = email(Some("Mon, 32 Oct 2023 09:30:00 +0800"), &html);
    assert_eq!(extract(&raw).err(), Some(ExtractError::InvalidDate));
}

#[test]
fn body_without_layout_is_rejected() {
    let raw = email(Some("Mon, 02 Oct 2023 09:30:00 +0800"), "<p>Hello</p>");
    assert_eq!(extract(&raw).err(), Some(ExtractError::MissingTitle));
}

#[test]
fn parts_trim_title_and_author() {
    let a = announcement_from_parts(
        Some("  Title \n".to_string()),
        Some("https://x.test/a.png".to_string()),
        Some("\tAuthor ".to_string()),
        Some("Body".to_string()),
        10,
        28800,
    )
    .unwrap();
    assert_eq!(a.title, "Title");
    assert_eq!(a.author, "Author");
    assert_eq!(a.description, "Body");
    assert_eq!(a.avatar_url, "https://x.test/a.png");
}

#[test]
fn parts_report_first_missing() {
    let some = || Some("x".to_string());
    assert_eq!(
        announcement_from_parts(None, None, None, None, 0, 0).err(),
        Some(ExtractError::MissingTitle)
    );
    assert_eq!(
        announcement_from_parts(some(), None, None, some(), 0, 0).err(),
        Some(ExtractError::MissingAvatar)
    );
    assert_eq!(
        announcement_from_parts(some(), some(), None, some(), 0, 0).err(),
        Some(ExtractError::MissingAuthor)
    );
    assert_eq!(
        announcement_from_parts(some(), some(), some(), None, 0, 0).err(),
        Some(ExtractError::MissingDescription)
    );
}

#[test]
fn undecodable_body_is_unparseable() {
    let raw = b"Date: Mon, 02 Oct 2023 09:30:00 +0800\r\nContent-Type: text/html\r\nContent-Transfer-Encoding: base64\r\n\r\n!!!!\r\n".to_vec();
    assert_eq!(extract(&raw).err(), Some(ExtractError::Unparseable));
}

#[test]
fn two_links_on_one_line_both_collapse() {
    let r = collapse_url_links("[https://a.test/x](https://a.test/x) and [http://c.test/y](http://c.test/y)!");
    assert_eq!(r, "https://a.test/x and http://c.test/y!");
}

#[test]
fn link_to_another_url_is_kept() {
    let text = "[http://a.test](http://b.test)";
    assert_eq!(collapse_url_links(text), text);
}

#[test]
fn non_web_link_is_kept() {
    let text = "[mailto:x@y.test](mailto:x@y.test) [](), [https://é.test](https://é.test";
    assert_eq!(collapse_url_links(text), text);
}
