//! The webhook message that announces one announcement.
use crate::announcement::Announcement;
use crate::text::starts_with;
use vstd::prelude::*;

verus! {

/// Thumbnail shown on every message.
pub const THUMBNAIL_URL: &'static str = "https://employeeportal.iacademy.edu.ph/images/iacnew.png";

/// Accent colour of every message, as `0xRRGGBB`.
pub const ACCENT_COLOUR: u32 = 0x014FB3;

/// Start of the footer; the bridge's repository follows it.
pub const FOOTER_PREFIX: &'static str = "Automatic notification via ";

/// Titles that start so announce a newly given assessment.
pub const ASSESSMENT_PREFIX: &'static str = "Given: assessment ";

/// Illustration added to assessment announcements.
pub const ASSESSMENT_IMAGE_URL: &'static str = "https://iacademy-college.neolms.com/images/notification-headers/notification-assignment-given.png";

/// Everything the webhook is sent for one announcement.
pub struct WebhookMessage {
    /// Display name of the sender: the announcement's author.
    pub username: String,
    pub avatar_url: String,
    /// Fixed text above the rich content block.
    pub content: String,
    pub title: String,
    pub description: String,
    pub thumbnail_url: String,
    pub colour: u32,
    pub footer: String,
    /// Seconds since the Unix epoch.
    pub timestamp: i64,
    pub image_url: Option<String>,
}

/// Whether a title announces a newly given assessment.
pub open spec fn is_assessment(title: Seq<char>) -> bool {
    ASSESSMENT_PREFIX@.len() <= title.len() && title.subrange(0, ASSESSMENT_PREFIX@.len() as int)
        == ASSESSMENT_PREFIX@
}

/// Builds the message for `a`, with the fixed `content` above it and a footer
/// that names `repository`.
pub fn webhook_message(a: Announcement, content: &str, repository: &str) -> (m: WebhookMessage)
    ensures
        m.username@ == a.author@,
        m.avatar_url@ == a.avatar_url@,
        m.content@ == content@,
        m.title@ == a.title@,
        m.description@ == a.description@,
        m.thumbnail_url@ == THUMBNAIL_URL@,
        m.colour == ACCENT_COLOUR,
        m.footer@ == FOOTER_PREFIX@ + repository@,
        m.timestamp == a.timestamp,
        is_assessment(a.title@) ==> (m.image_url matches Some(u) && u@ == ASSESSMENT_IMAGE_URL@),
        !is_assessment(a.title@) ==> m.image_url is None,
{
    let image_url = if starts_with(a.title.as_str(), ASSESSMENT_PREFIX) {
        Some(String::from_str(ASSESSMENT_IMAGE_URL))
    } else {
        None
    };
    let mut footer = String::from_str(FOOTER_PREFIX);
    footer.append(repository);
    WebhookMessage {
        username: a.author,
        avatar_url: a.avatar_url,
        content: String::from_str(content),
        title: a.title,
        description: a.description,
        thumbnail_url: String::from_str(THUMBNAIL_URL),
        colour: ACCENT_COLOUR,
        footer,
        timestamp: a.timestamp,
        image_url,
    }
}

} // verus!
