//! Extraction of an announcement from a raw notification email: the date
//! header gives its instant, and four fixed positions of the HTML body give
//! its title, avatar, author and description.
use crate::links::{collapse_url_links, collapsed};
use crate::text::{trim, trimmed};
use chrono::{Offset, TimeZone};
use mailparse::MailHeaderMap;
use vstd::prelude::*;

verus! {

/// The cell that holds the title.
pub const TITLE_SELECTOR: &'static str = "tr:nth-child(2) table:first-child tr:nth-child(2) td:last-child";

/// The image whose `src` is the author's avatar.
pub const AVATAR_SELECTOR: &'static str = "tr:nth-child(2) table:first-child tr:first-child td:nth-child(2) img";

/// The attribute of the avatar image that holds its address.
pub const AVATAR_ATTRIBUTE: &'static str = "src";

/// The cell that holds the author's name.
pub const AUTHOR_SELECTOR: &'static str = "tr:nth-child(2) table:first-child tr:first-child td:last-child";

/// The cell that holds the description.
pub const DESCRIPTION_SELECTOR: &'static str = "tr:nth-child(2) table:last-child tr:last-child td";

/// One announcement, as it is delivered.
pub struct Announcement {
    pub title: String,
    /// Lightweight markup converted from the description's HTML.
    pub description: String,
    pub author: String,
    pub avatar_url: String,
    /// Seconds since the Unix epoch.
    pub timestamp: i64,
    /// Offset of Asia/Manila from UTC at `timestamp`, in seconds.
    pub utc_offset: i32,
}

/// The mathematical value of an [`Announcement`].
pub ghost struct AnnouncementView {
    pub title: Seq<char>,
    pub description: Seq<char>,
    pub author: Seq<char>,
    pub avatar_url: Seq<char>,
    pub timestamp: i64,
    pub utc_offset: i32,
}

impl View for Announcement {
    type V = AnnouncementView;

    open spec fn view(&self) -> AnnouncementView {
        AnnouncementView {
            title: self.title@,
            description: self.description@,
            author: self.author@,
            avatar_url: self.avatar_url@,
            timestamp: self.timestamp,
            utc_offset: self.utc_offset,
        }
    }
}

/// Why an email could not be read as an announcement.
#[derive(PartialEq, Eq, Structural, Clone, Copy, Debug)]
pub enum ExtractError {
    /// The email or its body could not be parsed.
    Unparseable,
    /// The email has no `Date` header.
    MissingDate,
    /// The `Date` header does not give a representable instant.
    InvalidDate,
    MissingTitle,
    MissingAvatar,
    MissingAuthor,
    MissingDescription,
}

pub open spec fn opt_view(o: Option<String>) -> Option<Seq<char>> {
    match o {
        Some(s) => Some(s@),
        None => None,
    }
}

pub open spec fn result_view(r: Result<Announcement, ExtractError>) -> Result<
    AnnouncementView,
    ExtractError,
> {
    match r {
        Ok(a) => Ok(a@),
        Err(e) => Err(e),
    }
}

/// The decoded body of the email `raw`, if it parses.
pub uninterp spec fn mail_body_of(raw: Seq<u8>) -> Option<Seq<char>>;

/// The first `Date` header of the email `raw`, if it parses and has one.
pub uninterp spec fn mail_date_header_of(raw: Seq<u8>) -> Option<Seq<char>>;

/// The instant, in seconds since the Unix epoch, that a date header gives.
pub uninterp spec fn date_of(header: Seq<char>) -> Option<i64>;

/// The offset of Asia/Manila from UTC at an instant, in seconds.
pub uninterp spec fn manila_offset_of(timestamp: i64) -> Option<i32>;

/// The first text node of the first element of `html` that `selector` picks.
pub uninterp spec fn first_text_of(html: Seq<char>, selector: Seq<char>) -> Option<Seq<char>>;

/// The attribute `name` of the first element of `html` that `selector` picks.
pub uninterp spec fn first_attr_of(html: Seq<char>, selector: Seq<char>, name: Seq<char>) -> Option<
    Seq<char>,
>;

/// The inner HTML of the first element of `html` that `selector` picks.
pub uninterp spec fn first_inner_html_of(html: Seq<char>, selector: Seq<char>) -> Option<
    Seq<char>,
>;

/// The Markdown conversion of an HTML fragment.
pub uninterp spec fn markdown_of(html: Seq<char>) -> Seq<char>;

/// Relies on mailparse::parse_mail and ParsedMail::get_body: the body of the
/// message, decoded from its transfer encoding and charset.
#[verifier::external_body]
fn mail_body(raw: &[u8]) -> (r: Option<String>)
    ensures
        opt_view(r) == mail_body_of(raw@),
{
    mailparse::parse_mail(raw).ok()?.get_body().ok()
}

/// Relies on mailparse::parse_mail and MailHeaderMap::get_first_value: the
/// value of the first `Date` header.
#[verifier::external_body]
fn mail_date_header(raw: &[u8]) -> (r: Option<String>)
    ensures
        opt_view(r) == mail_date_header_of(raw@),
{
    mailparse::parse_mail(raw).ok()?.headers.get_first_value("Date")
}

/// Relies on mailparse::dateparse: an RFC 2822 date as seconds since the epoch.
#[verifier::external_body]
fn parse_date(header: &str) -> (r: Option<i64>)
    ensures
        r == date_of(header@),
{
    mailparse::dateparse(header).ok()
}

/// Relies on chrono_tz's Asia/Manila and TimeZone::timestamp_opt: the zone's
/// offset at an instant, when chrono can represent the instant.
#[verifier::external_body]
fn manila_offset(timestamp: i64) -> (r: Option<i32>)
    ensures
        r == manila_offset_of(timestamp),
{
    let time = chrono_tz::Asia::Manila.timestamp_opt(timestamp, 0).single()?;
    Some(time.offset().fix().local_minus_utc())
}

/// Relies on scraper's Html::parse_document, Selector::parse, Html::select and
/// ElementRef::text: the first text node of the first match.
#[verifier::external_body]
fn select_first_text(html: &str, selector: &str) -> (r: Option<String>)
    ensures
        opt_view(r) == first_text_of(html@, selector@),
{
    let document = scraper::Html::parse_document(html);
    let selector = scraper::Selector::parse(selector).ok()?;
    let element = document.select(&selector).next()?;
    let text = element.text().next()?;
    Some(text.to_owned())
}

/// Relies on scraper's Html::parse_document, Selector::parse, Html::select and
/// Element::attr: the attribute `name` of the first match.
#[verifier::external_body]
fn select_first_attr(html: &str, selector: &str, name: &str) -> (r: Option<String>)
    ensures
        opt_view(r) == first_attr_of(html@, selector@, name@),
{
    let document = scraper::Html::parse_document(html);
    let selector = scraper::Selector::parse(selector).ok()?;
    let element = document.select(&selector).next()?;
    let value = element.value().attr(name)?;
    Some(value.to_owned())
}

/// Relies on scraper's Html::parse_document, Selector::parse, Html::select and
/// ElementRef::inner_html: the markup inside the first match.
#[verifier::external_body]
fn select_first_inner_html(html: &str, selector: &str) -> (r: Option<String>)
    ensures
        opt_view(r) == first_inner_html_of(html@, selector@),
{
    let document = scraper::Html::parse_document(html);
    let selector = scraper::Selector::parse(selector).ok()?;
    let element = document.select(&selector).next()?;
    Some(element.inner_html())
}

/// Relies on mdka::html_to_markdown: HTML converted to Markdown.
#[verifier::external_body]
fn html_to_markdown(html: &str) -> (r: String)
    ensures
        r@ == markdown_of(html@),
{
    mdka::html_to_markdown(html)
}

/// The announcement made of extracted parts, or the first part that is absent
/// (title, avatar, author, description in that order). Title and author are
/// trimmed.
pub open spec fn parts_spec(
    title: Option<Seq<char>>,
    avatar_url: Option<Seq<char>>,
    author: Option<Seq<char>>,
    description: Option<Seq<char>>,
    timestamp: i64,
    utc_offset: i32,
) -> Result<AnnouncementView, ExtractError> {
    if title is None {
        Err(ExtractError::MissingTitle)
    } else if avatar_url is None {
        Err(ExtractError::MissingAvatar)
    } else if author is None {
        Err(ExtractError::MissingAuthor)
    } else if description is None {
        Err(ExtractError::MissingDescription)
    } else {
        Ok(
            AnnouncementView {
                title: trimmed(title.unwrap()),
                description: description.unwrap(),
                author: trimmed(author.unwrap()),
                avatar_url: avatar_url.unwrap(),
                timestamp,
                utc_offset,
            },
        )
    }
}

/// The description as delivered, from the description cell's inner HTML.
pub open spec fn description_of(inner_html: Option<Seq<char>>) -> Option<Seq<char>> {
    match inner_html {
        Some(h) => Some(collapsed(markdown_of(h))),
        None => None,
    }
}

/// The announcement laid out in the HTML `body`, sent at `timestamp`.
pub open spec fn fields_spec(body: Seq<char>, timestamp: i64, utc_offset: i32) -> Result<
    AnnouncementView,
    ExtractError,
> {
    parts_spec(
        first_text_of(body, TITLE_SELECTOR@),
        first_attr_of(body, AVATAR_SELECTOR@, AVATAR_ATTRIBUTE@),
        first_text_of(body, AUTHOR_SELECTOR@),
        description_of(first_inner_html_of(body, DESCRIPTION_SELECTOR@)),
        timestamp,
        utc_offset,
    )
}

/// What extracting the raw email `raw` gives.
pub open spec fn extract_spec(raw: Seq<u8>) -> Result<AnnouncementView, ExtractError> {
    match mail_body_of(raw) {
        None => Err(ExtractError::Unparseable),
        Some(body) => match mail_date_header_of(raw) {
            None => Err(ExtractError::MissingDate),
            Some(header) => match date_of(header) {
                None => Err(ExtractError::InvalidDate),
                Some(timestamp) => match manila_offset_of(timestamp) {
                    None => Err(ExtractError::InvalidDate),
                    Some(utc_offset) => fields_spec(body, timestamp, utc_offset),
                },
            },
        },
    }
}

/// The description as delivered: the cell's markup as Markdown, with links
/// whose text is a URL collapsed to the URL.
pub fn description_from_html(inner_html: &str) -> (r: String)
    ensures
        r@ == collapsed(markdown_of(inner_html@)),
{
    let markdown = html_to_markdown(inner_html);
    collapse_url_links(markdown.as_str())
}

/// Assembles an announcement from its extracted parts; fails on the first
/// absent part. Title and author lose their surrounding white space.
pub fn announcement_from_parts(
    title: Option<String>,
    avatar_url: Option<String>,
    author: Option<String>,
    description: Option<String>,
    timestamp: i64,
    utc_offset: i32,
) -> (r: Result<Announcement, ExtractError>)
    ensures
        result_view(r) == parts_spec(
            opt_view(title),
            opt_view(avatar_url),
            opt_view(author),
            opt_view(description),
            timestamp,
            utc_offset,
        ),
{
    let title = match title {
        Some(t) => trim(t.as_str()),
        None => return Err(ExtractError::MissingTitle),
    };
    let avatar_url = match avatar_url {
        Some(a) => a,
        None => return Err(ExtractError::MissingAvatar),
    };
    let author = match author {
        Some(a) => trim(a.as_str()),
        None => return Err(ExtractError::MissingAuthor),
    };
    let description = match description {
        Some(d) => d,
        None => return Err(ExtractError::MissingDescription),
    };
    Ok(Announcement { title, description, author, avatar_url, timestamp, utc_offset })
}

/// Reads the announcement in the HTML `body` of an email sent at `timestamp`.
pub fn extract_fields(body: &str, timestamp: i64, utc_offset: i32) -> (r: Result<
    Announcement,
    ExtractError,
>)
    ensures
        result_view(r) == fields_spec(body@, timestamp, utc_offset),
{
    let title = select_first_text(body, TITLE_SELECTOR);
    let avatar_url = select_first_attr(body, AVATAR_SELECTOR, AVATAR_ATTRIBUTE);
    let author = select_first_text(body, AUTHOR_SELECTOR);
    let description = match select_first_inner_html(body, DESCRIPTION_SELECTOR) {
        Some(inner) => Some(description_from_html(inner.as_str())),
        None => None,
    };
    announcement_from_parts(title, avatar_url, author, description, timestamp, utc_offset)
}

/// Reads the announcement carried by the raw email `raw`.
pub fn extract(raw: &[u8]) -> (r: Result<Announcement, ExtractError>)
    ensures
        result_view(r) == extract_spec(raw@),
{
    let body = match mail_body(raw) {
        Some(b) => b,
        None => return Err(ExtractError::Unparseable),
    };
    let header = match mail_date_header(raw) {
        Some(h) => h,
        None => return Err(ExtractError::MissingDate),
    };
    let timestamp = match parse_date(header.as_str()) {
        Some(t) => t,
        None => return Err(ExtractError::InvalidDate),
    };
    let utc_offset = match manila_offset(timestamp) {
        Some(o) => o,
        None => return Err(ExtractError::InvalidDate),
    };
    extract_fields(body.as_str(), timestamp, utc_offset)
}

} // verus!
