//! The server-side search that selects the announcement emails.
use crate::text::{join_strings, joined, string_views};
use vstd::prelude::*;

verus! {

/// Opening of the search command: the sender, then the excluded subjects.
pub const QUERY_HEAD: &'static str = "X-GM-RAW \"from:iACADEMY-NEO <messages@neolms.com> -subject:(";

/// Closing of the search command.
pub const QUERY_TAIL: &'static str = ")\"";

/// Separates the excluded subjects.
pub const QUERY_OR: &'static str = " OR ";

/// Stands on each side of an excluded subject.
pub const QUERY_QUOTE: &'static str = "\\\"";

/// The subject fragments of notifications that are not announcements.
pub open spec fn ignored_subjects_spec() -> Seq<Seq<char>> {
    seq![
        "Graded: "@,
        "Due soon: "@,
        "Comment posted in "@,
        "You were awarded "@,
        "Lesson "@,
        " accepted your friendship invitation"@,
        "You are now enrolled in class "@,
        "You have been added to the group "@,
        "Your photo was accepted"@,
        "You have been transferred to class "@,
        "You were unenrolled from class "@,
        "Status of "@,
    ]
}

/// The subject fragments of notifications that are not announcements.
pub fn ignored_subjects() -> (r: Vec<String>)
    ensures
        string_views(r@) == ignored_subjects_spec(),
{
    let r = vec![
        String::from_str("Graded: "),
        String::from_str("Due soon: "),
        String::from_str("Comment posted in "),
        String::from_str("You were awarded "),
        String::from_str("Lesson "),
        String::from_str(" accepted your friendship invitation"),
        String::from_str("You are now enrolled in class "),
        String::from_str("You have been added to the group "),
        String::from_str("Your photo was accepted"),
        String::from_str("You have been transferred to class "),
        String::from_str("You were unenrolled from class "),
        String::from_str("Status of "),
    ];
    assert(string_views(r@) =~= ignored_subjects_spec());
    r
}

/// A subject fragment as a quoted literal of the search language.
pub open spec fn quoted(fragment: Seq<char>) -> Seq<char> {
    QUERY_QUOTE@ + fragment + QUERY_QUOTE@
}

/// The search for mail from the announcement sender whose subject contains
/// none of `ignored`.
pub open spec fn query_spec(ignored: Seq<Seq<char>>) -> Seq<char> {
    QUERY_HEAD@ + joined(ignored.map_values(|f: Seq<char>| quoted(f)), QUERY_OR@) + QUERY_TAIL@
}

/// Builds the search for mail from the announcement sender whose subject
/// contains none of `ignored`.
pub fn search_query(ignored: &Vec<String>) -> (r: String)
    ensures
        r@ == query_spec(string_views(ignored@)),
{
    let mut parts: Vec<String> = Vec::new();
    let mut i: usize = 0;
    while i < ignored.len()
        invariant
            i <= ignored@.len(),
            parts@.len() == i,
            string_views(parts@) =~= string_views(ignored@.take(i as int)).map_values(
                |f: Seq<char>| quoted(f),
            ),
        decreases ignored@.len() - i,
    {
        let mut q = String::from_str(QUERY_QUOTE);
        q.append(ignored[i].as_str());
        q.append(QUERY_QUOTE);
        let ghost before = parts@;
        parts.push(q);
        proof {
            let next = ignored@.take(i as int + 1);
            assert(next =~= ignored@.take(i as int).push(ignored@[i as int]));
            assert(q@ == quoted(ignored@[i as int]@));
            assert forall|k: int| 0 <= k < parts@.len() implies #[trigger] string_views(parts@)[k]
                == string_views(next).map_values(|f: Seq<char>| quoted(f))[k] by {
                if k < i {
                    assert(parts@[k] == before[k]);
                    assert(next[k] == ignored@.take(i as int)[k]);
                    assert(string_views(before)[k] == string_views(ignored@.take(i as int)).map_values(
                        |f: Seq<char>| quoted(f),
                    )[k]);
                } else {
                    assert(next[k] == ignored@[i as int]);
                    assert(parts@[k] == q);
                }
            }
        }
        i = i + 1;
    }
    assert(ignored@.take(ignored@.len() as int) =~= ignored@);
    let body = join_strings(parts, String::from_str(QUERY_OR));
    let mut r = String::from_str(QUERY_HEAD);
    r.append(body.as_str());
    r.append(QUERY_TAIL);
    r
}

} // verus!
