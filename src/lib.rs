//! Bridges a mailbox of course announcements to a chat webhook: the search
//! query, the change detection between searches, the extraction of an
//! announcement from a raw email, its delivery order and payload, and the
//! decisions of the long-running watch loop.

pub mod text;
pub mod changes;
pub mod links;
pub mod announcement;
pub mod ordering;
pub mod query;
pub mod notify;
pub mod watch;
