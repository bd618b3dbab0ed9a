//! The decisions of the watch loop, as a state machine. The caller performs
//! each returned action on the mail session or the webhook and reports what
//! happened as the next event.
use crate::announcement::{extract, extract_spec, Announcement, AnnouncementView, ExtractError};
use crate::changes::{arrived, new_uids};
use crate::ordering::{by_time, order, views};
use crate::text::{decimal_views, join_decimal, joined};
use vstd::prelude::*;

verus! {

/// How long one wait for a change signal may last, in seconds. The mail
/// server drops idle connections after about ten minutes, well before the
/// protocol's thirty, so the wait is re-armed every nine.
pub const IDLE_TIMEOUT_SECS: u64 = 9 * 60;

/// Where the loop stands.
#[derive(PartialEq, Eq, Structural, Clone, Copy, Debug)]
pub enum Phase {
    /// A connection is being opened.
    Connecting,
    /// The first search of a fresh session is running.
    Baseline,
    /// Waiting for the server to signal a change, or for the timeout.
    Idle,
    /// The search after a change signal is running.
    Rescan,
    /// The new messages are being fetched.
    Fetch,
    /// The announcements are being delivered.
    Deliver,
}

/// What the session or the webhook reported.
pub enum Event {
    /// The session is open and the inbox selected.
    Connected,
    /// A search finished with these identifiers.
    Searched(Vec<u32>),
    /// The wait ended without a change signal.
    TimedOut,
    /// The server signalled a change.
    NewData,
    /// The connection dropped.
    ConnectionLost,
    /// The fetched messages, each with its raw content if it has one.
    Fetched(Vec<Option<Vec<u8>>>),
    /// Every announcement of the last batch was delivered.
    Delivered,
}

/// Why the loop stops.
#[derive(PartialEq, Eq, Structural, Clone, Copy, Debug)]
pub enum WatchError {
    /// An event that cannot happen in the current phase.
    UnexpectedEvent,
    /// A fetched message is not a well-formed announcement.
    Malformed(ExtractError),
}

/// What the caller is to do next.
pub enum Action {
    /// Open a session and select the inbox.
    Connect,
    /// Run the search for announcement mail.
    Search,
    /// Wait for a change signal for at most this many seconds.
    AwaitChange(u64),
    /// Fetch the raw messages with these identifiers.
    Fetch(Vec<u32>),
    /// Deliver these announcements, one at a time and in this order.
    Deliver(Vec<Announcement>),
    /// Stop with this error.
    Halt(WatchError),
}

/// The state of the loop: its phase, and the identifiers of the last search.
pub struct Watcher {
    pub phase: Phase,
    pub known: Vec<u32>,
}

pub open spec fn raw_views(raws: Seq<Option<Vec<u8>>>) -> Seq<Option<Seq<u8>>> {
    raws.map_values(
        |o: Option<Vec<u8>>|
            match o {
                Some(v) => Some(v@),
                None => None,
            },
    )
}

/// The announcements of a fetched batch in fetch order, skipping messages
/// without content, or the error of the first message that fails.
pub open spec fn batch_spec(raws: Seq<Option<Seq<u8>>>) -> Result<Seq<AnnouncementView>, ExtractError>
    decreases raws.len(),
{
    if raws.len() == 0 {
        Ok(Seq::empty())
    } else {
        match batch_spec(raws.drop_last()) {
            Err(e) => Err(e),
            Ok(done) => match raws.last() {
                None => Ok(done),
                Some(raw) => match extract_spec(raw) {
                    Err(e) => Err(e),
                    Ok(a) => Ok(done.push(a)),
                },
            },
        }
    }
}

/// Extracts every fetched message that has content, in fetch order; the first
/// failure ends the batch.
pub fn extract_batch(raws: &Vec<Option<Vec<u8>>>) -> (r: Result<Vec<Announcement>, ExtractError>)
    ensures
        match (r, batch_spec(raw_views(raws@))) {
            (Ok(v), Ok(s)) => views(v@) == s,
            (Err(e), Err(f)) => e == f,
            _ => false,
        },
{
    let mut out: Vec<Announcement> = Vec::new();
    let mut i: usize = 0;
    assert(views(out@) =~= Seq::<AnnouncementView>::empty());
    while i < raws.len()
        invariant
            i <= raws@.len(),
            batch_spec(raw_views(raws@).take(i as int)) == Ok::<Seq<AnnouncementView>, ExtractError>(views(out@)),
        decreases raws@.len() - i,
    {
        let ghost prefix = raw_views(raws@).take(i as int + 1);
        proof {
            assert(prefix.drop_last() =~= raw_views(raws@).take(i as int));
            assert(prefix.last() == raw_views(raws@)[i as int]);
        }
        match &raws[i] {
            Some(raw) => match extract(raw.as_slice()) {
                Ok(a) => {
                    let ghost before = out@;
                    out.push(a);
                    assert(views(out@) =~= views(before).push(a@));
                },
                Err(e) => {
                    proof {
                        lemma_batch_error_persists(raw_views(raws@), i as int + 1, e);
                    }
                    return Err(e);
                },
            },
            None => {},
        }
        i = i + 1;
    }
    assert(raw_views(raws@).take(raws@.len() as int) =~= raw_views(raws@));
    Ok(out)
}

/// Once a prefix of a batch fails, the whole batch fails with that error.
proof fn lemma_batch_error_persists(raws: Seq<Option<Seq<u8>>>, n: int, e: ExtractError)
    requires
        0 <= n <= raws.len(),
        batch_spec(raws.take(n)) == Err::<Seq<AnnouncementView>, ExtractError>(e),
    ensures
        batch_spec(raws) == Err::<Seq<AnnouncementView>, ExtractError>(e),
    decreases raws.len() - n,
{
    if n == raws.len() {
        assert(raws.take(n) =~= raws);
    } else {
        assert(raws.take(n + 1).drop_last() =~= raws.take(n));
        lemma_batch_error_persists(raws, n + 1, e);
    }
}

/// The identifiers in the form of a fetch command's set: decimal, separated by
/// commas.
pub fn fetch_set(uids: &Vec<u32>) -> (r: String)
    ensures
        r@ == joined(decimal_views(uids@), seq![',']),
{
    proof {
        reveal_strlit(",");
        assert(","@ =~= seq![',']);
    }
    join_decimal(uids, ",")
}

impl Watcher {
    /// A loop that has yet to connect and knows no identifiers.
    pub fn new() -> (w: Watcher)
        ensures
            w.phase == Phase::Connecting,
            w.known@.len() == 0,
    {
        Watcher { phase: Phase::Connecting, known: Vec::new() }
    }

    /// Takes the next event and returns the next action. A lost connection
    /// leads back to connecting from any phase; a fresh session always starts
    /// with a full search; a timeout only re-arms the wait; a change signal
    /// leads to a search, and only identifiers absent from the previous search
    /// are fetched; fetched announcements are delivered in chronological order.
    pub fn step(&mut self, event: Event) -> (action: Action)
        ensures
            event is ConnectionLost ==> (final(self).phase == Phase::Connecting
                && final(self).known@ == old(self).known@ && action is Connect),
            old(self).phase == Phase::Connecting && event is Connected ==> (final(self).phase
                == Phase::Baseline && final(self).known@ == old(self).known@ && action is Search),
            old(self).phase == Phase::Baseline ==> (event matches Event::Searched(ids) ==> (
                final(self).phase == Phase::Idle && final(self).known@ == ids@
                && action == Action::AwaitChange(IDLE_TIMEOUT_SECS))),
            old(self).phase == Phase::Idle && event is TimedOut ==> (final(self).phase
                == Phase::Idle && final(self).known@ == old(self).known@
                && action == Action::AwaitChange(IDLE_TIMEOUT_SECS)),
            old(self).phase == Phase::Idle && event is NewData ==> (final(self).phase
                == Phase::Rescan && final(self).known@ == old(self).known@ && action is Search),
            old(self).phase == Phase::Rescan ==> (event matches Event::Searched(ids) ==> (
                final(self).known@ == ids@
                && if arrived(old(self).known@, ids@).len() == 0 {
                    final(self).phase == Phase::Idle
                        && action == Action::AwaitChange(IDLE_TIMEOUT_SECS)
                } else {
                    final(self).phase == Phase::Fetch && (action matches Action::Fetch(u)
                        && u@ == arrived(old(self).known@, ids@))
                })),
            old(self).phase == Phase::Fetch ==> (event matches Event::Fetched(raws) ==> (
                final(self).known@ == old(self).known@
                && match batch_spec(raw_views(raws@)) {
                    Ok(found) => final(self).phase == Phase::Deliver && (
                    action matches Action::Deliver(v) && views(v@) == by_time(found)),
                    Err(e) => final(self).phase == Phase::Fetch && action == Action::Halt(
                        WatchError::Malformed(e),
                    ),
                })),
            old(self).phase == Phase::Deliver && event is Delivered ==> (final(self).phase
                == Phase::Idle && final(self).known@ == old(self).known@
                && action == Action::AwaitChange(IDLE_TIMEOUT_SECS)),
            !expected(old(self).phase, event) ==> (final(self).phase == old(self).phase
                && final(self).known@ == old(self).known@
                && action == Action::Halt(WatchError::UnexpectedEvent)),
    {
        match event {
            Event::ConnectionLost => {
                self.phase = Phase::Connecting;
                Action::Connect
            },
            Event::Connected => {
                if self.phase == Phase::Connecting {
                    self.phase = Phase::Baseline;
                    Action::Search
                } else {
                    Action::Halt(WatchError::UnexpectedEvent)
                }
            },
            Event::Searched(ids) => {
                if self.phase == Phase::Baseline {
                    self.known = ids;
                    self.phase = Phase::Idle;
                    Action::AwaitChange(IDLE_TIMEOUT_SECS)
                } else if self.phase == Phase::Rescan {
                    let fresh = new_uids(&self.known, &ids);
                    self.known = ids;
                    if fresh.len() == 0 {
                        self.phase = Phase::Idle;
                        Action::AwaitChange(IDLE_TIMEOUT_SECS)
                    } else {
                        self.phase = Phase::Fetch;
                        Action::Fetch(fresh)
                    }
                } else {
                    Action::Halt(WatchError::UnexpectedEvent)
                }
            },
            Event::TimedOut => {
                if self.phase == Phase::Idle {
                    Action::AwaitChange(IDLE_TIMEOUT_SECS)
                } else {
                    Action::Halt(WatchError::UnexpectedEvent)
                }
            },
            Event::NewData => {
                if self.phase == Phase::Idle {
                    self.phase = Phase::Rescan;
                    Action::Search
                } else {
                    Action::Halt(WatchError::UnexpectedEvent)
                }
            },
            Event::Fetched(raws) => {
                if self.phase == Phase::Fetch {
                    match extract_batch(&raws) {
                        Ok(found) => {
                            self.phase = Phase::Deliver;
                            Action::Deliver(order(found))
                        },
                        Err(e) => Action::Halt(WatchError::Malformed(e)),
                    }
                } else {
                    Action::Halt(WatchError::UnexpectedEvent)
                }
            },
            Event::Delivered => {
                if self.phase == Phase::Deliver {
                    self.phase = Phase::Idle;
                    Action::AwaitChange(IDLE_TIMEOUT_SECS)
                } else {
                    Action::Halt(WatchError::UnexpectedEvent)
                }
            },
        }
    }
}

/// Whether `event` can happen in `phase`.
pub open spec fn expected(phase: Phase, event: Event) -> bool {
    match event {
        Event::ConnectionLost => true,
        Event::Connected => phase == Phase::Connecting,
        Event::Searched(_) => phase == Phase::Baseline || phase == Phase::Rescan,
        Event::TimedOut | Event::NewData => phase == Phase::Idle,
        Event::Fetched(_) => phase == Phase::Fetch,
        Event::Delivered => phase == Phase::Deliver,
    }
}

} // verus!
