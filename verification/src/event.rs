//! Sources to watch and the events that checking them produces.

use vstd::prelude::*;

verus! {

/// The two ways a source is checked.
#[derive(Clone, Copy, Debug, PartialEq, Eq)]
pub enum SourceKind {
    /// A syndication feed, read entry by entry.
    Feed,
    /// A web page, watched for any change of its content.
    ManualPage,
}

/// A configured source. It is loaded once and never changed.
#[derive(Clone, Debug, PartialEq, Eq)]
pub struct Source {
    pub name: String,
    pub url: String,
    pub kind: SourceKind,
}

/// What a check of a source, or an attempt to open a link, reports.
#[derive(Clone, Debug, PartialEq, Eq)]
pub enum Event {
    /// An entry of a feed. `published_at` counts seconds since the start of
    /// 1970 in UTC.
    NewItem { source_name: String, title: String, link: String, published_at: Option<i64> },
    /// A watched page whose content differs from what was last seen.
    ManualChange { message: String, link: String },
    /// A failure, shown in the list of updates.
    Error { message: String },
    /// A notice, shown apart from the list of updates.
    Info { message: String },
}

/// An event with its texts as sequences of characters.
pub enum EventView {
    NewItem {
        source_name: Seq<char>,
        title: Seq<char>,
        link: Seq<char>,
        published_at: Option<i64>,
    },
    ManualChange { message: Seq<char>, link: Seq<char> },
    Error { message: Seq<char> },
    Info { message: Seq<char> },
}

impl View for Event {
    type V = EventView;

    open spec fn view(&self) -> EventView {
        match *self {
            Event::NewItem { source_name, title, link, published_at } => EventView::NewItem {
                source_name: source_name@,
                title: title@,
                link: link@,
                published_at,
            },
            Event::ManualChange { message, link } => EventView::ManualChange {
                message: message@,
                link: link@,
            },
            Event::Error { message } => EventView::Error { message: message@ },
            Event::Info { message } => EventView::Info { message: message@ },
        }
    }
}

/// The views of a sequence of events, one for one.
pub open spec fn event_views(events: Seq<Event>) -> Seq<EventView> {
    events.map_values(|e: Event| e@)
}

/// The stage at which fetching a source failed.
#[derive(Clone, Copy, Debug, PartialEq, Eq)]
pub enum FetchStage {
    /// The request itself failed.
    Request,
    /// The response arrived but its body could not be read.
    Body,
}

/// The text that reports a failed fetch of the source `name`.
pub open spec fn fetch_failure_text(
    kind: SourceKind,
    stage: FetchStage,
    name: Seq<char>,
    reason: Seq<char>,
) -> Seq<char> {
    match (kind, stage) {
        (SourceKind::Feed, FetchStage::Request) => "[ERROR] fetching "@ + name + ": "@ + reason,
        (SourceKind::Feed, FetchStage::Body) => "[ERROR] reading bytes for "@ + name + ": "@
            + reason,
        (SourceKind::ManualPage, FetchStage::Request) => "Error fetching "@ + name + ": "@
            + reason,
        (SourceKind::ManualPage, FetchStage::Body) => "[ERROR] reading content for "@ + name
            + ": "@ + reason,
    }
}

/// Joins a label, a name, a separator and a reason into one string.
pub(crate) fn join4(label: &str, name: &str, separator: &str, reason: &str) -> (r: String)
    ensures
        r@ == label@ + name@ + separator@ + reason@,
{
    let mut out = label.to_owned();
    out.append(name);
    out.append(separator);
    out.append(reason);
    out
}

/// Joins a label and a text into one string.
pub(crate) fn join2(label: &str, text: &str) -> (r: String)
    ensures
        r@ == label@ + text@,
{
    let mut out = label.to_owned();
    out.append(text);
    out
}

/// The error event for a source that could not be fetched. No retry follows:
/// the failure is reported and the check of that source ends.
pub fn fetch_failed(kind: SourceKind, stage: FetchStage, name: &str, reason: &str) -> (event: Event)
    ensures
        event@ == (EventView::Error { message: fetch_failure_text(kind, stage, name@, reason@) }),
{
    let message = match kind {
        SourceKind::Feed => match stage {
            FetchStage::Request => join4("[ERROR] fetching ", name, ": ", reason),
            FetchStage::Body => join4("[ERROR] reading bytes for ", name, ": ", reason),
        },
        SourceKind::ManualPage => match stage {
            FetchStage::Request => join4("Error fetching ", name, ": ", reason),
            FetchStage::Body => join4("[ERROR] reading content for ", name, ": ", reason),
        },
    };
    Event::Error { message }
}

/// The text that reports a missing configuration file.
pub open spec fn config_missing_text() -> Seq<char> {
    "config.toml not found."@
}

/// The error event for a configuration file that could not be read. The
/// reader then runs without sources.
pub fn config_missing() -> (event: Event)
    ensures
        event@ == (EventView::Error { message: config_missing_text() }),
{
    Event::Error { message: "config.toml not found.".to_owned() }
}

/// The event that reports the outcome of opening `link` in the system's
/// default handler: a notice on success, an error with the `failure` text
/// otherwise.
pub fn link_opened(link: &str, failure: Option<&str>) -> (event: Event)
    ensures
        event@ == match failure {
            None => (EventView::Info { message: "Opened "@ + link@ }),
            Some(reason) => (EventView::Error { message: "Failed to open link: "@ + reason@ }),
        },
{
    match failure {
        None => Event::Info { message: join2("Opened ", link) },
        Some(reason) => Event::Error { message: join2("Failed to open link: ", reason) },
    }
}

/// Room that the queue of events keeps beyond the largest burst of checks,
/// for the notices and errors that are under way at the same time.
pub const CAPACITY_HEADROOM: usize = 100;

/// The most events that one round of checks puts into the queue at once:
/// up to `per_feed` items from every feed and one event from every page.
pub open spec fn worst_case_burst(per_feed: nat, feed_count: nat, manual_count: nat) -> nat {
    per_feed * feed_count + manual_count
}

/// The capacity to give the queue of events so that a full round of checks
/// fits into it with `CAPACITY_HEADROOM` to spare. A capacity that no
/// `usize` can hold is cut to the largest `usize`.
pub fn channel_capacity(feed_count: usize, manual_count: usize) -> (capacity: usize)
    ensures
        capacity == if worst_case_burst(
            crate::feed::MAX_FEED_ITEMS as nat,
            feed_count as nat,
            manual_count as nat,
        ) + CAPACITY_HEADROOM <= usize::MAX {
            worst_case_burst(
                crate::feed::MAX_FEED_ITEMS as nat,
                feed_count as nat,
                manual_count as nat,
            ) + CAPACITY_HEADROOM
        } else {
            usize::MAX as int
        },
{
    match crate::feed::MAX_FEED_ITEMS.checked_mul(feed_count) {
        Some(items) => match items.checked_add(manual_count) {
            Some(burst) => match burst.checked_add(CAPACITY_HEADROOM) {
                Some(capacity) => capacity,
                None => usize::MAX,
            },
            None => usize::MAX,
        },
        None => usize::MAX,
    }
}

} // verus!
