//! From a parsed feed to the events it gives.
//!
//! The program that fetches a feed also parses it, and hands over what it
//! keeps of each entry: the title, the links and the two dates. The first few
//! entries become events, in the order of the document; a document that could
//! not be parsed becomes one error.

use vstd::prelude::*;
use crate::event::{Event, EventView, event_views, join4};

verus! {

/// What the reader keeps of one entry of a feed. The dates count seconds
/// since the start of 1970 in UTC.
#[derive(Clone, Debug, PartialEq, Eq)]
pub struct ParsedEntry {
    pub title: Option<String>,
    pub links: Vec<String>,
    pub published: Option<i64>,
    pub updated: Option<i64>,
}

/// An entry with its texts as sequences of characters.
pub struct EntryView {
    pub title: Option<Seq<char>>,
    pub links: Seq<Seq<char>>,
    pub published: Option<i64>,
    pub updated: Option<i64>,
}

impl View for ParsedEntry {
    type V = EntryView;

    open spec fn view(&self) -> EntryView {
        EntryView {
            title: match self.title {
                Some(t) => Some(t@),
                None => None,
            },
            links: self.links@.map_values(|l: String| l@),
            published: self.published,
            updated: self.updated,
        }
    }
}

/// The views of a sequence of entries, one for one.
pub open spec fn entry_views(entries: Seq<ParsedEntry>) -> Seq<EntryView> {
    entries.map_values(|e: ParsedEntry| e@)
}

/// A parsed document, or the reason why it could not be parsed, as
/// sequences of characters.
pub open spec fn document_view(document: Result<Vec<ParsedEntry>, String>) -> Result<
    Seq<EntryView>,
    Seq<char>,
> {
    match document {
        Ok(entries) => Ok(entry_views(entries@)),
        Err(reason) => Err(reason@),
    }
}

/// How many entries of one feed are reported per check.
pub const MAX_FEED_ITEMS: usize = 5;

/// The title given to an entry that has none.
pub open spec fn missing_title() -> Seq<char> {
    "No Title"@
}

/// The event for one entry: its title or the stand-in for a missing one, its
/// first link or the empty text, and the date it was published or, failing
/// that, last updated.
pub open spec fn entry_item(source_name: Seq<char>, entry: EntryView) -> EventView {
    EventView::NewItem {
        source_name,
        title: match entry.title {
            Some(t) => t,
            None => missing_title(),
        },
        link: if entry.links.len() > 0 {
            entry.links[0]
        } else {
            Seq::empty()
        },
        published_at: match entry.published {
            Some(p) => Some(p),
            None => entry.updated,
        },
    }
}

/// The events for the first `MAX_FEED_ITEMS` entries, in their order.
pub open spec fn entry_items(source_name: Seq<char>, entries: Seq<EntryView>) -> Seq<EventView> {
    Seq::new(
        if entries.len() <= MAX_FEED_ITEMS {
            entries.len()
        } else {
            MAX_FEED_ITEMS as nat
        },
        |i: int| entry_item(source_name, entries[i]),
    )
}

/// The text that reports a document that could not be parsed.
pub open spec fn parse_failure_text(source_name: Seq<char>, reason: Seq<char>) -> Seq<char> {
    "[ERROR] parsing feed for "@ + source_name + ": "@ + reason
}

/// The events that a document gives: its first entries, or one error.
pub open spec fn document_items(
    source_name: Seq<char>,
    document: Result<Seq<EntryView>, Seq<char>>,
) -> Seq<EventView> {
    match document {
        Ok(entries) => entry_items(source_name, entries),
        Err(reason) => seq![
            EventView::Error { message: parse_failure_text(source_name, reason) },
        ],
    }
}

/// Builds the event for one entry of the feed `source_name`.
pub fn entry_event(source_name: &str, entry: &ParsedEntry) -> (event: Event)
    ensures
        event@ == entry_item(source_name@, entry@),
{
    let title = match &entry.title {
        Some(t) => t.clone(),
        None => "No Title".to_owned(),
    };
    let link = if entry.links.len() > 0 {
        entry.links[0].clone()
    } else {
        String::new()
    };
    let published_at = match entry.published {
        Some(p) => Some(p),
        None => entry.updated,
    };
    Event::NewItem { source_name: source_name.to_owned(), title, link, published_at }
}

/// Builds the events for the first `MAX_FEED_ITEMS` entries, in the order
/// of the document.
pub fn entry_events(source_name: &str, entries: &Vec<ParsedEntry>) -> (events: Vec<Event>)
    ensures
        event_views(events@) == entry_items(source_name@, entry_views(entries@)),
        events@.len() <= MAX_FEED_ITEMS,
{
    let count: usize = if entries.len() <= MAX_FEED_ITEMS {
        entries.len()
    } else {
        MAX_FEED_ITEMS
    };
    let mut events: Vec<Event> = Vec::new();
    let mut i: usize = 0;
    while i < count
        invariant
            i <= count <= entries.len(),
            events@.len() == i,
            forall|k: int|
                0 <= k < i ==> (#[trigger] events@[k])@ == entry_item(
                    source_name@,
                    entry_views(entries@)[k],
                ),
        decreases count - i,
    {
        events.push(entry_event(source_name, &entries[i]));
        i = i + 1;
    }
    assert(event_views(events@) =~= entry_items(source_name@, entry_views(entries@)));
    events
}

/// Builds the events for a parsed document, or the one error event for a
/// document that could not be parsed.
pub fn document_events(source_name: &str, document: &Result<Vec<ParsedEntry>, String>) -> (events:
    Vec<Event>)
    ensures
        event_views(events@) == document_items(source_name@, document_view(*document)),
{
    match document {
        Ok(entries) => entry_events(source_name, entries),
        Err(reason) => {
            let message = join4("[ERROR] parsing feed for ", source_name, ": ", reason.as_str());
            let mut events: Vec<Event> = Vec::new();
            events.push(Event::Error { message });
            assert(event_views(events@) =~= document_items(
                source_name@,
                document_view(*document),
            ));
            events
        },
    }
}

} // verus!
