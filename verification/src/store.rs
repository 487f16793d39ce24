//! The list of updates and how events are folded into it.
//!
//! Records keep the order in which they arrived. A record that carries a link
//! is known by that link: an event whose link is already in the list adds
//! nothing. The empty text counts as a link like any other. Notices are kept
//! apart, in a short list of the most recent ones.

use vstd::prelude::*;
use crate::event::{Event, EventView, join2};
use crate::text::{pad_right, padded};

verus! {

/// One line of the list of updates.
#[derive(Clone, Debug, PartialEq, Eq)]
pub struct UpdateRecord {
    pub display_text: String,
    pub link: Option<String>,
    pub formatted_date: Option<String>,
    /// Set for records that arrived since the last refresh began.
    pub is_new: bool,
}

/// A record with its texts as sequences of characters.
pub struct RecordView {
    pub display_text: Seq<char>,
    pub link: Option<Seq<char>>,
    pub formatted_date: Option<Seq<char>>,
    pub is_new: bool,
}

/// The characters of an optional string.
pub open spec fn option_text(text: Option<String>) -> Option<Seq<char>> {
    match text {
        Some(t) => Some(t@),
        None => None,
    }
}

impl View for UpdateRecord {
    type V = RecordView;

    open spec fn view(&self) -> RecordView {
        RecordView {
            display_text: self.display_text@,
            link: option_text(self.link),
            formatted_date: option_text(self.formatted_date),
            is_new: self.is_new,
        }
    }
}

/// The views of a sequence of records, one for one.
pub open spec fn record_views(records: Seq<UpdateRecord>) -> Seq<RecordView> {
    records.map_values(|r: UpdateRecord| r@)
}

/// The texts of a sequence of strings, one for one.
pub open spec fn texts(lines: Seq<String>) -> Seq<Seq<char>> {
    lines.map_values(|s: String| s@)
}

/// How many notices are kept.
pub const MAX_NOTICES: usize = 5;

/// Width of the source name in a line that carries a date.
pub const NAME_WIDTH_WITH_DATE: usize = 20;

/// Width of the source name in a line without a date. It is wider by the
/// characters of a date and the three of a separator, so that titles line
/// up.
pub const NAME_WIDTH_WITHOUT_DATE: usize = 32;

/// How many characters a date takes: two for the day, three for the month,
/// two for the year, and a space between them.
pub const DATE_WIDTH: usize = 9;

/// The date of a moment given in seconds since the start of 1970 in UTC, as
/// chrono writes it with the format `%e %b %y` (day, short month name, last
/// two digits of the year), or `None` where chrono has no date for it.
pub uninterp spec fn date_text(seconds: i64) -> Option<Seq<char>>;

/// Wraps `chrono::DateTime::from_timestamp` followed by `format("%e %b %y")`.
/// The result, named `date_text`, depends on the seconds alone: the date is
/// taken in UTC and the month names are the built-in English ones. The day
/// is padded to two characters, the month name has three letters and the
/// year is cut to two digits, so that every date is `DATE_WIDTH` characters
/// long.
#[verifier::external_body]
pub(crate) fn format_date(seconds: i64) -> (r: Option<String>)
    ensures
        option_text(r) == date_text(seconds),
        r matches Some(text) ==> text@.len() == DATE_WIDTH,
{
    chrono::DateTime::from_timestamp(seconds, 0).map(|d| d.format("%e %b %y").to_string())
}

/// The date shown for an item published at `published_at`.
pub open spec fn shown_date(published_at: Option<i64>) -> Option<Seq<char>> {
    match published_at {
        Some(seconds) => date_text(seconds),
        None => None,
    }
}

/// The line for a feed item: the date when there is one, the padded source
/// name, and the title.
pub open spec fn feed_line(source_name: Seq<char>, title: Seq<char>, date: Option<Seq<char>>) -> Seq<
    char,
> {
    match date {
        Some(d) => "[FEED] "@ + d + " | "@ + padded(source_name, NAME_WIDTH_WITH_DATE as nat)
            + " | "@ + title,
        None => "[FEED] "@ + padded(source_name, NAME_WIDTH_WITHOUT_DATE as nat) + " | "@ + title,
    }
}

/// Some record of the store carries exactly this link.
pub open spec fn knows_link(store: Seq<RecordView>, link: Seq<char>) -> bool {
    exists|i: int| 0 <= i < store.len() && (#[trigger] store[i]).link == Some(link)
}

/// The record that an event asks to add, if it asks for one.
pub open spec fn event_record(event: EventView) -> Option<RecordView> {
    match event {
        EventView::NewItem { source_name, title, link, published_at } => Some(
            RecordView {
                display_text: feed_line(source_name, title, shown_date(published_at)),
                link: Some(link),
                formatted_date: shown_date(published_at),
                is_new: true,
            },
        ),
        EventView::ManualChange { message, link } => Some(
            RecordView {
                display_text: "[MANUAL] "@ + message,
                link: Some(link),
                formatted_date: None,
                is_new: true,
            },
        ),
        EventView::Error { message } => Some(
            RecordView {
                display_text: "[ERROR] "@ + message,
                link: None,
                formatted_date: None,
                is_new: false,
            },
        ),
        EventView::Info { message } => None,
    }
}

/// The store after an event: the event's record is appended unless it
/// carries a link that the store already knows.
pub open spec fn folded(store: Seq<RecordView>, event: EventView) -> Seq<RecordView> {
    match event_record(event) {
        Some(record) => if record.link is Some && knows_link(store, record.link->0) {
            store
        } else {
            store.push(record)
        },
        None => store,
    }
}

/// The notices after one more line: the line is appended, and the oldest
/// notice leaves when more than `MAX_NOTICES` are held.
pub open spec fn with_notice(notices: Seq<Seq<char>>, line: Seq<char>) -> Seq<Seq<char>> {
    let all = notices.push(line);
    if all.len() > MAX_NOTICES {
        all.subrange(1, all.len() as int)
    } else {
        all
    }
}

/// The notices after an event: only a notice event adds a line.
pub open spec fn noted(notices: Seq<Seq<char>>, event: EventView) -> Seq<Seq<char>> {
    match event {
        EventView::Info { message } => with_notice(notices, "[INFO] "@ + message),
        _ => notices,
    }
}

/// The store after a sequence of events, folded in order.
pub open spec fn folded_all(store: Seq<RecordView>, events: Seq<EventView>) -> Seq<RecordView>
    decreases events.len(),
{
    if events.len() == 0 {
        store
    } else {
        folded(folded_all(store, events.drop_last()), events.last())
    }
}

/// The date to show for an item published at `published_at`. Every date
/// has the same width.
pub fn formatted_date(published_at: Option<i64>) -> (r: Option<String>)
    ensures
        option_text(r) == shown_date(published_at),
        r matches Some(text) ==> text@.len() == DATE_WIDTH,
{
    match published_at {
        Some(seconds) => format_date(seconds),
        None => None,
    }
}

/// Tests whether some record carries exactly this link.
pub fn has_link(records: &Vec<UpdateRecord>, link: &String) -> (r: bool)
    ensures
        r == knows_link(record_views(records@), link@),
{
    let mut i: usize = 0;
    while i < records.len()
        invariant
            i <= records.len(),
            forall|k: int| 0 <= k < i ==> (#[trigger] record_views(records@)[k]).link != Some(link@),
        decreases records.len() - i,
    {
        match &records[i].link {
            Some(known) => {
                if *known == *link {
                    assert(record_views(records@)[i as int].link == Some(link@));
                    return true;
                }
            },
            None => {},
        }
        i = i + 1;
    }
    false
}

/// Builds the line for a feed item.
fn feed_text(source_name: &str, title: &str, date: &Option<String>) -> (r: String)
    ensures
        r@ == feed_line(source_name@, title@, option_text(*date)),
{
    let mut out = "[FEED] ".to_owned();
    match date {
        Some(d) => {
            let name = pad_right(source_name, NAME_WIDTH_WITH_DATE);
            out.append(d.as_str());
            out.append(" | ");
            out.append(name.as_str());
        },
        None => {
            let name = pad_right(source_name, NAME_WIDTH_WITHOUT_DATE);
            out.append(name.as_str());
        },
    }
    out.append(" | ");
    out.append(title);
    out
}

/// Appends a notice and lets the oldest one go when more than
/// `MAX_NOTICES` are held.
pub fn push_notice(notices: &mut Vec<String>, line: String)
    ensures
        texts(final(notices)@) == with_notice(texts(old(notices)@), line@),
{
    notices.push(line);
    assert(texts(notices@) =~= texts(old(notices)@).push(line@));
    if notices.len() > MAX_NOTICES {
        let ghost all = notices@;
        notices.remove(0);
        assert(texts(notices@) =~= texts(all).subrange(1, all.len() as int));
    }
}

/// Folds one event into the store and the notices.
///
/// An item of a feed or a change of a page is appended as a new record
/// unless the store already holds a record with the same link. An error is
/// always appended. A notice goes to the notices and leaves the store alone.
pub fn fold_event(records: &mut Vec<UpdateRecord>, notices: &mut Vec<String>, event: Event)
    ensures
        record_views(final(records)@) == folded(record_views(old(records)@), event@),
        texts(final(notices)@) == noted(texts(old(notices)@), event@),
        links_distinct(record_views(old(records)@)) ==> links_distinct(
            record_views(final(records)@),
        ),
{
    let ghost store = record_views(records@);
    proof {
        if links_distinct(store) {
            lemma_fold_keeps_links_distinct(store, event@);
        }
    }
    match event {
        Event::NewItem { source_name, title, link, published_at } => {
            if !has_link(records, &link) {
                let date = formatted_date(published_at);
                let display_text = feed_text(source_name.as_str(), title.as_str(), &date);
                let record = UpdateRecord {
                    display_text,
                    link: Some(link),
                    formatted_date: date,
                    is_new: true,
                };
                records.push(record);
                assert(record_views(records@) =~= store.push(record@));
            }
        },
        Event::ManualChange { message, link } => {
            if !has_link(records, &link) {
                let record = UpdateRecord {
                    display_text: join2("[MANUAL] ", message.as_str()),
                    link: Some(link),
                    formatted_date: None,
                    is_new: true,
                };
                records.push(record);
                assert(record_views(records@) =~= store.push(record@));
            }
        },
        Event::Error { message } => {
            let record = UpdateRecord {
                display_text: join2("[ERROR] ", message.as_str()),
                link: None,
                formatted_date: None,
                is_new: false,
            };
            records.push(record);
            assert(record_views(records@) =~= store.push(record@));
        },
        Event::Info { message } => {
            push_notice(notices, join2("[INFO] ", message.as_str()));
        },
    }
}

/// The text of the record that is shown while a refresh is under way.
pub open spec fn checking_line() -> Seq<char> {
    "Checking for updates..."@
}

/// A record as it stands once a refresh has begun: no longer new.
pub open spec fn settled(record: RecordView) -> RecordView {
    RecordView { is_new: false, ..record }
}

/// The store at the start of a refresh: every record is settled, and one
/// record without a link says that the check is under way.
pub open spec fn refreshed(store: Seq<RecordView>) -> Seq<RecordView> {
    store.map_values(|r: RecordView| settled(r)).push(
        RecordView {
            display_text: checking_line(),
            link: None,
            formatted_date: None,
            is_new: false,
        },
    )
}

/// Begins a refresh: clears the freshness flag of every record and appends
/// the record that says a check is under way.
pub fn begin_refresh(records: &mut Vec<UpdateRecord>)
    ensures
        record_views(final(records)@) == refreshed(record_views(old(records)@)),
        final(records)@.len() == old(records)@.len() + 1,
        forall|i: int| 0 <= i < final(records)@.len() ==> !(#[trigger] final(records)@[i]).is_new,
{
    let ghost before = record_views(records@);
    let mut i: usize = 0;
    while i < records.len()
        invariant
            i <= records.len(),
            records@.len() == before.len(),
            forall|k: int| 0 <= k < i ==> (#[trigger] records@[k])@ == settled(before[k]),
            forall|k: int| i <= k < records@.len() ==> (#[trigger] records@[k])@ == before[k],
        decreases records.len() - i,
    {
        records[i].is_new = false;
        i = i + 1;
    }
    let placeholder = UpdateRecord {
        display_text: "Checking for updates...".to_owned(),
        link: None,
        formatted_date: None,
        is_new: false,
    };
    records.push(placeholder);
    assert(record_views(records@) =~= refreshed(before));
}

/// The column at which the separator before the title begins, in a line
/// whose source name fits its column.
pub open spec fn title_column() -> nat {
    "[FEED] "@.len() + NAME_WIDTH_WITHOUT_DATE as nat
}

/// Titles line up. Where the date has its full width and the source name
/// fits the narrower column, the line with the date and the line without it
/// are equally long, and in both the separator and the title begin at
/// `title_column`.
pub proof fn lemma_titles_line_up(source_name: Seq<char>, title: Seq<char>, date: Seq<char>)
    requires
        date.len() == DATE_WIDTH,
        source_name.len() <= NAME_WIDTH_WITH_DATE,
    ensures
        feed_line(source_name, title, Some(date)).len() == feed_line(source_name, title, None).len(),
        feed_line(source_name, title, Some(date)).skip(title_column() as int) == " | "@ + title,
        feed_line(source_name, title, None).skip(title_column() as int) == " | "@ + title,
{
    reveal_strlit("[FEED] ");
    reveal_strlit(" | ");
    let dated = "[FEED] "@ + date + " | "@ + padded(source_name, NAME_WIDTH_WITH_DATE as nat);
    let plain = "[FEED] "@ + padded(source_name, NAME_WIDTH_WITHOUT_DATE as nat);
    assert(dated.len() == title_column());
    assert(plain.len() == title_column());
    assert((dated + " | "@ + title).skip(title_column() as int) =~= " | "@ + title);
    assert((plain + " | "@ + title).skip(title_column() as int) =~= " | "@ + title);
}

/// No two records carry the same link.
pub open spec fn links_distinct(store: Seq<RecordView>) -> bool {
    forall|i: int, j: int|
        0 <= i < j < store.len() && (#[trigger] store[i]).link is Some ==> store[i].link != (
        #[trigger] store[j]).link
}

/// Folding an event into a store that holds each link once leaves a store
/// that holds each link once.
pub proof fn lemma_fold_keeps_links_distinct(store: Seq<RecordView>, event: EventView)
    requires
        links_distinct(store),
    ensures
        links_distinct(folded(store, event)),
{
    let after = folded(store, event);
    if after != store {
        let record = event_record(event)->0;
        assert(after == store.push(record));
        assert forall|i: int, j: int|
            0 <= i < j < after.len() && (#[trigger] after[i]).link is Some implies after[i].link != (
            #[trigger] after[j]).link by {
            if j < store.len() {
                assert(after[i] == store[i]);
                assert(after[j] == store[j]);
            } else {
                assert(after[i] == store[i]);
                assert(after[j] == record);
                if record.link is Some {
                    assert(!knows_link(store, record.link->0));
                }
            }
        }
    }
}

/// Folding any sequence of events into a store that holds each link once
/// leaves a store that holds each link once: however often events share a
/// link, the store has at most one record for it.
pub proof fn lemma_fold_all_keeps_links_distinct(store: Seq<RecordView>, events: Seq<EventView>)
    requires
        links_distinct(store),
    ensures
        links_distinct(folded_all(store, events)),
    decreases events.len(),
{
    if events.len() > 0 {
        lemma_fold_all_keeps_links_distinct(store, events.drop_last());
        lemma_fold_keeps_links_distinct(folded_all(store, events.drop_last()), events.last());
    }
}

/// An event that carries a link changes the store at most once: folding it a
/// second time adds nothing.
pub proof fn lemma_fold_twice(store: Seq<RecordView>, event: EventView)
    requires
        event is NewItem || event is ManualChange,
    ensures
        folded(folded(store, event), event) == folded(store, event),
{
    let record = event_record(event)->0;
    let once = folded(store, event);
    if !knows_link(store, record.link->0) {
        assert(once == store.push(record));
        assert(once[store.len() as int] == record);
        assert(knows_link(once, record.link->0));
    }
}

/// Folding never removes or changes a record: the old store is a prefix of
/// the new one, which is longer by at most one record.
pub proof fn lemma_fold_extends(store: Seq<RecordView>, event: EventView)
    ensures
        store.is_prefix_of(folded(store, event)),
        folded(store, event).len() <= store.len() + 1,
{
}

} // verus!
