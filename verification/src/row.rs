//! How a record is to be painted.

use vstd::prelude::*;
use crate::store::{RecordView, UpdateRecord};
use crate::text::starts_with;

verus! {

/// The look of a line in the list of updates.
#[derive(Clone, Copy, Debug, PartialEq, Eq)]
pub enum Tone {
    /// A feed item that arrived since the last refresh began.
    Feed,
    /// A changed page that was reported since the last refresh began.
    Manual,
    /// A feed item or changed page from before the last refresh.
    Faded,
    /// A failure.
    Error,
    /// The line that says a check is under way.
    Checking,
    /// Any other line.
    Plain,
}

/// The tone of a record, read from the start of its text. Items and changes
/// that are no longer new fade; every other line keeps the tone of its kind.
pub open spec fn tone_of(record: RecordView) -> Tone {
    let text = record.display_text;
    if "[FEED]"@.is_prefix_of(text) {
        if record.is_new {
            Tone::Feed
        } else {
            Tone::Faded
        }
    } else if "[MANUAL]"@.is_prefix_of(text) {
        if record.is_new {
            Tone::Manual
        } else {
            Tone::Faded
        }
    } else if "[ERROR]"@.is_prefix_of(text) {
        Tone::Error
    } else if "Checking"@.is_prefix_of(text) {
        Tone::Checking
    } else {
        Tone::Plain
    }
}

/// Finds the tone in which a record is painted.
pub fn record_tone(record: &UpdateRecord) -> (tone: Tone)
    ensures
        tone == tone_of(record@),
{
    let text = record.display_text.as_str();
    if starts_with(text, "[FEED]") {
        if record.is_new {
            Tone::Feed
        } else {
            Tone::Faded
        }
    } else if starts_with(text, "[MANUAL]") {
        if record.is_new {
            Tone::Manual
        } else {
            Tone::Faded
        }
    } else if starts_with(text, "[ERROR]") {
        Tone::Error
    } else if starts_with(text, "Checking") {
        Tone::Checking
    } else {
        Tone::Plain
    }
}

/// One line of the filtered view, ready to be painted.
#[derive(Clone, Debug, PartialEq, Eq)]
pub struct Row {
    pub text: String,
    pub tone: Tone,
}

/// A row with its text as a sequence of characters.
pub struct RowView {
    pub text: Seq<char>,
    pub tone: Tone,
}

impl View for Row {
    type V = RowView;

    open spec fn view(&self) -> RowView {
        RowView { text: self.text@, tone: self.tone }
    }
}

/// The row for a record: its text and its tone.
pub open spec fn row_of(record: RecordView) -> RowView {
    RowView { text: record.display_text, tone: tone_of(record) }
}

/// The views of a sequence of rows, one for one.
pub open spec fn row_views(rows: Seq<Row>) -> Seq<RowView> {
    rows.map_values(|r: Row| r@)
}

/// Builds the row for a record.
pub fn record_row(record: &UpdateRecord) -> (row: Row)
    ensures
        row@ == row_of(record@),
{
    Row { text: record.display_text.clone(), tone: record_tone(record) }
}

} // verus!
