//! The state of the reader while it runs, and how keys and events change it.
//!
//! The state holds the list of updates, the recent notices, the text of the
//! filter, the input mode and the selection. The selection is an index into
//! the filtered view, that is into the records whose text contains the filter
//! text when case is ignored. It names a record of that view whenever the view
//! has one, and every operation here leaves it so.

use vstd::prelude::*;
use crate::event::{Event, EventView};
use crate::nav;
use crate::nav::{
    clamped_index, first_index, last_index, next_index, previous_index, selection_valid,
};
use crate::row::{Row, record_row, row_of, row_views};
use crate::store;
use crate::store::{
    MAX_NOTICES, RecordView, UpdateRecord, folded, links_distinct, noted, record_views, refreshed,
    texts,
};
use crate::text::{
    contains, is_substring, lemma_empty_is_substring, lemma_substring_transitive, lowercase,
    matches_filter, pop_char, push_char, to_lowercase,
};

verus! {

/// Whether keys move the selection or edit the filter.
#[derive(Clone, Copy, Debug, PartialEq, Eq)]
pub enum InputMode {
    Normal,
    Search,
}

/// A key as the reader sees it.
#[derive(Clone, Copy, Debug, PartialEq, Eq)]
pub enum Key {
    Char(char),
    Enter,
    Esc,
    Backspace,
    /// Any key that the reader gives no meaning to.
    Other,
}

/// What the program is asked to do after a key.
#[derive(Clone, Debug, PartialEq, Eq)]
pub enum Action {
    Nothing,
    /// Leave the program.
    Quit,
    /// Check every source again.
    Refresh,
    /// Open this link with the system's default handler.
    Open(String),
}

/// An action with its link as a sequence of characters.
pub enum ActionView {
    Nothing,
    Quit,
    Refresh,
    Open(Seq<char>),
}

impl View for Action {
    type V = ActionView;

    open spec fn view(&self) -> ActionView {
        match *self {
            Action::Nothing => ActionView::Nothing,
            Action::Quit => ActionView::Quit,
            Action::Refresh => ActionView::Refresh,
            Action::Open(link) => ActionView::Open(link@),
        }
    }
}

/// The test that the filter text puts to a record.
pub open spec fn shows(filter: Seq<char>) -> spec_fn(RecordView) -> bool {
    |r: RecordView| matches_filter(r.display_text, filter)
}

/// The filtered view: the records that the filter shows, in store order.
pub open spec fn visible(store: Seq<RecordView>, filter: Seq<char>) -> Seq<RecordView> {
    store.filter(shows(filter))
}

/// The state of the reader as plain values.
pub struct AppView {
    pub updates: Seq<RecordView>,
    pub notices: Seq<Seq<char>>,
    pub selected: Option<usize>,
    pub filter: Seq<char>,
    pub input_mode: InputMode,
}

impl AppView {
    /// The records that the filter shows.
    pub open spec fn visible(self) -> Seq<RecordView> {
        visible(self.updates, self.filter)
    }

    /// The selection names a record of the filtered view, or the view is
    /// empty and nothing is selected; no more than `MAX_NOTICES` notices are
    /// held; and the records can be counted in a `usize`, the filtered view
    /// being no longer than the store.
    pub open spec fn valid(self) -> bool {
        &&& self.updates.len() <= usize::MAX
        &&& self.visible().len() <= self.updates.len()
        &&& selection_valid(self.selected, self.visible().len())
        &&& self.notices.len() <= MAX_NOTICES
    }

    /// The state with another selection.
    pub open spec fn select(self, selected: Option<usize>) -> AppView {
        AppView { selected, ..self }
    }

    /// The state with its selection brought back into the filtered view.
    pub open spec fn reselected(self) -> AppView {
        self.select(clamped_index(self.selected, self.visible().len()))
    }

    /// The state once a refresh has begun: no record is new, the record that
    /// says a check is under way is appended, and the last record of the
    /// filtered view is selected.
    pub open spec fn begun(self) -> AppView {
        let updates = refreshed(self.updates);
        AppView { updates, selected: last_index(visible(updates, self.filter).len()), ..self }
    }

    /// The state after an event has been folded in.
    pub open spec fn applied(self, event: EventView) -> AppView {
        AppView {
            updates: folded(self.updates, event),
            notices: noted(self.notices, event),
            ..self
        }.reselected()
    }

    /// The link that the selected record offers to open: the link of the
    /// selected record of the filtered view, where it has one that is not
    /// empty.
    pub open spec fn open_target(self) -> Option<Seq<char>> {
        match self.selected {
            Some(i) => if i < self.visible().len() {
                match self.visible()[i as int].link {
                    Some(link) => if link.len() > 0 {
                        Some(link)
                    } else {
                        None
                    },
                    None => None,
                }
            } else {
                None
            },
            None => None,
        }
    }

    /// The state after a key.
    pub open spec fn after_key(self, key: Key) -> AppView {
        let count = self.visible().len();
        match self.input_mode {
            InputMode::Normal => match key {
                Key::Char(c) => if c == '/' {
                    AppView { input_mode: InputMode::Search, ..self }
                } else if c == 'g' {
                    self.select(first_index(count))
                } else if c == 'G' {
                    self.select(last_index(count))
                } else if c == 'j' {
                    self.select(next_index(self.selected, count))
                } else if c == 'k' {
                    self.select(previous_index(self.selected, count))
                } else if c == 'u' {
                    self.begun()
                } else {
                    self
                },
                _ => self,
            },
            InputMode::Search => match key {
                Key::Enter => AppView { input_mode: InputMode::Normal, ..self },
                Key::Char(c) => AppView { filter: self.filter.push(c), ..self }.reselected(),
                Key::Backspace => AppView {
                    filter: if self.filter.len() > 0 {
                        self.filter.drop_last()
                    } else {
                        self.filter
                    },
                    ..self
                }.reselected(),
                Key::Esc => AppView {
                    input_mode: InputMode::Normal,
                    filter: Seq::empty(),
                    ..self
                }.reselected(),
                Key::Other => self,
            },
        }
    }

    /// What a key asks the program to do.
    pub open spec fn action_for(self, key: Key) -> ActionView {
        match self.input_mode {
            InputMode::Normal => match key {
                Key::Char(c) => if c == 'q' {
                    ActionView::Quit
                } else if c == 'u' {
                    ActionView::Refresh
                } else if c == 'o' {
                    self.open_action()
                } else {
                    ActionView::Nothing
                },
                Key::Enter => self.open_action(),
                _ => ActionView::Nothing,
            },
            InputMode::Search => ActionView::Nothing,
        }
    }

    /// The action of opening the selected record's link, if it has one.
    pub open spec fn open_action(self) -> ActionView {
        match self.open_target() {
            Some(link) => ActionView::Open(link),
            None => ActionView::Nothing,
        }
    }
}

/// A filter whose folded text is empty shows every record.
proof fn lemma_empty_filter_shows_all(store: Seq<RecordView>, filter: Seq<char>)
    requires
        lowercase(filter).len() == 0,
    ensures
        visible(store, filter) == store,
    decreases store.len(),
{
    reveal(Seq::filter);
    if store.len() > 0 {
        lemma_empty_filter_shows_all(store.drop_last(), filter);
        assert(lowercase(filter) =~= Seq::<char>::empty());
        lemma_empty_is_substring(lowercase(store.last().display_text));
        assert(store.drop_last().push(store.last()) =~= store);
    } else {
        assert(visible(store, filter) =~= store);
    }
}

/// Narrowing the filter never shows more. Where the folded text of `wide`
/// stands in the folded text of `narrow`, every record that `narrow` shows
/// is one that `wide` shows: the narrow view is the wide view filtered once
/// more, and it is no longer.
pub proof fn lemma_narrower_filter_shows_less(
    store: Seq<RecordView>,
    wide: Seq<char>,
    narrow: Seq<char>,
)
    requires
        is_substring(lowercase(wide), lowercase(narrow)),
    ensures
        visible(store, narrow) == visible(visible(store, wide), narrow),
        visible(store, narrow).len() <= visible(store, wide).len(),
    decreases store.len(),
{
    reveal(Seq::filter);
    if store.len() > 0 {
        let front = store.drop_last();
        let last = store.last();
        lemma_narrower_filter_shows_less(front, wide, narrow);
        if shows(narrow)(last) {
            lemma_substring_transitive(
                lowercase(wide),
                lowercase(narrow),
                lowercase(last.display_text),
            );
            assert(shows(wide)(last));
        }
        if shows(wide)(last) {
            Seq::lemma_filter_push(visible(front, wide), last, shows(narrow));
        }
    }
    visible(store, wide).lemma_filter_len(shows(narrow));
}

/// Tests whether `narrow` is sure to show no more than `wide`: whether the
/// folded text of `wide` stands in the folded text of `narrow`. Where it
/// does, the view under `narrow` is part of the view under `wide` for every
/// store.
pub fn filter_narrows(wide: &str, narrow: &str) -> (r: bool)
    ensures
        r == is_substring(lowercase(wide@), lowercase(narrow@)),
        r ==> forall|store: Seq<RecordView>|
            #![trigger visible(store, narrow@)]
            visible(store, narrow@) == visible(visible(store, wide@), narrow@) && visible(
                store,
                narrow@,
            ).len() <= visible(store, wide@).len(),
{
    let folded_wide = to_lowercase(wide);
    let folded_narrow = to_lowercase(narrow);
    let r = contains(folded_narrow.as_str(), folded_wide.as_str());
    proof {
        if r {
            assert forall|store: Seq<RecordView>|
                #![trigger visible(store, narrow@)]
                visible(store, narrow@) == visible(visible(store, wide@), narrow@) && visible(
                    store,
                    narrow@,
                ).len() <= visible(store, wide@).len() by {
                lemma_narrower_filter_shows_less(store, wide@, narrow@);
            }
        }
    }
    r
}

/// The places in the store of the records that the filter shows, in order.
pub fn visible_positions(records: &Vec<UpdateRecord>, filter: &str) -> (positions: Vec<usize>)
    ensures
        positions@.len() == visible(record_views(records@), filter@).len(),
        forall|k: int|
            0 <= k < positions@.len() ==> (#[trigger] positions@[k]) < records@.len()
                && records@[positions@[k] as int]@ == visible(record_views(records@), filter@)[k],
        forall|a: int, b: int|
            0 <= a < b < positions@.len() ==> (#[trigger] positions@[a]) < (
            #[trigger] positions@[b]),
        filter@.len() == 0 ==> visible(record_views(records@), filter@) == record_views(records@),
        positions@.len() <= records@.len() <= usize::MAX,
{
    let folded_filter = to_lowercase(filter);
    let ghost store = record_views(records@);
    let mut positions: Vec<usize> = Vec::new();
    let mut i: usize = 0;
    proof {
        reveal(Seq::filter);
        assert(store.take(0) =~= Seq::<RecordView>::empty());
    }
    while i < records.len()
        invariant
            i <= records@.len(),
            store == record_views(records@),
            folded_filter@ == lowercase(filter@),
            positions@.len() == visible(store.take(i as int), filter@).len(),
            forall|k: int|
                0 <= k < positions@.len() ==> (#[trigger] positions@[k]) < i && records@[positions@[k] as int]@
                    == visible(store.take(i as int), filter@)[k],
            forall|a: int, b: int|
                0 <= a < b < positions@.len() ==> (#[trigger] positions@[a]) < (
                #[trigger] positions@[b]),
        decreases records@.len() - i,
    {
        let folded_text = to_lowercase(records[i].display_text.as_str());
        let shown = contains(folded_text.as_str(), folded_filter.as_str());
        proof {
            assert(store.take(i + 1) =~= store.take(i as int).push(store[i as int]));
            Seq::lemma_filter_push(store.take(i as int), store[i as int], shows(filter@));
            assert(shown == shows(filter@)(store[i as int]));
        }
        if shown {
            positions.push(i);
        }
        i = i + 1;
    }
    proof {
        assert(store.take(i as int) =~= store);
        if filter@.len() == 0 {
            lemma_empty_filter_shows_all(store, filter@);
        }
        store.lemma_filter_len(shows(filter@));
    }
    positions
}

/// The state of the reader.
pub struct App {
    all_updates: Vec<UpdateRecord>,
    info_messages: Vec<String>,
    selected: Option<usize>,
    input: String,
    input_mode: InputMode,
}

impl View for App {
    type V = AppView;

    closed spec fn view(&self) -> AppView {
        AppView {
            updates: record_views(self.all_updates@),
            notices: texts(self.info_messages@),
            selected: self.selected,
            filter: self.input@,
            input_mode: self.input_mode,
        }
    }
}

impl App {
    /// The state is valid. Every state that this module hands out is well
    /// formed, and every operation keeps it so.
    pub open spec fn wf(&self) -> bool {
        self@.valid()
    }

    /// The state at the start: the given records, no notices, an empty
    /// filter, and the first record selected if there is one.
    pub fn new(initial_updates: Vec<UpdateRecord>) -> (app: App)
        ensures
            app.wf(),
            app@.updates == record_views(initial_updates@),
            app@.notices.len() == 0,
            app@.filter.len() == 0,
            app@.input_mode == InputMode::Normal,
            app@.selected == first_index(initial_updates@.len()),
            app@.visible() == app@.updates,
    {
        let input = String::new();
        let positions = visible_positions(&initial_updates, input.as_str());
        let selected = nav::first(positions.len());
        App {
            all_updates: initial_updates,
            info_messages: Vec::new(),
            selected,
            input,
            input_mode: InputMode::Normal,
        }
    }

    /// The records, in the order in which they arrived.
    pub fn updates(&self) -> (records: &Vec<UpdateRecord>)
        ensures
            record_views(records@) == self@.updates,
    {
        &self.all_updates
    }

    /// The notices, oldest first.
    pub fn info_messages(&self) -> (notices: &Vec<String>)
        ensures
            texts(notices@) == self@.notices,
    {
        &self.info_messages
    }

    /// The index of the selected record in the filtered view.
    pub fn selected(&self) -> (selected: Option<usize>)
        ensures
            selected == self@.selected,
    {
        self.selected
    }

    /// The text of the filter.
    pub fn input(&self) -> (filter: &str)
        ensures
            filter@ == self@.filter,
    {
        self.input.as_str()
    }

    /// The input mode.
    pub fn input_mode(&self) -> (mode: InputMode)
        ensures
            mode == self@.input_mode,
    {
        self.input_mode
    }

    /// How many records the filter shows.
    pub fn visible_count(&self) -> (count: usize)
        ensures
            count == self@.visible().len(),
            self@.visible().len() <= self@.updates.len() <= usize::MAX,
    {
        visible_positions(&self.all_updates, self.input.as_str()).len()
    }

    /// The rows of the filtered view, in store order.
    pub fn rows(&self) -> (rows: Vec<Row>)
        ensures
            row_views(rows@) == self@.visible().map_values(|r: RecordView| row_of(r)),
    {
        let positions = visible_positions(&self.all_updates, self.input.as_str());
        let mut rows: Vec<Row> = Vec::new();
        let mut k: usize = 0;
        while k < positions.len()
            invariant
                k <= positions@.len(),
                positions@.len() == self@.visible().len(),
                forall|j: int|
                    0 <= j < positions@.len() ==> (#[trigger] positions@[j]) < self.all_updates@.len()
                        && self.all_updates@[positions@[j] as int]@ == self@.visible()[j],
                rows@.len() == k,
                forall|j: int| 0 <= j < k ==> (#[trigger] rows@[j])@ == row_of(self@.visible()[j]),
            decreases positions@.len() - k,
        {
            rows.push(record_row(&self.all_updates[positions[k]]));
            k = k + 1;
        }
        assert(row_views(rows@) =~= self@.visible().map_values(|r: RecordView| row_of(r)));
        rows
    }

    /// Brings the selection back into the filtered view.
    fn reselect(&mut self)
        requires
            old(self)@.notices.len() <= MAX_NOTICES,
        ensures
            final(self).wf(),
            final(self)@ == old(self)@.reselected(),
    {
        let count = self.visible_count();
        self.selected = nav::clamp(self.selected, count);
    }

    /// Selects the first record of the filtered view.
    pub fn first(&mut self)
        requires
            old(self).wf(),
        ensures
            final(self).wf(),
            final(self)@ == old(self)@.select(first_index(old(self)@.visible().len())),
    {
        let count = self.visible_count();
        self.selected = nav::first(count);
    }

    /// Selects the last record of the filtered view.
    pub fn last(&mut self)
        requires
            old(self).wf(),
        ensures
            final(self).wf(),
            final(self)@ == old(self)@.select(last_index(old(self)@.visible().len())),
    {
        let count = self.visible_count();
        self.selected = nav::last(count);
    }

    /// Moves the selection one record forward in the filtered view, from
    /// the last record back to the first.
    pub fn next(&mut self)
        requires
            old(self).wf(),
        ensures
            final(self).wf(),
            final(self)@ == old(self)@.select(
                next_index(old(self)@.selected, old(self)@.visible().len()),
            ),
    {
        let count = self.visible_count();
        self.selected = nav::next(self.selected, count);
    }

    /// Moves the selection one record backward in the filtered view, from
    /// the first record on to the last.
    pub fn previous(&mut self)
        requires
            old(self).wf(),
        ensures
            final(self).wf(),
            final(self)@ == old(self)@.select(
                previous_index(old(self)@.selected, old(self)@.visible().len()),
            ),
    {
        let count = self.visible_count();
        self.selected = nav::previous(self.selected, count);
    }

    /// Begins a refresh. Every record that was there loses its freshness
    /// flag before any event of the new cycle is folded in; the record that
    /// says a check is under way is appended; the last record of the
    /// filtered view is selected.
    pub fn begin_refresh(&mut self)
        requires
            old(self).wf(),
        ensures
            final(self).wf(),
            final(self)@ == old(self)@.begun(),
            forall|i: int|
                0 <= i < final(self)@.updates.len() ==> !(#[trigger] final(self)@.updates[i]).is_new,
    {
        store::begin_refresh(&mut self.all_updates);
        let count = self.visible_count();
        self.selected = nav::last(count);
    }

    /// Folds one event into the state and brings the selection back into
    /// the filtered view. A state that holds each link once still does so
    /// afterwards.
    pub fn apply_update(&mut self, event: Event)
        requires
            old(self).wf(),
        ensures
            final(self).wf(),
            final(self)@ == old(self)@.applied(event@),
            links_distinct(old(self)@.updates) ==> links_distinct(final(self)@.updates),
    {
        store::fold_event(&mut self.all_updates, &mut self.info_messages, event);
        self.reselect();
    }

    /// The action of opening the link of the selected record, where it has
    /// one that is not empty.
    pub fn open_selected(&self) -> (action: Action)
        ensures
            action@ == self@.open_action(),
    {
        match self.selected {
            Some(i) => {
                let positions = visible_positions(&self.all_updates, self.input.as_str());
                if i < positions.len() {
                    match &self.all_updates[positions[i]].link {
                        Some(link) => if link.as_str().is_empty() {
                            Action::Nothing
                        } else {
                            Action::Open(link.clone())
                        },
                        None => Action::Nothing,
                    }
                } else {
                    Action::Nothing
                }
            },
            None => Action::Nothing,
        }
    }

    /// Takes one key.
    ///
    /// In normal mode `/` starts a search, `g` and `G` select the first and
    /// the last record, `j` and `k` move the selection forward and backward,
    /// `u` begins a refresh, `o` and Enter ask to open the selected link, and
    /// `q` asks to quit. During a search a character is appended to the
    /// filter, Backspace removes the last one, Enter ends the search and
    /// keeps the filter, Esc ends it and clears the filter. Any other key
    /// changes nothing.
    pub fn handle_key(&mut self, key: Key) -> (action: Action)
        requires
            old(self).wf(),
        ensures
            final(self).wf(),
            final(self)@ == old(self)@.after_key(key),
            action@ == old(self)@.action_for(key),
    {
        match self.input_mode {
            InputMode::Normal => match key {
                Key::Char(c) => {
                    if c == 'q' {
                        Action::Quit
                    } else if c == '/' {
                        self.input_mode = InputMode::Search;
                        Action::Nothing
                    } else if c == 'g' {
                        self.first();
                        Action::Nothing
                    } else if c == 'G' {
                        self.last();
                        Action::Nothing
                    } else if c == 'j' {
                        self.next();
                        Action::Nothing
                    } else if c == 'k' {
                        self.previous();
                        Action::Nothing
                    } else if c == 'u' {
                        self.begin_refresh();
                        Action::Refresh
                    } else if c == 'o' {
                        self.open_selected()
                    } else {
                        Action::Nothing
                    }
                },
                Key::Enter => self.open_selected(),
                _ => Action::Nothing,
            },
            InputMode::Search => {
                match key {
                    Key::Enter => {
                        self.input_mode = InputMode::Normal;
                    },
                    Key::Char(c) => {
                        push_char(&mut self.input, c);
                        self.reselect();
                    },
                    Key::Backspace => {
                        pop_char(&mut self.input);
                        self.reselect();
                    },
                    Key::Esc => {
                        self.input_mode = InputMode::Normal;
                        self.input = String::new();
                        self.reselect();
                    },
                    Key::Other => {},
                }
                Action::Nothing
            },
        }
    }
}

/// The lines that explain the keys, shown when the reader starts.
pub open spec fn help_lines() -> Seq<Seq<char>> {
    seq![
        "Press 'u' to check for updates."@,
        "Press 'o' or Enter to open selected link."@,
        "Press '/' to search/filter."@,
        "Use j/k to scroll."@,
        "Press g or G to go to first or last item."@,
        "Press 'q' to quit."@,
    ]
}

/// A record that only says something: no link, no date, not new.
pub open spec fn plain_record(text: Seq<char>) -> RecordView {
    RecordView { display_text: text, link: None, formatted_date: None, is_new: false }
}

/// Builds a record that only says something.
fn plain(text: &str) -> (record: UpdateRecord)
    ensures
        record@ == plain_record(text@),
{
    UpdateRecord { display_text: text.to_owned(), link: None, formatted_date: None, is_new: false }
}

/// The records that the list of updates starts with: one for each of the
/// `help_lines`.
pub fn help_records() -> (records: Vec<UpdateRecord>)
    ensures
        record_views(records@) == help_lines().map_values(|t: Seq<char>| plain_record(t)),
{
    let mut records: Vec<UpdateRecord> = Vec::new();
    records.push(plain("Press 'u' to check for updates."));
    records.push(plain("Press 'o' or Enter to open selected link."));
    records.push(plain("Press '/' to search/filter."));
    records.push(plain("Use j/k to scroll."));
    records.push(plain("Press g or G to go to first or last item."));
    records.push(plain("Press 'q' to quit."));
    assert(record_views(records@) =~= help_lines().map_values(|t: Seq<char>| plain_record(t)));
    records
}

} // verus!
