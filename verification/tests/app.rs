use br::app::{filter_narrows, help_records, visible_positions, Action, App, InputMode, Key};
use br::event::Event;
use br::row::{record_tone, Row, Tone};
use br::store::UpdateRecord;

fn record(text: &str, link: Option<&str>, is_new: bool) -> UpdateRecord {
    UpdateRecord {
        display_text: text.to_string(),
        link: link.map(|l| l.to_string()),
        formatted_date: None,
        is_new,
    }
}

fn type_text(app: &mut App, text: &str) {
    for c in text.chars() {
        assert_eq!(app.handle_key(Key::Char(c)), Action::Nothing);
    }
}

fn item(title: &str, link: &str) -> Event {
    Event::NewItem {
        source_name: "Blog".to_string(),
        title: title.to_string(),
        link: link.to_string(),
        published_at: None,
    }
}

#[test]
fn search_scenario_finds_the_error_record() {
    let mut app = App::new(vec![record("[ERROR] fetching Blog: timed out", None, false)]);
    assert_eq!(app.handle_key(Key::Char('/')), Action::Nothing);
    assert_eq!(app.input_mode(), InputMode::Search);
    type_text(&mut app, "err");
    assert_eq!(app.handle_key(Key::Enter), Action::Nothing);
    assert_eq!(app.input_mode(), InputMode::Normal);
    assert_eq!(app.input(), "err");
    assert_eq!(app.visible_count(), 1);
    assert_eq!(
        app.rows(),
        vec![Row { text: "[ERROR] fetching Blog: timed out".to_string(), tone: Tone::Error }]
    );
    assert_eq!(app.selected(), Some(0));
    app.handle_key(Key::Char('j'));
    assert_eq!(app.selected(), Some(0));
}

#[test]
fn starts_with_help_and_first_record_selected() {
    let app = App::new(help_records());
    assert_eq!(app.updates().len(), 6);
    assert_eq!(app.updates()[0].display_text, "Press 'u' to check for updates.");
    assert_eq!(app.updates()[1].display_text, "Press 'o' or Enter to open selected link.");
    assert_eq!(app.updates()[2].display_text, "Press '/' to search/filter.");
    assert_eq!(app.updates()[3].display_text, "Use j/k to scroll.");
    assert_eq!(app.updates()[4].display_text, "Press g or G to go to first or last item.");
    assert_eq!(app.updates()[5].display_text, "Press 'q' to quit.");
    assert!(app.updates().iter().all(|r| r.link.is_none() && !r.is_new && r.formatted_date.is_none()));
    assert_eq!(app.selected(), Some(0));
    assert_eq!(app.input(), "");
    assert_eq!(app.input_mode(), InputMode::Normal);
    assert!(app.info_messages().is_empty());
    assert_eq!(app.visible_count(), 6);
}

#[test]
fn empty_app_selects_nothing() {
    let mut app = App::new(Vec::new());
    assert_eq!(app.selected(), None);
    for key in [Key::Char('j'), Key::Char('k'), Key::Char('g'), Key::Char('G'), Key::Enter, Key::Char('o')] {
        assert_eq!(app.handle_key(key), Action::Nothing);
        assert_eq!(app.selected(), None);
    }
}

#[test]
fn keys_move_the_selection_with_wraparound() {
    let mut app = App::new(help_records());
    app.handle_key(Key::Char('j'));
    assert_eq!(app.selected(), Some(1));
    app.handle_key(Key::Char('G'));
    assert_eq!(app.selected(), Some(5));
    app.handle_key(Key::Char('j'));
    assert_eq!(app.selected(), Some(0));
    app.handle_key(Key::Char('k'));
    assert_eq!(app.selected(), Some(5));
    app.handle_key(Key::Char('k'));
    assert_eq!(app.selected(), Some(4));
    app.handle_key(Key::Char('g'));
    assert_eq!(app.selected(), Some(0));
}

#[test]
fn methods_move_the_selection_like_the_keys() {
    let mut app = App::new(help_records());
    app.last();
    assert_eq!(app.selected(), Some(5));
    app.next();
    assert_eq!(app.selected(), Some(0));
    app.previous();
    assert_eq!(app.selected(), Some(5));
    app.first();
    assert_eq!(app.selected(), Some(0));
}

#[test]
fn quit_and_unknown_keys() {
    let mut app = App::new(help_records());
    assert_eq!(app.handle_key(Key::Char('q')), Action::Quit);
    assert_eq!(app.handle_key(Key::Char('x')), Action::Nothing);
    assert_eq!(app.handle_key(Key::Other), Action::Nothing);
    assert_eq!(app.handle_key(Key::Esc), Action::Nothing);
    assert_eq!(app.handle_key(Key::Backspace), Action::Nothing);
    assert_eq!(app.selected(), Some(0));
    assert_eq!(app.input(), "");
    assert_eq!(app.input_mode(), InputMode::Normal);
}

#[test]
fn search_mode_edits_the_filter() {
    let mut app = App::new(help_records());
    app.handle_key(Key::Char('/'));
    type_text(&mut app, "quit");
    assert_eq!(app.input(), "quit");
    assert_eq!(app.visible_count(), 1);
    app.handle_key(Key::Backspace);
    assert_eq!(app.input(), "qui");
    app.handle_key(Key::Other);
    assert_eq!(app.input(), "qui");
    assert_eq!(app.input_mode(), InputMode::Search);
    app.handle_key(Key::Esc);
    assert_eq!(app.input(), "");
    assert_eq!(app.input_mode(), InputMode::Normal);
    assert_eq!(app.visible_count(), 6);
}

#[test]
fn keys_mean_letters_during_a_search() {
    let mut app = App::new(help_records());
    app.handle_key(Key::Char('/'));
    assert_eq!(app.handle_key(Key::Char('q')), Action::Nothing);
    assert_eq!(app.handle_key(Key::Char('u')), Action::Nothing);
    assert_eq!(app.handle_key(Key::Char('/')), Action::Nothing);
    assert_eq!(app.input(), "qu/");
    assert_eq!(app.updates().len(), 6);
}

#[test]
fn backspace_on_an_empty_filter_changes_nothing() {
    let mut app = App::new(help_records());
    app.handle_key(Key::Char('/'));
    app.handle_key(Key::Backspace);
    assert_eq!(app.input(), "");
    assert_eq!(app.input_mode(), InputMode::Search);
    assert_eq!(app.selected(), Some(0));
}

#[test]
fn enter_keeps_the_filter_and_escape_clears_it() {
    let mut app = App::new(help_records());
    app.handle_key(Key::Char('/'));
    type_text(&mut app, "press");
    app.handle_key(Key::Enter);
    assert_eq!(app.input(), "press");
    assert_eq!(app.visible_count(), 5);
    app.handle_key(Key::Char('/'));
    app.handle_key(Key::Esc);
    assert_eq!(app.input(), "");
    assert_eq!(app.visible_count(), 6);
}

#[test]
fn selection_follows_a_shrinking_view() {
    let mut app = App::new(help_records());
    app.handle_key(Key::Char('G'));
    assert_eq!(app.selected(), Some(5));
    app.handle_key(Key::Char('/'));
    type_text(&mut app, "press");
    assert_eq!(app.visible_count(), 5);
    assert_eq!(app.selected(), Some(4));
    type_text(&mut app, "zzz");
    assert_eq!(app.visible_count(), 0);
    assert_eq!(app.selected(), None);
    app.handle_key(Key::Backspace);
    app.handle_key(Key::Backspace);
    app.handle_key(Key::Backspace);
    assert_eq!(app.visible_count(), 5);
    assert_eq!(app.selected(), Some(0));
}

#[test]
fn navigation_runs_through_the_filtered_view() {
    let mut app = App::new(help_records());
    app.handle_key(Key::Char('/'));
    type_text(&mut app, "press");
    app.handle_key(Key::Enter);
    app.handle_key(Key::Char('G'));
    assert_eq!(app.selected(), Some(4));
    app.handle_key(Key::Char('j'));
    assert_eq!(app.selected(), Some(0));
    app.handle_key(Key::Char('k'));
    assert_eq!(app.selected(), Some(4));
    let rows = app.rows();
    assert_eq!(rows.len(), 5);
    assert_eq!(rows[3].text, "Press g or G to go to first or last item.");
    assert_eq!(rows[4].text, "Press 'q' to quit.");
}

#[test]
fn narrowing_the_filter_never_shows_more() {
    let mut app = App::new(help_records());
    app.apply_update(item("Pressing matters", "https://a"));
    app.handle_key(Key::Char('/'));
    let mut last = app.visible_count();
    for c in "press 'o".chars() {
        app.handle_key(Key::Char(c));
        let now = app.visible_count();
        assert!(now <= last);
        last = now;
    }
    assert_eq!(last, 1);
}

#[test]
fn filter_narrows_tells_when_a_view_can_only_shrink() {
    assert!(filter_narrows("err", "error"));
    assert!(filter_narrows("ERR", "an error"));
    assert!(filter_narrows("", "x"));
    assert!(!filter_narrows("error", "err"));
    assert!(!filter_narrows("ΑΣ", "ΑΣΑ"));
}

#[test]
fn visible_positions_are_the_matching_places() {
    let records = help_records();
    assert_eq!(visible_positions(&records, "PRESS"), vec![0, 1, 2, 4, 5]);
    assert_eq!(visible_positions(&records, ""), vec![0, 1, 2, 3, 4, 5]);
    assert_eq!(visible_positions(&records, "no such text"), Vec::<usize>::new());
    assert_eq!(visible_positions(&Vec::new(), ""), Vec::<usize>::new());
}

#[test]
fn refresh_key_resets_flags_and_selects_the_placeholder() {
    let mut app = App::new(help_records());
    app.apply_update(item("Fresh", "https://a"));
    assert!(app.updates()[6].is_new);
    assert_eq!(app.handle_key(Key::Char('u')), Action::Refresh);
    assert_eq!(app.updates().len(), 8);
    assert!(app.updates().iter().all(|r| !r.is_new));
    assert_eq!(app.updates()[7].display_text, "Checking for updates...");
    assert_eq!(app.updates()[7].link, None);
    assert_eq!(app.selected(), Some(7));
}

#[test]
fn refresh_under_a_filter_selects_the_last_visible_record() {
    let mut app = App::new(help_records());
    app.handle_key(Key::Char('/'));
    type_text(&mut app, "press");
    app.handle_key(Key::Enter);
    assert_eq!(app.handle_key(Key::Char('u')), Action::Refresh);
    assert_eq!(app.updates().len(), 7);
    assert_eq!(app.visible_count(), 5);
    assert_eq!(app.selected(), Some(4));
}

#[test]
fn begin_refresh_can_be_called_directly() {
    let mut app = App::new(Vec::new());
    app.apply_update(item("One", "https://1"));
    app.begin_refresh();
    assert_eq!(app.updates().len(), 2);
    assert!(!app.updates()[0].is_new);
    assert_eq!(app.selected(), Some(1));
}

#[test]
fn open_asks_for_the_selected_link() {
    let mut app = App::new(vec![
        record("plain", None, false),
        record("[FEED] with link", Some("https://example.org/1"), true),
        record("[FEED] empty link", Some(""), true),
    ]);
    assert_eq!(app.handle_key(Key::Enter), Action::Nothing);
    app.handle_key(Key::Char('j'));
    assert_eq!(app.handle_key(Key::Enter), Action::Open("https://example.org/1".to_string()));
    assert_eq!(app.handle_key(Key::Char('o')), Action::Open("https://example.org/1".to_string()));
    assert_eq!(app.open_selected(), Action::Open("https://example.org/1".to_string()));
    app.handle_key(Key::Char('j'));
    assert_eq!(app.handle_key(Key::Char('o')), Action::Nothing);
    assert_eq!(app.selected(), Some(2));
}

#[test]
fn open_looks_at_the_filtered_view() {
    let mut app = App::new(vec![
        record("[FEED] alpha", Some("https://a"), true),
        record("[FEED] beta", Some("https://b"), true),
    ]);
    app.handle_key(Key::Char('/'));
    type_text(&mut app, "beta");
    app.handle_key(Key::Enter);
    assert_eq!(app.selected(), Some(0));
    assert_eq!(app.handle_key(Key::Char('o')), Action::Open("https://b".to_string()));
}

#[test]
fn events_are_folded_into_the_state() {
    let mut app = App::new(Vec::new());
    assert_eq!(app.selected(), None);
    app.apply_update(item("One", "https://1"));
    assert_eq!(app.selected(), Some(0));
    app.apply_update(item("One again", "https://1"));
    assert_eq!(app.updates().len(), 1);
    app.apply_update(Event::Error { message: "boom".to_string() });
    assert_eq!(app.updates().len(), 2);
    assert_eq!(app.updates()[1].display_text, "[ERROR] boom");
    app.apply_update(Event::Info { message: "No changes for Site".to_string() });
    assert_eq!(app.updates().len(), 2);
    assert_eq!(app.info_messages(), &vec!["[INFO] No changes for Site".to_string()]);
    assert_eq!(app.selected(), Some(0));
}

#[test]
fn state_keeps_five_notices() {
    let mut app = App::new(Vec::new());
    for i in 0..8 {
        app.apply_update(Event::Info { message: format!("{}", i) });
    }
    assert_eq!(
        app.info_messages(),
        &vec![
            "[INFO] 3".to_string(),
            "[INFO] 4".to_string(),
            "[INFO] 5".to_string(),
            "[INFO] 6".to_string(),
            "[INFO] 7".to_string(),
        ]
    );
}

#[test]
fn event_that_the_filter_hides_leaves_the_selection() {
    let mut app = App::new(help_records());
    app.handle_key(Key::Char('/'));
    type_text(&mut app, "quit");
    app.handle_key(Key::Enter);
    assert_eq!(app.selected(), Some(0));
    app.apply_update(item("Hidden", "https://h"));
    assert_eq!(app.updates().len(), 7);
    assert_eq!(app.visible_count(), 1);
    assert_eq!(app.selected(), Some(0));
}

#[test]
fn tones_follow_the_kind_and_freshness() {
    assert_eq!(record_tone(&record("[FEED] a", Some("l"), true)), Tone::Feed);
    assert_eq!(record_tone(&record("[FEED] a", Some("l"), false)), Tone::Faded);
    assert_eq!(record_tone(&record("[MANUAL] a", Some("l"), true)), Tone::Manual);
    assert_eq!(record_tone(&record("[MANUAL] a", Some("l"), false)), Tone::Faded);
    assert_eq!(record_tone(&record("[ERROR] a", None, false)), Tone::Error);
    assert_eq!(record_tone(&record("[ERROR] a", None, true)), Tone::Error);
    assert_eq!(record_tone(&record("Checking for updates...", None, false)), Tone::Checking);
    assert_eq!(record_tone(&record("Press 'q' to quit.", None, false)), Tone::Plain);
    assert_eq!(record_tone(&record(" [FEED] a", None, true)), Tone::Plain);
    assert_eq!(record_tone(&record("", None, true)), Tone::Plain);
}

#[test]
fn rows_carry_text_and_tone() {
    let mut app = App::new(Vec::new());
    app.apply_update(item("T", "https://1"));
    app.apply_update(Event::Error { message: "boom".to_string() });
    app.begin_refresh();
    app.apply_update(Event::ManualChange { message: "m".to_string(), link: "https://2".to_string() });
    let rows = app.rows();
    assert_eq!(rows.len(), 4);
    assert_eq!(rows[0].tone, Tone::Faded);
    assert_eq!(rows[1], Row { text: "[ERROR] boom".to_string(), tone: Tone::Error });
    assert_eq!(rows[2], Row { text: "Checking for updates...".to_string(), tone: Tone::Checking });
    assert_eq!(rows[3], Row { text: "[MANUAL] m".to_string(), tone: Tone::Manual });
}
