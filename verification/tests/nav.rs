use br::nav::{clamp, first, last, next, previous};

#[test]
fn first_and_last_of_a_list() {
    assert_eq!(first(4), Some(0));
    assert_eq!(last(4), Some(3));
    assert_eq!(first(1), Some(0));
    assert_eq!(last(1), Some(0));
}

#[test]
fn empty_list_selects_nothing() {
    assert_eq!(first(0), None);
    assert_eq!(last(0), None);
    assert_eq!(next(Some(2), 0), None);
    assert_eq!(next(None, 0), None);
    assert_eq!(previous(Some(2), 0), None);
    assert_eq!(previous(None, 0), None);
    assert_eq!(clamp(Some(0), 0), None);
}

#[test]
fn next_moves_forward_and_wraps() {
    assert_eq!(next(Some(0), 5), Some(1));
    assert_eq!(next(Some(3), 5), Some(4));
    assert_eq!(next(Some(4), 5), Some(0));
    assert_eq!(next(Some(9), 5), Some(0));
    assert_eq!(next(None, 5), Some(0));
    assert_eq!(next(Some(0), 1), Some(0));
}

#[test]
fn previous_moves_backward_and_wraps() {
    assert_eq!(previous(Some(4), 5), Some(3));
    assert_eq!(previous(Some(1), 5), Some(0));
    assert_eq!(previous(Some(0), 5), Some(4));
    assert_eq!(previous(None, 5), Some(0));
    assert_eq!(previous(Some(0), 1), Some(0));
}

#[test]
fn previous_from_past_the_end_lands_on_the_last_row() {
    assert_eq!(previous(Some(5), 5), Some(4));
    assert_eq!(previous(Some(9), 5), Some(4));
}

#[test]
fn a_full_round_of_next_returns_to_the_start() {
    let count = 7;
    let mut selected = Some(0);
    for _ in 0..count {
        selected = next(selected, count);
    }
    assert_eq!(selected, Some(0));
    for _ in 0..count {
        selected = previous(selected, count);
    }
    assert_eq!(selected, Some(0));
}

#[test]
fn clamp_keeps_a_valid_selection() {
    assert_eq!(clamp(Some(2), 5), Some(2));
    assert_eq!(clamp(Some(4), 5), Some(4));
}

#[test]
fn clamp_pulls_a_stale_selection_back() {
    assert_eq!(clamp(Some(5), 5), Some(4));
    assert_eq!(clamp(Some(100), 3), Some(2));
    assert_eq!(clamp(None, 3), Some(0));
}

#[test]
fn forward_and_backward_undo_each_other() {
    for count in 1..6 {
        for i in 0..count {
            assert_eq!(next(previous(Some(i), count), count), Some(i));
            assert_eq!(previous(next(Some(i), count), count), Some(i));
        }
    }
}
