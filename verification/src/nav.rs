//! Movement of a selection through a list of `item_count` rows.
//!
//! A selection is `None` or the index of a row. Every function here returns
//! `None` for an empty list and an index below `item_count` otherwise.

use vstd::prelude::*;

verus! {

/// The selection is `None` exactly when there are no rows, and otherwise
/// names one of them.
pub open spec fn selection_valid(selected: Option<usize>, item_count: nat) -> bool {
    match selected {
        None => item_count == 0,
        Some(i) => i < item_count,
    }
}

pub open spec fn first_index(item_count: nat) -> Option<usize> {
    if item_count == 0 {
        None
    } else {
        Some(0)
    }
}

pub open spec fn last_index(item_count: nat) -> Option<usize> {
    if item_count == 0 {
        None
    } else {
        Some((item_count - 1) as usize)
    }
}

/// One row forward, from the last row back to the first.
pub open spec fn next_index(selected: Option<usize>, item_count: nat) -> Option<usize> {
    if item_count == 0 {
        None
    } else {
        match selected {
            Some(i) => if i >= item_count - 1 {
                Some(0)
            } else {
                Some((i + 1) as usize)
            },
            None => Some(0),
        }
    }
}

/// One row backward, from the first row on to the last. An index past the
/// end moves back to the last row.
pub open spec fn previous_index(selected: Option<usize>, item_count: nat) -> Option<usize> {
    if item_count == 0 {
        None
    } else {
        match selected {
            Some(i) => if i == 0 || i > item_count {
                Some((item_count - 1) as usize)
            } else {
                Some((i - 1) as usize)
            },
            None => Some(0),
        }
    }
}

/// The nearest valid selection: nothing in an empty list, the first row when
/// nothing was selected, the last row when the old index is past the end.
pub open spec fn clamped_index(selected: Option<usize>, item_count: nat) -> Option<usize> {
    if item_count == 0 {
        None
    } else {
        match selected {
            Some(i) => if i >= item_count {
                Some((item_count - 1) as usize)
            } else {
                Some(i)
            },
            None => Some(0),
        }
    }
}

/// Forward and backward undo each other: from a valid selection, one step
/// backward and one forward, or one forward and one backward, lead back to
/// where the selection was.
pub proof fn lemma_steps_undo_each_other(selected: Option<usize>, item_count: nat)
    requires
        item_count <= usize::MAX,
        selection_valid(selected, item_count),
    ensures
        next_index(previous_index(selected, item_count), item_count) == selected,
        previous_index(next_index(selected, item_count), item_count) == selected,
{
}

pub fn first(item_count: usize) -> (r: Option<usize>)
    ensures
        r == first_index(item_count as nat),
        selection_valid(r, item_count as nat),
{
    if item_count == 0 {
        None
    } else {
        Some(0)
    }
}

pub fn last(item_count: usize) -> (r: Option<usize>)
    ensures
        r == last_index(item_count as nat),
        selection_valid(r, item_count as nat),
{
    if item_count == 0 {
        None
    } else {
        Some(item_count - 1)
    }
}

pub fn next(selected: Option<usize>, item_count: usize) -> (r: Option<usize>)
    ensures
        r == next_index(selected, item_count as nat),
        selection_valid(r, item_count as nat),
        item_count == 0 ==> r is None,
        item_count > 0 && selected == Some((item_count - 1) as usize) ==> r == Some(0usize),
{
    if item_count == 0 {
        return None;
    }
    let i: usize = match selected {
        Some(i) => if i >= item_count - 1 {
            0
        } else {
            i + 1
        },
        None => 0,
    };
    Some(i)
}

pub fn previous(selected: Option<usize>, item_count: usize) -> (r: Option<usize>)
    ensures
        r == previous_index(selected, item_count as nat),
        selection_valid(r, item_count as nat),
        item_count == 0 ==> r is None,
        item_count > 0 && selected == Some(0usize) ==> r == Some((item_count - 1) as usize),
{
    if item_count == 0 {
        return None;
    }
    let i: usize = match selected {
        Some(i) => if i == 0 || i > item_count {
            item_count - 1
        } else {
            i - 1
        },
        None => 0,
    };
    Some(i)
}

pub fn clamp(selected: Option<usize>, item_count: usize) -> (r: Option<usize>)
    ensures
        r == clamped_index(selected, item_count as nat),
        selection_valid(r, item_count as nat),
        selection_valid(selected, item_count as nat) ==> r == selected,
{
    if item_count == 0 {
        return None;
    }
    match selected {
        Some(i) => if i >= item_count {
            Some(item_count - 1)
        } else {
            Some(i)
        },
        None => Some(0),
    }
}

} // verus!
