//! The selected row of a table.

use ratatui::widgets::TableState;
use vstd::prelude::*;

verus! {

/// The selected row of a table, and the first row that is shown. The row may
/// lie beyond the table; drawing the table brings it back.
#[derive(Debug, Clone, Copy, PartialEq, Eq, Structural)]
pub struct Selection {
    pub selected: Option<usize>,
    pub offset: usize,
}

/// Another row is selected. Without one the table is shown from its start.
pub open spec fn selecting(selection: Selection, selected: Option<usize>) -> Selection {
    Selection {
        selected,
        offset: if selected is None {
            0
        } else {
            selection.offset
        },
    }
}

/// The row below, the first row if none was selected.
pub open spec fn row_below(selection: Selection) -> usize {
    match selection.selected {
        Some(row) => if row < usize::MAX {
            (row + 1) as usize
        } else {
            usize::MAX
        },
        None => 0,
    }
}

/// The row above, the last possible one if none was selected.
pub open spec fn row_above(selection: Selection) -> usize {
    match selection.selected {
        Some(row) => if row > 0 {
            (row - 1) as usize
        } else {
            0
        },
        None => usize::MAX,
    }
}

/// `TableState::select` of ratatui.
#[verifier::external_body]
pub(crate) fn select(selection: Selection, selected: Option<usize>) -> (after: Selection)
    ensures
        after == selecting(selection, selected),
{
    let mut state = TableState::new().with_selected(selection.selected).with_offset(
        selection.offset,
    );
    state.select(selected);
    Selection { selected: state.selected(), offset: state.offset() }
}

/// `TableState::select_next` of ratatui: one row down, as far as a `usize`
/// goes.
#[verifier::external_body]
pub(crate) fn select_next(selection: Selection) -> (after: Selection)
    ensures
        after == selecting(selection, Some(row_below(selection))),
{
    let mut state = TableState::new().with_selected(selection.selected).with_offset(
        selection.offset,
    );
    state.select_next();
    Selection { selected: state.selected(), offset: state.offset() }
}

/// `TableState::select_previous` of ratatui: one row up, as far as there is
/// one.
#[verifier::external_body]
pub(crate) fn select_previous(selection: Selection) -> (after: Selection)
    ensures
        after == selecting(selection, Some(row_above(selection))),
{
    let mut state = TableState::new().with_selected(selection.selected).with_offset(
        selection.offset,
    );
    state.select_previous();
    Selection { selected: state.selected(), offset: state.offset() }
}

/// `TableState::select_first` of ratatui.
#[verifier::external_body]
pub(crate) fn select_first(selection: Selection) -> (after: Selection)
    ensures
        after == selecting(selection, Some(0)),
{
    let mut state = TableState::new().with_selected(selection.selected).with_offset(
        selection.offset,
    );
    state.select_first();
    Selection { selected: state.selected(), offset: state.offset() }
}

/// `TableState::select_last` of ratatui: the last row that any table can have.
#[verifier::external_body]
pub(crate) fn select_last(selection: Selection) -> (after: Selection)
    ensures
        after == selecting(selection, Some(usize::MAX)),
{
    let mut state = TableState::new().with_selected(selection.selected).with_offset(
        selection.offset,
    );
    state.select_last();
    Selection { selected: state.selected(), offset: state.offset() }
}

/// The selection brought back into a table of `count` rows: none in an empty
/// table, the last row instead of one beyond it.
pub open spec fn clamped(selection: Selection, count: nat) -> Selection {
    if count == 0 {
        selecting(selection, None)
    } else {
        match selection.selected {
            Some(row) if row >= count => selecting(selection, Some((count - 1) as usize)),
            _ => selection,
        }
    }
}

/// Brings the selection back into a table of `count` rows.
pub fn clamp(selection: Selection, count: usize) -> (after: Selection)
    ensures
        after == clamped(selection, count as nat),
{
    if count == 0 {
        select(selection, None)
    } else if let Some(row) = selection.selected {
        if row >= count {
            select(selection, Some(count - 1))
        } else {
            selection
        }
    } else {
        selection
    }
}

/// After clamping, a selected row is a row of the table.
pub proof fn clamped_row_exists(selection: Selection, count: nat)
    requires
        count <= usize::MAX,
    ensures
        clamped(selection, count).selected matches Some(row) ==> row < count,
{
}

/// Clamping changes nothing about a row that exists, and clamping twice is
/// clamping once.
pub proof fn clamping_is_stable(selection: Selection, count: nat)
    requires
        count <= usize::MAX,
    ensures
        (selection.selected matches Some(row) && row < count) ==> clamped(selection, count)
            == selection,
        clamped(clamped(selection, count), count) == clamped(selection, count),
{
}

/// One row down and one row up again is the same row.
pub proof fn below_and_above(selection: Selection)
    requires
        selection.selected is Some,
        selection.selected->0 < usize::MAX,
    ensures
        row_above(selecting(selection, Some(row_below(selection)))) == selection.selected->0,
{
}

/// One row down is the next row, and the first one where none was selected; at the
/// last possible row it goes no further.
pub proof fn going_down(selection: Selection)
    ensures
        selection.selected is None ==> row_below(selection) == 0,
        selection.selected matches Some(row) ==> {
            &&& row < usize::MAX ==> row_below(selection) == row + 1
            &&& row == usize::MAX ==> row_below(selection) == row
        },
{
}

/// One row up is the row before, and the last possible one where none was selected;
/// at the first row it goes no further.
pub proof fn going_up(selection: Selection)
    ensures
        selection.selected is None ==> row_above(selection) == usize::MAX,
        selection.selected matches Some(row) ==> {
            &&& row > 0 ==> row_above(selection) == row - 1
            &&& row == 0 ==> row_above(selection) == 0
        },
{
}

/// Selecting a row selects that row and does not scroll; selecting none goes back to
/// the start.
pub proof fn what_is_selected_is_selected(selection: Selection, selected: Option<usize>)
    ensures
        selecting(selection, selected).selected == selected,
        selected is Some ==> selecting(selection, selected).offset == selection.offset,
        selected is None ==> selecting(selection, selected).offset == 0,
{
}

/// Clamping to a table that has rows keeps rows that exist and no selection, turns
/// any row beyond the table into its last one, and does not scroll. In an empty
/// table nothing is selected and nothing is scrolled.
pub proof fn clamping_moves_only_what_is_beyond(selection: Selection, count: nat)
    requires
        count <= usize::MAX,
    ensures
        count > 0 ==> {
            let after = clamped(selection, count);
            &&& after.offset == selection.offset
            &&& selection.selected is None ==> after.selected is None
            &&& selection.selected matches Some(row) ==> {
                &&& after.selected is Some
                &&& row < count ==> after.selected->0 == row
                &&& row >= count ==> after.selected->0 == count - 1
            }
        },
        count == 0 ==> clamped(selection, count) == (Selection { selected: None, offset: 0 }),
{
}

} // verus!
