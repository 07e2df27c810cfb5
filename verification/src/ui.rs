//! The computable part of rendering.
//!
//! Layout and styling are a presentational mapping from state to text and
//! live outside the library; what is verified here is the text shown in the
//! status area and the scroll arithmetic that keeps the focused row visible
//! without underflowing.

use vstd::prelude::*;

use crate::app::AppState;

verus! {

/// The status-area caption for a mode; an error shows its own message.
pub open spec fn spec_status_text(state: AppState) -> Seq<char> {
    match state {
        AppState::Idle => "Idle"@,
        AppState::RunningCode => "Running code"@,
        AppState::Breakpoint => "Breakpoint"@,
        AppState::Error(e) => e@,
    }
}

/// The text the status area shows for a mode.
pub fn status_text(state: &AppState) -> (r: String)
    ensures
        r@ == spec_status_text(*state),
{
    match state {
        AppState::Idle => "Idle".to_owned(),
        AppState::RunningCode => "Running code".to_owned(),
        AppState::Breakpoint => "Breakpoint".to_owned(),
        AppState::Error(e) => e.clone(),
    }
}

/// How far a panel scrolls so that the focused row sits near the middle:
/// nothing when the contents fit, otherwise the focused row minus half the
/// panel height, clamped at the top.
pub open spec fn spec_scroll_offset(contents_height: u16, panel_height: u16, anchor: u16) -> u16 {
    if contents_height > panel_height {
        if anchor > panel_height / 2 {
            (anchor - panel_height / 2) as u16
        } else {
            0
        }
    } else {
        0
    }
}

/// Compute a panel's scroll offset from the height of its contents, its
/// own height, and the row that must stay visible.
pub fn scroll_offset(contents_height: u16, panel_height: u16, anchor: u16) -> (r: u16)
    ensures
        r == spec_scroll_offset(contents_height, panel_height, anchor),
{
    if contents_height > panel_height {
        let half = panel_height / 2;
        if anchor > half {
            anchor - half
        } else {
            0
        }
    } else {
        0
    }
}

} // verus!
