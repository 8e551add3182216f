//! Presentation rules of a workspace row in the sidebar: its activity
//! indicator and its position label.

use vstd::prelude::*;

use crate::text::{dec, push_decimal};

verus! {

/// Milliseconds of quiet after which an active row turns idle.
pub const ACTIVITY_IDLE_DELAY_MS: u64 = 1_200;

/// Rows from the tenth on show no position number.
pub const MAX_NUMBERED_POSITION: usize = 9;

/// Visual state of a workspace row's activity indicator.
#[derive(Debug, Clone, Copy, PartialEq, Eq, Structural)]
pub enum ActivityState {
    /// No unread activity.
    Quiet,
    /// A terminal is producing output.
    Active,
    /// Output was produced but has since stopped.
    Idle,
}

impl ActivityState {
    /// Whether the row shows any activity.
    pub fn has_activity(self) -> (b: bool)
        ensures
            b == !(self is Quiet),
    {
        !matches!(self, ActivityState::Quiet)
    }

    /// The style class that draws the indicator.
    pub fn css_class(self) -> (c: Option<&'static str>)
        ensures
            match self {
                ActivityState::Quiet => c is None,
                ActivityState::Active => c matches Some(s) && s@ == "session-activity-active"@,
                ActivityState::Idle => c matches Some(s) && s@ == "session-activity-idle"@,
            },
    {
        match self {
            ActivityState::Quiet => None,
            ActivityState::Active => Some("session-activity-active"),
            ActivityState::Idle => Some("session-activity-idle"),
        }
    }

    /// The row's tooltip.
    pub fn tooltip(self) -> (t: Option<&'static str>)
        ensures
            match self {
                ActivityState::Quiet => t is None,
                ActivityState::Active => t matches Some(s) && s@ == "Background activity is ongoing"@,
                ActivityState::Idle => t matches Some(s) && s@ == "Unread activity in this workspace"@,
            },
    {
        match self {
            ActivityState::Quiet => None,
            ActivityState::Active => Some("Background activity is ongoing"),
            ActivityState::Idle => Some("Unread activity in this workspace"),
        }
    }
}

/// The number shown on the row at zero-based `position`: its one-based
/// position for the first nine rows, nothing after.
pub fn position_label(position: usize) -> (r: Option<String>)
    ensures
        position < MAX_NUMBERED_POSITION ==> (r matches Some(s) && s@ == dec(position as nat + 1)),
        position >= MAX_NUMBERED_POSITION ==> r is None,
{
    if position < MAX_NUMBERED_POSITION {
        let mut s = String::new();
        push_decimal(&mut s, (position + 1) as u64);
        Some(s)
    } else {
        None
    }
}

} // verus!
