//! Input groups, focus and the interaction state that views show.

use vstd::prelude::*;

verus! {

/// A set of input groups, one bit per group.
#[derive(Debug, Clone, Copy, PartialEq, Eq, Structural)]
pub struct Groups(pub u32);

impl Groups {
    /// No groups.
    pub fn default() -> (r: Groups)
        ensures
            r == Groups(0),
    {
        Groups(0)
    }

    /// The groups in either set.
    pub fn union(self, other: Groups) -> (r: Groups)
        ensures
            r == Groups(self.0 | other.0),
    {
        Groups(self.0 | other.0)
    }

    /// The groups in both sets.
    pub fn intersection(self, other: Groups) -> (r: Groups)
        ensures
            r == Groups(self.0 & other.0),
    {
        Groups(self.0 & other.0)
    }

    /// Whether the set holds no group.
    pub fn is_empty(self) -> (r: bool)
        ensures
            r == (self.0 == 0),
    {
        self.0 == 0
    }
}

/// Which groups a focusable view belongs to, and in which of them it holds focus.
#[derive(Debug, Clone, Copy, PartialEq, Eq, Structural)]
pub struct FocusState {
    pub member: Groups,
    pub focused: Groups,
}

impl FocusState {
    /// An unfocused member of `groups`.
    pub fn new(groups: Groups) -> (r: FocusState)
        ensures
            r == (FocusState { member: groups, focused: Groups(0) }),
    {
        FocusState { member: groups, focused: Groups(0) }
    }

    /// Whether the view belongs to any of `groups`.
    pub fn is_member_of_any(&self, groups: Groups) -> (r: bool)
        ensures
            r == (self.member.0 & groups.0 != 0),
    {
        self.member.0 & groups.0 != 0
    }

    /// Whether the view holds focus in any of `groups`.
    pub fn is_focused_any(&self, groups: Groups) -> (r: bool)
        ensures
            r == (self.focused.0 & groups.0 != 0),
    {
        self.focused.0 & groups.0 != 0
    }

    /// Takes focus in those of `groups` the view belongs to.
    pub fn focus(&mut self, groups: Groups)
        ensures
            final(self).member == old(self).member,
            final(self).focused.0 == old(self).focused.0 | (groups.0 & old(self).member.0),
    {
        self.focused = Groups(self.focused.0 | (groups.0 & self.member.0));
    }

    /// Gives up focus in `groups`.
    pub fn blur(&mut self, groups: Groups)
        ensures
            final(self).member == old(self).member,
            final(self).focused.0 == old(self).focused.0 & !groups.0,
    {
        self.focused = Groups(self.focused.0 & !groups.0);
    }
}

/// How a view is being interacted with, one bit per kind of interaction.
#[derive(Debug, Clone, Copy, PartialEq, Eq, Structural)]
pub struct Interaction(pub u8);

/// The bit of a pressed view.
pub const PRESSED: u8 = 1u8;

/// The bit of a focused view.
pub const FOCUSED: u8 = 2u8;

impl Interaction {
    /// No interaction.
    pub fn new() -> (r: Interaction)
        ensures
            r == Interaction(0),
    {
        Interaction(0)
    }

    /// The same interaction with the bits of `flag` set when `condition` holds.
    pub fn with(self, condition: bool, flag: u8) -> (r: Interaction)
        ensures
            r == (if condition { Interaction(self.0 | flag) } else { self }),
    {
        if condition { Interaction(self.0 | flag) } else { self }
    }

    /// Whether the view is pressed.
    pub fn is_pressed(self) -> (r: bool)
        ensures
            r == (self.0 & PRESSED != 0),
    {
        self.0 & PRESSED != 0
    }

    /// Whether the view is focused.
    pub fn is_focused(self) -> (r: bool)
        ensures
            r == (self.0 & FOCUSED != 0),
    {
        self.0 & FOCUSED != 0
    }
}

/// A focus group, identified by a number.
#[derive(Debug, Clone, Copy, PartialEq, Eq, Structural)]
pub struct FocusGroup(pub u8);

/// The direction focus moves in.
#[derive(Debug, Clone, Copy, PartialEq, Eq, Structural)]
pub enum FocusDirection {
    Forward,
    Backward,
}

/// A request made to the focus tree of a view.
#[derive(Debug, Clone, Copy, PartialEq, Eq, Structural)]
pub enum FocusAction {
    /// Move focus to the next element.
    Next,
    /// Move focus to the previous element.
    Previous,
    /// Take focus, entering from the given direction.
    Focus(FocusDirection),
    /// Give up focus.
    Blur,
    /// Activate the focused element.
    Select,
    /// Drop the focus tree without further action.
    Teardown,
}

/// What happens when focus moves past either end of a group.
#[derive(Debug, Clone, Copy, PartialEq, Eq, Structural)]
pub enum BoundaryBehavior {
    /// Focus stays on the last element reached.
    Stop,
    /// Focus wraps around to the other end.
    Wrap,
}

/// What a view answers to a focus request or an event routed by focus.
#[derive(Debug, Clone, Copy, PartialEq, Eq, Structural)]
pub enum FocusResult {
    /// Not handled: let another view try.
    Deferred,
    /// Handled, and the view now holds focus.
    HandledFocused,
    /// Handled, and the view no longer holds focus.
    HandledUnfocused,
    /// Handled, possibly asking for focus in a group.
    Handled { request_focus: bool, group: FocusGroup },
}

impl FocusResult {
    /// Whether the request was handled.
    pub fn is_handled(self) -> (r: bool)
        ensures
            r == !(self is Deferred),
    {
        !matches!(self, FocusResult::Deferred)
    }

    /// Whether the view asked for focus.
    pub fn requested_focus(self) -> (r: bool)
        ensures
            r == (self matches FocusResult::Handled { request_focus, .. } && request_focus),
    {
        match self {
            FocusResult::Handled { request_focus, .. } => request_focus,
            _ => false,
        }
    }
}

} // verus!
