//! Resolution of raw pointer state into the single force command of a frame.
use vstd::prelude::*;

verus! {

/// The force interaction that is active for one frame.
#[derive(Clone, Copy, Debug, PartialEq, Eq, Structural)]
pub enum ForceMode {
    Idle,
    Attract,
    Repel,
    Orbit,
}

/// Pointer buttons as sampled for one frame.
#[derive(Clone, Copy, Debug, PartialEq, Eq, Structural)]
pub struct ButtonState {
    /// The left button is down.
    pub left_held: bool,
    /// The right button went down during this frame.
    pub right_just_pressed: bool,
    /// The middle button is down.
    pub middle_held: bool,
}

/// The command that every particle of a frame is updated with. `T` is the
/// host's world-space position type.
#[derive(Clone, Copy, Debug, PartialEq, Eq)]
pub enum CursorCommand<T> {
    Idle,
    Attract(T),
    Repel(T),
    Orbit(T),
}

/// The mode chosen for given buttons: first match in the order attract, repel,
/// orbit, and only where a cursor position is known.
pub open spec fn selected_mode(b: ButtonState, has_cursor: bool) -> ForceMode {
    if !has_cursor {
        ForceMode::Idle
    } else if b.left_held {
        ForceMode::Attract
    } else if b.right_just_pressed {
        ForceMode::Repel
    } else if b.middle_held {
        ForceMode::Orbit
    } else {
        ForceMode::Idle
    }
}

/// The command for given buttons and cursor position.
pub open spec fn command_for<T>(b: ButtonState, cursor: Option<T>) -> CursorCommand<T> {
    match cursor {
        None => CursorCommand::Idle,
        Some(t) => match selected_mode(b, true) {
            ForceMode::Idle => CursorCommand::Idle,
            ForceMode::Attract => CursorCommand::Attract(t),
            ForceMode::Repel => CursorCommand::Repel(t),
            ForceMode::Orbit => CursorCommand::Orbit(t),
        },
    }
}

/// Exactly one mode per frame, by priority: with a cursor position and the
/// left button held, the command is to attract towards that position, whatever
/// the other buttons do; repel likewise outranks orbit.
pub proof fn lemma_priority_order<T>(b: ButtonState, t: T)
    ensures
        b.left_held ==> command_for(b, Some(t)) == CursorCommand::Attract(t),
        !b.left_held && b.right_just_pressed ==> command_for(b, Some(t)) == CursorCommand::Repel(t),
        command_for(b, None::<T>) == CursorCommand::<T>::Idle,
{
}

impl<T> CursorCommand<T> {
    pub open spec fn mode_of(self) -> ForceMode {
        match self {
            CursorCommand::Idle => ForceMode::Idle,
            CursorCommand::Attract(_) => ForceMode::Attract,
            CursorCommand::Repel(_) => ForceMode::Repel,
            CursorCommand::Orbit(_) => ForceMode::Orbit,
        }
    }

    pub open spec fn target_of(self) -> Option<T> {
        match self {
            CursorCommand::Idle => None,
            CursorCommand::Attract(t) => Some(t),
            CursorCommand::Repel(t) => Some(t),
            CursorCommand::Orbit(t) => Some(t),
        }
    }

    /// The active mode.
    pub fn mode(&self) -> (r: ForceMode)
        ensures
            r == self.mode_of(),
    {
        match self {
            CursorCommand::Idle => ForceMode::Idle,
            CursorCommand::Attract(_) => ForceMode::Attract,
            CursorCommand::Repel(_) => ForceMode::Repel,
            CursorCommand::Orbit(_) => ForceMode::Orbit,
        }
    }

    /// The world-space target, present exactly when a mode is active.
    pub fn target(&self) -> (r: Option<&T>)
        ensures
            r is Some <==> self.target_of() is Some,
            r is Some ==> *r->Some_0 == self.target_of()->Some_0,
    {
        match self {
            CursorCommand::Idle => None,
            CursorCommand::Attract(t) => Some(t),
            CursorCommand::Repel(t) => Some(t),
            CursorCommand::Orbit(t) => Some(t),
        }
    }
}

/// The mode for given buttons, where `has_cursor` tells whether a world
/// position of the pointer could be resolved this frame.
pub fn select_mode(buttons: ButtonState, has_cursor: bool) -> (r: ForceMode)
    ensures
        r == selected_mode(buttons, has_cursor),
{
    if !has_cursor {
        ForceMode::Idle
    } else if buttons.left_held {
        ForceMode::Attract
    } else if buttons.right_just_pressed {
        ForceMode::Repel
    } else if buttons.middle_held {
        ForceMode::Orbit
    } else {
        ForceMode::Idle
    }
}

/// The frame's command: the selected mode, aimed at the cursor position.
pub fn resolve_command<T>(buttons: ButtonState, cursor: Option<T>) -> (r: CursorCommand<T>)
    ensures
        r == command_for(buttons, cursor),
        r.mode_of() == selected_mode(buttons, cursor is Some),
        r.mode_of() != ForceMode::Idle ==> r.target_of() == cursor,
        r.mode_of() == ForceMode::Idle ==> r.target_of() is None,
{
    let mode = select_mode(buttons, cursor.is_some());
    match cursor {
        None => CursorCommand::Idle,
        Some(t) => match mode {
            ForceMode::Idle => CursorCommand::Idle,
            ForceMode::Attract => CursorCommand::Attract(t),
            ForceMode::Repel => CursorCommand::Repel(t),
            ForceMode::Orbit => CursorCommand::Orbit(t),
        },
    }
}

} // verus!
