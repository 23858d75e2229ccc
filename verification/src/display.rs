//! Presentation mode: the full-screen display state without window
//! decorations, and the commands that enter, leave and toggle it.
//!
//! The display itself belongs to the caller. The functions here say which
//! commands to send it and in what order; [`DisplayState::apply_all`]
//! says what they do to a display that obeys them.

use vstd::prelude::*;

verus! {

/// One command to the display.
#[derive(Clone, Copy, Debug, PartialEq, Eq, Structural)]
pub enum DisplayCommand {
    /// Switch full screen on or off.
    SetFullscreen(bool),
    /// Switch the window decorations on or off.
    SetDecorations(bool),
}

/// What the toggle needs to know of the display, and what commands change.
#[derive(Clone, Copy, Debug, PartialEq, Eq, Structural)]
pub struct DisplayState {
    pub focused: bool,
    pub fullscreen: bool,
    pub decorated: bool,
}

/// The commands that enter presentation mode.
pub open spec fn enter_commands() -> Seq<DisplayCommand> {
    seq![DisplayCommand::SetFullscreen(true), DisplayCommand::SetDecorations(false)]
}

/// The commands that leave presentation mode.
pub open spec fn exit_commands() -> Seq<DisplayCommand> {
    seq![DisplayCommand::SetDecorations(true), DisplayCommand::SetFullscreen(false)]
}

/// What a state query answered; a query that failed counts as `false`.
pub open spec fn answered(query: Option<bool>) -> bool {
    match query {
        Some(answer) => answer,
        None => false,
    }
}

/// The commands of one toggle: none while the surface lacks focus, else
/// those that leave presentation mode if it is on and enter it if it is
/// off.
pub open spec fn toggle_commands(focused: Option<bool>, fullscreen: Option<bool>) -> Seq<
    DisplayCommand,
> {
    if !answered(focused) {
        Seq::empty()
    } else if answered(fullscreen) {
        exit_commands()
    } else {
        enter_commands()
    }
}

impl DisplayState {
    /// The state after the display has obeyed one command.
    pub open spec fn apply(self, command: DisplayCommand) -> DisplayState {
        match command {
            DisplayCommand::SetFullscreen(on) => DisplayState { fullscreen: on, ..self },
            DisplayCommand::SetDecorations(on) => DisplayState { decorated: on, ..self },
        }
    }

    /// The state after the display has obeyed the commands in order.
    pub open spec fn apply_all(self, commands: Seq<DisplayCommand>) -> DisplayState
        decreases commands.len(),
    {
        if commands.len() == 0 {
            self
        } else {
            self.apply_all(commands.drop_last()).apply(commands.last())
        }
    }

    /// Whether the display is in presentation mode.
    pub open spec fn presenting(self) -> bool {
        self.fullscreen && !self.decorated
    }
}

/// The commands that put the display into presentation mode: full screen
/// first, then the decorations off.
pub fn enter_presentation() -> (commands: Vec<DisplayCommand>)
    ensures
        commands@ == enter_commands(),
{
    let commands = vec![DisplayCommand::SetFullscreen(true), DisplayCommand::SetDecorations(false)];
    assert(commands@ =~= enter_commands());
    commands
}

/// The commands that take the display out of presentation mode: the
/// decorations back first, then full screen off.
pub fn exit_presentation() -> (commands: Vec<DisplayCommand>)
    ensures
        commands@ == exit_commands(),
{
    let commands = vec![DisplayCommand::SetDecorations(true), DisplayCommand::SetFullscreen(false)];
    assert(commands@ =~= exit_commands());
    commands
}

/// The commands for one press of the toggle, given what the display
/// answered when asked whether it has focus and whether it is full screen.
/// `None` stands for a query that failed and counts as `false`.
pub fn toggle_presentation(focused: Option<bool>, fullscreen: Option<bool>) -> (commands: Vec<
    DisplayCommand,
>)
    ensures
        commands@ == toggle_commands(focused, fullscreen),
{
    if !focused.unwrap_or(false) {
        Vec::new()
    } else if fullscreen.unwrap_or(false) {
        exit_presentation()
    } else {
        enter_presentation()
    }
}

proof fn lemma_apply_pair(state: DisplayState, first: DisplayCommand, second: DisplayCommand)
    ensures
        state.apply_all(seq![first, second]) == state.apply(first).apply(second),
{
    let both = seq![first, second];
    let one = seq![first];
    assert(both.drop_last() =~= one);
    assert(one.drop_last() =~= Seq::<DisplayCommand>::empty());
    assert(state.apply_all(one.drop_last()) == state);
    assert(state.apply_all(one) == state.apply(first));
}

/// A toggle while the surface lacks focus, or while its focus cannot be
/// told, changes nothing on the display.
pub proof fn lemma_unfocused_toggle_changes_nothing(
    state: DisplayState,
    focused: Option<bool>,
    fullscreen: Option<bool>,
)
    requires
        !answered(focused),
    ensures
        toggle_commands(focused, fullscreen).len() == 0,
        state.apply_all(toggle_commands(focused, fullscreen)) == state,
{
}

/// A toggle on a focused surface flips presentation mode: it is off
/// afterwards if the display was full screen and on if it was not. Focus
/// is left as it was.
pub proof fn lemma_focused_toggle_flips(state: DisplayState)
    requires
        state.focused,
    ensures
        ({
            let after = state.apply_all(
                toggle_commands(Some(state.focused), Some(state.fullscreen)),
            );
            &&& after.focused == state.focused
            &&& after.fullscreen == !state.fullscreen
            &&& after.decorated == state.fullscreen
            &&& after.presenting() == !state.fullscreen
        }),
{
    lemma_apply_pair(
        state,
        DisplayCommand::SetFullscreen(true),
        DisplayCommand::SetDecorations(false),
    );
    lemma_apply_pair(
        state,
        DisplayCommand::SetDecorations(true),
        DisplayCommand::SetFullscreen(false),
    );
}

} // verus!
