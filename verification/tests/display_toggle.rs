use ndm_desktop::display::{
    enter_presentation, exit_presentation, toggle_presentation, DisplayCommand,
};

#[test]
fn entering_goes_full_screen_then_drops_decorations() {
    assert_eq!(
        enter_presentation(),
        vec![DisplayCommand::SetFullscreen(true), DisplayCommand::SetDecorations(false)]
    );
}

#[test]
fn leaving_restores_decorations_then_leaves_full_screen() {
    assert_eq!(
        exit_presentation(),
        vec![DisplayCommand::SetDecorations(true), DisplayCommand::SetFullscreen(false)]
    );
}

#[test]
fn toggle_without_focus_sends_nothing() {
    assert_eq!(toggle_presentation(Some(false), Some(false)), Vec::new());
    assert_eq!(toggle_presentation(Some(false), Some(true)), Vec::new());
    assert_eq!(toggle_presentation(Some(false), None), Vec::new());
}

#[test]
fn toggle_with_unknown_focus_sends_nothing() {
    assert_eq!(toggle_presentation(None, Some(false)), Vec::new());
    assert_eq!(toggle_presentation(None, Some(true)), Vec::new());
    assert_eq!(toggle_presentation(None, None), Vec::new());
}

#[test]
fn focused_toggle_enters_when_windowed() {
    assert_eq!(toggle_presentation(Some(true), Some(false)), enter_presentation());
}

#[test]
fn focused_toggle_leaves_when_full_screen() {
    assert_eq!(toggle_presentation(Some(true), Some(true)), exit_presentation());
}

#[test]
fn focused_toggle_with_unknown_full_screen_state_enters() {
    assert_eq!(toggle_presentation(Some(true), None), enter_presentation());
}
