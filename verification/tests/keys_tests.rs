use hyprscreen::annotate::{tool_draws_by_drag, tool_for_key, Tool};
use hyprscreen::dock::{dock_command, DockCommand, DockKey, Mode, Target};

#[test]
fn dock_shortcuts() {
    assert_eq!(dock_command(DockKey::Enter, true, true), DockCommand::Fire);
    assert_eq!(dock_command(DockKey::Enter, false, true), DockCommand::Swallow);
    assert_eq!(dock_command(DockKey::Digit(1), true, true), DockCommand::SelectTarget(Target::Area));
    assert_eq!(dock_command(DockKey::Digit(2), true, true), DockCommand::SelectTarget(Target::Window));
    assert_eq!(dock_command(DockKey::Digit(3), true, true), DockCommand::SelectTarget(Target::Monitor));
    assert_eq!(dock_command(DockKey::Digit(4), true, true), DockCommand::Pass);
    assert_eq!(dock_command(DockKey::Letter('S'), true, true), DockCommand::SelectMode(Mode::Screenshot));
    assert_eq!(dock_command(DockKey::Letter('r'), true, true), DockCommand::SelectMode(Mode::Record));
    assert_eq!(dock_command(DockKey::Letter('d'), true, true), DockCommand::CycleDelay);
    assert_eq!(dock_command(DockKey::Letter('P'), true, true), DockCommand::TogglePointer);
    assert_eq!(dock_command(DockKey::Letter('p'), true, false), DockCommand::Swallow);
    assert_eq!(dock_command(DockKey::Letter('x'), true, true), DockCommand::Pass);
    assert_eq!(dock_command(DockKey::Question, true, true), DockCommand::ToggleCheatsheet);
    assert_eq!(dock_command(DockKey::Slash, true, true), DockCommand::ToggleCheatsheet);
    assert_eq!(dock_command(DockKey::Escape, true, true), DockCommand::Quit);
    assert_eq!(dock_command(DockKey::Other, true, true), DockCommand::Pass);
}

#[test]
fn annotation_tool_keys() {
    let expected = [
        ('v', Tool::Select),
        ('A', Tool::Arrow),
        ('d', Tool::Draw),
        ('B', Tool::Box),
        ('t', Tool::Text),
        ('N', Tool::Step),
        ('h', Tool::Highlight),
        ('L', Tool::Blur),
    ];
    for (key, tool) in expected {
        assert_eq!(tool_for_key(key), Some(tool));
    }
    assert_eq!(tool_for_key('z'), None);
    assert!(tool_draws_by_drag(Tool::Arrow));
    assert!(!tool_draws_by_drag(Tool::Text));
    assert!(!tool_draws_by_drag(Tool::Select));
}
