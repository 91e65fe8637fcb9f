use game_core::overlay::{HelpState, Overlay, Visibility, VisibilityChange};

#[test]
fn overlay_starts_short() {
    assert_eq!(HelpState::initial(), HelpState::Short);
    assert_eq!(HelpState::initial().counter_value(), 0);
}

#[test]
fn toggle_table() {
    let after_one = HelpState::initial().toggle();
    let after_two = after_one.toggle();
    let after_three = after_two.toggle();
    let after_four = after_three.toggle();
    assert_eq!(after_one, HelpState::Long);
    assert_eq!(after_two, HelpState::Hidden);
    assert_eq!(after_three, HelpState::Long);
    assert_eq!(after_four, HelpState::Hidden);
}

#[test]
fn short_is_never_entered_again() {
    let mut state = HelpState::initial();
    for n in 1..=50u32 {
        state = state.toggle();
        assert_ne!(state, HelpState::Short);
        let expected = if n % 2 == 1 { HelpState::Long } else { HelpState::Hidden };
        assert_eq!(state, expected);
    }
}

#[test]
fn counter_follows_the_formula() {
    let mut state = HelpState::initial();
    for _ in 0..10 {
        let before = state.counter_value();
        state = state.toggle();
        assert_eq!(state.counter_value(), before % 2 + 1);
    }
    assert_eq!(HelpState::Short.toggle().counter_value(), 1);
    assert_eq!(HelpState::Long.toggle().counter_value(), 2);
    assert_eq!(HelpState::Hidden.toggle().counter_value(), 1);
}

#[test]
fn visibility_records_changes() {
    let start = Visibility { short_help: true, long_help: false };
    let hidden = start.apply(VisibilityChange { overlay: Overlay::ShortHelp, visible: false });
    assert_eq!(hidden, Visibility { short_help: false, long_help: false });
    let long = hidden.apply(VisibilityChange { overlay: Overlay::LongHelp, visible: true });
    assert_eq!(long, Visibility { short_help: false, long_help: true });
    let none = long.apply(VisibilityChange { overlay: Overlay::LongHelp, visible: false });
    assert_eq!(none, Visibility { short_help: false, long_help: false });
}

#[test]
fn help_texts() {
    assert_eq!(Overlay::ShortHelp.text(), "Press 'h' for help.");
    let long = Overlay::LongHelp.text();
    assert!(long.starts_with("Use WASD or arrow keys to move and the mouse to aim.\nOther keys:\n"));
    assert!(long.contains("\n    ESC - to quit\n"));
    assert!(long.contains("\n    ` - to toggle mouse grab (backtick)\n"));
    assert!(long.ends_with("\n    h - toggle this help message"));
    assert_eq!(long.lines().count(), 8);
}
