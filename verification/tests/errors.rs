use game_core::errors::{append_decimal, GameError, Source};

fn decimal_text(n: usize) -> String {
    let mut text = String::new();
    append_decimal(&mut text, n);
    text
}

#[test]
fn decimal_notation() {
    assert_eq!(decimal_text(0), "0");
    assert_eq!(decimal_text(7), "7");
    assert_eq!(decimal_text(10), "10");
    assert_eq!(decimal_text(109), "109");
    assert_eq!(decimal_text(1_234_567_890), "1234567890");
    assert_eq!(decimal_text(usize::MAX), usize::MAX.to_string());
}

#[test]
fn decimal_is_appended() {
    let mut text = String::from("n = ");
    append_decimal(&mut text, 42);
    assert_eq!(text, "n = 42");
}

#[test]
fn config_error_names_the_range() {
    let error = GameError::Config { level_index: 12, num_levels: 9 };
    assert_eq!(
        error.message(),
        "Level index was 12, must be between 0..8, run with --list-levels to see names."
    );
    assert!(error.is_config());
}

#[test]
fn config_error_for_a_single_level() {
    let error = GameError::Config { level_index: 1, num_levels: 1 };
    assert_eq!(
        error.message(),
        "Level index was 1, must be between 0..0, run with --list-levels to see names."
    );
}

#[test]
fn config_error_for_an_empty_archive_wraps() {
    let error = GameError::Config { level_index: 0, num_levels: 0 };
    assert_eq!(
        error.message(),
        format!(
            "Level index was 0, must be between 0..{}, run with --list-levels to see names.",
            usize::MAX
        )
    );
}

#[test]
fn diagnostics_are_kept_as_they_came() {
    let text = "  SDL: No available video device!\n";
    let errors = vec![
        GameError::Platform(String::from(text)),
        GameError::Graphics(String::from(text)),
        GameError::Archive(String::from(text)),
        GameError::Texture(String::from(text)),
        GameError::LevelBuild(String::from(text)),
        GameError::Frame(String::from(text)),
    ];
    for error in errors {
        assert_eq!(error.message(), text);
        assert!(!error.is_config());
        assert_eq!(error.clone(), error);
    }
}

#[test]
fn sources_make_their_errors() {
    let d = || String::from("d");
    assert_eq!(Source::Platform.into_error(d()), GameError::Platform(d()));
    assert_eq!(Source::Graphics.into_error(d()), GameError::Graphics(d()));
    assert_eq!(Source::Archive.into_error(d()), GameError::Archive(d()));
    assert_eq!(Source::Texture.into_error(d()), GameError::Texture(d()));
    assert_eq!(Source::LevelBuild.into_error(d()), GameError::LevelBuild(d()));
    assert_eq!(Source::Frame.into_error(d()), GameError::Frame(d()));
}
