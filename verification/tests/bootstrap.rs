use game_core::config::GameConfig;
use game_core::errors::GameError;
use game_core::game::Game;
use game_core::machine::Phase;
use game_core::overlay::Overlay;
use game_core::protocol::{Action, Event, Moment};
use std::path::PathBuf;

fn boot_config(level_index: usize) -> GameConfig {
    GameConfig {
        wad_file: PathBuf::from("doom1.wad"),
        metadata_file: PathBuf::from("doom.toml"),
        level_index,
        fov_bits: 65.0f32.to_bits(),
        width: 1280,
        height: 720,
    }
}

/// Answers every action with success, from an archive of `num_levels` levels
/// and a clock that always reads `now`.
fn boot_answer(action: &Action, num_levels: usize, now: u64) -> Event {
    match action {
        Action::OpenArchive { .. } => Event::ArchiveOpened { num_levels },
        Action::ReadClock { .. } => Event::Clock(now),
        Action::PollGesture { .. } => Event::Polled(false),
        _ => Event::Done,
    }
}

fn boot_drive(game: &mut Game, num_levels: usize, steps: usize) -> Vec<Action> {
    let mut done = Vec::new();
    for _ in 0..steps {
        let action = game.pending();
        let event = boot_answer(&action, num_levels, 1_000);
        done.push(action);
        game.advance(event);
    }
    done
}

fn bootstrap_order() -> Vec<Action> {
    vec![
        Action::InitPlatform,
        Action::CreateWindow { width: 1280, height: 720 },
        Action::OpenArchive {
            wad_file: PathBuf::from("doom1.wad"),
            metadata_file: PathBuf::from("doom.toml"),
        },
        Action::BuildTextures,
        Action::CreateSceneBuilder,
        Action::BuildLevel { level_index: 2 },
        Action::BuildScene,
        Action::CreatePlayer { fov_bits: 65.0f32.to_bits(), widen_by: (6, 5) },
        Action::PlacePlayer,
        Action::CreateController,
        Action::CreateTextRenderer,
    ]
}

#[test]
fn first_action_is_the_platform() {
    let game = Game::new(boot_config(0));
    assert_eq!(game.pending(), Action::InitPlatform);
    assert_eq!(game.phase(), &Phase::InitPlatform);
    assert!(!game.is_over());
}

#[test]
fn new_game_starts_grabbed_and_running() {
    let game = Game::new(boot_config(3));
    assert!(game.mouse_grabbed());
    assert!(game.is_running());
    assert_eq!(game.config(), &boot_config(3));
    assert_eq!(game.telemetry().frames(), 0);
    assert_eq!(game.telemetry().sim_ticks(), 0);
    assert_eq!(game.telemetry().cpu_nanos(), 0);
}

#[test]
fn bootstrap_runs_in_order() {
    let mut game = Game::new(boot_config(2));
    let done = boot_drive(&mut game, 9, 11);
    assert_eq!(done, bootstrap_order());
    assert_eq!(game.pending(), Action::Assemble);
}

#[test]
fn player_is_placed_after_the_level_is_built() {
    let mut game = Game::new(boot_config(2));
    let done = boot_drive(&mut game, 9, 11);
    let level = done.iter().position(|a| matches!(a, Action::BuildLevel { .. })).unwrap();
    let scene = done.iter().position(|a| *a == Action::BuildScene).unwrap();
    let player = done.iter().position(|a| matches!(a, Action::CreatePlayer { .. })).unwrap();
    let placed = done.iter().position(|a| *a == Action::PlacePlayer).unwrap();
    assert!(level < scene);
    assert!(scene < player);
    assert!(player < placed);
}

#[test]
fn prologue_registers_the_help_texts() {
    let mut game = Game::new(boot_config(0));
    boot_drive(&mut game, 1, 11);
    let done = boot_drive(&mut game, 1, 5);
    assert_eq!(
        done,
        vec![
            Action::Assemble,
            Action::InsertOverlay { overlay: Overlay::ShortHelp, x: 0, y: 0, z_order: 6 },
            Action::InsertOverlay { overlay: Overlay::LongHelp, x: 0, y: 0, z_order: 6 },
            Action::SetOverlayVisible { overlay: Overlay::LongHelp, visible: false },
            Action::ReadClock { moment: Moment::LoopStart },
        ]
    );
    assert_eq!(game.pending(), Action::AcquireFrame);
    assert_eq!(game.last_frame(), 1_000);
    assert!(game.visibility().short_help);
    assert!(!game.visibility().long_help);
}

#[test]
fn level_index_equal_to_num_levels_is_refused() {
    let mut game = Game::new(boot_config(9));
    let done = boot_drive(&mut game, 9, 3);
    assert_eq!(done, bootstrap_order_prefix(9));
    let error = GameError::Config { level_index: 9, num_levels: 9 };
    assert_eq!(game.pending(), Action::Fail { error: error.clone() });
    assert_eq!(game.phase(), &Phase::Failed(error));
    assert!(game.is_over());
}

fn bootstrap_order_prefix(level_index: usize) -> Vec<Action> {
    let _ = level_index;
    bootstrap_order().into_iter().take(3).collect()
}

#[test]
fn level_index_beyond_num_levels_is_refused() {
    let mut game = Game::new(boot_config(40));
    boot_drive(&mut game, 9, 3);
    match game.pending() {
        Action::Fail { error } => {
            assert!(error.is_config());
            assert_eq!(
                error.message(),
                "Level index was 40, must be between 0..8, run with --list-levels to see names."
            );
        }
        other => panic!("unexpected action {:?}", other),
    }
}

#[test]
fn last_level_index_is_accepted() {
    let mut game = Game::new(boot_config(8));
    boot_drive(&mut game, 9, 3);
    assert_eq!(game.pending(), Action::BuildTextures);
}

#[test]
fn refused_game_asks_for_nothing_more() {
    let mut game = Game::new(boot_config(9));
    boot_drive(&mut game, 9, 3);
    let done = boot_drive(&mut game, 9, 10);
    let error = GameError::Config { level_index: 9, num_levels: 9 };
    assert!(done.iter().all(|a| *a == Action::Fail { error: error.clone() }));
}

#[test]
fn empty_archive_refuses_every_index() {
    let mut game = Game::new(boot_config(0));
    boot_drive(&mut game, 0, 3);
    assert_eq!(
        game.pending(),
        Action::Fail { error: GameError::Config { level_index: 0, num_levels: 0 } }
    );
}

fn fail_at(step: usize, diagnostic: &str) -> Action {
    let mut game = Game::new(boot_config(2));
    boot_drive(&mut game, 9, step);
    game.advance(Event::Failed(String::from(diagnostic)));
    assert!(game.is_over());
    game.pending()
}

#[test]
fn platform_failure_is_a_platform_error() {
    assert_eq!(
        fail_at(0, "no video device"),
        Action::Fail { error: GameError::Platform(String::from("no video device")) }
    );
}

#[test]
fn window_failure_is_a_graphics_error() {
    assert_eq!(
        fail_at(1, "no context"),
        Action::Fail { error: GameError::Graphics(String::from("no context")) }
    );
}

#[test]
fn archive_failure_is_an_archive_error() {
    assert_eq!(
        fail_at(2, "not a wad"),
        Action::Fail { error: GameError::Archive(String::from("not a wad")) }
    );
}

#[test]
fn texture_failure_is_a_texture_error() {
    assert_eq!(
        fail_at(3, "missing PLAYPAL"),
        Action::Fail { error: GameError::Texture(String::from("missing PLAYPAL")) }
    );
}

#[test]
fn level_failure_is_a_level_build_error() {
    assert_eq!(
        fail_at(5, "bad nodes"),
        Action::Fail { error: GameError::LevelBuild(String::from("bad nodes")) }
    );
}

#[test]
fn scene_failure_is_a_graphics_error() {
    assert_eq!(
        fail_at(6, "shader"),
        Action::Fail { error: GameError::Graphics(String::from("shader")) }
    );
}

#[test]
fn event_pump_failure_is_a_platform_error() {
    assert_eq!(
        fail_at(9, "pump taken"),
        Action::Fail { error: GameError::Platform(String::from("pump taken")) }
    );
}

#[test]
fn text_renderer_failure_is_a_graphics_error() {
    assert_eq!(
        fail_at(10, "font"),
        Action::Fail { error: GameError::Graphics(String::from("font")) }
    );
}

#[test]
fn steps_that_cannot_fail_ignore_a_failure() {
    for step in [4usize, 7, 8] {
        let mut game = Game::new(boot_config(2));
        boot_drive(&mut game, 9, step);
        let before = game.pending();
        game.advance(Event::Failed(String::from("ignored")));
        assert_eq!(game.pending(), before);
        assert!(!game.is_over());
    }
}

#[test]
fn events_that_do_not_answer_are_ignored() {
    let mut game = Game::new(boot_config(2));
    game.advance(Event::Polled(true));
    game.advance(Event::Clock(7));
    game.advance(Event::ArchiveOpened { num_levels: 1 });
    assert_eq!(game.pending(), Action::InitPlatform);
    boot_drive(&mut game, 9, 2);
    game.advance(Event::Done);
    assert_eq!(
        game.pending(),
        Action::OpenArchive {
            wad_file: PathBuf::from("doom1.wad"),
            metadata_file: PathBuf::from("doom.toml"),
        }
    );
}

#[test]
fn run_hands_out_the_next_action() {
    let mut game = Game::new(boot_config(0));
    assert_eq!(game.run(Event::Done), Action::CreateWindow { width: 1280, height: 720 });
    assert_eq!(
        game.run(Event::Failed(String::from("no display"))),
        Action::Fail { error: GameError::Graphics(String::from("no display")) }
    );
    assert!(game.pending().is_final());
}
