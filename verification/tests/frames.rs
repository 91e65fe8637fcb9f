use game_core::config::GameConfig;
use game_core::errors::GameError;
use game_core::game::Game;
use game_core::gesture::{Gesture, Snapshot};
use game_core::machine::Phase;
use game_core::overlay::{HelpState, Overlay, Visibility};
use game_core::protocol::{Action, Event, Moment};
use game_core::telemetry::{Delta, Report};
use std::path::PathBuf;

/// A driver for which nothing fails: it answers polls from a snapshot and
/// clock readings from a list.
struct Stage {
    snapshot: Snapshot,
    frame_start: u64,
    update_start: u64,
    update_end: u64,
}

const QUIET: Snapshot = Snapshot { quit: false, toggle_grab: false, toggle_help: false };

impl Stage {
    fn quiet(frame_start: u64) -> Stage {
        Stage::with(QUIET, frame_start)
    }

    fn with(snapshot: Snapshot, frame_start: u64) -> Stage {
        Stage { snapshot, frame_start, update_start: frame_start + 10, update_end: frame_start + 510 }
    }

    fn answer(&self, action: &Action) -> Event {
        match action {
            Action::OpenArchive { .. } => Event::ArchiveOpened { num_levels: 4 },
            Action::ReadClock { moment: Moment::LoopStart } => Event::Clock(1_000),
            Action::ReadClock { moment: Moment::FrameStart } => Event::Clock(self.frame_start),
            Action::ReadClock { moment: Moment::UpdateStart } => Event::Clock(self.update_start),
            Action::ReadClock { moment: Moment::UpdateEnd } => Event::Clock(self.update_end),
            Action::PollGesture { gesture } => Event::Polled(self.snapshot.answer(*gesture)),
            _ => Event::Done,
        }
    }
}

fn ready_game() -> Game {
    let mut game = Game::new(GameConfig {
        wad_file: PathBuf::from("doom1.wad"),
        metadata_file: PathBuf::from("doom.toml"),
        level_index: 1,
        fov_bits: 65.0f32.to_bits(),
        width: 640,
        height: 480,
    });
    let stage = Stage::quiet(0);
    while game.pending() != Action::AcquireFrame {
        let event = stage.answer(&game.pending());
        game.advance(event);
    }
    game
}

/// Drives one frame and gives the actions performed in it.
fn play_frame(game: &mut Game, stage: &Stage) -> Vec<Action> {
    let mut done = Vec::new();
    assert_eq!(game.pending(), Action::AcquireFrame);
    loop {
        let action = game.pending();
        let last = action == Action::PresentFrame;
        let event = stage.answer(&action);
        done.push(action);
        game.advance(event);
        if last {
            return done;
        }
    }
}

fn opening() -> Vec<Action> {
    vec![
        Action::AcquireFrame,
        Action::ReadClock { moment: Moment::FrameStart },
        Action::ReadClock { moment: Moment::UpdateStart },
        Action::PollInput,
    ]
}

fn polls(gestures: &[Gesture]) -> Vec<Action> {
    gestures.iter().map(|g| Action::PollGesture { gesture: *g }).collect()
}

fn closing(delta: Delta) -> Vec<Action> {
    vec![
        Action::UpdatePlayer { delta },
        Action::SetModelview,
        Action::SetProjection,
        Action::UpdateLevel { delta },
        Action::RenderScene { delta },
        Action::RenderText,
        Action::ReadClock { moment: Moment::UpdateEnd },
        Action::PresentFrame,
    ]
}

fn frame_of(middle: Vec<Action>, delta: Delta) -> Vec<Action> {
    let mut all = opening();
    all.extend(middle);
    all.extend(closing(delta));
    all
}

#[test]
fn quiet_frame_runs_in_order() {
    let mut game = ready_game();
    let done = play_frame(&mut game, &Stage::quiet(17_001_000));
    let delta = Delta::from_nanos(17_000_000);
    assert_eq!(
        done,
        frame_of(polls(&[Gesture::Quit, Gesture::ToggleGrab, Gesture::ToggleHelp]), delta)
    );
    assert_eq!(game.pending(), Action::AcquireFrame);
    assert_eq!(game.delta(), delta);
    assert_eq!(game.last_frame(), 17_001_000);
    assert!(game.is_running());
    assert!(game.mouse_grabbed());
    assert_eq!(game.help(), HelpState::Short);
}

#[test]
fn camera_is_set_before_the_scene_is_drawn() {
    let mut game = ready_game();
    let done = play_frame(&mut game, &Stage::quiet(2_000));
    let find = |wanted: &dyn Fn(&Action) -> bool| done.iter().position(|a| wanted(a)).unwrap();
    let player = find(&|a| matches!(a, Action::UpdatePlayer { .. }));
    let modelview = find(&|a| *a == Action::SetModelview);
    let projection = find(&|a| *a == Action::SetProjection);
    let level = find(&|a| matches!(a, Action::UpdateLevel { .. }));
    let scene = find(&|a| matches!(a, Action::RenderScene { .. }));
    let text = find(&|a| *a == Action::RenderText);
    let present = find(&|a| *a == Action::PresentFrame);
    assert!(player < modelview);
    assert!(modelview < projection);
    assert!(projection < level);
    assert!(level < scene);
    assert!(scene < text);
    assert!(text < present);
}

#[test]
fn first_frame_follows_the_placing_of_the_player() {
    let mut game = Game::new(GameConfig {
        wad_file: PathBuf::from("a.wad"),
        metadata_file: PathBuf::from("a.toml"),
        level_index: 0,
        fov_bits: 0,
        width: 1,
        height: 1,
    });
    let stage = Stage::quiet(5_000);
    let mut done = Vec::new();
    loop {
        let action = game.pending();
        let last = action == Action::PresentFrame;
        let event = stage.answer(&action);
        done.push(action);
        game.advance(event);
        if last {
            break;
        }
    }
    let placed = done.iter().position(|a| *a == Action::PlacePlayer).unwrap();
    let updates: Vec<usize> = done
        .iter()
        .enumerate()
        .filter(|(_, a)| matches!(a, Action::UpdatePlayer { .. }))
        .map(|(i, _)| i)
        .collect();
    assert_eq!(updates.len(), 1);
    assert!(placed < updates[0]);
    assert_eq!(done.len(), 11 + 5 + 15);
}

#[test]
fn stalled_clock_substitutes_the_nominal_delta() {
    let mut game = ready_game();
    let done = play_frame(&mut game, &Stage::quiet(1_000));
    assert_eq!(game.delta(), Delta::nominal());
    assert_eq!(game.last_frame(), 1_000);
    assert!(done.contains(&Action::UpdatePlayer { delta: Delta::nominal() }));
    assert!(done.contains(&Action::UpdateLevel { delta: Delta::nominal() }));
    assert!(done.contains(&Action::RenderScene { delta: Delta::nominal() }));
}

#[test]
fn backward_clock_substitutes_the_nominal_delta_and_keeps_the_reading() {
    let mut game = ready_game();
    play_frame(&mut game, &Stage::quiet(400));
    assert_eq!(game.delta(), Delta::nominal());
    assert_eq!(game.last_frame(), 400);
    play_frame(&mut game, &Stage::quiet(900));
    assert_eq!(game.delta(), Delta::from_nanos(500));
    assert_eq!(game.last_frame(), 900);
}

#[test]
fn smallest_advance_is_measured() {
    let mut game = ready_game();
    play_frame(&mut game, &Stage::quiet(1_001));
    assert_eq!(game.delta().nanos(), Some(1));
}

#[test]
fn quit_wins_over_help() {
    let mut game = ready_game();
    let snapshot = Snapshot { quit: true, toggle_grab: true, toggle_help: true };
    let done = play_frame(&mut game, &Stage::with(snapshot, 3_000));
    assert_eq!(done, frame_of(polls(&[Gesture::Quit]), Delta::from_nanos(2_000)));
    assert_eq!(game.help(), HelpState::Short);
    assert_eq!(game.visibility(), Visibility { short_help: true, long_help: false });
    assert!(game.mouse_grabbed());
    assert!(!game.is_running());
    assert_eq!(game.pending(), Action::Exit);
    assert_eq!(game.phase(), &Phase::Finished);
    assert!(game.is_over());
}

#[test]
fn quit_from_escape_or_signal_ends_after_the_frame() {
    let mut game = ready_game();
    play_frame(&mut game, &Stage::quiet(2_000));
    let snapshot = Snapshot { quit: true, toggle_grab: false, toggle_help: false };
    let done = play_frame(&mut game, &Stage::with(snapshot, 3_000));
    assert!(done.iter().any(|a| matches!(a, Action::RenderScene { .. })));
    assert_eq!(done.last(), Some(&Action::PresentFrame));
    assert_eq!(game.pending(), Action::Exit);
    game.advance(Event::Done);
    assert_eq!(game.pending(), Action::Exit);
}

#[test]
fn grab_toggle_flips_and_restores() {
    let mut game = ready_game();
    let snapshot = Snapshot { quit: false, toggle_grab: true, toggle_help: true };
    let done = play_frame(&mut game, &Stage::with(snapshot, 3_000));
    let mut middle = polls(&[Gesture::Quit, Gesture::ToggleGrab]);
    middle.push(Action::SetMouseEnabled { enabled: false });
    middle.push(Action::SetCursorGrabbed { grabbed: false });
    assert_eq!(done, frame_of(middle, Delta::from_nanos(2_000)));
    assert!(!game.mouse_grabbed());
    assert_eq!(game.help(), HelpState::Short);

    let done = play_frame(&mut game, &Stage::with(snapshot, 5_000));
    let mut middle = polls(&[Gesture::Quit, Gesture::ToggleGrab]);
    middle.push(Action::SetMouseEnabled { enabled: true });
    middle.push(Action::SetCursorGrabbed { grabbed: true });
    assert_eq!(done, frame_of(middle, Delta::from_nanos(2_000)));
    assert!(game.mouse_grabbed());
}

#[test]
fn help_toggles_through_the_table() {
    let mut game = ready_game();
    let snapshot = Snapshot { quit: false, toggle_grab: false, toggle_help: true };
    let all = [Gesture::Quit, Gesture::ToggleGrab, Gesture::ToggleHelp];

    let done = play_frame(&mut game, &Stage::with(snapshot, 2_000));
    let mut middle = polls(&all);
    middle.push(Action::SetOverlayVisible { overlay: Overlay::ShortHelp, visible: false });
    middle.push(Action::SetOverlayVisible { overlay: Overlay::LongHelp, visible: true });
    assert_eq!(done, frame_of(middle, Delta::from_nanos(1_000)));
    assert_eq!(game.help(), HelpState::Long);
    assert_eq!(game.visibility(), Visibility { short_help: false, long_help: true });

    let done = play_frame(&mut game, &Stage::with(snapshot, 3_000));
    let mut middle = polls(&all);
    middle.push(Action::SetOverlayVisible { overlay: Overlay::LongHelp, visible: false });
    assert_eq!(done, frame_of(middle, Delta::from_nanos(1_000)));
    assert_eq!(game.help(), HelpState::Hidden);
    assert_eq!(game.visibility(), Visibility { short_help: false, long_help: false });

    play_frame(&mut game, &Stage::with(snapshot, 4_000));
    assert_eq!(game.help(), HelpState::Long);
    assert_eq!(game.visibility(), Visibility { short_help: false, long_help: true });

    play_frame(&mut game, &Stage::with(snapshot, 5_000));
    assert_eq!(game.help(), HelpState::Hidden);
    assert_eq!(game.visibility(), Visibility { short_help: false, long_help: false });
}

#[test]
fn telemetry_reports_when_two_seconds_are_exceeded() {
    let mut game = ready_game();
    let mut now = 1_000u64;
    for n in 1..=4u64 {
        now += 500_000_000;
        let done = play_frame(&mut game, &Stage::quiet(now));
        assert!(!done.iter().any(|a| matches!(a, Action::EmitReport { .. })));
        assert_eq!(game.telemetry().frames(), n);
    }
    assert_eq!(game.telemetry().sim_ticks(), 6_000_000_000);
    now += 1;
    let done = play_frame(&mut game, &Stage::quiet(now));
    let report = Report { frames: 5, sim_ticks: 6_000_000_003, cpu_nanos: 2_500 };
    let at = done.iter().position(|a| *a == Action::EmitReport { report }).unwrap();
    assert_eq!(done[at - 1], Action::ReadClock { moment: Moment::UpdateEnd });
    assert_eq!(done[at + 1], Action::PresentFrame);
    assert_eq!(done.len(), 16);
    assert_eq!(game.telemetry().frames(), 0);
    assert_eq!(game.telemetry().sim_ticks(), 0);
    assert_eq!(game.telemetry().cpu_nanos(), 0);
    assert_eq!(game.pending(), Action::AcquireFrame);
}

#[test]
fn frame_that_cannot_be_acquired_aborts() {
    let mut game = ready_game();
    game.advance(Event::Failed(String::from("context lost")));
    let error = GameError::Frame(String::from("context lost"));
    assert_eq!(game.pending(), Action::Abort { error: error.clone() });
    assert_eq!(game.phase(), &Phase::Aborted(error));
    assert!(game.is_over());
}

#[test]
fn frame_that_cannot_be_presented_aborts() {
    let mut game = ready_game();
    let stage = Stage::quiet(2_000);
    while game.pending() != Action::PresentFrame {
        let event = stage.answer(&game.pending());
        game.advance(event);
    }
    game.advance(Event::Failed(String::from("swap failed")));
    assert_eq!(
        game.pending(),
        Action::Abort { error: GameError::Frame(String::from("swap failed")) }
    );
    game.advance(Event::Done);
    assert!(game.pending().is_final());
}

#[test]
fn scene_that_cannot_be_drawn_fails() {
    let mut game = ready_game();
    let stage = Stage::quiet(2_000);
    while !matches!(game.pending(), Action::RenderScene { .. }) {
        let event = stage.answer(&game.pending());
        game.advance(event);
    }
    game.advance(Event::Failed(String::from("draw call")));
    assert_eq!(
        game.pending(),
        Action::Fail { error: GameError::Graphics(String::from("draw call")) }
    );
    assert!(game.is_over());
}

#[test]
fn text_that_cannot_be_drawn_fails() {
    let mut game = ready_game();
    let stage = Stage::quiet(2_000);
    while game.pending() != Action::RenderText {
        let event = stage.answer(&game.pending());
        game.advance(event);
    }
    game.advance(Event::Failed(String::from("glyphs")));
    assert_eq!(
        game.pending(),
        Action::Fail { error: GameError::Graphics(String::from("glyphs")) }
    );
}

#[test]
fn polls_ignore_other_events() {
    let mut game = ready_game();
    let stage = Stage::quiet(2_000);
    while !matches!(game.pending(), Action::PollGesture { .. }) {
        let event = stage.answer(&game.pending());
        game.advance(event);
    }
    game.advance(Event::Done);
    game.advance(Event::Clock(9));
    game.advance(Event::Failed(String::from("x")));
    assert_eq!(game.pending(), Action::PollGesture { gesture: Gesture::Quit });
    assert!(!game.pending().is_clock());
}
