use simon::{App, Color, Effects, Msg, Phase, TimerCommand};

const COLORS: [Color; 4] = [Color::Red, Color::Blue, Color::Yellow, Color::Green];

fn quiet() -> Effects {
    Effects { alert: false, timer: TimerCommand::Keep }
}

/// A game in the guess phase of the pattern `[first, second]`.
fn guessing_two(first: Color, second: Color) -> App {
    let mut app = App::new(first);
    app.step(Msg::NextColor, Color::Green);
    app.step(Msg::Clicked(first), second);
    app.step(Msg::NextColor, Color::Green);
    app.step(Msg::NextColor, Color::Green);
    assert_eq!(app.phase(), Phase::Guess);
    assert_eq!(app.pattern(), &[first, second]);
    assert_eq!(app.cursor(), 0);
    app
}

#[test]
fn phase_defaults_to_play() {
    assert_eq!(Phase::default(), Phase::Play);
}

#[test]
fn new_game_plays_back_one_color() {
    let app = App::new(Color::Yellow);
    assert_eq!(app.phase(), Phase::Play);
    assert_eq!(app.pattern(), &[Color::Yellow]);
    assert_eq!(app.cursor(), 0);
    assert!(app.timer_running());
}

#[test]
fn created_game_plays_back_one_color() {
    let app = App::create();
    assert_eq!(app.phase(), Phase::Play);
    assert_eq!(app.pattern().len(), 1);
    assert_eq!(app.cursor(), 0);
    assert!(app.timer_running());
}

#[test]
fn single_color_round_grows_the_pattern() {
    let mut app = App::new(Color::Red);
    let e = app.step(Msg::NextColor, Color::Green);
    assert_eq!(e, Effects { alert: false, timer: TimerCommand::Cancel });
    assert_eq!(app.phase(), Phase::Guess);
    assert_eq!(app.cursor(), 0);
    assert!(!app.timer_running());

    let e = app.step(Msg::Clicked(Color::Red), Color::Yellow);
    assert_eq!(e, Effects { alert: false, timer: TimerCommand::Restart });
    assert_eq!(app.pattern(), &[Color::Red, Color::Yellow]);
    assert_eq!(app.phase(), Phase::Play);
    assert_eq!(app.cursor(), 0);
    assert!(app.timer_running());
}

#[test]
fn single_color_round_with_random_draw() {
    let mut app = App::new(Color::Red);
    app.update(Msg::NextColor);
    assert_eq!(app.phase(), Phase::Guess);
    assert_eq!(app.cursor(), 0);
    let e = app.update(Msg::Clicked(Color::Red));
    assert_eq!(e, Effects { alert: false, timer: TimerCommand::Restart });
    assert_eq!(app.pattern().len(), 2);
    assert_eq!(app.pattern()[0], Color::Red);
    assert_eq!(app.phase(), Phase::Play);
    assert_eq!(app.cursor(), 0);
}

#[test]
fn wrong_click_alerts_and_starts_over() {
    let mut app = guessing_two(Color::Red, Color::Blue);
    let e = app.update(Msg::Clicked(Color::Blue));
    assert_eq!(e, Effects { alert: true, timer: TimerCommand::Restart });
    assert_eq!(app.phase(), Phase::Play);
    assert_eq!(app.pattern().len(), 1);
    assert_eq!(app.cursor(), 0);
    assert!(app.timer_running());
}

#[test]
fn wrong_click_takes_the_fresh_color() {
    let mut app = guessing_two(Color::Red, Color::Blue);
    let e = app.step(Msg::Clicked(Color::Green), Color::Yellow);
    assert!(e.alert);
    assert_eq!(app.pattern(), &[Color::Yellow]);
    assert_eq!(app.phase(), Phase::Play);
    assert_eq!(app.cursor(), 0);
}

#[test]
fn wrong_click_after_a_correct_one() {
    let mut app = guessing_two(Color::Blue, Color::Red);
    assert_eq!(app.step(Msg::Clicked(Color::Blue), Color::Green), quiet());
    assert_eq!(app.cursor(), 1);
    let e = app.step(Msg::Clicked(Color::Blue), Color::Green);
    assert_eq!(e, Effects { alert: true, timer: TimerCommand::Restart });
    assert_eq!(app.pattern(), &[Color::Green]);
}

#[test]
fn clicks_during_playback_are_ignored() {
    let mut app = guessing_two(Color::Red, Color::Blue);
    app.step(Msg::Clicked(Color::Red), Color::Green);
    app.step(Msg::Clicked(Color::Blue), Color::Yellow);
    assert_eq!(app.phase(), Phase::Play);
    app.step(Msg::NextColor, Color::Green);
    assert_eq!(app.cursor(), 1);
    for c in COLORS {
        assert_eq!(app.step(Msg::Clicked(c), Color::Green), quiet());
        assert_eq!(app.phase(), Phase::Play);
        assert_eq!(app.pattern(), &[Color::Red, Color::Blue, Color::Yellow]);
        assert_eq!(app.cursor(), 1);
        assert!(app.timer_running());
    }
}

#[test]
fn ticks_while_guessing_are_ignored() {
    let mut app = guessing_two(Color::Red, Color::Blue);
    assert_eq!(app.step(Msg::NextColor, Color::Green), quiet());
    assert_eq!(app.phase(), Phase::Guess);
    assert_eq!(app.pattern(), &[Color::Red, Color::Blue]);
    assert_eq!(app.cursor(), 0);
}

#[test]
fn correct_clicks_move_the_cursor() {
    let mut app = guessing_two(Color::Green, Color::Green);
    app.step(Msg::Clicked(Color::Green), Color::Red);
    app.step(Msg::Clicked(Color::Green), Color::Red);
    for _ in 0..3 {
        app.step(Msg::NextColor, Color::Blue);
    }
    assert_eq!(app.phase(), Phase::Guess);
    assert_eq!(app.pattern(), &[Color::Green, Color::Green, Color::Red]);
    assert_eq!(app.step(Msg::Clicked(Color::Green), Color::Blue), quiet());
    assert_eq!(app.cursor(), 1);
    assert_eq!(app.step(Msg::Clicked(Color::Green), Color::Blue), quiet());
    assert_eq!(app.cursor(), 2);
    assert_eq!(app.phase(), Phase::Guess);
    let e = app.step(Msg::Clicked(Color::Red), Color::Blue);
    assert_eq!(e.timer, TimerCommand::Restart);
    assert_eq!(app.pattern(), &[Color::Green, Color::Green, Color::Red, Color::Blue]);
    assert_eq!(app.cursor(), 0);
}

#[test]
fn playback_walks_the_pattern_then_hands_over() {
    let mut app = guessing_two(Color::Yellow, Color::Blue);
    app.step(Msg::Clicked(Color::Yellow), Color::Red);
    let e = app.step(Msg::Clicked(Color::Blue), Color::Red);
    assert_eq!(e.timer, TimerCommand::Restart);
    assert_eq!(app.step(Msg::NextColor, Color::Green), quiet());
    assert_eq!(app.cursor(), 1);
    assert_eq!(app.step(Msg::NextColor, Color::Green), quiet());
    assert_eq!(app.cursor(), 2);
    let e = app.step(Msg::NextColor, Color::Green);
    assert_eq!(e, Effects { alert: false, timer: TimerCommand::Cancel });
    assert_eq!(app.phase(), Phase::Guess);
    assert_eq!(app.cursor(), 0);
    assert_eq!(app.pattern(), &[Color::Yellow, Color::Blue, Color::Red]);
}

#[test]
fn pattern_length_over_rounds() {
    let mut app = App::new(Color::Blue);
    let mut expected: Vec<Color> = vec![Color::Blue];
    for round in 0..6usize {
        assert_eq!(app.pattern().len(), round + 1);
        for _ in 0..expected.len() {
            app.step(Msg::NextColor, Color::Red);
        }
        assert_eq!(app.phase(), Phase::Guess);
        let fresh = COLORS[round % 4];
        for i in 0..expected.len() {
            assert_eq!(app.pattern().len(), round + 1);
            app.step(Msg::Clicked(expected[i]), fresh);
        }
        expected.push(fresh);
        assert_eq!(app.pattern(), expected.as_slice());
    }
    for _ in 0..expected.len() {
        app.step(Msg::NextColor, Color::Red);
    }
    let wrong = if expected[0] == Color::Red { Color::Blue } else { Color::Red };
    app.step(Msg::Clicked(wrong), Color::Yellow);
    assert_eq!(app.pattern(), &[Color::Yellow]);
}

#[test]
fn timer_runs_exactly_during_playback() {
    let mut app = App::new(Color::Red);
    let mut live: u32 = 1;
    let events = [
        (Msg::NextColor, Color::Blue),
        (Msg::NextColor, Color::Blue),
        (Msg::Clicked(Color::Red), Color::Blue),
        (Msg::Clicked(Color::Red), Color::Blue),
        (Msg::NextColor, Color::Blue),
        (Msg::NextColor, Color::Blue),
        (Msg::Clicked(Color::Red), Color::Blue),
        (Msg::Clicked(Color::Red), Color::Blue),
        (Msg::NextColor, Color::Blue),
    ];
    for (msg, fresh) in events {
        let e = app.step(msg, fresh);
        live = match e.timer {
            TimerCommand::Keep => live,
            TimerCommand::Cancel => 0,
            TimerCommand::Restart => 1,
        };
        assert!(live <= 1);
        assert_eq!(live == 1, app.timer_running());
        assert_eq!(app.timer_running(), app.phase() == Phase::Play);
    }
}
