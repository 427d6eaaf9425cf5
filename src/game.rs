use crate::color::Color;
use vstd::prelude::*;

verus! {

/// Whether the wheel is showing the sequence or waiting for the player.
#[derive(Clone, Copy, PartialEq, Eq, Structural, Debug)]
pub enum Phase {
    /// The wheel flashes the sequence, one colour per tick; clicks are ignored.
    Play,
    /// The player repeats the sequence by clicking the wedges.
    Guess,
}

impl Default for Phase {
    fn default() -> (r: Phase)
        ensures
            r == Phase::Play,
    {
        Phase::Play
    }
}

/// An event delivered to the game.
#[derive(Clone, Copy, PartialEq, Eq, Structural, Debug)]
pub enum Msg {
    /// The playback timer fired.
    NextColor,
    /// The player clicked the wedge of this colour.
    Clicked(Color),
}

/// What the owner of the playback timer must do after an event.
#[derive(Clone, Copy, PartialEq, Eq, Structural, Debug)]
pub enum TimerCommand {
    /// Leave the timer as it is.
    Keep,
    /// Cancel the running timer, if any.
    Cancel,
    /// Cancel the running timer, if any, then start a new one.
    Restart,
}

/// The outside effects of one event.
#[derive(Clone, Copy, PartialEq, Eq, Structural, Debug)]
pub struct Effects {
    /// Show the player a blocking notice that the click was wrong.
    pub alert: bool,
    /// What becomes of the playback timer.
    pub timer: TimerCommand,
}

/// The abstract state of a game.
pub struct GameState {
    pub phase: Phase,
    /// The colours to be shown and repeated, oldest first.
    pub pattern: Seq<Color>,
    /// The position of the colour being shown (`Play`) or expected (`Guess`).
    pub cursor: nat,
    /// Whether a playback timer is running.
    pub timer_running: bool,
}

impl GameState {
    /// The states a game can be in: a non-empty pattern, a cursor inside it,
    /// and a timer running exactly while the pattern is played back.
    pub open spec fn wf(self) -> bool {
        &&& self.pattern.len() >= 1
        &&& self.cursor < self.pattern.len()
        &&& self.timer_running <==> self.phase == Phase::Play
    }

    /// A game that starts over: the one colour `first` is played back.
    pub open spec fn start(first: Color) -> GameState {
        GameState { phase: Phase::Play, pattern: seq![first], cursor: 0, timer_running: true }
    }

    /// The number of playback timers that exist in this state.
    pub open spec fn live_timers(self) -> nat {
        if self.timer_running {
            1
        } else {
            0
        }
    }

    /// Whether `msg` is the last correct click of a round.
    pub open spec fn completes_round(self, msg: Msg) -> bool {
        &&& self.phase == Phase::Guess
        &&& msg == Msg::Clicked(self.pattern[self.cursor as int])
        &&& self.cursor + 1 == self.pattern.len()
    }

    /// Whether `msg` is a wrong click while the player guesses.
    pub open spec fn is_mistake(self, msg: Msg) -> bool {
        &&& self.phase == Phase::Guess
        &&& msg is Clicked
        &&& msg->Clicked_0 != self.pattern[self.cursor as int]
    }
}

/// Effects that change nothing outside.
pub open spec fn no_effects() -> Effects {
    Effects { alert: false, timer: TimerCommand::Keep }
}

/// How many timers exist after `cmd`, when `before` existed.
pub open spec fn live_after(before: nat, cmd: TimerCommand) -> nat {
    match cmd {
        TimerCommand::Keep => before,
        TimerCommand::Cancel => 0,
        TimerCommand::Restart => 1,
    }
}

/// The cursor moves on; at the end of the pattern the phase flips. Ending a
/// playback stops the timer; ending a guess grows the pattern by `fresh` and
/// plays it back anew.
pub open spec fn advance(s: GameState, fresh: Color) -> (GameState, TimerCommand) {
    if s.cursor + 1 >= s.pattern.len() {
        match s.phase {
            Phase::Play => (
                GameState { phase: Phase::Guess, cursor: 0, timer_running: false, ..s },
                TimerCommand::Cancel,
            ),
            Phase::Guess => (
                GameState {
                    phase: Phase::Play,
                    pattern: s.pattern.push(fresh),
                    cursor: 0,
                    timer_running: true,
                },
                TimerCommand::Restart,
            ),
        }
    } else {
        (GameState { cursor: s.cursor + 1, ..s }, TimerCommand::Keep)
    }
}

/// The next state and the effects when `msg` arrives in state `s`; `fresh` is
/// the colour used wherever a new one is drawn. A tick outside playback, and a
/// click outside guessing, change nothing.
pub open spec fn next(s: GameState, msg: Msg, fresh: Color) -> (GameState, Effects) {
    match msg {
        Msg::NextColor => if s.phase == Phase::Play {
            let (t, cmd) = advance(s, fresh);
            (t, Effects { alert: false, timer: cmd })
        } else {
            (s, no_effects())
        },
        Msg::Clicked(c) => if s.phase != Phase::Guess {
            (s, no_effects())
        } else if c == s.pattern[s.cursor as int] {
            let (t, cmd) = advance(s, fresh);
            (t, Effects { alert: false, timer: cmd })
        } else {
            (GameState::start(fresh), Effects { alert: true, timer: TimerCommand::Restart })
        },
    }
}

/// A game of Simon: the phase, the pattern, the cursor into it, and whether the
/// playback timer runs. The timer itself belongs to whoever drives the game,
/// which follows the `TimerCommand` of each event.
#[derive(Debug)]
pub struct App {
    phase: Phase,
    pattern: Vec<Color>,
    idx: usize,
    timer_running: bool,
}

impl View for App {
    type V = GameState;

    closed spec fn view(&self) -> GameState {
        GameState {
            phase: self.phase,
            pattern: self.pattern@,
            cursor: self.idx as nat,
            timer_running: self.timer_running,
        }
    }
}

impl App {
    pub open spec fn wf(&self) -> bool {
        self@.wf()
    }

    /// A game whose pattern is the one colour `first`, being played back.
    pub fn new(first: Color) -> (r: App)
        ensures
            r.wf(),
            r@ == GameState::start(first),
    {
        let pattern = vec![first];
        assert(pattern@ =~= seq![first]);
        App { phase: Phase::default(), pattern, idx: 0, timer_running: true }
    }

    /// A new game, with one colour drawn at random, being played back.
    pub fn create() -> (r: App)
        ensures
            r.wf(),
            exists|c: Color| r@ == GameState::start(c),
    {
        App::new(Color::random())
    }

    /// Starts over with the one colour `fresh`.
    fn restart_app(&mut self, fresh: Color)
        ensures
            final(self)@ == GameState::start(fresh),
    {
        self.phase = Phase::default();
        self.idx = 0;
        self.timer_running = true;
        self.pattern = vec![fresh];
        assert(self.pattern@ =~= seq![fresh]);
    }

    /// Whether the cursor has run past the pattern.
    fn is_pattern_done(&self) -> (r: bool)
        ensures
            r == (self@.cursor >= self@.pattern.len()),
    {
        self.idx >= self.pattern.len()
    }

    /// Moves the cursor on, and flips the phase at the end of the pattern.
    fn advance_pattern(&mut self, fresh: Color) -> (r: TimerCommand)
        requires
            old(self).wf(),
        ensures
            (final(self)@, r) == advance(old(self)@, fresh),
    {
        assert(self.idx < self.pattern.len());
        self.idx = self.idx + 1;
        if self.is_pattern_done() {
            if self.phase == Phase::Guess {
                self.pattern.push(fresh);
            }
            self.idx = 0;
            match self.phase {
                Phase::Play => {
                    self.phase = Phase::Guess;
                    self.timer_running = false;
                    TimerCommand::Cancel
                },
                Phase::Guess => {
                    self.phase = Phase::Play;
                    self.timer_running = true;
                    TimerCommand::Restart
                },
            }
        } else {
            TimerCommand::Keep
        }
    }

    /// Handles one event, with `fresh` as the colour to use wherever a new one
    /// is drawn, and says what the driver must do.
    pub fn step(&mut self, msg: Msg, fresh: Color) -> (r: Effects)
        requires
            old(self).wf(),
        ensures
            final(self).wf(),
            (final(self)@, r) == next(old(self)@, msg, fresh),
    {
        match msg {
            Msg::NextColor => {
                if self.phase == Phase::Play {
                    let cmd = self.advance_pattern(fresh);
                    Effects { alert: false, timer: cmd }
                } else {
                    Effects { alert: false, timer: TimerCommand::Keep }
                }
            },
            Msg::Clicked(color) => {
                if self.phase != Phase::Guess {
                    Effects { alert: false, timer: TimerCommand::Keep }
                } else if color == self.pattern[self.idx] {
                    let cmd = self.advance_pattern(fresh);
                    Effects { alert: false, timer: cmd }
                } else {
                    self.restart_app(fresh);
                    Effects { alert: true, timer: TimerCommand::Restart }
                }
            },
        }
    }

    /// Handles one event, drawing a random colour wherever a new one is
    /// needed, and says what the driver must do.
    pub fn update(&mut self, msg: Msg) -> (r: Effects)
        requires
            old(self).wf(),
        ensures
            final(self).wf(),
            exists|fresh: Color| (final(self)@, r) == next(old(self)@, msg, fresh),
    {
        let fresh = Color::random();
        self.step(msg, fresh)
    }

    pub fn phase(&self) -> (r: Phase)
        ensures
            r == self@.phase,
    {
        self.phase
    }

    /// The colours of the pattern, oldest first.
    pub fn pattern(&self) -> (r: &[Color])
        ensures
            r@ == self@.pattern,
    {
        self.pattern.as_slice()
    }

    pub fn cursor(&self) -> (r: usize)
        ensures
            r == self@.cursor,
    {
        self.idx
    }

    pub fn timer_running(&self) -> (r: bool)
        ensures
            r == self@.timer_running,
    {
        self.timer_running
    }
}

} // verus!
