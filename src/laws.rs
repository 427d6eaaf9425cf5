use crate::color::Color;
use crate::game::{live_after, Effects, next, no_effects, GameState, Msg, Phase, TimerCommand};
use vstd::prelude::*;

verus! {

/// Every event leaves a game in a state it can be in: a non-empty pattern, a
/// cursor inside it, and a timer running exactly while it is played back.
pub proof fn lemma_step_keeps_wf(s: GameState, msg: Msg, fresh: Color)
    requires
        s.wf(),
    ensures
        next(s, msg, fresh).0.wf(),
{
}

/// While the player guesses, clicking the expected colour moves the cursor on
/// by one; on the last colour of the pattern it instead adds `fresh` to the
/// pattern and plays it back from the start, with a new timer.
pub proof fn lemma_correct_click(s: GameState, fresh: Color)
    requires
        s.wf(),
        s.phase == Phase::Guess,
    ensures
        ({
            let (t, e) = next(s, Msg::Clicked(s.pattern[s.cursor as int]), fresh);
            &&& !e.alert
            &&& if s.cursor + 1 < s.pattern.len() {
                &&& t.phase == Phase::Guess
                &&& t.cursor == s.cursor + 1
                &&& t.pattern == s.pattern
                &&& e.timer == TimerCommand::Keep
            } else {
                &&& t.phase == Phase::Play
                &&& t.cursor == 0
                &&& t.pattern == s.pattern.push(fresh)
                &&& e.timer == TimerCommand::Restart
            }
        }),
{
}

/// While the player guesses, clicking any other colour than the expected one
/// alerts the player and starts over: the pattern is the one colour `fresh`,
/// played back from the start with a new timer.
pub proof fn lemma_wrong_click(s: GameState, c: Color, fresh: Color)
    requires
        s.wf(),
        s.phase == Phase::Guess,
        c != s.pattern[s.cursor as int],
    ensures
        next(s, Msg::Clicked(c), fresh) == (
            GameState::start(fresh),
            Effects { alert: true, timer: TimerCommand::Restart },
        ),
{
}

/// The pattern grows by exactly one colour, keeping the ones before, when and
/// only when a round is completed by the last correct click; it shrinks only
/// on a mistake, and then to a single colour; on any other event it is kept.
pub proof fn lemma_pattern_length(s: GameState, msg: Msg, fresh: Color)
    requires
        s.wf(),
    ensures
        ({
            let t = next(s, msg, fresh).0;
            &&& t.pattern.len() == s.pattern.len() + 1 <==> s.completes_round(msg)
            &&& s.completes_round(msg) ==> t.pattern == s.pattern.push(fresh)
            &&& s.is_mistake(msg) ==> t.pattern.len() == 1
            &&& t.pattern.len() < s.pattern.len() ==> s.is_mistake(msg)
            &&& !s.completes_round(msg) && !s.is_mistake(msg) ==> t.pattern == s.pattern
        }),
{
}

/// At most one playback timer exists after any event: carrying out the
/// event's timer command on the timers of the state before gives those of the
/// state after, which are at most one, and a timer is only started by a
/// command that first cancels the one before.
pub proof fn lemma_single_timer(s: GameState, msg: Msg, fresh: Color)
    requires
        s.wf(),
    ensures
        ({
            let (t, e) = next(s, msg, fresh);
            &&& live_after(s.live_timers(), e.timer) == t.live_timers()
            &&& t.live_timers() <= 1
            &&& t.timer_running && !s.timer_running ==> e.timer == TimerCommand::Restart
        }),
{
}

/// While the pattern is played back, a click changes nothing and has no effect.
pub proof fn lemma_play_ignores_clicks(s: GameState, c: Color, fresh: Color)
    requires
        s.phase == Phase::Play,
    ensures
        next(s, Msg::Clicked(c), fresh) == (s, no_effects()),
{
}

} // verus!
