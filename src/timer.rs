//! The level countdown: a one-shot timer over whole nanoseconds, and the
//! controller that holds it together with each level's time budget.
use vstd::prelude::*;
use crate::state::LevelState;

verus! {

/// Nanoseconds in one second.
pub const NANOS_PER_SECOND: u64 = 1000000000;

/// Nanoseconds in one hundredth of a second.
pub const NANOS_PER_CENTI: u64 = 10000000;

/// A one-shot countdown. `elapsed` grows with each tick and stops at
/// `duration`; the countdown is finished once it gets there.
#[derive(Debug, Clone, Copy, PartialEq, Eq, Structural)]
pub struct Countdown {
    pub duration: u64,
    pub elapsed: u64,
}

impl Countdown {
    pub open spec fn wf(self) -> bool {
        self.elapsed <= self.duration
    }

    pub open spec fn spec_tick(self, delta: u64) -> Countdown {
        if self.elapsed >= self.duration || self.elapsed + delta >= self.duration {
            Countdown { duration: self.duration, elapsed: self.duration }
        } else {
            Countdown { duration: self.duration, elapsed: (self.elapsed + delta) as u64 }
        }
    }

    pub open spec fn spec_finished(self) -> bool {
        self.elapsed >= self.duration
    }

    /// Time left, never below zero.
    pub open spec fn spec_remaining(self) -> nat {
        if self.elapsed >= self.duration {
            0
        } else {
            (self.duration - self.elapsed) as nat
        }
    }

    pub fn new(duration: u64) -> (r: Countdown)
        ensures
            r == (Countdown { duration, elapsed: 0 }),
            r.wf(),
    {
        Countdown { duration, elapsed: 0 }
    }

    /// Advances the countdown by `delta` nanoseconds, stopping at its duration.
    pub fn tick(&mut self, delta: u64)
        ensures
            *final(self) == old(self).spec_tick(delta),
    {
        if self.elapsed >= self.duration || delta >= self.duration - self.elapsed {
            self.elapsed = self.duration;
        } else {
            self.elapsed = self.elapsed + delta;
        }
    }

    /// Starts the countdown over.
    pub fn reset(&mut self)
        ensures
            *final(self) == (Countdown { duration: old(self).duration, elapsed: 0 }),
    {
        self.elapsed = 0;
    }

    pub fn finished(&self) -> (r: bool)
        ensures
            r == self.spec_finished(),
    {
        self.elapsed >= self.duration
    }

    pub fn remaining(&self) -> (r: u64)
        ensures
            r == self.spec_remaining(),
    {
        if self.elapsed >= self.duration {
            0
        } else {
            self.duration - self.elapsed
        }
    }
}

/// The decimal digit `d` as a character.
pub open spec fn digit_char(d: nat) -> char {
    if d == 0 {
        '0'
    } else if d == 1 {
        '1'
    } else if d == 2 {
        '2'
    } else if d == 3 {
        '3'
    } else if d == 4 {
        '4'
    } else if d == 5 {
        '5'
    } else if d == 6 {
        '6'
    } else if d == 7 {
        '7'
    } else if d == 8 {
        '8'
    } else {
        '9'
    }
}

/// `n` written in decimal, without leading zeros.
pub open spec fn decimal(n: nat) -> Seq<char>
    decreases n,
{
    if n < 10 {
        seq![digit_char(n)]
    } else {
        decimal(n / 10).push(digit_char(n % 10))
    }
}

/// Hundredths of a second in `nanos`, rounded to the nearest (halves up).
pub open spec fn centis_of(nanos: nat) -> nat {
    ((nanos + NANOS_PER_CENTI / 2) / (NANOS_PER_CENTI as int)) as nat
}

/// A span of nanoseconds written as seconds with two decimals and the
/// unit, rounded to the nearest hundredth (halves round up): "0.10s".
pub open spec fn seconds_text(nanos: nat) -> Seq<char> {
    let centis = centis_of(nanos);
    decimal(centis / 100) + seq!['.', digit_char((centis / 10) % 10), digit_char(centis % 10), 's']
}

fn digit_str(d: u64) -> (r: &'static str)
    requires
        d < 10,
    ensures
        r@ == seq![digit_char(d as nat)],
{
    proof {
        reveal_strlit("0");
        reveal_strlit("1");
        reveal_strlit("2");
        reveal_strlit("3");
        reveal_strlit("4");
        reveal_strlit("5");
        reveal_strlit("6");
        reveal_strlit("7");
        reveal_strlit("8");
        reveal_strlit("9");
    }
    if d == 0 {
        "0"
    } else if d == 1 {
        "1"
    } else if d == 2 {
        "2"
    } else if d == 3 {
        "3"
    } else if d == 4 {
        "4"
    } else if d == 5 {
        "5"
    } else if d == 6 {
        "6"
    } else if d == 7 {
        "7"
    } else if d == 8 {
        "8"
    } else {
        "9"
    }
}

/// Appends `n` in decimal.
pub(crate) fn push_decimal(s: &mut String, n: u64)
    ensures
        final(s)@ == old(s)@ + decimal(n as nat),
    decreases n,
{
    if n >= 10 {
        push_decimal(s, n / 10);
        let ghost mid = s@;
        s.append(digit_str(n % 10));
        proof {
            assert(decimal(n as nat) == decimal((n / 10) as nat).push(digit_char((n % 10) as nat)));
            assert(s@ =~= old(s)@ + decimal(n as nat));
        }
    } else {
        s.append(digit_str(n));
    }
}

/// Writes `nanos` as `seconds_text` does.
pub fn format_seconds(nanos: u64) -> (r: String)
    ensures
        r@ == seconds_text(nanos as nat),
{
    let half: u64 = if nanos % NANOS_PER_CENTI >= NANOS_PER_CENTI / 2 { 1 } else { 0 };
    let centis: u64 = nanos / NANOS_PER_CENTI + half;
    assert(centis == centis_of(nanos as nat));
    let mut s = String::new();
    push_decimal(&mut s, centis / 100);
    proof {
        reveal_strlit(".");
        reveal_strlit("s");
    }
    s.append(".");
    s.append(digit_str((centis / 10) % 10));
    s.append(digit_str(centis % 10));
    s.append("s");
    assert(s@ =~= seconds_text(nanos as nat));
    s
}

/// The level countdown, absent while no level is running, and the time
/// budget of each level in nanoseconds.
#[derive(Debug, Clone, Copy, PartialEq, Eq, Structural)]
pub struct TimeController {
    pub time_left: Option<Countdown>,
    pub level_1_time: u64,
    pub level_2_time: u64,
    pub level_3_time: u64,
    pub level_4_time: u64,
    pub level_5_time: u64,
}

impl TimeController {
    pub open spec fn wf(self) -> bool {
        self.time_left matches Some(t) ==> t.wf()
    }

    /// The budget of a playable level.
    pub open spec fn spec_level_time(self, level: LevelState) -> u64 {
        match level {
            LevelState::Level2 => self.level_2_time,
            LevelState::Level3 => self.level_3_time,
            LevelState::Level4 => self.level_4_time,
            LevelState::Level5 => self.level_5_time,
            _ => self.level_1_time,
        }
    }

    pub open spec fn spec_set_timer(self, duration: u64) -> TimeController {
        TimeController { time_left: Some(Countdown { duration, elapsed: 0 }), ..self }
    }

    pub open spec fn spec_run_timer(self, delta: u64) -> TimeController {
        match self.time_left {
            Some(t) => TimeController { time_left: Some(t.spec_tick(delta)), ..self },
            None => self,
        }
    }

    pub open spec fn spec_clear(self) -> TimeController {
        TimeController { time_left: None, ..self }
    }

    pub open spec fn spec_is_finished(self) -> bool {
        match self.time_left {
            Some(t) => t.spec_finished(),
            None => false,
        }
    }

    /// The overlay text: the time left, or a fixed sentence without a countdown.
    pub open spec fn spec_time_left(self) -> Seq<char> {
        match self.time_left {
            Some(t) => seconds_text(t.spec_remaining()),
            None => "No timer"@,
        }
    }

    /// No countdown, and 50, 50, 70, 80 and 90 seconds for the five levels.
    pub open spec fn spec_default() -> TimeController {
        TimeController {
            time_left: None,
            level_1_time: (50 * NANOS_PER_SECOND) as u64,
            level_2_time: (50 * NANOS_PER_SECOND) as u64,
            level_3_time: (70 * NANOS_PER_SECOND) as u64,
            level_4_time: (80 * NANOS_PER_SECOND) as u64,
            level_5_time: (90 * NANOS_PER_SECOND) as u64,
        }
    }

    pub fn default() -> (r: TimeController)
        ensures
            r == TimeController::spec_default(),
    {
        TimeController {
            time_left: None,
            level_1_time: 50 * NANOS_PER_SECOND,
            level_2_time: 50 * NANOS_PER_SECOND,
            level_3_time: 70 * NANOS_PER_SECOND,
            level_4_time: 80 * NANOS_PER_SECOND,
            level_5_time: 90 * NANOS_PER_SECOND,
        }
    }

    pub fn level_time(&self, level: LevelState) -> (r: u64)
        ensures
            r == self.spec_level_time(level),
    {
        match level {
            LevelState::Level2 => self.level_2_time,
            LevelState::Level3 => self.level_3_time,
            LevelState::Level4 => self.level_4_time,
            LevelState::Level5 => self.level_5_time,
            _ => self.level_1_time,
        }
    }

    /// Starts a fresh countdown of `duration` nanoseconds, replacing any other.
    pub fn set_timer(&mut self, duration: u64)
        ensures
            *final(self) == old(self).spec_set_timer(duration),
    {
        self.time_left = Some(Countdown::new(duration));
    }

    /// Advances the countdown, if there is one, by `delta_time` nanoseconds.
    pub fn run_timer(&mut self, delta_time: u64)
        ensures
            *final(self) == old(self).spec_run_timer(delta_time),
    {
        if let Some(t) = &mut self.time_left {
            t.tick(delta_time);
        }
    }

    /// Drops the countdown.
    pub fn clear_timer(&mut self)
        ensures
            *final(self) == old(self).spec_clear(),
    {
        self.time_left = None;
    }

    pub fn is_finished(&self) -> (r: bool)
        ensures
            r == self.spec_is_finished(),
    {
        match &self.time_left {
            Some(t) => t.finished(),
            None => false,
        }
    }

    pub fn get_time_left(&self) -> (r: String)
        ensures
            r@ == self.spec_time_left(),
    {
        match &self.time_left {
            Some(t) => format_seconds(t.remaining()),
            None => {
                proof {
                    reveal_strlit("No timer");
                }
                String::from_str("No timer")
            },
        }
    }
}

/// The sum of a sequence of frame deltas.
pub open spec fn total(deltas: Seq<u64>) -> nat
    decreases deltas.len(),
{
    if deltas.len() == 0 {
        0
    } else {
        (deltas[0] + total(deltas.drop_first())) as nat
    }
}

/// The controller after one `run_timer` call per delta, in order.
pub open spec fn run_ticks(t: TimeController, deltas: Seq<u64>) -> TimeController
    decreases deltas.len(),
{
    if deltas.len() == 0 {
        t
    } else {
        run_ticks(t.spec_run_timer(deltas[0]), deltas.drop_first())
    }
}

/// Ticks add up: after any sequence of ticks the countdown has advanced by
/// their sum, stopping at its duration.
pub proof fn lemma_ticks_add_up(t: TimeController, c: Countdown, deltas: Seq<u64>)
    requires
        t.time_left == Some(c),
        c.wf(),
    ensures
        run_ticks(t, deltas) == (TimeController {
            time_left: Some(
                Countdown {
                    duration: c.duration,
                    elapsed: if c.elapsed + total(deltas) >= c.duration {
                        c.duration
                    } else {
                        (c.elapsed + total(deltas)) as u64
                    },
                },
            ),
            ..t
        }),
    decreases deltas.len(),
{
    if deltas.len() > 0 {
        let t1 = t.spec_run_timer(deltas[0]);
        lemma_ticks_add_up(t1, c.spec_tick(deltas[0]), deltas.drop_first());
    }
}

/// A countdown finishes exactly when the ticks add up to the time it had
/// left; from then on it shows no time left.
pub proof fn lemma_ticks_finish(t: TimeController, c: Countdown, deltas: Seq<u64>)
    requires
        t.time_left == Some(c),
        c.wf(),
    ensures
        run_ticks(t, deltas).spec_is_finished() <==> c.elapsed + total(deltas) >= c.duration,
        run_ticks(t, deltas).spec_is_finished() ==> run_ticks(t, deltas).spec_time_left()
            == seconds_text(0),
{
    lemma_ticks_add_up(t, c, deltas);
}

/// Ticks leave a controller without countdown unfinished.
pub proof fn lemma_ticks_without_countdown(t: TimeController, deltas: Seq<u64>)
    requires
        t.time_left.is_none(),
    ensures
        run_ticks(t, deltas) == t,
        !run_ticks(t, deltas).spec_is_finished(),
    decreases deltas.len(),
{
    if deltas.len() > 0 {
        lemma_ticks_without_countdown(t.spec_run_timer(deltas[0]), deltas.drop_first());
    }
}

/// A second `set_timer` replaces the first entirely: the result is a fresh
/// countdown of the second duration, so setting the same duration twice is
/// the same as setting it once.
pub proof fn lemma_set_timer_replaces(t: TimeController, first: u64, second: u64)
    ensures
        t.spec_set_timer(first).spec_set_timer(second) == t.spec_set_timer(second),
        t.spec_set_timer(second).time_left == Some(Countdown { duration: second, elapsed: 0 }),
{
}

} // verus!
