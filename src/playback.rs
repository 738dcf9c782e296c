//! The play, pause and seek clock of the animated charts.
//!
//! Instants are readings of a monotonic clock in microseconds, taken by the
//! caller; playback time is a [`Fixed`] number of seconds, whose millionths
//! are microseconds too.
use vstd::prelude::*;

use crate::fixed::{clamp_i64, Fixed};

verus! {

/// How long after `earlier` the instant `later` is; zero if it is not
/// after it.
pub open spec fn since(later: int, earlier: int) -> int {
    if later > earlier {
        later - earlier
    } else {
        0
    }
}

/// `later - earlier` in microseconds, zero if `later` is not after `earlier`.
pub fn duration_since(later: i64, earlier: i64) -> (r: i64)
    ensures
        r == clamp_i64(since(later as int, earlier as int)),
{
    if later > earlier {
        let d: i128 = later as i128 - earlier as i128;
        if d > i64::MAX as i128 {
            i64::MAX
        } else {
            d as i64
        }
    } else {
        0
    }
}

/// An instant moved by a number of microseconds, saturated.
fn shift(at: i64, by: i64) -> (r: i64)
    ensures
        r == clamp_i64(at + by),
{
    let s: i128 = at as i128 + by as i128;
    if s < i64::MIN as i128 {
        i64::MIN
    } else if s > i64::MAX as i128 {
        i64::MAX
    } else {
        s as i64
    }
}

/// A playback clock: when playback started (moved later by every pause),
/// when the current pause began, and how fast playback runs.
#[derive(Debug, Clone, Copy, PartialEq, Eq, Structural)]
pub struct Playback {
    pub start: Option<i64>,
    pub pause: Option<i64>,
    pub speed: Fixed,
}

/// How much playback time, in microseconds and before the speed is
/// applied, has passed at `now`: up to the pause while paused.
pub open spec fn elapsed_spec(p: Playback, now: int) -> int {
    match p.start {
        Some(s) => match p.pause {
            Some(q) => clamp_i64(since(q as int, s as int)),
            None => clamp_i64(since(now, s as int)),
        },
        None => 0,
    }
}

/// The clock after a toggle at `now`: a stopped clock starts, a running
/// one pauses, and a paused one resumes with its start moved later by the
/// length of the pause.
pub open spec fn toggled(p: Playback, now: i64) -> Playback {
    match p.start {
        Some(s) => match p.pause {
            Some(q) => Playback {
                start: Some(clamp_i64(s + clamp_i64(since(now as int, q as int))) as i64),
                pause: None,
                ..p
            },
            None => Playback { pause: Some(now), ..p },
        },
        None => Playback { start: Some(now), pause: None, ..p },
    }
}

impl Playback {
    /// A stopped clock at normal speed.
    pub fn new() -> (r: Playback)
        ensures
            r.start is None,
            r.pause is None,
            r.speed == Fixed::one_spec(),
    {
        Playback { start: None, pause: None, speed: Fixed::one() }
    }

    /// Whether playback runs: started and not paused.
    pub open spec fn playing(self) -> bool {
        self.start is Some && self.pause is None
    }

    /// Starts playback at `now`, from the beginning.
    pub fn start_playback(&mut self, now: i64)
        ensures
            *final(self) == (Playback { start: Some(now), pause: None, ..*old(self) }),
    {
        self.start = Some(now);
        self.pause = None;
    }

    /// Stops playback.
    pub fn stop_playback(&mut self)
        ensures
            *final(self) == (Playback { start: None, pause: None, ..*old(self) }),
    {
        self.start = None;
        self.pause = None;
    }

    /// Starts, pauses or resumes playback.
    pub fn toggle_playback(&mut self, now: i64)
        ensures
            *final(self) == toggled(*old(self), now),
    {
        match self.start {
            Some(s) => match self.pause {
                Some(q) => {
                    let delta = duration_since(now, q);
                    self.pause = None;
                    self.start = Some(shift(s, delta));
                },
                None => {
                    self.pause = Some(now);
                },
            },
            None => {
                self.start_playback(now);
            },
        }
    }

    /// Sets the playback time to `time` seconds at `now`. A stopped clock
    /// is left paused there; a paused one stays paused there.
    pub fn set_time(&mut self, time: Fixed, now: i64)
        requires
            time.raw() >= 0,
        ensures
            final(self).start == Some(clamp_i64(now - time.raw()) as i64),
            final(self).pause == (if old(self).start is None || old(self).pause is Some {
                Some(now)
            } else {
                None
            }),
            final(self).speed == old(self).speed,
    {
        let start = shift(now, time.saturating_neg().micros);
        proof {
            assert(clamp_i64(now - time.raw()) == clamp_i64(now + clamp_i64(-time.raw())));
        }
        match self.start {
            Some(_) => {
                if self.pause.is_some() {
                    self.pause = Some(now);
                }
                self.start = Some(start);
            },
            None => {
                self.start = Some(start);
                self.pause = Some(now);
            },
        }
    }

    /// Whether playback runs.
    pub fn is_playing(&self) -> (r: bool)
        ensures
            r == self.playing(),
    {
        self.start.is_some() && self.pause.is_none()
    }

    /// Playback time passed at `now`, in microseconds at normal speed.
    pub fn elapsed(&self, now: i64) -> (r: i64)
        ensures
            r == elapsed_spec(*self, now as int),
            r >= 0,
    {
        match self.start {
            Some(s) => match self.pause {
                Some(q) => duration_since(q, s),
                None => duration_since(now, s),
            },
            None => 0,
        }
    }
}

/// A pause and a resume leave out of the elapsed playback time exactly the
/// time spent paused: paused at `t1` and resumed at `t2`, the clock reads at
/// `t3` what ran before `t1` plus what ran since `t2`.
pub proof fn lemma_pause_excluded(p: Playback, t1: i64, t2: i64, t3: i64)
    requires
        p.start is Some,
        p.pause is None,
        p.start.unwrap() <= t1 <= t2 <= t3,
        t3 - p.start.unwrap() <= i64::MAX,
    ensures
        elapsed_spec(toggled(toggled(p, t1), t2), t3 as int)
            == elapsed_spec(p, t1 as int) + (t3 - t2),
        toggled(toggled(p, t1), t2).playing(),
{
    let s = p.start.unwrap();
    assert(p.start == Some(s));
    assert(clamp_i64(since(t1 as int, s as int)) == t1 - s);
    let paused = toggled(p, t1);
    assert(paused.start == Some(s) && paused.pause == Some(t1));
    let resumed = toggled(paused, t2);
    assert(since(t2 as int, t1 as int) == t2 - t1);
    assert(clamp_i64(since(t2 as int, t1 as int)) == t2 - t1);
    assert(clamp_i64(s + (t2 - t1)) == s + (t2 - t1));
    assert(resumed.start == Some((s + (t2 - t1)) as i64));
    assert(resumed.pause is None);
    assert(since(t3 as int, s + (t2 - t1)) == (t1 - s) + (t3 - t2));
    assert(elapsed_spec(p, t1 as int) == t1 - s);
}

} // verus!
