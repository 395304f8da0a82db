//! Playback position as the interface should show it.
//!
//! The backend reports the position every 250ms and applies seeks only after
//! a round trip, so mirroring the last report lets a report sampled before a
//! seek undo it. The clock holds an anchor instead, extrapolates from it, and
//! accepts reports only once they agree with what was asked for.
//!
//! Times are milliseconds on a monotonic clock chosen by the caller.

use vstd::prelude::*;

verus! {

/// A report this close to the extrapolated position is agreement, not drift.
pub const DRIFT_IGNORE_MS: u32 = 250;
/// How close a report must land to the requested position to end settling.
pub const SETTLE_TOLERANCE_MS: u32 = 1_000;
/// How long to hold a requested position before reality wins.
pub const SETTLE_TIMEOUT_MS: u64 = 2_000;

#[derive(Clone, Copy, Debug, PartialEq, Eq, Structural)]
pub struct PlaybackClock {
    pub anchor_ms: u32,
    pub anchor_at: u64,
    pub playing: bool,
    /// Set while a requested position is being held against stale reports.
    pub settling_until: Option<u64>,
}

pub open spec fn gap(a: u32, b: u32) -> int {
    if a >= b {
        a - b
    } else {
        b - a
    }
}

impl PlaybackClock {
    /// Where playback has reached at `now`, extrapolated from the anchor and
    /// capped at the largest position a `u32` holds.
    pub open spec fn position_at(self, now: u64) -> u32 {
        if !self.playing {
            self.anchor_ms
        } else {
            let elapsed: int = if now >= self.anchor_at {
                now - self.anchor_at
            } else {
                0
            };
            if self.anchor_ms + elapsed > u32::MAX {
                u32::MAX
            } else {
                (self.anchor_ms + elapsed) as u32
            }
        }
    }

    /// Whether a report at `now` is taken, and the settling window after it.
    pub open spec fn admits(self, reported_ms: u32, now: u64) -> (bool, Option<u64>) {
        match self.settling_until {
            None => (true, None),
            Some(until) => if gap(reported_ms, self.position_at(now)) > SETTLE_TOLERANCE_MS
                && now < until {
                (false, self.settling_until)
            } else {
                (true, None)
            },
        }
    }

    /// The clock after a position report at `now`.
    pub open spec fn reported(self, reported_ms: u32, now: u64) -> PlaybackClock {
        let (taken, settling_until) = self.admits(reported_ms, now);
        let admitted = PlaybackClock { settling_until, ..self };
        if !taken {
            self
        } else if gap(reported_ms, admitted.position_at(now)) < DRIFT_IGNORE_MS {
            admitted
        } else {
            PlaybackClock { anchor_ms: reported_ms, anchor_at: now, ..admitted }
        }
    }

    pub fn new(now: u64) -> (r: PlaybackClock)
        ensures
            r == (PlaybackClock { anchor_ms: 0, anchor_at: now, playing: false, settling_until: None }),
    {
        PlaybackClock { anchor_ms: 0, anchor_at: now, playing: false, settling_until: None }
    }

    /// The last confirmed or requested position, without extrapolation: what
    /// gets persisted and handed to the system media controls.
    pub fn anchor_ms(&self) -> (r: u32)
        ensures
            r == self.anchor_ms,
    {
        self.anchor_ms
    }

    pub fn position_ms(&self, now: u64) -> (r: u32)
        ensures
            r == self.position_at(now),
    {
        if !self.playing {
            return self.anchor_ms;
        }
        let elapsed = now.saturating_sub(self.anchor_at);
        let room = u32::MAX - self.anchor_ms;
        if elapsed > room as u64 {
            u32::MAX
        } else {
            self.anchor_ms + elapsed as u32
        }
    }

    /// Starts or stops extrapolating, keeping the position reached so far.
    pub fn set_playing(&mut self, playing: bool, now: u64)
        ensures
            *final(self) == (if old(self).playing == playing {
                *old(self)
            } else {
                PlaybackClock {
                    anchor_ms: old(self).position_at(now),
                    anchor_at: now,
                    playing,
                    ..*old(self)
                }
            }),
    {
        if self.playing == playing {
            return;
        }
        self.anchor_ms = self.position_ms(now);
        self.anchor_at = now;
        self.playing = playing;
    }

    /// Moves to a requested position and holds it against reports still in flight.
    pub fn seek(&mut self, position_ms: u32, now: u64)
        ensures
            *final(self) == (PlaybackClock {
                anchor_ms: position_ms,
                anchor_at: now,
                settling_until: Some(
                    if now + SETTLE_TIMEOUT_MS > u64::MAX { u64::MAX } else { (now + SETTLE_TIMEOUT_MS) as u64 },
                ),
                ..*old(self)
            }),
    {
        self.anchor_ms = position_ms;
        self.anchor_at = now;
        self.settling_until = Some(now.saturating_add(SETTLE_TIMEOUT_MS));
    }

    /// Moves without settling, for a position the backend stated outright
    /// rather than one this client asked for.
    pub fn reset(&mut self, position_ms: u32, now: u64)
        ensures
            *final(self) == (PlaybackClock {
                anchor_ms: position_ms,
                anchor_at: now,
                settling_until: None,
                ..*old(self)
            }),
    {
        self.anchor_ms = position_ms;
        self.anchor_at = now;
        self.settling_until = None;
    }

    /// Reconciles a position report from the backend.
    pub fn report(&mut self, reported_ms: u32, now: u64)
        ensures
            *final(self) == old(self).reported(reported_ms, now),
    {
        if !self.accept_report(reported_ms, now) {
            return;
        }
        let shown = self.position_ms(now);
        let differs = if reported_ms >= shown {
            reported_ms - shown
        } else {
            shown - reported_ms
        };
        if differs < DRIFT_IGNORE_MS {
            return;
        }
        self.anchor_ms = reported_ms;
        self.anchor_at = now;
    }

    /// A report sampled before a seek can still arrive after the backend
    /// confirmed it, so confirmation alone does not make the next report
    /// trustworthy. The requested position holds until a report agrees with
    /// it, or until the settle window expires and reality wins.
    fn accept_report(&mut self, reported_ms: u32, now: u64) -> (r: bool)
        ensures
            (r, final(self).settling_until) == old(self).admits(reported_ms, now),
            *final(self) == (PlaybackClock { settling_until: final(self).settling_until, ..*old(self) }),
    {
        let until = match self.settling_until {
            None => {
                return true;
            },
            Some(until) => until,
        };
        let shown = self.position_ms(now);
        let differs = if reported_ms >= shown {
            reported_ms - shown
        } else {
            shown - reported_ms
        };
        if differs > SETTLE_TOLERANCE_MS && now < until {
            return false;
        }
        self.settling_until = None;
        true
    }
}

/// The position a running clock shows never decreases as time passes.
pub proof fn lemma_position_is_monotone(clock: PlaybackClock, earlier: u64, later: u64)
    requires
        earlier <= later,
    ensures
        clock.position_at(earlier) <= clock.position_at(later),
{
}

/// A paused clock shows its anchor whatever the time.
pub proof fn lemma_paused_position_holds(clock: PlaybackClock, now: u64)
    requires
        !clock.playing,
    ensures
        clock.position_at(now) == clock.anchor_ms,
{
}

/// While a seek is settling, a report that disagrees with the requested
/// position by more than the tolerance changes nothing, so a report sampled
/// before the seek cannot undo it.
pub proof fn lemma_stale_report_cannot_undo_a_seek(clock: PlaybackClock, reported_ms: u32, now: u64)
    requires
        clock.settling_until is Some,
        now < clock.settling_until->0,
        gap(reported_ms, clock.position_at(now)) > SETTLE_TOLERANCE_MS,
    ensures
        clock.reported(reported_ms, now) == clock,
{
}

/// A report that agrees with the shown position to within the drift margin
/// leaves the shown position where it was.
pub proof fn lemma_small_drift_is_ignored(clock: PlaybackClock, reported_ms: u32, now: u64)
    requires
        gap(reported_ms, clock.position_at(now)) < DRIFT_IGNORE_MS,
    ensures
        clock.reported(reported_ms, now).position_at(now) == clock.position_at(now),
{
}

/// Right after a seek the clock shows the requested position.
pub proof fn lemma_seek_shows_the_target(clock: PlaybackClock, position_ms: u32, now: u64, until: u64)
    ensures
        (PlaybackClock {
            anchor_ms: position_ms,
            anchor_at: now,
            settling_until: Some(until),
            ..clock
        }).position_at(now) == position_ms,
{
}

/// Starting or stopping playback does not move the shown position.
pub proof fn lemma_set_playing_keeps_the_position(clock: PlaybackClock, playing: bool, now: u64)
    ensures
        (PlaybackClock {
            anchor_ms: clock.position_at(now),
            anchor_at: now,
            playing,
            ..clock
        }).position_at(now) == clock.position_at(now),
{
}

} // verus!
