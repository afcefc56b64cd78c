//! The order in which the notes of a scale are sounded on demand: from the
//! last entry down to the first, one at a time, with a short rest after
//! each. The sounding itself is the caller's; here is what comes next.

use vstd::prelude::*;

verus! {

/// How long a note sounds, in milliseconds.
pub const NOTE_MILLIS: u64 = 640;

/// How long the rest after a note lasts, in milliseconds.
pub const REST_MILLIS: u64 = 100;

/// What the player does next.
#[derive(Debug, Clone, Copy, PartialEq, Eq, Structural)]
pub enum PlaybackStep {
    /// Sound the entry `index` for `millis` milliseconds.
    Play { index: usize, millis: u64 },
    /// Stay silent for `millis` milliseconds.
    Rest { millis: u64 },
    /// Nothing is left to play.
    Done,
}

/// How far the playback of a scale has come.
#[derive(Debug, Clone, Copy, PartialEq, Eq, Structural)]
pub struct Playback {
    /// Entries that have not sounded yet: those below this index.
    pub remaining: usize,
    /// Whether a note has sounded and its rest is still due.
    pub sounded: bool,
}

impl Playback {
    /// The step that is taken in this state.
    pub open spec fn step(self) -> PlaybackStep {
        if self.sounded {
            PlaybackStep::Rest { millis: REST_MILLIS }
        } else if self.remaining == 0 {
            PlaybackStep::Done
        } else {
            PlaybackStep::Play { index: (self.remaining - 1) as usize, millis: NOTE_MILLIS }
        }
    }

    /// The state after that step.
    pub open spec fn after_step(self) -> Playback {
        if self.sounded {
            Playback { remaining: self.remaining, sounded: false }
        } else if self.remaining == 0 {
            self
        } else {
            Playback { remaining: (self.remaining - 1) as usize, sounded: true }
        }
    }

    /// The state after `n` steps.
    pub open spec fn after_steps(self, n: nat) -> Playback
        decreases n,
    {
        if n == 0 {
            self
        } else {
            self.after_steps((n - 1) as nat).after_step()
        }
    }

    /// The playback of a scale of `count` entries, before its first note.
    pub fn new(count: usize) -> (playback: Self)
        ensures
            playback == fresh(count),
    {
        Playback { remaining: count, sounded: false }
    }

    /// Takes the next step: the highest entry that has not sounded yet, then
    /// its rest, and so on down to the first entry.
    pub fn advance(&mut self) -> (step: PlaybackStep)
        ensures
            step == old(self).step(),
            *final(self) == old(self).after_step(),
    {
        if self.sounded {
            self.sounded = false;
            PlaybackStep::Rest { millis: REST_MILLIS }
        } else if self.remaining == 0 {
            PlaybackStep::Done
        } else {
            self.remaining = self.remaining - 1;
            self.sounded = true;
            PlaybackStep::Play { index: self.remaining, millis: NOTE_MILLIS }
        }
    }

    /// Gives up after a note could not be sounded: the notes that are left
    /// are not played.
    pub fn abort(&mut self)
        ensures
            *final(self) == fresh(0),
            final(self).step() == PlaybackStep::Done,
    {
        self.remaining = 0;
        self.sounded = false;
    }
}

/// The playback of a scale of `count` entries, before its first note.
pub open spec fn fresh(count: usize) -> Playback {
    Playback { remaining: count, sounded: false }
}

/// Step `n` of the playback of a scale of `count` entries: the even steps
/// sound the entries from the last down to the first, a rest follows each
/// note, and after the last rest nothing is left.
pub open spec fn descending_step(count: usize, n: nat) -> PlaybackStep {
    if n >= 2 * count {
        PlaybackStep::Done
    } else if n % 2 == 0 {
        PlaybackStep::Play { index: (count - 1 - n / 2) as usize, millis: NOTE_MILLIS }
    } else {
        PlaybackStep::Rest { millis: REST_MILLIS }
    }
}

/// The state in which step `n` of the playback of `count` entries is taken.
pub open spec fn descending_state(count: usize, n: nat) -> Playback {
    if n >= 2 * count {
        Playback { remaining: 0, sounded: false }
    } else {
        Playback { remaining: (count - (n + 1) / 2) as usize, sounded: n % 2 == 1 }
    }
}

/// A scale is played from its last entry down to its first, each entry
/// once: whatever the number of entries, step `n` is `descending_step`.
pub proof fn plays_in_descending_order(count: usize, n: nat)
    ensures
        fresh(count).after_steps(n) == descending_state(count, n),
        fresh(count).after_steps(n).step() == descending_step(count, n),
    decreases n,
{
    if n > 0 {
        plays_in_descending_order(count, (n - 1) as nat);
    }
}

} // verus!
