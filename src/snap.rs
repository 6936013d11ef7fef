use vstd::prelude::*;
use crate::clock::{clock_now, nanos_since};
use crate::text::{millis_text, millis_text_of};
use vstd::string::StringExecFns;

verus! {

/// One recorded duration, in whole nanoseconds.
#[derive(Clone, Copy, Debug, PartialEq, Eq, Structural)]
pub struct Snap {
    pub duration: u64,
}

/// Times one `Snap`: made when the measured region starts, released when it ends.
pub struct SnapRecordingGuard {
    start: std::time::Instant,
}

impl SnapRecordingGuard {
    /// Starts the clock.
    pub fn new() -> (r: SnapRecordingGuard) {
        SnapRecordingGuard { start: clock_now() }
    }

    /// Nanoseconds passed since the guard was made, saturating at `u64::MAX`.
    pub fn elapsed(&self) -> (r: u64) {
        nanos_since(&self.start)
    }

    /// Ends the recording: the time passed since the guard was made becomes the
    /// duration of `snap`, and is returned.
    pub fn release(self, snap: &mut Snap) -> (elapsed: u64)
        ensures
            final(snap).duration == elapsed,
    {
        let elapsed = nanos_since(&self.start);
        snap.finish(elapsed);
        elapsed
    }
}

impl Snap {
    /// A snapshot that has not been timed yet.
    pub fn new() -> (r: Snap)
        ensures
            r.duration == 0,
    {
        Snap { duration: 0 }
    }

    /// Opens a recording for this snapshot; `SnapRecordingGuard::release` closes it.
    pub fn record(&mut self) -> (r: SnapRecordingGuard)
        ensures
            *final(self) == *old(self),
    {
        SnapRecordingGuard::new()
    }

    /// The duration as text, such as `Snap: 12.35ms`.
    pub fn describe(&self) -> (r: String)
        ensures
            r@ == seq!['S', 'n', 'a', 'p', ':', ' '] + millis_text_of(self.duration),
    {
        let mut s = String::new();
        s.append("Snap: ");
        let ms = millis_text(self.duration);
        s.append(ms.as_str());
        proof {
            reveal_strlit("Snap: ");
            assert(s@ =~= seq!['S', 'n', 'a', 'p', ':', ' '] + millis_text_of(self.duration));
        }
        s
    }

    /// Sets the measured duration.
    pub fn finish(&mut self, elapsed: u64)
        ensures
            final(self).duration == elapsed,
    {
        self.duration = elapsed;
    }
}

} // verus!
