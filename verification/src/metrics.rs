use vstd::prelude::*;

verus! {

/// Per-window counters of the controller loop; durations in nanoseconds.
#[derive(Clone, Copy, Debug, PartialEq, Eq, Structural)]
pub struct RuntimeMetrics {
    pub frames_processed: u64,
    pub commands_sent: u64,
    pub dropped_frames: u64,
    pub max_frame_age_ns: u128,
    pub max_process_time_ns: u128,
}

pub open spec fn max_u128(a: u128, b: u128) -> u128 {
    if a >= b {
        a
    } else {
        b
    }
}

impl RuntimeMetrics {
    pub open spec fn zero() -> RuntimeMetrics {
        RuntimeMetrics {
            frames_processed: 0,
            commands_sent: 0,
            dropped_frames: 0,
            max_frame_age_ns: 0,
            max_process_time_ns: 0,
        }
    }

    /// An empty window.
    pub fn new() -> (r: Self)
        ensures
            r == Self::zero(),
    {
        RuntimeMetrics {
            frames_processed: 0,
            commands_sent: 0,
            dropped_frames: 0,
            max_frame_age_ns: 0,
            max_process_time_ns: 0,
        }
    }

    /// Count one processed frame, the frames skipped to reach it, and keep
    /// the largest frame age and processing time seen.
    pub fn record_frame(&mut self, frame_age_ns: u128, process_time_ns: u128, dropped_frames: u64)
        requires
            old(self).frames_processed < u64::MAX,
            old(self).dropped_frames + dropped_frames <= u64::MAX,
        ensures
            *final(self) == (RuntimeMetrics {
                frames_processed: (old(self).frames_processed + 1) as u64,
                dropped_frames: (old(self).dropped_frames + dropped_frames) as u64,
                max_frame_age_ns: max_u128(old(self).max_frame_age_ns, frame_age_ns),
                max_process_time_ns: max_u128(old(self).max_process_time_ns, process_time_ns),
                ..*old(self)
            }),
    {
        self.frames_processed = self.frames_processed + 1;
        self.dropped_frames = self.dropped_frames + dropped_frames;
        if frame_age_ns > self.max_frame_age_ns {
            self.max_frame_age_ns = frame_age_ns;
        }
        if process_time_ns > self.max_process_time_ns {
            self.max_process_time_ns = process_time_ns;
        }
    }

    /// Count one move command handed to the stepper.
    pub fn record_command(&mut self)
        requires
            old(self).commands_sent < u64::MAX,
        ensures
            *final(self) == (RuntimeMetrics {
                commands_sent: (old(self).commands_sent + 1) as u64,
                ..*old(self)
            }),
    {
        self.commands_sent = self.commands_sent + 1;
    }

    /// Close the window: hand back its counters and start a new, empty one.
    pub fn take_window(&mut self) -> (r: RuntimeMetrics)
        ensures
            r == *old(self),
            *final(self) == Self::zero(),
    {
        let window = *self;
        *self = RuntimeMetrics::new();
        window
    }
}

/// Whole milliseconds in `ns` nanoseconds, as `Duration::as_millis` counts.
pub fn whole_millis(ns: u128) -> (r: u128)
    ensures
        r == ns / 1_000_000,
{
    ns / 1_000_000
}

} // verus!
