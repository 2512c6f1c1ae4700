use std::sync::Arc;
use vstd::prelude::*;
use vstd::rwlock::{RwLock, RwLockPredicate};

verus! {

/// What the web UI reports about playback.
#[derive(Clone, Copy, Debug, PartialEq, Eq, Structural)]
pub struct WebPlaybackState {
    pub paused: bool,
}

/// A playback request from the web UI; absent fields leave the state alone.
#[derive(Clone, Copy, Debug, PartialEq, Eq, Structural)]
pub struct PlaybackControlUpdate {
    pub paused: Option<bool>,
    pub reprocess_current_frame: Option<bool>,
    pub step_next_frame: Option<bool>,
}

/// Everything the detector loop needs to know about playback at once.
#[derive(Clone, Copy, Debug, PartialEq, Eq, Structural)]
pub struct PlaybackControlSnapshot {
    pub paused: bool,
    pub reprocess_generation: u64,
    pub step_generation: u64,
}

/// Playback state behind the shared lock. Every reprocess or step request
/// bumps its generation counter, so the detector loop can tell new requests
/// from ones it has already served.
#[derive(Clone, Copy, Debug, PartialEq, Eq, Structural)]
pub struct PlaybackControlState {
    pub paused: bool,
    pub reprocess_generation: u64,
    pub step_generation: u64,
}

/// `g + 1`, wrapping to zero after `u64::MAX`.
pub open spec fn next_generation(g: u64) -> u64 {
    if g == u64::MAX {
        0
    } else {
        (g + 1) as u64
    }
}

impl PlaybackControlState {
    pub open spec fn initial() -> PlaybackControlState {
        PlaybackControlState { paused: false, reprocess_generation: 0, step_generation: 0 }
    }

    /// The state after `update`: `paused` is replaced when given, and each
    /// requested action advances its generation by one.
    pub open spec fn spec_apply(self, update: PlaybackControlUpdate) -> PlaybackControlState {
        PlaybackControlState {
            paused: match update.paused {
                Some(p) => p,
                None => self.paused,
            },
            reprocess_generation: if update.reprocess_current_frame == Some(true) {
                next_generation(self.reprocess_generation)
            } else {
                self.reprocess_generation
            },
            step_generation: if update.step_next_frame == Some(true) {
                next_generation(self.step_generation)
            } else {
                self.step_generation
            },
        }
    }

    pub open spec fn spec_snapshot(self) -> PlaybackControlSnapshot {
        PlaybackControlSnapshot {
            paused: self.paused,
            reprocess_generation: self.reprocess_generation,
            step_generation: self.step_generation,
        }
    }

    /// Running, with no request served yet.
    pub fn new() -> (r: Self)
        ensures
            r == Self::initial(),
    {
        PlaybackControlState { paused: false, reprocess_generation: 0, step_generation: 0 }
    }

    /// Apply one web UI request.
    pub fn apply(&mut self, update: PlaybackControlUpdate)
        ensures
            *final(self) == old(self).spec_apply(update),
    {
        if let Some(next_paused) = update.paused {
            self.paused = next_paused;
        }
        if update.reprocess_current_frame.unwrap_or(false) {
            self.reprocess_generation = self.reprocess_generation.wrapping_add(1);
        }
        if update.step_next_frame.unwrap_or(false) {
            self.step_generation = self.step_generation.wrapping_add(1);
        }
    }

    pub fn state(&self) -> (r: WebPlaybackState)
        ensures
            r.paused == self.paused,
    {
        WebPlaybackState { paused: self.paused }
    }

    pub fn snapshot(&self) -> (r: PlaybackControlSnapshot)
        ensures
            r == self.spec_snapshot(),
    {
        PlaybackControlSnapshot {
            paused: self.paused,
            reprocess_generation: self.reprocess_generation,
            step_generation: self.step_generation,
        }
    }
}

/// An update with no fields set changes nothing; `paused` given is what the
/// state then holds; each requested action moves its generation forward by
/// exactly one and leaves the other alone.
pub proof fn lemma_apply_update(s: PlaybackControlState, update: PlaybackControlUpdate)
    ensures
        update.paused is None && update.reprocess_current_frame != Some(true)
            && update.step_next_frame != Some(true) ==> s.spec_apply(update) == s,
        update.paused matches Some(p) ==> s.spec_apply(update).paused == p,
        update.reprocess_current_frame == Some(true) ==> s.spec_apply(
            update,
        ).reprocess_generation != s.reprocess_generation,
        update.step_next_frame == Some(true) ==> s.spec_apply(update).step_generation
            != s.step_generation,
        update.reprocess_current_frame != Some(true) ==> s.spec_apply(update).reprocess_generation
            == s.reprocess_generation,
        update.step_next_frame != Some(true) ==> s.spec_apply(update).step_generation
            == s.step_generation,
{
}

/// Any playback state may sit behind the shared lock.
pub struct AnyPlaybackState;

impl RwLockPredicate<PlaybackControlState> for AnyPlaybackState {
    open spec fn inv(self, v: PlaybackControlState) -> bool {
        true
    }
}

/// Playback control shared between the web UI server and the detector loop.
#[derive(Clone)]
pub struct SharedPlaybackControl {
    inner: Arc<RwLock<PlaybackControlState, AnyPlaybackState>>,
}

impl SharedPlaybackControl {
    /// A running (not paused) playback with no requests yet.
    pub fn new() -> (r: Self) {
        let lock = RwLock::new(PlaybackControlState::new(), Ghost(AnyPlaybackState));
        SharedPlaybackControl { inner: Arc::new(lock) }
    }

    /// Apply a web UI request under the lock and report whether playback is
    /// now paused. Other threads may change the state before or after, so
    /// only a `paused` given in the request is known to be the answer.
    pub fn apply_update(&self, update: PlaybackControlUpdate) -> (r: WebPlaybackState)
        ensures
            update.paused matches Some(p) ==> r.paused == p,
    {
        let (mut state, handle) = self.inner.acquire_write();
        state.apply(update);
        let result = state.state();
        handle.release_write(state);
        result
    }

    /// Whether playback is paused at the moment of reading.
    pub fn get_state(&self) -> (r: WebPlaybackState) {
        let handle = self.inner.acquire_read();
        let result = handle.borrow().state();
        handle.release_read();
        result
    }

    /// All playback fields, read together under one lock.
    pub fn snapshot(&self) -> (r: PlaybackControlSnapshot) {
        let handle = self.inner.acquire_read();
        let result = handle.borrow().snapshot();
        handle.release_read();
        result
    }
}

impl Default for SharedPlaybackControl {
    fn default() -> (r: Self) {
        Self::new()
    }
}

/// What the detector loop does next under web UI control.
#[derive(Clone, Copy, Debug, PartialEq, Eq, Structural)]
pub enum RunnerAction {
    /// Running: capture and detect the next frame; stop when none is left.
    PlayFrame,
    /// Paused with a new step request: capture and detect one frame.
    StepFrame,
    /// Paused with a new reprocess request: detect on the frame held.
    ReprocessCurrentFrame,
    /// Paused with nothing new to do: wait a little.
    Wait,
}

/// The generations of the last step and reprocess requests the detector loop
/// has served.
#[derive(Clone, Copy, Debug, PartialEq, Eq, Structural)]
pub struct PlaybackCursor {
    pub last_reprocess_generation: u64,
    pub last_step_generation: u64,
}

impl PlaybackCursor {
    /// The action for `playback`, and the cursor after serving it.
    pub open spec fn spec_next(self, playback: PlaybackControlSnapshot) -> (
        PlaybackCursor,
        RunnerAction,
    ) {
        if playback.paused {
            if playback.step_generation != self.last_step_generation {
                (
                    PlaybackCursor { last_step_generation: playback.step_generation, ..self },
                    RunnerAction::StepFrame,
                )
            } else if playback.reprocess_generation == self.last_reprocess_generation {
                (self, RunnerAction::Wait)
            } else {
                (
                    PlaybackCursor {
                        last_reprocess_generation: playback.reprocess_generation,
                        ..self
                    },
                    RunnerAction::ReprocessCurrentFrame,
                )
            }
        } else {
            (
                PlaybackCursor { last_step_generation: playback.step_generation, ..self },
                RunnerAction::PlayFrame,
            )
        }
    }

    pub fn new() -> (r: Self)
        ensures
            r.last_reprocess_generation == 0,
            r.last_step_generation == 0,
    {
        PlaybackCursor { last_reprocess_generation: 0, last_step_generation: 0 }
    }

    /// Decide the next detector-loop step from the current playback snapshot.
    pub fn next_action(&mut self, playback: PlaybackControlSnapshot) -> (r: RunnerAction)
        ensures
            (*final(self), r) == old(self).spec_next(playback),
    {
        if playback.paused {
            if playback.step_generation != self.last_step_generation {
                self.last_step_generation = playback.step_generation;
                return RunnerAction::StepFrame;
            }
            if playback.reprocess_generation == self.last_reprocess_generation {
                return RunnerAction::Wait;
            }
            self.last_reprocess_generation = playback.reprocess_generation;
            return RunnerAction::ReprocessCurrentFrame;
        }
        self.last_step_generation = playback.step_generation;
        RunnerAction::PlayFrame
    }
}

/// While playback stays paused, each step and reprocess request is served at
/// most once: a third look at the same snapshot always waits, and waiting
/// changes nothing. While running, every look plays a frame.
pub proof fn lemma_requests_served_once(c: PlaybackCursor, s: PlaybackControlSnapshot)
    ensures
        !s.paused ==> c.spec_next(s).1 == RunnerAction::PlayFrame,
        s.paused ==> {
            let c1 = c.spec_next(s).0;
            let c2 = c1.spec_next(s).0;
            &&& c1.spec_next(s).1 != RunnerAction::StepFrame
            &&& c2.spec_next(s).1 == RunnerAction::Wait
            &&& c2.spec_next(s).0 == c2
        },
{
}

/// While paused, with every earlier request served, a single step request
/// from the web UI makes the detector loop step exactly one frame, and a
/// single reprocess request makes it reprocess the held frame exactly once;
/// after that it waits.
pub proof fn lemma_request_answered_once(s: PlaybackControlState, c: PlaybackCursor, step: bool)
    requires
        s.paused,
        c.last_step_generation == s.step_generation,
        c.last_reprocess_generation == s.reprocess_generation,
    ensures
        ({
            let update = if step {
                PlaybackControlUpdate {
                    paused: None,
                    reprocess_current_frame: None,
                    step_next_frame: Some(true),
                }
            } else {
                PlaybackControlUpdate {
                    paused: None,
                    reprocess_current_frame: Some(true),
                    step_next_frame: None,
                }
            };
            let snapshot = s.spec_apply(update).spec_snapshot();
            let (c1, first) = c.spec_next(snapshot);
            &&& first == (if step {
                RunnerAction::StepFrame
            } else {
                RunnerAction::ReprocessCurrentFrame
            })
            &&& c1.spec_next(snapshot).1 == RunnerAction::Wait
        }),
{
}

} // verus!
