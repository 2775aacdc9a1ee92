//! Replay of an optimization run: recorded frames per iteration, the selected frame, and
//! the autoplay decisions. A frame's payload (parameters or a sampled curve) is carried
//! through untouched, and so is the clock value of the last autoplay step.

use vstd::prelude::*;

verus! {

/// One recorded frame: the iteration it belongs to and its payload.
#[derive(Debug)]
pub struct ReplayFrame<P> {
    pub iteration: u64,
    pub payload: P,
}

/// Records a frame: a frame for the same iteration as the last one replaces it (a fresher
/// snapshot of that iteration), any other frame is appended.
pub fn upsert_replay_frame_in<P>(frames: &mut Vec<ReplayFrame<P>>, frame: ReplayFrame<P>)
    ensures
        old(frames)@.len() > 0 && old(frames)@.last().iteration == frame.iteration ==> final(frames)@
            == old(frames)@.update(old(frames)@.len() - 1, frame),
        !(old(frames)@.len() > 0 && old(frames)@.last().iteration == frame.iteration)
            ==> final(frames)@ == old(frames)@.push(frame),
{
    let len = frames.len();
    if len > 0 && frames[len - 1].iteration == frame.iteration {
        frames.set(len - 1, frame);
    } else {
        frames.push(frame);
    }
}

/// Whether the frames' iterations strictly increase.
pub open spec fn frames_sorted<P>(frames: Seq<ReplayFrame<P>>) -> bool {
    forall|i: int, j: int| 0 <= i < j < frames.len() ==> (#[trigger] frames[i]).iteration < (
    #[trigger] frames[j]).iteration
}

/// The distance between two iterations.
pub open spec fn iteration_distance(a: u64, b: u64) -> nat {
    if a >= b {
        (a - b) as nat
    } else {
        (b - a) as nat
    }
}

/// Whether frame `r` is the frame nearest to `iteration`, the earlier one on a tie.
pub open spec fn is_nearest_frame<P>(frames: Seq<ReplayFrame<P>>, iteration: u64, r: int) -> bool {
    &&& 0 <= r < frames.len()
    &&& forall|k: int|
        0 <= k < frames.len() ==> iteration_distance(frames[r].iteration, iteration)
            <= iteration_distance(#[trigger] frames[k].iteration, iteration)
    &&& forall|k: int|
        0 <= k < r ==> iteration_distance(#[trigger] frames[k].iteration, iteration)
            > iteration_distance(frames[r].iteration, iteration)
}

/// What one autoplay tick did.
#[derive(Debug, Clone, Copy, PartialEq, Eq, Structural)]
pub enum ReplayTick {
    /// Autoplay is off or a fit is running: nothing to do.
    Idle,
    /// Autoplay stopped: there was no next frame to show.
    Stopped,
    /// The next frame was selected; `more` tells whether autoplay goes on.
    Stepped { index: usize, more: bool },
    /// The step interval has not passed yet.
    Waiting,
}

/// The replay controls: frames, selected frame, and autoplay.
#[derive(Debug)]
pub struct ReplayState<P, T> {
    pub frames: Vec<ReplayFrame<P>>,
    pub selected_index: Option<usize>,
    pub autoplay_on_fit: bool,
    pub autoplay: bool,
    /// When autoplay last stepped, `None` when the next tick should step at once.
    pub last_step_at: Option<T>,
}

impl<P, T> ReplayState<P, T> {
    /// No frames, nothing selected, autoplay after a fit enabled but not playing.
    pub fn new() -> (state: ReplayState<P, T>)
        ensures
            state.frames@.len() == 0,
            state.selected_index is None,
            state.autoplay_on_fit,
            !state.autoplay,
            state.last_step_at is None,
    {
        ReplayState {
            frames: Vec::new(),
            selected_index: None,
            autoplay_on_fit: true,
            autoplay: false,
            last_step_at: None,
        }
    }

    /// Drops all frames and stops playing.
    pub fn clear_replay_state(&mut self)
        ensures
            final(self).frames@.len() == 0,
            final(self).selected_index is None,
            !final(self).autoplay,
            final(self).last_step_at is None,
            final(self).autoplay_on_fit == old(self).autoplay_on_fit,
    {
        self.frames.clear();
        self.selected_index = None;
        self.autoplay = false;
        self.last_step_at = None;
    }

    /// The iterations of the first and the last frame.
    pub fn replay_iteration_bounds(&self) -> (bounds: Option<(u64, u64)>)
        ensures
            self.frames@.len() == 0 ==> bounds is None,
            self.frames@.len() > 0 ==> bounds == Some(
                (self.frames@[0].iteration, self.frames@.last().iteration),
            ),
    {
        let len = self.frames.len();
        if len == 0 {
            None
        } else {
            Some((self.frames[0].iteration, self.frames[len - 1].iteration))
        }
    }

    /// The iteration of the selected frame.
    pub fn replay_selected_iteration(&self) -> (iteration: Option<u64>)
        ensures
            match self.selected_index {
                Some(index) if index < self.frames@.len() => iteration == Some(
                    self.frames@[index as int].iteration,
                ),
                _ => iteration is None,
            },
    {
        match self.selected_index {
            Some(index) => if index < self.frames.len() {
                Some(self.frames[index].iteration)
            } else {
                None
            },
            None => None,
        }
    }

    /// Selects frame `index` when it exists; returns whether it did.
    pub fn set_replay_selected_index(&mut self, index: usize) -> (selected: bool)
        ensures
            selected == (index < old(self).frames@.len()),
            final(self).selected_index == (if selected {
                Some(index)
            } else {
                old(self).selected_index
            }),
            final(self).frames == old(self).frames,
            final(self).autoplay == old(self).autoplay,
            final(self).autoplay_on_fit == old(self).autoplay_on_fit,
            final(self).last_step_at == old(self).last_step_at,
    {
        if index < self.frames.len() {
            self.selected_index = Some(index);
            true
        } else {
            false
        }
    }

    /// The frame nearest to an iteration, the earlier one on a tie; `None` without frames.
    /// The answer is exact when the frames' iterations increase, as recording produces them.
    pub fn nearest_replay_frame_index(&self, iteration: u64) -> (index: Option<usize>)
        ensures
            index is None <==> self.frames@.len() == 0,
            index matches Some(r) ==> r < self.frames@.len(),
            index matches Some(r) ==> (frames_sorted(self.frames@) ==> is_nearest_frame(
                self.frames@,
                iteration,
                r as int,
            )),
    {
        let len = self.frames.len();
        if len == 0 {
            return None;
        }
        let mut lo: usize = 0;
        let mut hi: usize = len;
        while lo < hi
            invariant
                0 <= lo <= hi <= len == self.frames@.len(),
                frames_sorted(self.frames@) ==> forall|k: int|
                    0 <= k < lo ==> (#[trigger] self.frames@[k]).iteration < iteration,
                frames_sorted(self.frames@) ==> forall|k: int|
                    hi <= k < len ==> (#[trigger] self.frames@[k]).iteration >= iteration,
            decreases hi - lo,
        {
            let mid = lo + (hi - lo) / 2;
            if self.frames[mid].iteration < iteration {
                lo = mid + 1;
            } else {
                hi = mid;
            }
        }
        let insert = lo;
        let result = if insert < len && self.frames[insert].iteration == iteration {
            insert
        } else if insert == 0 {
            0
        } else if insert >= len {
            len - 1
        } else {
            let prev = insert - 1;
            let prev_iteration = self.frames[prev].iteration;
            let next_iteration = self.frames[insert].iteration;
            let prev_distance = if iteration >= prev_iteration {
                iteration - prev_iteration
            } else {
                0
            };
            let next_distance = if next_iteration >= iteration {
                next_iteration - iteration
            } else {
                0
            };
            if next_distance < prev_distance {
                insert
            } else {
                prev
            }
        };
        proof {
            if frames_sorted(self.frames@) {
                let s = self.frames@;
                assert forall|k: int| 0 <= k < s.len() implies iteration_distance(s[result as int].iteration, iteration)
                    <= iteration_distance(#[trigger] s[k].iteration, iteration) by {
                    if k < insert as int - 1 {
                        assert(s[k].iteration < s[insert as int - 1].iteration);
                    }
                    if k > insert as int {
                        assert(s[insert as int].iteration < s[k].iteration);
                    }
                }
                assert forall|k: int| 0 <= k < result implies iteration_distance(#[trigger] s[k].iteration, iteration)
                    > iteration_distance(s[result as int].iteration, iteration) by {
                    if k < insert as int - 1 {
                        assert(s[k].iteration < s[insert as int - 1].iteration);
                    }
                }
            }
        }
        Some(result)
    }

    /// Selects the frame nearest to an iteration; returns the selected position.
    pub fn select_nearest_replay_iteration(&mut self, iteration: u64) -> (index: Option<usize>)
        ensures
            index is None <==> old(self).frames@.len() == 0,
            index matches Some(r) ==> final(self).selected_index == Some(r) && r < old(self).frames@.len()
                && (frames_sorted(old(self).frames@) ==> is_nearest_frame(
                old(self).frames@,
                iteration,
                r as int,
            )),
            index is None ==> final(self).selected_index == old(self).selected_index,
            final(self).frames == old(self).frames,
            final(self).autoplay == old(self).autoplay,
            final(self).last_step_at == old(self).last_step_at,
    {
        let index = self.nearest_replay_frame_index(iteration);
        if let Some(r) = index {
            self.set_replay_selected_index(r);
        }
        index
    }

    /// Stops playing.
    pub fn pause_replay(&mut self)
        ensures
            !final(self).autoplay,
            final(self).last_step_at is None,
            final(self).frames == old(self).frames,
            final(self).selected_index == old(self).selected_index,
            final(self).autoplay_on_fit == old(self).autoplay_on_fit,
    {
        self.autoplay = false;
        self.last_step_at = None;
    }

    /// Selects the first frame and plays when autoplay after a fit is on and there are at
    /// least two frames; returns the selected position.
    pub fn start_replay_from_beginning(&mut self) -> (index: Option<usize>)
        ensures
            old(self).frames@.len() == 0 ==> index is None && !final(self).autoplay
                && final(self).selected_index == old(self).selected_index,
            old(self).frames@.len() > 0 ==> index == Some(0usize) && final(self).selected_index
                == Some(0usize) && final(self).autoplay == (old(self).autoplay_on_fit
                && old(self).frames@.len() > 1),
            final(self).last_step_at is None,
            final(self).frames == old(self).frames,
            final(self).autoplay_on_fit == old(self).autoplay_on_fit,
    {
        if self.frames.len() == 0 {
            self.autoplay = false;
            self.last_step_at = None;
            return None;
        }
        self.set_replay_selected_index(0);
        self.autoplay = self.autoplay_on_fit && self.frames.len() > 1;
        self.last_step_at = None;
        Some(0)
    }

    /// Selects the last frame; returns its position.
    pub fn select_replay_last_frame(&mut self) -> (index: Option<usize>)
        ensures
            old(self).frames@.len() == 0 ==> index is None
                && final(self).selected_index == old(self).selected_index,
            old(self).frames@.len() > 0 ==> index == Some((old(self).frames@.len() - 1) as usize)
                && final(self).selected_index == index,
            final(self).frames == old(self).frames,
            final(self).autoplay == old(self).autoplay,
            final(self).last_step_at == old(self).last_step_at,
            final(self).autoplay_on_fit == old(self).autoplay_on_fit,
    {
        let len = self.frames.len();
        if len == 0 {
            return None;
        }
        self.set_replay_selected_index(len - 1);
        Some(len - 1)
    }

    /// After a finished fit: replay from the start when autoplay after a fit is on and
    /// there are at least two frames, else stop on the last frame.
    pub fn finalize_replay_after_fit_completion(&mut self) -> (index: Option<usize>)
        ensures
            old(self).autoplay_on_fit && old(self).frames@.len() > 1 ==> index == Some(0usize)
                && final(self).selected_index == Some(0usize) && final(self).autoplay,
            !(old(self).autoplay_on_fit && old(self).frames@.len() > 1) ==> !final(self).autoplay
                && (old(self).frames@.len() > 0 ==> index == Some(
                (old(self).frames@.len() - 1) as usize,
            ) && final(self).selected_index == index) && (old(self).frames@.len() == 0
                ==> index is None),
            final(self).last_step_at is None,
            final(self).frames == old(self).frames,
            final(self).autoplay_on_fit == old(self).autoplay_on_fit,
    {
        if self.autoplay_on_fit && self.frames.len() > 1 {
            return self.start_replay_from_beginning();
        }
        self.pause_replay();
        self.select_replay_last_frame()
    }

    /// After a stopped fit: stop playing, and show the last frame unless autoplay after a
    /// fit is on.
    pub fn finalize_replay_after_fit_stopped(&mut self) -> (index: Option<usize>)
        ensures
            !final(self).autoplay,
            final(self).last_step_at is None,
            final(self).frames == old(self).frames,
            old(self).autoplay_on_fit ==> index is None
                && final(self).selected_index == old(self).selected_index,
            !old(self).autoplay_on_fit && old(self).frames@.len() > 0 ==> index == Some(
                (old(self).frames@.len() - 1) as usize,
            ) && final(self).selected_index == index,
    {
        self.pause_replay();
        if !self.autoplay_on_fit {
            return self.select_replay_last_frame();
        }
        None
    }

    /// Switches playing on or off. Playing needs two frames; from the last frame (or with
    /// nothing selected) it restarts at the first. Returns a newly selected position.
    pub fn toggle_replay_autoplay(&mut self) -> (index: Option<usize>)
        ensures
            final(self).frames == old(self).frames,
            final(self).last_step_at is None || final(self).last_step_at == old(self).last_step_at,
            old(self).autoplay ==> !final(self).autoplay && final(self).last_step_at is None
                && index is None && final(self).selected_index == old(self).selected_index,
            !old(self).autoplay && old(self).frames@.len() < 2 ==> !final(self).autoplay
                && index is None && final(self).selected_index == old(self).selected_index,
            !old(self).autoplay && old(self).frames@.len() >= 2 ==> final(self).autoplay
                && final(self).last_step_at is None && (match old(self).selected_index {
                Some(i) if i + 1 < old(self).frames@.len() => index is None
                    && final(self).selected_index == old(self).selected_index,
                _ => index == Some(0usize) && final(self).selected_index == Some(0usize),
            }),
    {
        if self.autoplay {
            self.autoplay = false;
            self.last_step_at = None;
            return None;
        }
        if self.frames.len() < 2 {
            return None;
        }
        let at_end = match self.selected_index {
            Some(index) => index >= self.frames.len() - 1,
            None => true,
        };
        let mut restarted = None;
        if at_end {
            self.set_replay_selected_index(0);
            restarted = Some(0);
        }
        self.autoplay = true;
        self.last_step_at = None;
        restarted
    }

    /// One autoplay tick at clock value `now`; `step_due` tells whether the step interval
    /// has passed since the last step (true when there was none).
    pub fn tick_replay(&mut self, fit_in_progress: bool, step_due: bool, now: T) -> (tick: ReplayTick)
        ensures
            final(self).frames == old(self).frames,
            final(self).autoplay_on_fit == old(self).autoplay_on_fit,
            fit_in_progress || !old(self).autoplay ==> tick == ReplayTick::Idle
                && final(self).autoplay == old(self).autoplay
                && final(self).selected_index == old(self).selected_index
                && final(self).last_step_at == old(self).last_step_at,
            !fit_in_progress && old(self).autoplay ==> match old(self).selected_index {
                Some(i) if i + 1 < old(self).frames@.len() => if step_due {
                    &&& tick == ReplayTick::Stepped { index: (i + 1) as usize, more: i + 2 < old(self).frames@.len() }
                    &&& final(self).selected_index == Some((i + 1) as usize)
                    &&& final(self).autoplay == (i + 2 < old(self).frames@.len())
                    &&& final(self).last_step_at == (if i + 2 < old(self).frames@.len() {
                        Some(now)
                    } else {
                        None
                    })
                } else {
                    &&& tick == ReplayTick::Waiting
                    &&& final(self).selected_index == old(self).selected_index
                    &&& final(self).autoplay
                    &&& final(self).last_step_at == old(self).last_step_at
                },
                _ => tick == ReplayTick::Stopped && !final(self).autoplay
                    && final(self).selected_index == old(self).selected_index
                    && final(self).last_step_at is None,
            },
    {
        if fit_in_progress || !self.autoplay {
            return ReplayTick::Idle;
        }
        let current = match self.selected_index {
            Some(index) => index,
            None => {
                self.pause_replay();
                return ReplayTick::Stopped;
            },
        };
        if current >= self.frames.len() || current + 1 >= self.frames.len() {
            self.pause_replay();
            return ReplayTick::Stopped;
        }
        if step_due {
            let next = current + 1;
            self.set_replay_selected_index(next);
            self.last_step_at = Some(now);
            let more = next + 1 < self.frames.len();
            if !more {
                self.pause_replay();
            }
            return ReplayTick::Stepped { index: next, more };
        }
        ReplayTick::Waiting
    }
}

/// Recording frames of increasing iterations keeps the frames sorted: a frame for the last
/// iteration replaces it, and a frame for a later iteration is appended after it.
pub proof fn lemma_upsert_keeps_frames_sorted<P>(frames: Seq<ReplayFrame<P>>, frame: ReplayFrame<P>)
    requires
        frames_sorted(frames),
        frames.len() > 0 ==> frames.last().iteration <= frame.iteration,
    ensures
        frames_sorted(
            if frames.len() > 0 && frames.last().iteration == frame.iteration {
                frames.update(frames.len() - 1, frame)
            } else {
                frames.push(frame)
            },
        ),
{
    let result = if frames.len() > 0 && frames.last().iteration == frame.iteration {
        frames.update(frames.len() - 1, frame)
    } else {
        frames.push(frame)
    };
    assert forall|i: int, j: int| 0 <= i < j < result.len() implies (#[trigger] result[i]).iteration < (
    #[trigger] result[j]).iteration by {
        if j == result.len() - 1 && frames.len() > 0 {
            assert(frames[i].iteration <= frames.last().iteration);
        }
    }
}

} // verus!
