//! Decisions around running fits: automatic refits when the fit settings change, spline
//! sampling density, and the size of the spline's initial knot inputs.

use vstd::prelude::*;

verus! {

/// What the automatic refit remembers: the fingerprint of the fit settings last seen, and
/// whether a refit is owed once the running fit ends.
#[derive(Debug, Clone, Copy, PartialEq, Eq, Structural)]
pub struct AutoRefitState {
    pub last_snapshot: Option<u64>,
    pub pending_rerun: bool,
}

/// The state after seeing the settings fingerprint `snapshot`, and whether to fit now.
///
/// The first fingerprint is only remembered. A changed fingerprint is remembered and, when
/// automatic refits are on, starts a fit, or marks one as owed while a fit is running.
pub open spec fn spec_track(
    state: AutoRefitState,
    snapshot: u64,
    enabled: bool,
    fit_in_progress: bool,
) -> (AutoRefitState, bool) {
    match state.last_snapshot {
        None => (AutoRefitState { last_snapshot: Some(snapshot), pending_rerun: state.pending_rerun }, false),
        Some(last) => if last == snapshot {
            (state, false)
        } else {
            let seen = AutoRefitState { last_snapshot: Some(snapshot), pending_rerun: state.pending_rerun };
            if !enabled {
                (seen, false)
            } else if fit_in_progress {
                (AutoRefitState { last_snapshot: Some(snapshot), pending_rerun: true }, false)
            } else {
                (seen, true)
            }
        },
    }
}

/// The state after checking for an owed refit, and whether to fit now: an owed refit runs
/// once no fit is running; turning automatic refits off forgets it.
pub open spec fn spec_run_pending(
    state: AutoRefitState,
    enabled: bool,
    fit_in_progress: bool,
) -> (AutoRefitState, bool) {
    if !enabled {
        (AutoRefitState { last_snapshot: state.last_snapshot, pending_rerun: false }, false)
    } else if !state.pending_rerun || fit_in_progress {
        (state, false)
    } else {
        (AutoRefitState { last_snapshot: state.last_snapshot, pending_rerun: false }, true)
    }
}

impl AutoRefitState {
    /// Nothing seen, nothing owed.
    pub fn new() -> (state: AutoRefitState)
        ensures
            state.last_snapshot is None,
            !state.pending_rerun,
    {
        AutoRefitState { last_snapshot: None, pending_rerun: false }
    }

    /// Notes the current settings fingerprint; returns whether to start a fit now.
    pub fn track_right_panel_fit_changes(&mut self, snapshot: u64, enabled: bool, fit_in_progress: bool) -> (run_fit: bool)
        ensures
            (*final(self), run_fit) == spec_track(*old(self), snapshot, enabled, fit_in_progress),
    {
        let last = match self.last_snapshot {
            Some(last) => last,
            None => {
                self.last_snapshot = Some(snapshot);
                return false;
            },
        };
        if last == snapshot {
            return false;
        }
        self.last_snapshot = Some(snapshot);
        if !enabled {
            return false;
        }
        if fit_in_progress {
            self.pending_rerun = true;
            return false;
        }
        true
    }

    /// Notes that a fit starts with the settings fingerprint `snapshot`: the fingerprint is
    /// remembered and no refit is owed any more.
    pub fn record_fit_start(&mut self, snapshot: u64)
        ensures
            final(self).last_snapshot == Some(snapshot),
            !final(self).pending_rerun,
    {
        self.last_snapshot = Some(snapshot);
        self.pending_rerun = false;
    }

    /// Runs an owed refit when no fit is running; returns whether to start a fit now.
    pub fn maybe_run_pending_auto_refit(&mut self, enabled: bool, fit_in_progress: bool) -> (run_fit: bool)
        ensures
            (*final(self), run_fit) == spec_run_pending(*old(self), enabled, fit_in_progress),
    {
        if !enabled {
            self.pending_rerun = false;
            return false;
        }
        if !self.pending_rerun || fit_in_progress {
            return false;
        }
        self.pending_rerun = false;
        true
    }
}

/// A settings change made while a fit is running is not lost: with automatic refits on,
/// the refit runs at the first check after the fit has ended, and only once.
pub proof fn lemma_change_during_fit_is_refitted(state: AutoRefitState, snapshot: u64)
    requires
        state.last_snapshot matches Some(last) && last != snapshot,
    ensures
        ({
            let (during, started) = spec_track(state, snapshot, true, true);
            let (after, run) = spec_run_pending(during, true, false);
            let (again, run_again) = spec_run_pending(after, true, false);
            &&& !started
            &&& run
            &&& !run_again
            &&& after.last_snapshot == Some(snapshot)
        }),
{
}

/// Seeing the same fingerprint twice starts nothing the second time.
pub proof fn lemma_unchanged_settings_do_not_refit(
    state: AutoRefitState,
    snapshot: u64,
    enabled: bool,
    fit_in_progress: bool,
)
    ensures
        ({
            let (seen, _) = spec_track(state, snapshot, enabled, fit_in_progress);
            spec_track(seen, snapshot, enabled, fit_in_progress) == (seen, false)
        }),
{
}

/// Fewest sampled points of a spline curve.
pub const SPLINE_AUTO_SAMPLES_MIN: usize = 80;
/// Most sampled points of a spline curve.
pub const SPLINE_AUTO_SAMPLES_MAX: usize = 2000;
/// Sampled points per knot.
pub const SPLINE_AUTO_SAMPLES_PER_KNOT: usize = 30;
/// Sampled points per data point.
pub const SPLINE_AUTO_SAMPLES_PER_POINT: usize = 3;

/// The number of points at which a spline curve is sampled: 30 per knot or 3 per data
/// point, whichever is more, kept within `80..=2000`.
pub open spec fn spec_auto_spline_samples(points_len: nat, knots: nat) -> nat {
    let by_knots = knots * (SPLINE_AUTO_SAMPLES_PER_KNOT as nat);
    let by_points = points_len * (SPLINE_AUTO_SAMPLES_PER_POINT as nat);
    let wanted = if by_knots >= by_points {
        by_knots
    } else {
        by_points
    };
    if wanted < SPLINE_AUTO_SAMPLES_MIN {
        SPLINE_AUTO_SAMPLES_MIN as nat
    } else if wanted > SPLINE_AUTO_SAMPLES_MAX {
        SPLINE_AUTO_SAMPLES_MAX as nat
    } else {
        wanted
    }
}

/// The number of points at which a spline curve is sampled; see [`spec_auto_spline_samples`].
pub fn auto_spline_samples(points_len: usize, knots: usize) -> (samples: usize)
    ensures
        samples == spec_auto_spline_samples(points_len as nat, knots as nat),
{
    let by_knots = if knots <= usize::MAX / SPLINE_AUTO_SAMPLES_PER_KNOT {
        knots * SPLINE_AUTO_SAMPLES_PER_KNOT
    } else {
        usize::MAX
    };
    let by_points = if points_len <= usize::MAX / SPLINE_AUTO_SAMPLES_PER_POINT {
        points_len * SPLINE_AUTO_SAMPLES_PER_POINT
    } else {
        usize::MAX
    };
    let wanted = if by_knots >= by_points {
        by_knots
    } else {
        by_points
    };
    if wanted < SPLINE_AUTO_SAMPLES_MIN {
        SPLINE_AUTO_SAMPLES_MIN
    } else if wanted > SPLINE_AUTO_SAMPLES_MAX {
        SPLINE_AUTO_SAMPLES_MAX
    } else {
        wanted
    }
}

/// The initial knot inputs resized to `knot_count`: kept as they are up to that length,
/// padded with `0.0`, or cut.
pub open spec fn spec_synced_knot_inputs(inputs: Seq<Seq<char>>, knot_count: nat) -> Seq<Seq<char>> {
    if inputs.len() < knot_count {
        inputs + Seq::new((knot_count - inputs.len()) as nat, |i: int| "0.0"@)
    } else {
        inputs.take(knot_count as int)
    }
}

/// Resizes the spline's initial knot inputs to `knot_count` entries, padding with `0.0`.
pub fn sync_spline_initial_knot_y_inputs(inputs: &mut Vec<String>, knot_count: usize)
    ensures
        crate::history::texts(final(inputs)@) == spec_synced_knot_inputs(
            crate::history::texts(old(inputs)@),
            knot_count as nat,
        ),
{
    let ghost original = crate::history::texts(inputs@);
    if inputs.len() < knot_count {
        while inputs.len() < knot_count
            invariant
                original.len() <= inputs@.len() <= knot_count,
                crate::history::texts(inputs@) =~= original + Seq::new(
                    (inputs@.len() - original.len()) as nat,
                    |i: int| "0.0"@,
                ),
            decreases knot_count - inputs.len(),
        {
            let ghost before = inputs@;
            let zero = String::from_str("0.0");
            let ghost zero_view = zero@;
            inputs.push(zero);
            proof {
                assert(crate::history::texts(inputs@) =~= crate::history::texts(before).push(
                    zero_view,
                ));
            }
        }
    } else {
        inputs.truncate(knot_count);
        proof {
            assert(crate::history::texts(inputs@) =~= original.take(knot_count as int));
        }
    }
}

} // verus!
