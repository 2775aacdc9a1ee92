//! Per-iteration diagnostics of an optimization run: one series of metric snapshots and
//! one series per fitted parameter, each holding at most one point per iteration.
//!
//! The metrics of an iteration are recorded together as one snapshot of the caller's
//! metric type; parameter values are of the caller's value type. The series follow either
//! a parametric family (named after its parameters) or a spline (named after its knots),
//! and start over whenever what they follow changes.

use vstd::prelude::*;
use crate::family::{spec_parameter_names, CurveFamily};
use crate::text::{decimal_text, push_decimal};

verus! {

/// One point of a series: the iteration and the value recorded for it.
#[derive(Debug, PartialEq)]
pub struct IterationPoint<X> {
    pub iteration: u64,
    pub value: X,
}

/// A series with a point recorded for `iteration`: the last point is replaced when it
/// belongs to the same iteration, else the point is appended.
pub open spec fn spec_upsert_point<X>(series: Seq<IterationPoint<X>>, iteration: u64, value: X) -> Seq<
    IterationPoint<X>,
> {
    if series.len() > 0 && series.last().iteration == iteration {
        series.update(series.len() - 1, IterationPoint { iteration, value })
    } else {
        series.push(IterationPoint { iteration, value })
    }
}

/// Records `value` for `iteration`, replacing the last point when it belongs to the same
/// iteration.
pub fn upsert_iteration_point<X>(series: &mut Vec<IterationPoint<X>>, iteration: u64, value: X)
    ensures
        final(series)@ == spec_upsert_point(old(series)@, iteration, value),
{
    let len = series.len();
    if len > 0 && series[len - 1].iteration == iteration {
        series.set(len - 1, IterationPoint { iteration, value });
    } else {
        series.push(IterationPoint { iteration, value });
    }
}

/// The name of the parameter series of knot `index`: `knot_y[index]`.
pub open spec fn spec_knot_name(index: nat) -> Seq<char> {
    "knot_y["@ + decimal_text(index) + "]"@
}

/// The parameter names of a spline with `count` knots.
pub open spec fn spec_knot_names(count: nat) -> Seq<Seq<char>> {
    Seq::new(count, |i: int| spec_knot_name(i as nat))
}

/// `count` empty series.
pub open spec fn empty_series<V>(count: nat) -> Seq<Seq<IterationPoint<V>>> {
    Seq::new(count, |i: int| Seq::<IterationPoint<V>>::empty())
}

/// The diagnostics as values: what they follow, the metric series, the parameter names and
/// the parameter series.
pub struct DiagnosticsView<M, V> {
    pub family: Option<CurveFamily>,
    pub spline_parameter_count: Option<usize>,
    pub metric_points: Seq<IterationPoint<M>>,
    pub parameter_names: Seq<Seq<char>>,
    pub parameter_series: Seq<Seq<IterationPoint<V>>>,
}

/// Nothing recorded and nothing followed.
pub open spec fn cleared_view<M, V>() -> DiagnosticsView<M, V> {
    DiagnosticsView {
        family: None,
        spline_parameter_count: None,
        metric_points: Seq::empty(),
        parameter_names: Seq::empty(),
        parameter_series: Seq::empty(),
    }
}

/// Empty series that follow `family`, one per parameter.
pub open spec fn family_reset<M, V>(family: CurveFamily) -> DiagnosticsView<M, V> {
    DiagnosticsView {
        family: Some(family),
        spline_parameter_count: None,
        metric_points: Seq::empty(),
        parameter_names: spec_parameter_names(family),
        parameter_series: empty_series(spec_parameter_names(family).len()),
    }
}

/// Empty series that follow a spline with `count` knots, one per knot.
pub open spec fn spline_reset<M, V>(count: usize) -> DiagnosticsView<M, V> {
    DiagnosticsView {
        family: None,
        spline_parameter_count: Some(count),
        metric_points: Seq::empty(),
        parameter_names: spec_knot_names(count as nat),
        parameter_series: empty_series(count as nat),
    }
}

/// The parameter series with `values[i]` recorded in series `i` for `iteration`; series
/// without a value stay as they are.
pub open spec fn appended_series<V>(
    series: Seq<Seq<IterationPoint<V>>>,
    iteration: u64,
    values: Seq<V>,
) -> Seq<Seq<IterationPoint<V>>> {
    Seq::new(
        series.len(),
        |i: int|
            if i < values.len() {
                spec_upsert_point(series[i], iteration, values[i])
            } else {
                series[i]
            },
    )
}

/// `d` with the metrics and the parameter values of `iteration` recorded.
pub open spec fn recorded<M, V>(d: DiagnosticsView<M, V>, iteration: u64, metrics: M, values: Seq<V>) -> DiagnosticsView<M, V> {
    DiagnosticsView {
        metric_points: spec_upsert_point(d.metric_points, iteration, metrics),
        parameter_series: appended_series(d.parameter_series, iteration, values),
        ..d
    }
}

/// Whether recording a parametric iteration starts the series over: they follow another
/// family or a spline, or the values do not match the series one for one.
pub open spec fn parametric_append_resets<M, V>(d: DiagnosticsView<M, V>, family: CurveFamily, value_count: nat) -> bool {
    d.family != Some(family) || d.spline_parameter_count is Some || value_count != d.parameter_series.len()
}

/// What recording a parametric iteration makes of `d`.
pub open spec fn spec_append<M, V>(
    d: DiagnosticsView<M, V>,
    iteration: u64,
    metrics: M,
    family: CurveFamily,
    values: Seq<V>,
) -> DiagnosticsView<M, V> {
    let base = if parametric_append_resets(d, family, values.len()) {
        family_reset(family)
    } else {
        d
    };
    recorded(base, iteration, metrics, values)
}

/// Whether recording a spline iteration starts the series over: they follow a family, or
/// a spline with another number of knots.
pub open spec fn spline_append_resets<M, V>(d: DiagnosticsView<M, V>, knot_count: nat) -> bool {
    d.family is Some || !(d.spline_parameter_count matches Some(n) && n == knot_count)
}

/// What recording a spline iteration makes of `d`.
pub open spec fn spec_append_spline<M, V>(
    d: DiagnosticsView<M, V>,
    iteration: u64,
    metrics: M,
    knot_y: Seq<V>,
) -> DiagnosticsView<M, V> {
    let base = if spline_append_resets(d, knot_y.len()) {
        spline_reset(knot_y.len() as usize)
    } else {
        d
    };
    recorded(base, iteration, metrics, knot_y)
}

/// Whether the diagnostics are consistent: one series per name, and names that match what
/// the series follow (none when they follow nothing).
pub open spec fn diagnostics_wf<M, V>(d: DiagnosticsView<M, V>) -> bool {
    &&& d.parameter_names.len() == d.parameter_series.len()
    &&& match (d.family, d.spline_parameter_count) {
        (Some(f), None) => d.parameter_names == spec_parameter_names(f),
        (None, Some(n)) => d.parameter_names == spec_knot_names(n as nat),
        (None, None) => d.parameter_names.len() == 0,
        (Some(_), Some(_)) => false,
    }
}

/// The collected diagnostics series.
#[derive(Debug)]
pub struct IterationDiagnostics<M, V> {
    pub family: Option<CurveFamily>,
    pub spline_parameter_count: Option<usize>,
    pub metric_points: Vec<IterationPoint<M>>,
    pub parameter_names: Vec<String>,
    pub parameter_series: Vec<Vec<IterationPoint<V>>>,
}

impl<M, V> View for IterationDiagnostics<M, V> {
    type V = DiagnosticsView<M, V>;

    open spec fn view(&self) -> DiagnosticsView<M, V> {
        DiagnosticsView {
            family: self.family,
            spline_parameter_count: self.spline_parameter_count,
            metric_points: self.metric_points@,
            parameter_names: self.parameter_names@.map_values(|name: String| name@),
            parameter_series: self.parameter_series@.map_values(
                |series: Vec<IterationPoint<V>>| series@,
            ),
        }
    }
}

impl<M: Copy, V: Copy> IterationDiagnostics<M, V> {
    /// Nothing recorded and nothing followed.
    pub fn new() -> (d: IterationDiagnostics<M, V>)
        ensures
            d@ == cleared_view::<M, V>(),
    {
        let d = IterationDiagnostics {
            family: None,
            spline_parameter_count: None,
            metric_points: Vec::new(),
            parameter_names: Vec::new(),
            parameter_series: Vec::new(),
        };
        proof {
            assert(d@.parameter_names =~= Seq::<Seq<char>>::empty());
            assert(d@.parameter_series =~= Seq::<Seq<IterationPoint<V>>>::empty());
        }
        d
    }

    /// Drops every series and follows nothing.
    pub fn clear(&mut self)
        ensures
            final(self)@ == cleared_view::<M, V>(),
    {
        self.family = None;
        self.spline_parameter_count = None;
        self.metric_points = Vec::new();
        self.parameter_names = Vec::new();
        self.parameter_series = Vec::new();
        proof {
            assert(self@.parameter_names =~= Seq::<Seq<char>>::empty());
            assert(self@.parameter_series =~= Seq::<Seq<IterationPoint<V>>>::empty());
        }
    }

    /// Starts empty series that follow `family`, one per parameter.
    pub fn reset_for_family(&mut self, family: CurveFamily)
        ensures
            final(self)@ == family_reset::<M, V>(family),
    {
        let names = family.parameter_names();
        let mut parameter_names: Vec<String> = Vec::new();
        let mut parameter_series: Vec<Vec<IterationPoint<V>>> = Vec::new();
        let mut k: usize = 0;
        while k < names.len()
            invariant
                k <= names@.len(),
                names@.map_values(|name: &str| name@) == spec_parameter_names(family),
                parameter_names@.len() == k,
                parameter_series@.len() == k,
                forall|i: int| 0 <= i < k ==> (#[trigger] parameter_names@[i])@ == names@[i]@,
                forall|i: int| 0 <= i < k ==> (#[trigger] parameter_series@[i])@.len() == 0,
            decreases names@.len() - k,
        {
            parameter_names.push(String::from_str(names[k]));
            parameter_series.push(Vec::new());
            k = k + 1;
        }
        self.family = Some(family);
        self.spline_parameter_count = None;
        self.metric_points = Vec::new();
        self.parameter_names = parameter_names;
        self.parameter_series = parameter_series;
        proof {
            assert(spec_parameter_names(family).len() == names@.len());
            assert(self@.parameter_names =~= spec_parameter_names(family));
            assert(self@.parameter_series =~~= empty_series::<V>(names@.len()));
        }
    }

    /// Starts empty series that follow a spline with `count` knots, named `knot_y[i]`.
    pub fn reset_for_spline(&mut self, count: usize)
        ensures
            final(self)@ == spline_reset::<M, V>(count),
    {
        let mut parameter_names: Vec<String> = Vec::new();
        let mut parameter_series: Vec<Vec<IterationPoint<V>>> = Vec::new();
        let mut k: usize = 0;
        while k < count
            invariant
                k <= count,
                parameter_names@.len() == k,
                parameter_series@.len() == k,
                forall|i: int| 0 <= i < k ==> (#[trigger] parameter_names@[i])@ == spec_knot_name(i as nat),
                forall|i: int| 0 <= i < k ==> (#[trigger] parameter_series@[i])@.len() == 0,
            decreases count - k,
        {
            let mut name = String::from_str("knot_y[");
            push_decimal(&mut name, k);
            name.append("]");
            parameter_names.push(name);
            parameter_series.push(Vec::new());
            k = k + 1;
        }
        self.family = None;
        self.spline_parameter_count = Some(count);
        self.metric_points = Vec::new();
        self.parameter_names = parameter_names;
        self.parameter_series = parameter_series;
        proof {
            assert(self@.parameter_names =~= spec_knot_names(count as nat));
            assert(self@.parameter_series =~~= empty_series::<V>(count as nat));
        }
    }

    /// Records the metrics and the parameter values of `iteration` in the current series.
    fn record(&mut self, iteration: u64, metrics: M, values: &Vec<V>)
        ensures
            final(self)@ == recorded(old(self)@, iteration, metrics, values@),
    {
        upsert_iteration_point(&mut self.metric_points, iteration, metrics);
        let ghost start = self@.parameter_series;
        let n = self.parameter_series.len();
        let mut k: usize = 0;
        while k < n && k < values.len()
            invariant
                k <= n,
                k <= values@.len(),
                n == self.parameter_series@.len(),
                start.len() == n,
                self.family == old(self).family,
                self.spline_parameter_count == old(self).spline_parameter_count,
                self.metric_points@ == spec_upsert_point(old(self).metric_points@, iteration, metrics),
                self.parameter_names@ == old(self).parameter_names@,
                start == old(self)@.parameter_series,
                forall|i: int|
                    0 <= i < n ==> (#[trigger] self.parameter_series@[i])@ == if i < k {
                        spec_upsert_point(start[i], iteration, values@[i])
                    } else {
                        start[i]
                    },
            decreases n - k,
        {
            let ghost before = self.parameter_series@;
            let mut series = self.parameter_series.remove(k);
            upsert_iteration_point(&mut series, iteration, values[k]);
            self.parameter_series.insert(k, series);
            proof {
                assert forall|i: int| 0 <= i < n implies (#[trigger] self.parameter_series@[i])@ == if i
                    < k + 1 {
                    spec_upsert_point(start[i], iteration, values@[i])
                } else {
                    start[i]
                } by {
                    if i != k {
                        assert(self.parameter_series@[i] == before[i]);
                    }
                }
            }
            k = k + 1;
        }
        proof {
            let target = appended_series(start, iteration, values@);
            assert forall|i: int| 0 <= i < n implies (#[trigger] self.parameter_series@[i])@
                == target[i] by {
                if i < values@.len() {
                    assert(i < k);
                }
            }
            assert(self@.parameter_series =~~= target);
        }
    }

    /// Records a parametric iteration: the series start over when they followed another
    /// family or a spline, or when the values do not match them one for one; then the
    /// metrics and each parameter value are recorded for `iteration`.
    pub fn append(&mut self, iteration: u64, metrics: M, family: CurveFamily, values: &Vec<V>)
        ensures
            final(self)@ == spec_append(old(self)@, iteration, metrics, family, values@),
    {
        let same_family = match self.family {
            Some(current) => current == family,
            None => false,
        };
        if !same_family || self.spline_parameter_count.is_some() {
            self.reset_for_family(family);
        }
        if values.len() != self.parameter_series.len() {
            self.reset_for_family(family);
        }
        self.record(iteration, metrics, values);
    }

    /// Records a spline iteration: the series start over when they followed a family or a
    /// spline with another number of knots; then the metrics and each knot value are
    /// recorded for `iteration`.
    pub fn append_spline(&mut self, iteration: u64, metrics: M, knot_y: &Vec<V>)
        ensures
            final(self)@ == spec_append_spline(old(self)@, iteration, metrics, knot_y@),
    {
        let count = knot_y.len();
        let same_spline = match self.spline_parameter_count {
            Some(current) => current == count,
            None => false,
        };
        if self.family.is_some() || !same_spline {
            self.reset_for_spline(count);
        }
        self.record(iteration, metrics, knot_y);
    }

    /// Starts series for `family` holding the initial state as iteration 0.
    pub fn initialize(&mut self, family: CurveFamily, metrics: M, values: &Vec<V>)
        ensures
            final(self)@ == spec_append(family_reset::<M, V>(family), 0, metrics, family, values@),
    {
        self.reset_for_family(family);
        self.append(0, metrics, family, values);
    }
}

/// Every operation keeps the diagnostics consistent: clearing and starting over produce
/// consistent series, and recording an iteration keeps them so.
pub proof fn lemma_diagnostics_stay_consistent<M, V>(
    d: DiagnosticsView<M, V>,
    iteration: u64,
    metrics: M,
    family: CurveFamily,
    values: Seq<V>,
    count: usize,
)
    requires
        diagnostics_wf(d),
    ensures
        diagnostics_wf(cleared_view::<M, V>()),
        diagnostics_wf(family_reset::<M, V>(family)),
        diagnostics_wf(spline_reset::<M, V>(count)),
        diagnostics_wf(spec_append(d, iteration, metrics, family, values)),
        diagnostics_wf(spec_append_spline(d, iteration, metrics, values)),
{
}

/// Recording a parametric iteration with one value per parameter leaves the series
/// following `family`, with every series ending at `iteration` with its value, and the
/// metric series ending at `iteration` with `metrics`.
pub proof fn lemma_append_records_every_parameter<M, V>(
    d: DiagnosticsView<M, V>,
    iteration: u64,
    metrics: M,
    family: CurveFamily,
    values: Seq<V>,
)
    requires
        diagnostics_wf(d),
        values.len() == spec_parameter_names(family).len(),
    ensures
        ({
            let r = spec_append(d, iteration, metrics, family, values);
            &&& r.family == Some(family)
            &&& r.parameter_names == spec_parameter_names(family)
            &&& r.metric_points.last() == IterationPoint { iteration, value: metrics }
            &&& r.parameter_series.len() == values.len()
            &&& forall|i: int|
                0 <= i < values.len() ==> (#[trigger] r.parameter_series[i]).last() == IterationPoint {
                    iteration,
                    value: values[i],
                }
        }),
{
    let r = spec_append(d, iteration, metrics, family, values);
    assert forall|i: int| 0 <= i < values.len() implies (#[trigger] r.parameter_series[i]).last()
        == IterationPoint { iteration, value: values[i] } by {}
}

} // verus!
