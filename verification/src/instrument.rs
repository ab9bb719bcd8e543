//! Sweeps over setpoints of bench equipment.
//!
//! A sweep is a small state machine: each stage names the one thing to do,
//! and what came of it leads to the next stage. The caller awaits the
//! equipment.

use vstd::prelude::*;

verus! {

/// What is said of a setpoint that could not be applied, before the reason.
pub const APPLYING: &'static str = "applying setpoint";

/// Why a setpoint has no measurement.
#[derive(Debug)]
pub enum SweepError<E> {
    /// It could not be applied.
    Apply(E),
    /// It was applied, and the measurement failed.
    Body(E),
}

impl<E> SweepError<E> {
    /// The reason, and the context in which to report it, if there is one.
    pub fn parts(self) -> (r: (Option<&'static str>, E))
        ensures
            match self {
                SweepError::Apply(e) => r == (Some(APPLYING), e),
                SweepError::Body(e) => r == (None::<&'static str>, e),
            },
    {
        match self {
            SweepError::Apply(e) => (Some(APPLYING), e),
            SweepError::Body(e) => (None, e),
        }
    }
}

/// What a sweep does next.
#[derive(Debug)]
pub enum Stage<S> {
    /// Draw the next setpoint, if there is one.
    Draw,
    /// Apply this setpoint.
    Apply(S),
    /// Measure at this setpoint, which is applied.
    Measure(S),
    Done,
}

/// What came of it.
#[derive(Debug)]
pub enum SweepEvent<S, B, E> {
    Drawn(Option<S>),
    Applied(Result<(), E>),
    Measured(Result<B, E>),
}

/// A sweep under way: what comes next, and what every setpoint so far gave.
#[derive(Debug)]
pub struct Sweep<S, B, E> {
    pub stage: Stage<S>,
    pub results: Vec<(S, Result<B, SweepError<E>>)>,
}

/// The contents of a [`Sweep`].
pub struct Course<S, B, E> {
    pub stage: Stage<S>,
    pub results: Seq<(S, Result<B, SweepError<E>>)>,
}

impl<S, B, E> View for Sweep<S, B, E> {
    type V = Course<S, B, E>;

    open spec fn view(&self) -> Course<S, B, E> {
        Course { stage: self.stage, results: self.results@ }
    }
}

impl<S, B, E> Course<S, B, E> {
    /// A sweep that has not begun.
    pub open spec fn fresh() -> Self {
        Course { stage: Stage::Draw, results: seq![] }
    }

    /// `event` is what comes of this stage.
    pub open spec fn expects(self, event: SweepEvent<S, B, E>) -> bool {
        match self.stage {
            Stage::Draw => event is Drawn,
            Stage::Apply(_) => event is Applied,
            Stage::Measure(_) => event is Measured,
            Stage::Done => false,
        }
    }

    /// The sweep with the result of one more setpoint.
    pub open spec fn with(self, sp: S, result: Result<B, SweepError<E>>) -> Self {
        Course { stage: Stage::Draw, results: self.results.push((sp, result)) }
    }

    /// The sweep after `event`. A failure is the result of its setpoint and
    /// does not end the sweep.
    pub open spec fn after(self, event: SweepEvent<S, B, E>) -> Self {
        match (self.stage, event) {
            (Stage::Draw, SweepEvent::Drawn(Some(sp))) => Course { stage: Stage::Apply(sp), ..self },
            (Stage::Draw, SweepEvent::Drawn(None)) => Course { stage: Stage::Done, ..self },
            (Stage::Apply(sp), SweepEvent::Applied(Ok(_))) => Course {
                stage: Stage::Measure(sp),
                ..self
            },
            (Stage::Apply(sp), SweepEvent::Applied(Err(e))) => self.with(
                sp,
                Err(SweepError::Apply(e)),
            ),
            (Stage::Measure(sp), SweepEvent::Measured(Ok(b))) => self.with(sp, Ok(b)),
            (Stage::Measure(sp), SweepEvent::Measured(Err(e))) => self.with(
                sp,
                Err(SweepError::Body(e)),
            ),
            _ => self,
        }
    }
}

/// Starts a sweep that measures once per setpoint, applying each first. It
/// collects a result per setpoint instead of stopping at the first failure,
/// so a sweep reports its whole profile.
pub fn for_each_setpoint<S, B, E>() -> (r: Sweep<S, B, E>)
    ensures
        r@ == Course::<S, B, E>::fresh(),
{
    let r = Sweep { stage: Stage::Draw, results: Vec::new() };
    assert(r@.results =~= Seq::empty());
    r
}

impl<S, B, E> Sweep<S, B, E> {
    /// Takes one step of the sweep.
    pub fn next(self, event: SweepEvent<S, B, E>) -> (r: Self)
        requires
            self@.expects(event),
        ensures
            r@ == self@.after(event),
    {
        let mut results = self.results;
        let stage = match (self.stage, event) {
            (Stage::Draw, SweepEvent::Drawn(Some(sp))) => Stage::Apply(sp),
            (Stage::Draw, SweepEvent::Drawn(None)) => Stage::Done,
            (Stage::Apply(sp), SweepEvent::Applied(Ok(_))) => Stage::Measure(sp),
            (Stage::Apply(sp), SweepEvent::Applied(Err(e))) => {
                results.push((sp, Err(SweepError::Apply(e))));
                Stage::Draw
            },
            (Stage::Measure(sp), SweepEvent::Measured(Ok(b))) => {
                results.push((sp, Ok(b)));
                Stage::Draw
            },
            (Stage::Measure(sp), SweepEvent::Measured(Err(e))) => {
                results.push((sp, Err(SweepError::Body(e))));
                Stage::Draw
            },
            (stage, _) => stage,
        };
        Sweep { stage, results }
    }
}

/// A call that a sweep makes.
pub enum Call<S> {
    Apply(S),
    Measure(S),
}

impl<S> Stage<S> {
    /// The call that this stage makes.
    pub open spec fn calls(self) -> Seq<Call<S>> {
        match self {
            Stage::Apply(sp) => seq![Call::Apply(sp)],
            Stage::Measure(sp) => seq![Call::Measure(sp)],
            _ => seq![],
        }
    }
}

/// What the equipment makes of the setpoints of a sweep: how applying each
/// ends, and what measuring there gives, if it comes to that.
pub struct Bench<B, E> {
    pub applied: Seq<Result<(), E>>,
    pub measured: Seq<Result<B, E>>,
}

/// A sweep after its first `n` setpoints, and the calls that it made.
pub open spec fn swept<S, B, E>(setpoints: Seq<S>, bench: Bench<B, E>, n: int) -> (
    Course<S, B, E>,
    Seq<Call<S>>,
)
    decreases n,
{
    if n <= 0 {
        (Course::fresh(), seq![])
    } else {
        let (before, calls) = swept(setpoints, bench, n - 1);
        let drawn = before.after(SweepEvent::Drawn(Some(setpoints[n - 1])));
        let applied = drawn.after(SweepEvent::Applied(bench.applied[n - 1]));
        let end = if applied.stage is Measure {
            applied.after(SweepEvent::Measured(bench.measured[n - 1]))
        } else {
            applied
        };
        (end, calls + drawn.stage.calls() + applied.stage.calls())
    }
}

/// The result of setpoint `i`.
pub open spec fn result_at<B, E>(bench: Bench<B, E>, i: int) -> Result<B, SweepError<E>> {
    match bench.applied[i] {
        Err(e) => Err(SweepError::Apply(e)),
        Ok(_) => match bench.measured[i] {
            Ok(b) => Ok(b),
            Err(e) => Err(SweepError::Body(e)),
        },
    }
}

/// The calls at setpoint `i`: it is applied, and, only if that succeeded, a
/// measurement is made right after.
pub open spec fn calls_at<S, B, E>(setpoints: Seq<S>, bench: Bench<B, E>, i: int) -> Seq<Call<S>> {
    if bench.applied[i] is Ok {
        seq![Call::Apply(setpoints[i]), Call::Measure(setpoints[i])]
    } else {
        seq![Call::Apply(setpoints[i])]
    }
}

/// The calls at the first `n` setpoints, in order.
pub open spec fn calls_of<S, B, E>(setpoints: Seq<S>, bench: Bench<B, E>, n: int) -> Seq<Call<S>>
    decreases n,
{
    if n <= 0 {
        seq![]
    } else {
        calls_of(setpoints, bench, n - 1) + calls_at(setpoints, bench, n - 1)
    }
}

/// Whatever the equipment does, a sweep applies every setpoint once and in
/// order, measures right after exactly where applying succeeded, and ends
/// with one result per setpoint: the measurement, or why there is none.
pub proof fn a_sweep_covers_every_setpoint<S, B, E>(setpoints: Seq<S>, bench: Bench<B, E>)
    ensures
        ({
            let n = setpoints.len() as int;
            let (end, calls) = swept(setpoints, bench, n);
            &&& calls == calls_of(setpoints, bench, n)
            &&& end.stage == Stage::<S>::Draw
            &&& end.results == Seq::new(
                setpoints.len(),
                |i: int| (setpoints[i], result_at(bench, i)),
            )
            &&& end.after(SweepEvent::Drawn(None)) == (Course::<S, B, E> {
                stage: Stage::Done,
                results: end.results,
            })
        }),
{
    lemma_swept(setpoints, bench, setpoints.len() as int);
}

proof fn lemma_swept<S, B, E>(setpoints: Seq<S>, bench: Bench<B, E>, n: int)
    requires
        0 <= n <= setpoints.len(),
    ensures
        swept(setpoints, bench, n).0.stage == Stage::<S>::Draw,
        swept(setpoints, bench, n).0.results == Seq::new(
            n as nat,
            |i: int| (setpoints[i], result_at(bench, i)),
        ),
        swept(setpoints, bench, n).1 == calls_of(setpoints, bench, n),
    decreases n,
{
    if n > 0 {
        lemma_swept(setpoints, bench, n - 1);
        let (end, calls) = swept(setpoints, bench, n);
        assert(end.results =~= Seq::new(
            n as nat,
            |i: int| (setpoints[i], result_at(bench, i)),
        ));
        assert(calls =~= calls_of(setpoints, bench, n));
    } else {
        assert(Course::<S, B, E>::fresh().results =~= Seq::new(
            0,
            |i: int| (setpoints[i], result_at(bench, i)),
        ));
    }
}

/// A setpoint that is drawn is applied; one that was applied is measured at;
/// and what came of it, or why nothing did, is its result, after which the
/// next is drawn. No earlier result changes, and only running out of setpoints
/// ends the sweep.
pub proof fn a_sweep_goes_step_by_step<S, B, E>(
    sweep: Sweep<S, B, E>,
    event: SweepEvent<S, B, E>,
    r: Sweep<S, B, E>,
)
    requires
        call_ensures(Sweep::<S, B, E>::next, (sweep, event), r),
        match sweep.stage {
            Stage::Draw => event is Drawn,
            Stage::Apply(_) => event is Applied,
            Stage::Measure(_) => event is Measured,
            Stage::Done => false,
        },
    ensures
        match (sweep.stage, event) {
            (Stage::Draw, SweepEvent::Drawn(Some(sp))) => r.stage == Stage::Apply(sp)
                && r.results@ == sweep.results@,
            (Stage::Draw, SweepEvent::Drawn(None)) => r.stage is Done && r.results@
                == sweep.results@,
            (Stage::Apply(sp), SweepEvent::Applied(Ok(_))) => r.stage == Stage::Measure(sp)
                && r.results@ == sweep.results@,
            (Stage::Apply(sp), SweepEvent::Applied(Err(e))) => r.stage is Draw && r.results@.len()
                == sweep.results@.len() + 1 && r.results@.drop_last() == sweep.results@
                && r.results@.last() == (sp, Err::<B, SweepError<E>>(SweepError::Apply(e))),
            (Stage::Measure(sp), SweepEvent::Measured(Ok(b))) => r.stage is Draw
                && r.results@.len() == sweep.results@.len() + 1 && r.results@.drop_last()
                == sweep.results@ && r.results@.last() == (sp, Ok::<B, SweepError<E>>(b)),
            (Stage::Measure(sp), SweepEvent::Measured(Err(e))) => r.stage is Draw
                && r.results@.len() == sweep.results@.len() + 1 && r.results@.drop_last()
                == sweep.results@ && r.results@.last() == (
                sp,
                Err::<B, SweepError<E>>(SweepError::Body(e)),
            ),
            _ => true,
        },
{
    assert(r@.results == r.results@);
    assert(sweep@.results == sweep.results@);
    if r.results@.len() > sweep.results@.len() {
        assert(r.results@.drop_last() =~= sweep.results@);
    }
}

/// A sweep starts by drawing a setpoint, with no results.
pub proof fn a_sweep_starts_empty<S, B, E>(r: Sweep<S, B, E>)
    requires
        call_ensures(for_each_setpoint::<S, B, E>, (), r),
    ensures
        r.stage is Draw,
        r.results@.len() == 0,
{
    assert(r@.results == r.results@);
}

/// Whatever the equipment does, the result of a setpoint is the measurement
/// made there where both applying and measuring went well, and otherwise the
/// first of the two that did not.
pub proof fn every_setpoint_has_its_result<S, B, E>(
    setpoints: Seq<S>,
    bench: Bench<B, E>,
    i: int,
)
    requires
        0 <= i < setpoints.len(),
    ensures
        ({
            let end = swept(setpoints, bench, setpoints.len() as int).0;
            &&& end.results.len() == setpoints.len()
            &&& end.results[i].0 == setpoints[i]
            &&& bench.applied[i] matches Err(e) ==> end.results[i].1 == Err::<B, SweepError<E>>(
                SweepError::Apply(e),
            )
            &&& bench.applied[i] is Ok ==> (bench.measured[i] matches Err(e) ==> end.results[i].1
                == Err::<B, SweepError<E>>(SweepError::Body(e)))
            &&& bench.applied[i] is Ok ==> (bench.measured[i] matches Ok(b) ==> end.results[i].1
                == Ok::<B, SweepError<E>>(b))
        }),
{
    a_sweep_covers_every_setpoint(setpoints, bench);
}

/// A setpoint that could not be applied is reported as that, and a failed
/// measurement as it is, each with its own reason.
pub proof fn a_sweep_error_keeps_its_reason<E>(
    e: SweepError<E>,
    r: (Option<&'static str>, E),
)
    requires
        call_ensures(SweepError::<E>::parts, (e,), r),
    ensures
        match e {
            SweepError::Apply(reason) => r.1 == reason && (r.0 matches Some(context) && context@
                == "applying setpoint"@),
            SweepError::Body(reason) => r.1 == reason && r.0 is None,
        },
{
}

} // verus!
