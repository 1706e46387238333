//! A run of a plan, one step at a time.
//!
//! The run tells the caller what to do next: look at a destination, perform
//! an operation, or stop.  The caller does it and reports back.  Links are
//! taken in the order of the plan.  The first failure ends the run; what was
//! done before it stays done.

use crate::cli::ExistingFileStrategy;
use crate::error::{IoFailure, UnboxError, UnboxErrorView};
use crate::execute::{link_actions, ops_view, DestProbe, FsOp, OpView};
use crate::path::{file_name, ComponentPath, PathView};
use crate::plan::{PlanView, UnboxPlan};
use vstd::prelude::*;

verus! {

/// What a run waits for.
#[derive(Clone, Copy, Debug, PartialEq, Eq, Structural)]
pub enum Stage {
    /// For what the caller sees at the destination of the current link.
    Probing,
    /// For how the operation that was handed out went.
    Performing,
    /// For nothing: the run is over.
    Finished,
}

/// What the caller is to do next.
#[derive(Debug)]
pub enum RunStep {
    /// Look at this destination, and report with [`UnboxRun::probed`].
    Probe(ComponentPath),
    /// Perform this operation, and report with [`UnboxRun::performed`].
    Perform(FsOp),
    /// Stop: the run is over, with this result.
    Done(Result<(), UnboxError>),
}

/// The mathematical value of a [`RunStep`].
pub enum StepView {
    Probe(PathView),
    Perform(OpView),
    Done(Result<(), UnboxErrorView>),
}

impl View for RunStep {
    type V = StepView;

    open spec fn view(&self) -> StepView {
        match *self {
            RunStep::Probe(path) => StepView::Probe(path@),
            RunStep::Perform(op) => StepView::Perform(op@),
            RunStep::Done(Ok(())) => StepView::Done(Ok(())),
            RunStep::Done(Err(e)) => StepView::Done(Err(e@)),
        }
    }
}

/// Where a run stands.
pub struct RunView {
    /// The plan that is run.
    pub plan: PlanView,
    /// The place in the plan of the current link.
    pub index: nat,
    /// The operations for the current link that are still to be handed out.
    pub pending: Seq<OpView>,
    /// The error to stop with once those operations are done, if any.
    pub failure: Option<UnboxErrorView>,
    /// What the run waits for.
    pub stage: Stage,
}

/// The run, over.
pub open spec fn finished(run: RunView) -> RunView {
    RunView { pending: Seq::empty(), failure: None, stage: Stage::Finished, ..run }
}

/// The run at the start of the link at place `index`: it asks for a look at
/// the link's destination, or is over where the plan has no such link.
pub open spec fn begin_link(plan: PlanView, index: nat) -> (RunView, StepView) {
    if index < plan.links.len() {
        (
            RunView {
                plan,
                index,
                pending: Seq::empty(),
                failure: None,
                stage: Stage::Probing,
            },
            StepView::Probe(plan.links[index as int].dest),
        )
    } else {
        (
            RunView {
                plan,
                index,
                pending: Seq::empty(),
                failure: None,
                stage: Stage::Finished,
            },
            StepView::Done(Ok(())),
        )
    }
}

/// The run goes on: with the next operation for the current link; with the
/// error to stop with once there is none left; else with the next link.
pub open spec fn proceed(run: RunView) -> (RunView, StepView) {
    if run.pending.len() > 0 {
        (
            RunView { pending: run.pending.drop_first(), stage: Stage::Performing, ..run },
            StepView::Perform(run.pending[0]),
        )
    } else if run.failure is Some {
        (finished(run), StepView::Done(Err(run.failure->0)))
    } else {
        begin_link(run.plan, run.index + 1)
    }
}

/// The error for a failed operation of the current link.
pub open spec fn io_failure(run: RunView, source: IoFailure) -> UnboxErrorView {
    UnboxErrorView::Io { pl: run.plan.links[run.index as int], source }
}

/// The run after the caller has looked at the destination of the current
/// link.  A look that failed ends the run.
pub open spec fn after_probe(run: RunView, seen: Result<DestProbe, IoFailure>) -> (
    RunView,
    StepView,
) {
    match seen {
        Err(source) => (finished(run), StepView::Done(Err(io_failure(run, source)))),
        Ok(found) => {
            let acts = link_actions(
                run.plan.efs,
                run.plan.create_dirs,
                run.plan.links[run.index as int],
                found,
            );
            proceed(RunView { pending: acts.ops, failure: acts.failure, ..run })
        },
    }
}

/// The run after the caller has performed the operation handed out.  An
/// operation that failed ends the run.
pub open spec fn after_outcome(run: RunView, outcome: Result<(), IoFailure>) -> (
    RunView,
    StepView,
) {
    match outcome {
        Err(source) => (finished(run), StepView::Done(Err(io_failure(run, source)))),
        Ok(()) => proceed(run),
    }
}

/// A run of a plan.
pub struct UnboxRun {
    plan: UnboxPlan,
    index: usize,
    ops: Vec<FsOp>,
    cursor: usize,
    failure: Option<UnboxError>,
    stage: Stage,
}

impl View for UnboxRun {
    type V = RunView;

    closed spec fn view(&self) -> RunView {
        RunView {
            plan: self.plan@,
            index: self.index as nat,
            pending: ops_view(self.ops@).skip(self.cursor as int),
            failure: match self.failure {
                Some(e) => Some(e@),
                None => None,
            },
            stage: self.stage,
        }
    }
}

impl UnboxRun {
    /// The run is well formed: while it is not over, it is at a link of the
    /// plan.
    pub closed spec fn wf(&self) -> bool {
        &&& self.cursor <= self.ops@.len()
        &&& self.index <= self.plan.links@.len()
        &&& self.stage != Stage::Finished ==> self.index < self.plan.links@.len()
    }

    /// A well-formed run that is not over is at a link of its plan.
    pub proof fn lemma_wf(&self)
        requires
            self.wf(),
        ensures
            self@.index <= self@.plan.links.len(),
            self@.stage != Stage::Finished ==> self@.index < self@.plan.links.len(),
    {
    }

    /// Begins the run of `plan` and says what to do first.
    pub fn new(plan: UnboxPlan) -> (r: (UnboxRun, RunStep))
        ensures
            r.0.wf(),
            (r.0@, r.1@) == begin_link(plan@, 0),
    {
        let mut run = UnboxRun {
            plan,
            index: 0,
            ops: Vec::new(),
            cursor: 0,
            failure: None,
            stage: Stage::Finished,
        };
        let step = run.begin();
        (run, step)
    }

    /// What the run waits for.
    pub fn stage(&self) -> (s: Stage)
        ensures
            s == self@.stage,
    {
        self.stage
    }

    /// The destination that the run waits to hear about has no file name and
    /// would have to be moved aside, which cannot be done.
    pub fn cannot_move(&self) -> (b: bool)
        requires
            self.wf(),
            self@.stage == Stage::Probing,
        ensures
            b == (self@.plan.efs == ExistingFileStrategy::Move && file_name(
                self@.plan.links[self@.index as int].dest,
            ) is None),
    {
        match self.plan.efs {
            ExistingFileStrategy::Move => self.plan.links[self.index].dest.file_name().is_none(),
            _ => false,
        }
    }

    /// Sets the run to the start of the link at `self.index`.
    fn begin(&mut self) -> (step: RunStep)
        requires
            old(self).index <= old(self).plan.links@.len(),
        ensures
            final(self).wf(),
            (final(self)@, step@) == begin_link(old(self)@.plan, old(self)@.index),
    {
        self.ops = Vec::new();
        self.cursor = 0;
        self.failure = None;
        assert(ops_view(self.ops@).skip(0) =~= Seq::empty());
        if self.index < self.plan.links.len() {
            self.stage = Stage::Probing;
            RunStep::Probe(self.plan.links[self.index].dest.clone())
        } else {
            self.stage = Stage::Finished;
            RunStep::Done(Ok(()))
        }
    }

    /// Ends the run with the error for a failed operation of the current
    /// link.
    fn fail(&mut self, source: IoFailure) -> (step: RunStep)
        requires
            old(self).wf(),
            old(self).stage != Stage::Finished,
        ensures
            final(self).wf(),
            final(self)@ == finished(old(self)@),
            step@ == StepView::Done(Err(io_failure(old(self)@, source))),
    {
        let e = self.plan.io_error(self.index, source);
        self.ops = Vec::new();
        self.cursor = 0;
        self.failure = None;
        self.stage = Stage::Finished;
        assert(ops_view(self.ops@).skip(0) =~= Seq::empty());
        RunStep::Done(Err(e))
    }

    /// Goes on with the run.
    fn proceed(&mut self) -> (step: RunStep)
        requires
            old(self).wf(),
            old(self).stage != Stage::Finished,
        ensures
            final(self).wf(),
            (final(self)@, step@) == proceed(old(self)@),
    {
        let ghost before = self@;
        let count: usize = self.plan.links.len();
        if self.cursor < self.ops.len() {
            let op = self.ops[self.cursor].clone();
            self.cursor = self.cursor + 1;
            self.stage = Stage::Performing;
            assert(before.pending[0] == op@);
            assert(self@.pending =~= before.pending.drop_first());
            RunStep::Perform(op)
        } else {
            assert(before.pending.len() == 0);
            match self.failure.take() {
                Some(e) => {
                    self.ops = Vec::new();
                    self.cursor = 0;
                    self.stage = Stage::Finished;
                    assert(ops_view(self.ops@).skip(0) =~= Seq::empty());
                    RunStep::Done(Err(e))
                },
                None => {
                    assert(self.index < count);
                    self.index = self.index + 1;
                    self.begin()
                },
            }
        }
    }

    /// Takes what the caller saw at the destination of the current link, or
    /// the failure to look, and says what to do next.
    pub fn probed(&mut self, seen: Result<DestProbe, IoFailure>) -> (step: RunStep)
        requires
            old(self).wf(),
            old(self)@.stage == Stage::Probing,
            seen matches Ok(found) ==> !(found.exists && old(self)@.plan.efs
                == ExistingFileStrategy::Move && file_name(
                old(self)@.plan.links[old(self)@.index as int].dest,
            ) is None),
        ensures
            final(self).wf(),
            (final(self)@, step@) == after_probe(old(self)@, seen),
    {
        match seen {
            Err(source) => self.fail(source),
            Ok(found) => {
                let acts = self.plan.unbox(self.index, found);
                self.ops = acts.ops;
                self.cursor = 0;
                self.failure = acts.failure;
                assert(ops_view(self.ops@).skip(0) =~= ops_view(self.ops@));
                self.proceed()
            },
        }
    }

    /// Takes how the operation that was handed out went, and says what to do
    /// next.
    pub fn performed(&mut self, outcome: Result<(), IoFailure>) -> (step: RunStep)
        requires
            old(self).wf(),
            old(self)@.stage == Stage::Performing,
        ensures
            final(self).wf(),
            (final(self)@, step@) == after_outcome(old(self)@, outcome),
    {
        match outcome {
            Err(source) => self.fail(source),
            Ok(()) => self.proceed(),
        }
    }
}

/// Begins to carry out `plan`, and says what to do first.
pub fn execute(plan: UnboxPlan) -> (r: (UnboxRun, RunStep))
    ensures
        r.0.wf(),
        (r.0@, r.1@) == begin_link(plan@, 0),
{
    UnboxRun::new(plan)
}

/// Under `ThrowError`, a destination that exists ends the whole run at once,
/// with the link named, and without any operation for it.
pub proof fn lemma_throw_error_ends_the_run(run: RunView, found: DestProbe)
    requires
        run.plan.efs == ExistingFileStrategy::ThrowError,
        found.exists,
    ensures
        after_probe(run, Ok(found)) == (
            finished(run),
            StepView::Done(
                Err(UnboxErrorView::TargetAlreadyExists(run.plan.links[run.index as int])),
            ),
        ),
{
}

/// Under `Ignore`, a destination that exists is passed over: the run goes on
/// with the link after it, or ends well if there is none.
pub proof fn lemma_ignore_goes_on(run: RunView, found: DestProbe)
    requires
        run.plan.efs == ExistingFileStrategy::Ignore,
        found.exists,
    ensures
        after_probe(run, Ok(found)) == begin_link(run.plan, run.index + 1),
{
}

/// Under `Adopt`, a destination that is a symbolic link ends the whole run
/// at once, with the link named, and without any operation for it.
pub proof fn lemma_adopt_symlink_ends_the_run(run: RunView, found: DestProbe)
    requires
        run.plan.efs == ExistingFileStrategy::Adopt,
        found.exists,
        found.is_symlink,
    ensures
        after_probe(run, Ok(found)) == (
            finished(run),
            StepView::Done(Err(UnboxErrorView::AdoptSymlink(run.plan.links[run.index as int]))),
        ),
{
}

/// Every failure of the filesystem ends the run, and the error names the
/// link that was being worked on.  Nothing is undone.
pub proof fn lemma_failure_names_the_link(run: RunView, source: IoFailure)
    ensures
        after_probe(run, Err(source)) == (
            finished(run),
            StepView::Done(Err(io_failure(run, source))),
        ),
        after_outcome(run, Err(source)) == (
            finished(run),
            StepView::Done(Err(io_failure(run, source))),
        ),
{
}

} // verus!
