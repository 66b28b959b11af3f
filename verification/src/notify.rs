//! Notifying the registered components of a reload, one at a time in
//! registry order, stopping at the first that fails.
//!
//! Each component does its work asynchronously, so the walk is a state
//! machine: the caller asks [`NotifyRun::action`] which component to notify
//! next, notifies it, and reports its outcome with [`NotifyRun::record`],
//! until the action is [`NotifyAction::Finished`] and
//! [`NotifyRun::finish`] gives the outcome of the whole reload.

use vstd::prelude::*;

use crate::error::ReloadError;
use crate::registry::UpdateableRegistry;

verus! {

/// What the caller is to do next.
#[derive(Debug, Clone, Copy, PartialEq, Eq)]
pub enum NotifyAction {
    /// Notify the component at this index of the registry.
    Notify(usize),
    /// Stop; [`NotifyRun::finish`] gives the outcome.
    Finished,
}

/// How far a notification run has come.
pub struct NotifyProgress {
    /// How many components were notified so far.
    pub notified: nat,
    /// How many components the registry held when the run started.
    pub total: nat,
    /// The error of the component that failed, if one did.
    pub failure: Option<ReloadError>,
}

/// The start of a run over `total` components.
pub open spec fn progress_start(total: nat) -> NotifyProgress {
    NotifyProgress { notified: 0, total, failure: None }
}

/// The next component to notify is the one after the last notified, until one
/// fails or all were notified.
pub open spec fn progress_action(progress: NotifyProgress) -> NotifyAction {
    if progress.failure is None && progress.notified < progress.total {
        NotifyAction::Notify(progress.notified as usize)
    } else {
        NotifyAction::Finished
    }
}

/// The progress after the notified component reported `outcome`.
pub open spec fn progress_record(
    progress: NotifyProgress,
    outcome: Result<(), ReloadError>,
) -> NotifyProgress {
    NotifyProgress {
        notified: progress.notified + 1,
        total: progress.total,
        failure: match outcome {
            Ok(_) => None,
            Err(error) => Some(error),
        },
    }
}

/// The outcome of a finished run: the error of the failed component, or success.
pub open spec fn progress_result(progress: NotifyProgress) -> Result<(), ReloadError> {
    match progress.failure {
        Some(error) => Err(error),
        None => Ok(()),
    }
}

/// The progress reached by driving a run to its end, where the component at
/// index `i` reports `outcomes[i]` when notified.
pub open spec fn drive(progress: NotifyProgress, outcomes: Seq<Result<(), ReloadError>>) -> NotifyProgress
    decreases progress.total - progress.notified,
{
    match progress_action(progress) {
        NotifyAction::Notify(_) => if progress.notified < progress.total {
            drive(progress_record(progress, outcomes[progress.notified as int]), outcomes)
        } else {
            progress
        },
        NotifyAction::Finished => progress,
    }
}

/// The actions a run takes from `progress` on, ending with the first
/// `Finished`, where the component at index `i` reports `outcomes[i]`.
pub open spec fn action_trace(
    progress: NotifyProgress,
    outcomes: Seq<Result<(), ReloadError>>,
) -> Seq<NotifyAction>
    decreases progress.total - progress.notified,
{
    match progress_action(progress) {
        NotifyAction::Notify(index) => if progress.notified < progress.total {
            seq![NotifyAction::Notify(index)] + action_trace(
                progress_record(progress, outcomes[progress.notified as int]),
                outcomes,
            )
        } else {
            seq![NotifyAction::Notify(index)]
        },
        NotifyAction::Finished => seq![NotifyAction::Finished],
    }
}

/// While no component has failed and some are left, the next action names
/// the component after the last notified one; once one failed or all were
/// notified, the run is finished.
pub proof fn law_action_names_next_component(progress: NotifyProgress)
    ensures
        progress.failure is None && progress.notified < progress.total ==> progress_action(progress)
            == NotifyAction::Notify(progress.notified as usize),
        progress.failure is Some || progress.notified >= progress.total ==> progress_action(progress)
            == NotifyAction::Finished,
{
}

/// A run over `total` components starts with none notified and no failure.
pub proof fn law_start(total: nat)
    ensures
        progress_start(total).notified == 0,
        progress_start(total).total == total,
        progress_start(total).failure is None,
{
}

/// Recording an outcome counts one more notified component, keeps the total,
/// and keeps the error of a failure (or none on success); a finished run
/// reports that error, or success.
pub proof fn law_record_and_result(progress: NotifyProgress, outcome: Result<(), ReloadError>)
    ensures
        progress_record(progress, outcome).notified == progress.notified + 1,
        progress_record(progress, outcome).total == progress.total,
        outcome is Ok ==> progress_record(progress, outcome).failure is None,
        outcome matches Err(error) ==> progress_record(progress, outcome).failure == Some(error),
        progress.failure is None ==> progress_result(progress) is Ok,
        progress.failure matches Some(error) ==> progress_result(progress) == Err::<(), ReloadError>(
            error,
        ),
{
}

proof fn lemma_trace_all_succeed(progress: NotifyProgress, outcomes: Seq<Result<(), ReloadError>>)
    requires
        progress.failure is None,
        progress.notified <= progress.total,
        outcomes.len() == progress.total,
        forall|i: int| 0 <= i < outcomes.len() ==> #[trigger] outcomes[i] is Ok,
    ensures
        action_trace(progress, outcomes) =~= Seq::new(
            (progress.total - progress.notified + 1) as nat,
            |k: int| if k < progress.total - progress.notified {
                NotifyAction::Notify((progress.notified + k) as usize)
            } else {
                NotifyAction::Finished
            },
        ),
    decreases progress.total - progress.notified,
{
    if progress.notified < progress.total {
        let next = progress_record(progress, outcomes[progress.notified as int]);
        lemma_trace_all_succeed(next, outcomes);
    }
}

/// When every component succeeds, a run over `n` components notifies the
/// components at indices 0, 1, ..., n - 1, in that order, and then finishes.
pub proof fn law_all_succeed_notifies_every_component(outcomes: Seq<Result<(), ReloadError>>)
    requires
        forall|i: int| 0 <= i < outcomes.len() ==> #[trigger] outcomes[i] is Ok,
    ensures
        action_trace(progress_start(outcomes.len()), outcomes) =~= Seq::new(
            outcomes.len() + 1,
            |k: int| if k < outcomes.len() {
                NotifyAction::Notify(k as usize)
            } else {
                NotifyAction::Finished
            },
        ),
        drive(progress_start(outcomes.len()), outcomes).notified == outcomes.len(),
        progress_result(drive(progress_start(outcomes.len()), outcomes)) is Ok,
{
    lemma_trace_all_succeed(progress_start(outcomes.len()), outcomes);
    lemma_drive(progress_start(outcomes.len()), outcomes);
}

proof fn lemma_drive(progress: NotifyProgress, outcomes: Seq<Result<(), ReloadError>>)
    requires
        progress.failure is None,
        progress.notified <= progress.total,
        outcomes.len() == progress.total,
    ensures
        ({
            let end = drive(progress, outcomes);
            &&& progress.notified <= end.notified <= progress.total
            &&& progress.notified < progress.total ==> progress.notified < end.notified
            &&& end.total == progress.total
            &&& forall|i: int|
                progress.notified <= i < end.notified - 1 ==> #[trigger] outcomes[i] is Ok
            &&& end.notified == progress.notified || end.notified == progress.total
                || outcomes[end.notified - 1] is Err
            &&& progress_result(end) is Err <==> (end.notified > progress.notified
                && outcomes[end.notified - 1] is Err)
            &&& progress_result(end) is Err ==> progress_result(end) == outcomes[end.notified - 1]
            &&& progress_action(end) == NotifyAction::Finished
        }),
    decreases progress.total - progress.notified,
{
    if progress.notified < progress.total {
        let outcome = outcomes[progress.notified as int];
        let next = progress_record(progress, outcome);
        assert(drive(progress, outcomes) == drive(next, outcomes));
        if next.failure is None {
            lemma_drive(next, outcomes);
        } else {
            assert(drive(next, outcomes) == next);
        }
    }
}

/// Notifying a registry notifies its components in order, starting with the
/// first (so a non-empty registry notifies at least one), and stops right
/// after the first one that fails: every component
/// notified before the last one succeeded, the run ends at the last component
/// or at a failure, the reload fails with exactly that failure, and if no
/// component fails every component is notified and the reload succeeds.
pub proof fn law_notify_stops_at_first_error(outcomes: Seq<Result<(), ReloadError>>)
    ensures
        ({
            let end = drive(progress_start(outcomes.len()), outcomes);
            &&& end.notified <= outcomes.len()
            &&& outcomes.len() > 0 ==> end.notified > 0
            &&& forall|i: int| 0 <= i < end.notified - 1 ==> #[trigger] outcomes[i] is Ok
            &&& end.notified == outcomes.len() || outcomes[end.notified - 1] is Err
            &&& progress_result(end) is Err <==> (end.notified > 0 && outcomes[end.notified
                - 1] is Err)
            &&& progress_result(end) is Err ==> progress_result(end) == outcomes[end.notified - 1]
            &&& (forall|i: int| 0 <= i < outcomes.len() ==> #[trigger] outcomes[i] is Ok) ==> (
            end.notified == outcomes.len() && progress_result(end) is Ok)
        }),
{
    lemma_drive(progress_start(outcomes.len()), outcomes);
}

/// A notification run over the components of a registry.
pub struct NotifyRun {
    notified: usize,
    total: usize,
    failure: Option<ReloadError>,
}

impl View for NotifyRun {
    type V = NotifyProgress;

    closed spec fn view(&self) -> NotifyProgress {
        NotifyProgress {
            notified: self.notified as nat,
            total: self.total as nat,
            failure: self.failure,
        }
    }
}

impl NotifyRun {
    #[verifier::type_invariant]
    spec fn within_bounds(self) -> bool {
        &&& self.notified <= self.total
        &&& self.failure is Some ==> self.notified > 0
    }

    /// A run over every component of `registry`, none notified yet.
    pub fn start<C>(registry: &UpdateableRegistry<C>) -> (run: Self)
        ensures
            run@ == progress_start(registry@.len()),
    {
        NotifyRun { notified: 0, total: registry.len(), failure: None }
    }

    /// Which component to notify next, or that the run is over.
    pub fn action(&self) -> (action: NotifyAction)
        ensures
            action == progress_action(self@),
    {
        if self.failure.is_none() && self.notified < self.total {
            NotifyAction::Notify(self.notified)
        } else {
            NotifyAction::Finished
        }
    }

    /// Reports the outcome of the component that [`NotifyRun::action`] named.
    pub fn record(&mut self, outcome: Result<(), ReloadError>)
        requires
            progress_action(old(self)@) is Notify,
        ensures
            final(self)@ == progress_record(old(self)@, outcome),
    {
        proof {
            use_type_invariant(&*self);
        }
        let failure = match outcome {
            Ok(()) => None,
            Err(error) => Some(error),
        };
        *self = NotifyRun { notified: self.notified + 1, total: self.total, failure };
    }

    /// The outcome of a finished run: the first component error, or success.
    pub fn finish(self) -> (result: Result<(), ReloadError>)
        requires
            progress_action(self@) is Finished,
        ensures
            result == progress_result(self@),
    {
        match self.failure {
            Some(error) => Err(error),
            None => Ok(()),
        }
    }
}

} // verus!
