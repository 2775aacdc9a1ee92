//! The life of a background fit as the interface sees it: what each message of the worker
//! does to the status, whether a result is applied or discarded, and how stopping works.
//! The worker, its channel and its cancel flag live with the caller, which reports the
//! messages and carries out the returned actions.

use vstd::prelude::*;
use crate::status::StatusMessage;

verus! {

/// What the worker's channel gave on one poll.
#[derive(Debug)]
pub enum FitWorkerEvent {
    /// Nothing yet.
    Pending,
    /// The worker stopped on request.
    Stopped,
    /// A parametric fit finished.
    Finished,
    /// A spline fit finished.
    SplineFinished,
    /// The fit failed with a message.
    Failed(String),
    /// The worker went away without a message.
    Disconnected,
}

/// What the caller does with the outputs after a poll.
#[derive(Debug, Clone, Copy, PartialEq, Eq, Structural)]
pub enum FitPollAction {
    /// Nothing.
    Keep,
    /// Clear the fit outputs.
    ClearOutputs,
    /// Apply the finished parametric result with its buffered trace.
    ApplyParametric,
    /// Apply the finished spline result with its buffered trace.
    ApplySpline,
    /// Drop the finished result: forget the run's points, timer and export state.
    DiscardResult,
}

/// The interface's view of the background fit.
#[derive(Debug)]
pub struct FitSession {
    pub fit_in_progress: bool,
    /// Set when the user cancelled: the run's results are not to be shown.
    pub discard_updates: bool,
    /// Whether a worker channel is being polled.
    pub worker_attached: bool,
    pub status: Option<StatusMessage>,
}

/// Whether the status says a fit is running or stopping.
pub open spec fn spec_status_is_fitting(status: Option<StatusMessage>) -> bool {
    status matches Some(s) && (s is FittingInProgress || s is FittingStopping)
}

/// The status once a fit ended without a result of its own to report: `FitStopped` when
/// it said the fit was running or stopping, unchanged otherwise.
pub open spec fn spec_stopped_if_fitting(status: Option<StatusMessage>) -> Option<StatusMessage> {
    if spec_status_is_fitting(status) {
        Some(StatusMessage::FitStopped)
    } else {
        status
    }
}

/// What a poll tells the caller to do with the outputs, given whether the run's updates
/// are discarded.
pub open spec fn spec_poll_action(discard: bool, event: FitWorkerEvent) -> FitPollAction {
    match event {
        FitWorkerEvent::Pending => FitPollAction::Keep,
        FitWorkerEvent::Finished => if discard {
            FitPollAction::DiscardResult
        } else {
            FitPollAction::ApplyParametric
        },
        FitWorkerEvent::SplineFinished => if discard {
            FitPollAction::DiscardResult
        } else {
            FitPollAction::ApplySpline
        },
        _ => FitPollAction::ClearOutputs,
    }
}

/// The message shown when the worker disappears.
pub open spec fn disconnected_message() -> Seq<char> {
    "Fit worker channel disconnected unexpectedly"@
}

impl FitSession {
    /// No fit, nothing attached, and the `Ready` status.
    pub fn new() -> (session: FitSession)
        ensures
            !session.fit_in_progress,
            !session.discard_updates,
            !session.worker_attached,
            session.status == Some(StatusMessage::Ready),
    {
        FitSession {
            fit_in_progress: false,
            discard_updates: false,
            worker_attached: false,
            status: Some(StatusMessage::Ready),
        }
    }

    /// Starts a run unless one is in progress; returns whether it started. A started run
    /// shows `FittingInProgress` and has its worker attached.
    pub fn start_fit_run(&mut self) -> (started: bool)
        ensures
            started == !old(self).fit_in_progress,
            started ==> final(self).fit_in_progress && final(self).worker_attached
                && !final(self).discard_updates && final(self).status == Some(
                StatusMessage::FittingInProgress,
            ),
            !started ==> final(self).fit_in_progress == old(self).fit_in_progress
                && final(self).worker_attached == old(self).worker_attached
                && final(self).discard_updates == old(self).discard_updates
                && final(self).status == old(self).status,
    {
        if self.fit_in_progress {
            return false;
        }
        self.fit_in_progress = true;
        self.worker_attached = true;
        self.discard_updates = false;
        self.status = Some(StatusMessage::FittingInProgress);
        true
    }

    /// Whether the status says a fit is running or stopping.
    pub fn status_is_fitting(&self) -> (fitting: bool)
        ensures
            fitting == spec_status_is_fitting(self.status),
    {
        match &self.status {
            Some(StatusMessage::FittingInProgress) => true,
            Some(StatusMessage::FittingStopping) => true,
            _ => false,
        }
    }

    /// Marks the fit stopped when the status says it is running or stopping.
    pub fn set_fit_stopped_status_if_fitting(&mut self)
        ensures
            final(self).status == spec_stopped_if_fitting(old(self).status),
            final(self).fit_in_progress == old(self).fit_in_progress,
            final(self).discard_updates == old(self).discard_updates,
            final(self).worker_attached == old(self).worker_attached,
    {
        if self.status_is_fitting() {
            self.status = Some(StatusMessage::FitStopped);
        }
    }

    /// Handles one poll of the worker channel and returns what to do with the outputs.
    ///
    /// `Pending` changes nothing. Any other message ends the run: the channel is dropped and
    /// the discard flag reset. Unless the run was cancelled, a stop shows `FitStopped`, a
    /// failure its message, a lost worker an error, and a result shows `FitCompleted` and
    /// is to be applied (`fit_completion::complete_parametric_fit` or
    /// `complete_spline_fit`, in the same poll); after a
    /// cancel, nothing of the run is shown and a running status becomes `FitStopped`.
    pub fn poll_fit_worker(&mut self, event: FitWorkerEvent) -> (action: FitPollAction)
        requires
            old(self).worker_attached,
        ensures
            action == spec_poll_action(old(self).discard_updates, event),
            event is Pending ==> action == FitPollAction::Keep && final(self).fit_in_progress == old(
                self,
            ).fit_in_progress && final(self).discard_updates == old(self).discard_updates
                && final(self).worker_attached && final(self).status == old(self).status,
            !(event is Pending) ==> !final(self).fit_in_progress && !final(self).discard_updates
                && !final(self).worker_attached,
            event is Stopped ==> action == FitPollAction::ClearOutputs && final(self).status == (
            if old(self).discard_updates {
                spec_stopped_if_fitting(old(self).status)
            } else {
                Some(StatusMessage::FitStopped)
            }),
            event is Finished ==> if old(self).discard_updates {
                action == FitPollAction::DiscardResult && final(self).status
                    == spec_stopped_if_fitting(old(self).status)
            } else {
                action == FitPollAction::ApplyParametric && final(self).status == Some(
                    StatusMessage::FitCompleted,
                )
            },
            event is SplineFinished ==> if old(self).discard_updates {
                action == FitPollAction::DiscardResult && final(self).status
                    == spec_stopped_if_fitting(old(self).status)
            } else {
                action == FitPollAction::ApplySpline && final(self).status == Some(
                    StatusMessage::FitCompleted,
                )
            },
            event matches FitWorkerEvent::Failed(message) ==> action == FitPollAction::ClearOutputs
                && if old(self).discard_updates {
                final(self).status == spec_stopped_if_fitting(old(self).status)
            } else {
                final(self).status matches Some(StatusMessage::Error(m)) && m@ == message@
            },
            event is Disconnected ==> action == FitPollAction::ClearOutputs && if old(
                self,
            ).discard_updates {
                final(self).status == spec_stopped_if_fitting(old(self).status)
            } else {
                final(self).status matches Some(StatusMessage::Error(m)) && m@ == disconnected_message()
            },
    {
        let discard = self.discard_updates;
        let action = match event {
            FitWorkerEvent::Pending => {
                return FitPollAction::Keep;
            },
            FitWorkerEvent::Stopped => {
                if discard {
                    self.set_fit_stopped_status_if_fitting();
                } else {
                    self.status = Some(StatusMessage::FitStopped);
                }
                FitPollAction::ClearOutputs
            },
            FitWorkerEvent::Finished => {
                if discard {
                    self.set_fit_stopped_status_if_fitting();
                    FitPollAction::DiscardResult
                } else {
                    self.status = Some(StatusMessage::FitCompleted);
                    FitPollAction::ApplyParametric
                }
            },
            FitWorkerEvent::SplineFinished => {
                if discard {
                    self.set_fit_stopped_status_if_fitting();
                    FitPollAction::DiscardResult
                } else {
                    self.status = Some(StatusMessage::FitCompleted);
                    FitPollAction::ApplySpline
                }
            },
            FitWorkerEvent::Failed(message) => {
                if discard {
                    self.set_fit_stopped_status_if_fitting();
                } else {
                    self.status = Some(StatusMessage::Error(message));
                }
                FitPollAction::ClearOutputs
            },
            FitWorkerEvent::Disconnected => {
                if discard {
                    self.set_fit_stopped_status_if_fitting();
                } else {
                    self.status = Some(
                        StatusMessage::Error(
                            String::from_str("Fit worker channel disconnected unexpectedly"),
                        ),
                    );
                }
                FitPollAction::ClearOutputs
            },
        };
        self.fit_in_progress = false;
        self.worker_attached = false;
        self.discard_updates = false;
        action
    }

    /// Cancels the running fit and hides whatever it still reports; returns whether the
    /// worker's cancel flag is to be raised. Nothing happens when no fit runs.
    pub fn cancel_fit_and_discard_updates(&mut self) -> (raise_cancel: bool)
        ensures
            raise_cancel == old(self).fit_in_progress,
            old(self).fit_in_progress ==> final(self).discard_updates && final(self).status == (
            if old(self).status matches Some(StatusMessage::FittingInProgress) {
                Some(StatusMessage::FittingStopping)
            } else {
                old(self).status
            }),
            !old(self).fit_in_progress ==> final(self).discard_updates == old(self).discard_updates
                && final(self).status == old(self).status,
            final(self).fit_in_progress == old(self).fit_in_progress,
            final(self).worker_attached == old(self).worker_attached,
    {
        if !self.fit_in_progress {
            return false;
        }
        self.discard_updates = true;
        let running = match &self.status {
            Some(StatusMessage::FittingInProgress) => true,
            _ => false,
        };
        if running {
            self.status = Some(StatusMessage::FittingStopping);
        }
        true
    }

    /// Asks the running fit to stop and keep its results; returns whether the cancel flag is
    /// to be raised, which is when there is one.
    pub fn request_stop_fit(&mut self, has_cancel_flag: bool) -> (raise_cancel: bool)
        ensures
            raise_cancel == has_cancel_flag,
            has_cancel_flag ==> final(self).status == Some(StatusMessage::FittingStopping),
            !has_cancel_flag ==> final(self).status == old(self).status,
            final(self).fit_in_progress == old(self).fit_in_progress,
            final(self).discard_updates == old(self).discard_updates,
            final(self).worker_attached == old(self).worker_attached,
    {
        if has_cancel_flag {
            self.status = Some(StatusMessage::FittingStopping);
        }
        has_cancel_flag
    }
}

/// No poll of a run whose updates are discarded applies a result, whatever the worker
/// reports.
pub proof fn lemma_cancelled_run_applies_nothing(event: FitWorkerEvent)
    ensures
        spec_poll_action(true, event) != FitPollAction::ApplyParametric,
        spec_poll_action(true, event) != FitPollAction::ApplySpline,
{
}

} // verus!
