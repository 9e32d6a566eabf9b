//! The transfer controller: the decisions of one upload, as a state machine.
//!
//! The program around the library does the outside work (inspecting the
//! file, running the upload, running and joining the renderer, printing) and
//! tells the controller what happened; the controller answers with what to
//! do next. One upload walks through
//! `Idle → Measuring → Transferring → Completed or Failed → Reported`.

use crate::error::{ErrorView, TransferError};
use crate::progress::{ProgressState, ProgressView};
use vstd::prelude::*;
use vstd::string::*;

verus! {

/// Where one upload stands.
#[derive(Clone, Copy, Debug, PartialEq, Eq, Structural)]
pub enum TransferPhase {
    /// Nothing has happened yet.
    Idle,
    /// The size of the file is being determined.
    Measuring,
    /// The upload runs and the renderer is active.
    Transferring,
    /// The upload succeeded; the renderer has been told to stop.
    Completed,
    /// The upload failed; the renderer has been told to stop.
    Failed,
    /// The outcome has been handed out for printing. Nothing follows.
    Reported,
}

/// A transfer target as contracts see it.
pub struct TargetView {
    pub path: Seq<char>,
    pub total_size: nat,
}

/// The file to transfer: its path and its size, known before the transfer
/// starts and fixed from then on.
#[derive(Clone, Debug, PartialEq, Eq)]
pub struct TransferTarget {
    path: String,
    total_size: u64,
}

impl View for TransferTarget {
    type V = TargetView;

    closed spec fn view(&self) -> TargetView {
        TargetView { path: self.path@, total_size: self.total_size as nat }
    }
}

impl TransferTarget {
    /// The file at `path`, found to hold `total_size` bytes.
    pub fn new(path: String, total_size: u64) -> (target: TransferTarget)
        ensures
            target@ == (TargetView { path: path@, total_size: total_size as nat }),
    {
        TransferTarget { path, total_size }
    }

    /// The path of the file.
    pub fn path(&self) -> (path: &str)
        ensures
            path@ == self@.path,
    {
        self.path.as_str()
    }

    /// The size of the file in bytes.
    pub fn total_size(&self) -> (bytes: u64)
        ensures
            bytes == self@.total_size,
    {
        self.total_size
    }
}

/// An outcome as contracts see it.
pub enum OutcomeView {
    Success { identifier: Seq<char>, deletion_token: Seq<char> },
    Failure { error: ErrorView },
}

/// How a transfer ended. Identifier and token are the service's own strings,
/// kept as they came.
#[derive(Clone, Debug, PartialEq, Eq)]
pub enum TransferOutcome {
    Success { identifier: String, deletion_token: String },
    Failure { error: TransferError },
}

impl View for TransferOutcome {
    type V = OutcomeView;

    open spec fn view(&self) -> OutcomeView {
        match *self {
            TransferOutcome::Success { identifier, deletion_token } => OutcomeView::Success {
                identifier: identifier@,
                deletion_token: deletion_token@,
            },
            TransferOutcome::Failure { error } => OutcomeView::Failure { error: error@ },
        }
    }
}

/// An event as contracts see it.
pub enum EventView {
    Start,
    Measured { target: TargetView },
    MeasureFailed { message: Seq<char> },
    Progress { current: nat, total: nat },
    UploadSucceeded { identifier: Seq<char>, deletion_token: Seq<char> },
    UploadFailed { message: Seq<char> },
    RendererExited,
}

/// What the program around the library tells the controller.
#[derive(Clone, Debug, PartialEq, Eq)]
pub enum TransferEvent {
    /// The user asked for an upload.
    Start,
    /// The file was inspected and its size is known.
    Measured { target: TransferTarget },
    /// The file is missing or cannot be read.
    MeasureFailed { message: String },
    /// The transport's progress callback fired with the bytes transferred so
    /// far and its own idea of the total, which the controller does not use.
    Progress { current: u64, total: u64 },
    /// The transport finished and returned what the service issued.
    UploadSucceeded { identifier: String, deletion_token: String },
    /// The transport gave up.
    UploadFailed { message: String },
    /// The renderer has left its loop and has been joined.
    RendererExited,
}

impl View for TransferEvent {
    type V = EventView;

    open spec fn view(&self) -> EventView {
        match *self {
            TransferEvent::Start => EventView::Start,
            TransferEvent::Measured { target } => EventView::Measured { target: target@ },
            TransferEvent::MeasureFailed { message } => EventView::MeasureFailed {
                message: message@,
            },
            TransferEvent::Progress { current, total } => EventView::Progress {
                current: current as nat,
                total: total as nat,
            },
            TransferEvent::UploadSucceeded { identifier, deletion_token } => {
                EventView::UploadSucceeded {
                    identifier: identifier@,
                    deletion_token: deletion_token@,
                }
            },
            TransferEvent::UploadFailed { message } => EventView::UploadFailed {
                message: message@,
            },
            TransferEvent::RendererExited => EventView::RendererExited,
        }
    }
}

/// An action as contracts see it.
pub enum ActionView {
    MeasureFile,
    StartTransfer { target: TargetView },
    Continue,
    StopRenderer,
    Report { outcome: OutcomeView },
    Ignore,
}

/// What the controller asks the program around the library to do.
#[derive(Clone, Debug, PartialEq, Eq)]
pub enum TransferAction {
    /// Inspect the file and answer with `Measured` or `MeasureFailed`.
    MeasureFile,
    /// Start the renderer with the size of the target, then run the upload
    /// with a callback that sends `Progress`; answer with `UploadSucceeded`
    /// or `UploadFailed`.
    StartTransfer { target: TransferTarget },
    /// Nothing to do: the progress has been recorded.
    Continue,
    /// Raise the stop signal, wait until the renderer has left its loop, and
    /// answer with `RendererExited`.
    StopRenderer,
    /// Print the outcome. The invocation is over.
    Report { outcome: TransferOutcome },
    /// The event does not belong to the current phase; nothing has changed.
    Ignore,
}

impl View for TransferAction {
    type V = ActionView;

    open spec fn view(&self) -> ActionView {
        match *self {
            TransferAction::MeasureFile => ActionView::MeasureFile,
            TransferAction::StartTransfer { target } => ActionView::StartTransfer {
                target: target@,
            },
            TransferAction::Continue => ActionView::Continue,
            TransferAction::StopRenderer => ActionView::StopRenderer,
            TransferAction::Report { outcome } => ActionView::Report { outcome: outcome@ },
            TransferAction::Ignore => ActionView::Ignore,
        }
    }
}

/// A controller as contracts see it.
pub struct ControllerView {
    pub phase: TransferPhase,
    pub progress: ProgressView,
    pub outcome: Option<OutcomeView>,
}

/// One step of the machine: the next state and the action to take.
pub struct Transition {
    pub state: ControllerView,
    pub action: ActionView,
}

impl ControllerView {
    /// The controller before anything has happened.
    pub open spec fn initial() -> ControllerView {
        ControllerView {
            phase: TransferPhase::Idle,
            progress: ProgressView { transferred: 0, total: 0 },
            outcome: None,
        }
    }

    /// What every reachable controller satisfies: the counter is within the
    /// total, an outcome exists exactly from the end of the upload on, and a
    /// successful outcome goes with a counter that stands at the total.
    pub open spec fn wf(self) -> bool {
        &&& self.progress.wf()
        &&& match self.phase {
            TransferPhase::Idle | TransferPhase::Measuring => {
                self.outcome is None && self.progress.total == 0
            },
            TransferPhase::Transferring => self.outcome is None,
            TransferPhase::Completed => {
                self.outcome matches Some(OutcomeView::Success { .. })
                    && self.progress.is_complete()
            },
            TransferPhase::Failed => {
                self.outcome matches Some(
                    OutcomeView::Failure { error: ErrorView::TransportError(_) },
                )
            },
            TransferPhase::Reported => {
                &&& self.outcome is Some
                &&& self.outcome matches Some(OutcomeView::Success { .. })
                    ==> self.progress.is_complete()
            },
        }
    }

    /// The stop signal for the renderer: raised once the upload has ended,
    /// however it ended, and never lowered.
    pub open spec fn stop_requested(self) -> bool {
        self.phase == TransferPhase::Completed || self.phase == TransferPhase::Failed
            || self.phase == TransferPhase::Reported
    }

    /// The same state with nothing to do: the answer to an event that does
    /// not belong to the current phase.
    pub open spec fn ignore(self) -> Transition {
        Transition { state: self, action: ActionView::Ignore }
    }

    /// The transition function of the machine.
    pub open spec fn step(self, event: EventView) -> Transition {
        match (self.phase, event) {
            (TransferPhase::Idle, EventView::Start) => Transition {
                state: ControllerView { phase: TransferPhase::Measuring, ..self },
                action: ActionView::MeasureFile,
            },
            (TransferPhase::Measuring, EventView::Measured { target }) => Transition {
                state: ControllerView {
                    phase: TransferPhase::Transferring,
                    progress: ProgressView { transferred: 0, total: target.total_size },
                    outcome: None,
                },
                action: ActionView::StartTransfer { target },
            },
            (TransferPhase::Measuring, EventView::MeasureFailed { message }) => {
                let outcome = OutcomeView::Failure { error: ErrorView::IoError(message) };
                Transition {
                    state: ControllerView {
                        phase: TransferPhase::Reported,
                        outcome: Some(outcome),
                        ..self
                    },
                    action: ActionView::Report { outcome },
                }
            },
            (TransferPhase::Transferring, EventView::Progress { current, total }) => Transition {
                state: ControllerView { progress: self.progress.after_report(current), ..self },
                action: ActionView::Continue,
            },
            (
                TransferPhase::Transferring,
                EventView::UploadSucceeded { identifier, deletion_token },
            ) => Transition {
                state: ControllerView {
                    phase: TransferPhase::Completed,
                    progress: ProgressView {
                        transferred: self.progress.total,
                        total: self.progress.total,
                    },
                    outcome: Some(OutcomeView::Success { identifier, deletion_token }),
                },
                action: ActionView::StopRenderer,
            },
            (TransferPhase::Transferring, EventView::UploadFailed { message }) => Transition {
                state: ControllerView {
                    phase: TransferPhase::Failed,
                    outcome: Some(
                        OutcomeView::Failure { error: ErrorView::TransportError(message) },
                    ),
                    ..self
                },
                action: ActionView::StopRenderer,
            },
            (TransferPhase::Completed, EventView::RendererExited)
            | (TransferPhase::Failed, EventView::RendererExited) => {
                if self.outcome is Some {
                    Transition {
                        state: ControllerView { phase: TransferPhase::Reported, ..self },
                        action: ActionView::Report { outcome: self.outcome->0 },
                    }
                } else {
                    self.ignore()
                }
            },
            _ => self.ignore(),
        }
    }

    /// The controller after a run of events, oldest first.
    pub open spec fn run(self, events: Seq<EventView>) -> ControllerView
        decreases events.len(),
    {
        if events.len() == 0 {
            self
        } else {
            self.run(events.drop_last()).step(events.last()).state
        }
    }
}

/// A step leads from a valid controller to a valid controller.
pub proof fn lemma_step_keeps_controller_valid(state: ControllerView, event: EventView)
    requires
        state.wf(),
    ensures
        state.step(event).state.wf(),
{
}

/// Across any step the counter moves forward or not at all and stays within
/// the total.
pub proof fn lemma_step_never_moves_progress_back(state: ControllerView, event: EventView)
    requires
        state.wf(),
    ensures
        state.step(event).state.progress.transferred >= state.progress.transferred,
        state.step(event).state.progress.transferred <= state.step(event).state.progress.total,
{
}

/// A run of events leads from a valid controller to a valid controller.
pub proof fn lemma_run_keeps_controller_valid(state: ControllerView, events: Seq<EventView>)
    requires
        state.wf(),
    ensures
        state.run(events).wf(),
    decreases events.len(),
{
    if events.len() > 0 {
        lemma_run_keeps_controller_valid(state, events.drop_last());
        lemma_step_keeps_controller_valid(state.run(events.drop_last()), events.last());
    }
}

/// Whatever happens during one transfer, the values found in the counter
/// never decrease and never pass the size of the file: after `later` events
/// the counter is at least what it was after `earlier` events, and within
/// the total.
pub proof fn lemma_observed_progress_is_monotone_and_bounded(
    state: ControllerView,
    events: Seq<EventView>,
    earlier: int,
    later: int,
)
    requires
        state.wf(),
        0 <= earlier <= later <= events.len(),
    ensures
        state.run(events.subrange(0, earlier)).progress.transferred <= state.run(
            events.subrange(0, later),
        ).progress.transferred,
        state.run(events.subrange(0, later)).progress.transferred <= state.run(
            events.subrange(0, later),
        ).progress.total,
    decreases later - earlier,
{
    lemma_run_keeps_controller_valid(state, events.subrange(0, later));
    if earlier < later {
        lemma_observed_progress_is_monotone_and_bounded(state, events, earlier, later - 1);
        assert(events.subrange(0, later).drop_last() =~= events.subrange(0, later - 1));
        lemma_run_keeps_controller_valid(state, events.subrange(0, later - 1));
        lemma_step_never_moves_progress_back(
            state.run(events.subrange(0, later - 1)),
            events.subrange(0, later).last(),
        );
    }
}

/// When a successful outcome is handed out for printing, the counter stands
/// at the size of the file. Of a failure nothing of the kind is claimed.
pub proof fn lemma_success_is_reported_at_total(state: ControllerView, event: EventView)
    requires
        state.wf(),
        state.step(event).action matches ActionView::Report {
            outcome: OutcomeView::Success { .. },
        },
    ensures
        state.step(event).state.progress.transferred == state.step(event).state.progress.total,
        state.step(event).state.phase == TransferPhase::Reported,
{
}

/// An outcome is handed out for printing only once the renderer is known to
/// have stopped: in answer to `RendererExited`, with the stop signal raised
/// before, or, where the file could not be measured, before any renderer
/// was started.
pub proof fn lemma_report_waits_for_renderer(state: ControllerView, event: EventView)
    requires
        state.wf(),
        state.step(event).action is Report,
    ensures
        event is RendererExited || event is MeasureFailed,
        event is RendererExited ==> state.stop_requested(),
        event is MeasureFailed ==> state.phase == TransferPhase::Measuring,
{
}

/// What is reported is what the transport returned: after a successful
/// upload the identifier and the token as they came, after a failed one the
/// transport's message, unchanged.
pub proof fn lemma_report_carries_transport_result(
    state: ControllerView,
    upload: EventView,
)
    requires
        state.wf(),
        state.phase == TransferPhase::Transferring,
        upload is UploadSucceeded || upload is UploadFailed,
    ensures
        state.step(upload).action == ActionView::StopRenderer,
        state.step(upload).state.stop_requested(),
        upload matches EventView::UploadSucceeded { identifier, deletion_token } ==> state.step(
            upload,
        ).state.step(EventView::RendererExited).action == (ActionView::Report {
            outcome: OutcomeView::Success { identifier, deletion_token },
        }),
        upload matches EventView::UploadFailed { message } ==> state.step(upload).state.step(
            EventView::RendererExited,
        ).action == (ActionView::Report {
            outcome: OutcomeView::Failure { error: ErrorView::TransportError(message) },
        }),
{
}

/// Once the outcome has been reported nothing moves any more: every event is
/// ignored. There is no retry and no resumption.
pub proof fn lemma_reported_is_final(state: ControllerView, event: EventView)
    requires
        state.phase == TransferPhase::Reported,
    ensures
        state.step(event) == state.ignore(),
{
}

/// The controller of one upload.
#[derive(Debug, PartialEq, Eq)]
pub struct TransferController {
    phase: TransferPhase,
    progress: ProgressState,
    outcome: Option<TransferOutcome>,
}

impl View for TransferController {
    type V = ControllerView;

    closed spec fn view(&self) -> ControllerView {
        ControllerView {
            phase: self.phase,
            progress: self.progress@,
            outcome: match self.outcome {
                Some(outcome) => Some(outcome@),
                None => None,
            },
        }
    }
}

/// A copy of an error.
fn copy_error(error: &TransferError) -> (copy: TransferError)
    ensures
        copy@ == error@,
{
    match error {
        TransferError::IoError(message) => TransferError::IoError(message.clone()),
        TransferError::InvalidArgument => TransferError::InvalidArgument,
        TransferError::TransportError(message) => TransferError::TransportError(message.clone()),
        TransferError::ConfigurationError => TransferError::ConfigurationError,
    }
}

/// A copy of an outcome.
fn copy_outcome(outcome: &TransferOutcome) -> (copy: TransferOutcome)
    ensures
        copy@ == outcome@,
{
    match outcome {
        TransferOutcome::Success { identifier, deletion_token } => TransferOutcome::Success {
            identifier: identifier.clone(),
            deletion_token: deletion_token.clone(),
        },
        TransferOutcome::Failure { error } => TransferOutcome::Failure {
            error: copy_error(error),
        },
    }
}

impl TransferController {
    #[verifier::type_invariant]
    closed spec fn valid(self) -> bool {
        self@.wf()
    }

    /// A controller for one upload, in phase `Idle`.
    pub fn new() -> (controller: TransferController)
        ensures
            controller@ == ControllerView::initial(),
    {
        TransferController {
            phase: TransferPhase::Idle,
            progress: ProgressState::new(0),
            outcome: None,
        }
    }

    /// Takes one event and answers with the action to perform. State and
    /// action are those of the transition function; an event that does not
    /// belong to the current phase changes nothing and is answered with
    /// `Ignore`.
    pub fn step(&mut self, event: TransferEvent) -> (action: TransferAction)
        ensures
            final(self)@ == old(self)@.step(event@).state,
            action@ == old(self)@.step(event@).action,
            final(self)@.wf(),
    {
        proof {
            use_type_invariant(&*self);
            lemma_step_keeps_controller_valid(self@, event@);
        }
        match event {
            TransferEvent::Start => {
                if self.phase == TransferPhase::Idle {
                    *self = TransferController {
                        phase: TransferPhase::Measuring,
                        progress: self.progress,
                        outcome: None,
                    };
                    return TransferAction::MeasureFile;
                }
            },
            TransferEvent::Measured { target } => {
                if self.phase == TransferPhase::Measuring {
                    *self = TransferController {
                        phase: TransferPhase::Transferring,
                        progress: ProgressState::new(target.total_size()),
                        outcome: None,
                    };
                    return TransferAction::StartTransfer { target };
                }
            },
            TransferEvent::MeasureFailed { message } => {
                if self.phase == TransferPhase::Measuring {
                    let outcome = TransferOutcome::Failure {
                        error: TransferError::IoError(message),
                    };
                    let reported = copy_outcome(&outcome);
                    *self = TransferController {
                        phase: TransferPhase::Reported,
                        progress: self.progress,
                        outcome: Some(outcome),
                    };
                    return TransferAction::Report { outcome: reported };
                }
            },
            TransferEvent::Progress { current, total } => {
                if self.phase == TransferPhase::Transferring {
                    let mut progress = self.progress;
                    progress.record(current);
                    *self = TransferController {
                        phase: TransferPhase::Transferring,
                        progress,
                        outcome: None,
                    };
                    return TransferAction::Continue;
                }
            },
            TransferEvent::UploadSucceeded { identifier, deletion_token } => {
                if self.phase == TransferPhase::Transferring {
                    let mut progress = self.progress;
                    progress.complete();
                    *self = TransferController {
                        phase: TransferPhase::Completed,
                        progress,
                        outcome: Some(TransferOutcome::Success { identifier, deletion_token }),
                    };
                    return TransferAction::StopRenderer;
                }
            },
            TransferEvent::UploadFailed { message } => {
                if self.phase == TransferPhase::Transferring {
                    *self = TransferController {
                        phase: TransferPhase::Failed,
                        progress: self.progress,
                        outcome: Some(
                            TransferOutcome::Failure {
                                error: TransferError::TransportError(message),
                            },
                        ),
                    };
                    return TransferAction::StopRenderer;
                }
            },
            TransferEvent::RendererExited => {
                if self.phase == TransferPhase::Completed || self.phase == TransferPhase::Failed {
                    match &self.outcome {
                        Some(outcome) => {
                            let kept = copy_outcome(outcome);
                            let reported = copy_outcome(outcome);
                            *self = TransferController {
                                phase: TransferPhase::Reported,
                                progress: self.progress,
                                outcome: Some(kept),
                            };
                            return TransferAction::Report { outcome: reported };
                        },
                        None => {},
                    }
                }
            },
        }
        TransferAction::Ignore
    }

    /// The phase the upload is in.
    pub fn phase(&self) -> (phase: TransferPhase)
        ensures
            phase == self@.phase,
            self@.wf(),
    {
        proof {
            use_type_invariant(self);
        }
        self.phase
    }

    /// A snapshot of the progress counter, for the renderer to work on.
    pub fn progress(&self) -> (snapshot: ProgressState)
        ensures
            snapshot@ == self@.progress,
            snapshot@.wf(),
    {
        proof {
            use_type_invariant(self);
        }
        self.progress
    }

    /// The stop signal for the renderer.
    pub fn stop_requested(&self) -> (stop: bool)
        ensures
            stop == self@.stop_requested(),
    {
        self.phase == TransferPhase::Completed || self.phase == TransferPhase::Failed
            || self.phase == TransferPhase::Reported
    }

    /// The outcome, once the upload has ended.
    pub fn outcome(&self) -> (outcome: Option<TransferOutcome>)
        ensures
            outcome is Some <==> self@.outcome is Some,
            outcome matches Some(found) ==> Some(found@) == self@.outcome,
            outcome is Some <==> self@.stop_requested(),
    {
        proof {
            use_type_invariant(self);
        }
        match &self.outcome {
            Some(outcome) => Some(copy_outcome(outcome)),
            None => None,
        }
    }
}

} // verus!
