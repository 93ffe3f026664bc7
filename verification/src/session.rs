//! The session supervisor's state machine.
//!
//! A session holds at most one active heart-rate stream. The state records the
//! selected device, whether a stream runs, and a token naming the running
//! task. The well-formedness invariant ties the running flag to the presence
//! of a task token. Each transition is a pure step: the caller performs the
//! cancellation or spawning that a returned token or decision asks for.

use vstd::prelude::*;

verus! {

/// A state conflict reported to the caller.
#[derive(Debug, Clone, Copy, PartialEq, Eq, Structural)]
pub enum SessionError {
    /// A stream is already running.
    AlreadyRunning,
    /// No device has been selected yet.
    NoDeviceSelected,
    /// No stream is running.
    NotRunning,
}

impl SessionError {
    /// The error text shown to the caller.
    pub open spec fn spec_message(self) -> Seq<char> {
        match self {
            SessionError::AlreadyRunning => "Heart rate stream is already running"@,
            SessionError::NoDeviceSelected => "No device selected. Please select a device first."@,
            SessionError::NotRunning => "No heart rate stream is running"@,
        }
    }

    /// Renders the error text.
    pub fn message(&self) -> (r: String)
        ensures
            r@ == self.spec_message(),
    {
        match self {
            SessionError::AlreadyRunning => String::from_str(
                "Heart rate stream is already running",
            ),
            SessionError::NoDeviceSelected => String::from_str(
                "No device selected. Please select a device first.",
            ),
            SessionError::NotRunning => String::from_str("No heart rate stream is running"),
        }
    }
}

/// The supervisor's state: the selection survives stops, and a task token is
/// present exactly while a stream runs.
pub struct SessionState {
    /// Identifier of the chosen device, if one was selected.
    pub selected_device_id: Option<String>,
    /// Whether a stream is currently considered running.
    pub running: bool,
    /// Caller-chosen token naming the running stream task.
    pub task: Option<u64>,
}

impl SessionState {
    /// The invariant every transition preserves: a task token is held exactly
    /// while the session counts as running.
    pub open spec fn wf(self) -> bool {
        self.running <==> self.task is Some
    }

    /// State after recording a new selection: any running stream is detached,
    /// and the new identifier replaces the old.
    pub open spec fn select_transition(self, id: String) -> SessionState {
        SessionState { selected_device_id: Some(id), running: false, task: None }
    }

    /// Token the caller must cancel when a selection interrupts a stream.
    pub open spec fn select_cancels(self) -> Option<u64> {
        if self.running {
            self.task
        } else {
            None
        }
    }

    /// What a start attempt finds: refused while running, refused without a
    /// selection, otherwise the identifier to stream from.
    pub open spec fn start_outcome(self) -> Result<String, SessionError> {
        if self.running {
            Err(SessionError::AlreadyRunning)
        } else if self.selected_device_id is None {
            Err(SessionError::NoDeviceSelected)
        } else {
            Ok(self.selected_device_id->0)
        }
    }

    /// State after a stream task was attached.
    pub open spec fn started(self, task_id: u64) -> SessionState {
        SessionState { running: true, task: Some(task_id), ..self }
    }

    /// State after a stop: the task token is dropped, the selection survives.
    pub open spec fn stopped(self) -> SessionState {
        SessionState { running: false, task: None, ..self }
    }

    /// A fresh session: nothing selected, nothing running.
    pub fn new() -> (s: SessionState)
        ensures
            s.wf(),
            s.selected_device_id is None,
            !s.running,
            s.task is None,
    {
        SessionState { selected_device_id: None, running: false, task: None }
    }

    /// Pure read of the running flag.
    pub fn is_streaming(&self) -> (r: bool)
        ensures
            r == self.running,
    {
        self.running
    }

    /// The currently selected device identifier, if any.
    pub fn selected_device(&self) -> (r: Option<String>)
        ensures
            r == self.selected_device_id,
    {
        match &self.selected_device_id {
            Some(id) => Some(id.clone()),
            None => None,
        }
    }

    /// Records a new selection. A running stream is stopped implicitly: the
    /// returned token names the task the caller must cancel before anything
    /// else observes the session.
    pub fn select_device(&mut self, id: String) -> (cancel: Option<u64>)
        requires
            old(self).wf(),
        ensures
            final(self).wf(),
            *final(self) == old(self).select_transition(id),
            cancel == old(self).select_cancels(),
            old(self).running ==> cancel is Some,
    {
        let cancel: Option<u64> = if self.running {
            let t = self.task;
            self.task = None;
            self.running = false;
            t
        } else {
            None
        };
        self.selected_device_id = Some(id);
        cancel
    }

    /// Checks whether a stream may start, and hands out the selected device
    /// identifier when it may. The state is untouched: the caller attaches the
    /// task with `mark_started` once the stream is up.
    pub fn prepare_start(&self) -> (r: Result<String, SessionError>)
        requires
            self.wf(),
        ensures
            r == self.start_outcome(),
    {
        if self.running {
            Err(SessionError::AlreadyRunning)
        } else {
            match &self.selected_device_id {
                Some(id) => Ok(id.clone()),
                None => Err(SessionError::NoDeviceSelected),
            }
        }
    }

    /// Attaches the spawned stream task and marks the session running.
    pub fn mark_started(&mut self, task_id: u64)
        requires
            old(self).wf(),
            !old(self).running,
        ensures
            final(self).wf(),
            *final(self) == old(self).started(task_id),
    {
        self.task = Some(task_id);
        self.running = true;
    }

    /// Stops the running stream: the returned token names the task the caller
    /// must cancel. When nothing runs, the state is untouched and the caller
    /// is told so.
    pub fn stop_stream(&mut self) -> (r: Result<u64, SessionError>)
        requires
            old(self).wf(),
        ensures
            final(self).wf(),
            !final(self).running,
            old(self).running ==> r == Ok::<u64, SessionError>(old(self).task->0)
                && *final(self) == old(self).stopped(),
            !old(self).running ==> r == Err::<u64, SessionError>(SessionError::NotRunning)
                && *final(self) == *old(self),
    {
        match self.task {
            Some(t) => {
                self.task = None;
                self.running = false;
                Ok(t)
            },
            None => Err(SessionError::NotRunning),
        }
    }
}

/// Starting twice without an intervening stop fails the second time: once a
/// task is attached, a further start attempt reports `AlreadyRunning` and the
/// first task stays attached and running.
pub proof fn lemma_second_start_refused(s: SessionState, task_id: u64)
    requires
        s.wf(),
        !s.running,
    ensures
        s.started(task_id).wf(),
        s.started(task_id).start_outcome() == Err::<String, SessionError>(
            SessionError::AlreadyRunning,
        ),
        s.started(task_id).running,
        s.started(task_id).task == Some(task_id),
{
}

/// A start without a prior selection is refused with `NoDeviceSelected`.
pub proof fn lemma_start_needs_selection(s: SessionState)
    requires
        s.wf(),
        !s.running,
        s.selected_device_id is None,
    ensures
        s.start_outcome() == Err::<String, SessionError>(SessionError::NoDeviceSelected),
{
}

/// Stopping while idle reports `NotRunning`; stopping a running stream hands
/// back its task token for cancellation, and the session then reads as not
/// streaming.
pub proof fn lemma_stop_outcomes(s: SessionState)
    requires
        s.wf(),
    ensures
        s.running ==> s.task is Some && !s.stopped().running && s.stopped().wf(),
        s.stopped().selected_device_id == s.selected_device_id,
{
}

/// Selecting while streaming detaches the running task: the transition hands
/// back exactly that task's token for cancellation, and afterwards no task is
/// attached, so no further updates can be attributed to the session.
pub proof fn lemma_select_cancels_stream(s: SessionState, id: String)
    requires
        s.wf(),
        s.running,
    ensures
        s.select_cancels() == s.task,
        s.select_cancels() is Some,
        s.select_transition(id).task is None,
        !s.select_transition(id).running,
        s.select_transition(id).wf(),
{
}

} // verus!
