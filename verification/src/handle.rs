//! The handle of a stream that feeds a callback, and the life of the task
//! behind it.

use vstd::prelude::*;
use crate::errors::ClientError;

verus! {

/// `tokio::task::JoinHandle`, the handle by which a spawned task is joined or
/// aborted. Declared without its fields: the library carries it, and nothing
/// is claimed of what it holds.
#[verifier::external_type_specification]
#[verifier::external_body]
#[verifier::reject_recursive_types(T)]
pub struct ExJoinHandle<T>(tokio::task::JoinHandle<T>);

/// `tokio::task::JoinError`, the error with which joining a task fails.
/// Declared only because the join handle's result holds it; nothing is claimed
/// of it.
#[verifier::external_type_specification]
#[verifier::external_body]
pub struct ExJoinError(tokio::task::JoinError);

/// `tokio::sync::oneshot::error::RecvError`, the error that a single-shot
/// receiver resolves to when its sender is dropped. Declared only because the
/// receiver's result holds it; nothing is claimed of it.
#[verifier::external_type_specification]
#[verifier::external_body]
pub struct ExRecvError(tokio::sync::oneshot::error::RecvError);

/// `tokio::sync::oneshot::Receiver`, the receiving end of a single-shot
/// signal. Declared without its fields: the library carries it, and nothing
/// is claimed of what it holds.
#[verifier::external_type_specification]
#[verifier::external_body]
#[verifier::reject_recursive_types(T)]
pub struct ExReceiver<T>(tokio::sync::oneshot::Receiver<T>);

/// A task's join handle together with the receiving end of the signal that the
/// task sends once its stream is built and before it reads the first item.
#[derive(Debug)]
#[verifier::reject_recursive_types(T)]
pub struct StreamHandle<T> {
    pub handle: tokio::task::JoinHandle<T>,
    pub start: Option<tokio::sync::oneshot::Receiver<()>>,
}

impl<T> StreamHandle<T> {
    pub fn new(
        handle: tokio::task::JoinHandle<T>,
        start: Option<tokio::sync::oneshot::Receiver<()>>,
    ) -> (h: StreamHandle<T>)
        ensures
            h.handle == handle,
            h.start == start,
    {
        StreamHandle { handle, start }
    }

    /// Hands out the readiness signal to wait on, once. The first call returns
    /// the signal that the handle was made with; every later call returns
    /// nothing, so that waiting again is a no-op. The task's handle stays.
    pub fn wait_for_ready(&mut self) -> (signal: Option<tokio::sync::oneshot::Receiver<()>>)
        ensures
            signal == old(self).start,
            final(self).start is None,
            final(self).handle == old(self).handle,
    {
        self.start.take()
    }

    /// Gives up the readiness signal and keeps the task's join handle.
    pub fn into_join_handle(self) -> (handle: tokio::task::JoinHandle<T>)
        ensures
            handle == self.handle,
    {
        self.handle
    }
}

/// Giving up the readiness signal leaves the task's join handle.
impl<T> From<StreamHandle<T>> for tokio::task::JoinHandle<T> {
    fn from(stream: StreamHandle<T>) -> (handle: tokio::task::JoinHandle<T>) {
        stream.into_join_handle()
    }
}

impl<T> vstd::std_specs::convert::FromSpecImpl<StreamHandle<T>> for tokio::task::JoinHandle<T> {
    open spec fn obeys_from_spec() -> bool {
        true
    }

    open spec fn from_spec(stream: StreamHandle<T>) -> tokio::task::JoinHandle<T> {
        stream.handle
    }
}

/// Where the task behind a callback surface stands.
#[derive(Clone, Copy, Debug, PartialEq, Eq, Structural)]
pub enum PumpState {
    /// The stream is being built; readiness was not signalled.
    Constructing,
    /// Readiness was signalled; items go to the callback.
    Streaming,
    /// The task returned.
    Ended,
}

/// What happened to the task.
#[derive(Debug)]
pub enum PumpEvent<T> {
    /// The stream was built.
    Constructed,
    /// The stream could not be built.
    ConstructionFailed(ClientError),
    /// The stream yielded an item.
    Item(T),
    /// The stream ended.
    Exhausted,
}

/// What the task does next.
#[derive(Debug)]
pub enum PumpAction<T> {
    /// Signal readiness, then read the first item.
    SignalReady,
    /// Call the callback with this item, then read the next.
    Invoke(T),
    /// Return this value as the task's result.
    Finish(Result<(), ClientError>),
    /// The event does not belong to the state: nothing is done.
    Ignore,
}

/// The state after `event`.
pub open spec fn pump_state_after<T>(state: PumpState, event: PumpEvent<T>) -> PumpState {
    match (state, event) {
        (PumpState::Constructing, PumpEvent::Constructed) => PumpState::Streaming,
        (PumpState::Constructing, PumpEvent::ConstructionFailed(_)) => PumpState::Ended,
        (PumpState::Streaming, PumpEvent::Item(_)) => PumpState::Streaming,
        (PumpState::Streaming, PumpEvent::Exhausted) => PumpState::Ended,
        _ => state,
    }
}

/// The action that `event` calls for.
pub open spec fn pump_action<T>(state: PumpState, event: PumpEvent<T>) -> PumpAction<T> {
    match (state, event) {
        (PumpState::Constructing, PumpEvent::Constructed) => PumpAction::SignalReady,
        (PumpState::Constructing, PumpEvent::ConstructionFailed(e)) => PumpAction::Finish(Err(e)),
        (PumpState::Streaming, PumpEvent::Item(item)) => PumpAction::Invoke(item),
        (PumpState::Streaming, PumpEvent::Exhausted) => PumpAction::Finish(Ok(())),
        _ => PumpAction::Ignore,
    }
}

/// One step of the task behind a callback surface. Readiness is signalled once,
/// after the stream is built and before its first item is read; a failure to
/// build ends the task with the error and without the signal; every item goes
/// to the callback; the end of the stream ends the task with success.
pub fn pump_step<T>(state: PumpState, event: PumpEvent<T>) -> (next: (PumpState, PumpAction<T>))
    ensures
        next.0 == pump_state_after(state, event),
        next.1 == pump_action(state, event),
{
    match state {
        PumpState::Constructing => match event {
            PumpEvent::Constructed => (PumpState::Streaming, PumpAction::SignalReady),
            PumpEvent::ConstructionFailed(e) => (PumpState::Ended, PumpAction::Finish(Err(e))),
            _ => (PumpState::Constructing, PumpAction::Ignore),
        },
        PumpState::Streaming => match event {
            PumpEvent::Item(item) => (PumpState::Streaming, PumpAction::Invoke(item)),
            PumpEvent::Exhausted => (PumpState::Ended, PumpAction::Finish(Ok(()))),
            _ => (PumpState::Streaming, PumpAction::Ignore),
        },
        PumpState::Ended => (PumpState::Ended, PumpAction::Ignore),
    }
}

} // verus!
