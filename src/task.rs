//! Types and functions for working with asynchronous tasks.
//!
//! A task is handed to the runtime that a [`Spawner`] carries. Its result
//! travels back over a one-shot channel to a [`JoinHandle`], which
//! observes it as a small state machine: `Pending`, then exactly one of
//! `Ready(value)` or `Disconnected`, after which it never changes again.

use vstd::prelude::*;

use core::future::Future;
use core::task::Context;
use futures::channel::oneshot::{Canceled, Receiver, Sender};
use futures::future::{FutureExt, FutureObj};
use futures::task::SpawnError;
use runtime_raw::Runtime;

verus! {

#[verifier::external_type_specification]
#[verifier::external_body]
#[verifier::reject_recursive_types(T)]
pub struct ExReceiver<T>(Receiver<T>);

#[verifier::external_type_specification]
#[verifier::external_body]
#[verifier::reject_recursive_types(T)]
pub struct ExSender<T>(Sender<T>);

#[verifier::external_type_specification]
#[verifier::external_body]
#[verifier::reject_recursive_types(T)]
pub struct ExFutureObj<'a, T>(FutureObj<'a, T>);

#[verifier::external_type_specification]
#[verifier::external_body]
pub struct ExCanceled(Canceled);

#[verifier::external_type_specification]
#[verifier::external_body]
pub struct ExSpawnError(SpawnError);

#[verifier::external_type_specification]
#[verifier::external_body]
pub struct ExContext<'a>(Context<'a>);

// ---------------------------------------------------------------------------
// Errors and outcomes
// ---------------------------------------------------------------------------

/// Why a task could not be handed to the runtime.
#[derive(Debug, Clone, Copy, PartialEq, Eq, Structural)]
pub enum SubmitError {
    /// No runtime accepts new work (none is active, or it is shutting down).
    Unavailable,
}

/// What a finished task left behind for its handle.
#[derive(Debug)]
pub enum JoinOutcome<T> {
    /// The task ran to completion and produced this value.
    Completed(T),
    /// The task ended, or was discarded, without producing a value.
    Disconnected,
}

/// The state of a task as seen through its handle; also what one look at the
/// result channel reports.
#[derive(Debug)]
pub enum JoinState<T> {
    /// No value yet, and the sending side has not been seen to go away.
    Pending,
    /// The task's value has arrived. Terminal.
    Ready(T),
    /// The sending side went away without a value. Terminal.
    Disconnected,
}

impl<T> JoinState<T> {
    /// Whether this state is one of the two terminal ones.
    pub open spec fn is_terminal(self) -> bool {
        !(self is Pending)
    }

    /// Whether nothing has been observed yet.
    pub fn is_pending(&self) -> (r: bool)
        ensures
            r == (*self is Pending),
    {
        match self {
            JoinState::Pending => true,
            _ => false,
        }
    }
}

/// The state after a look at the channel reported `report`: a pending state
/// takes on the report, a terminal state stays as it is.
pub open spec fn next_state<T>(state: JoinState<T>, report: JoinState<T>) -> JoinState<T> {
    if state is Pending {
        report
    } else {
        state
    }
}

/// The state after a run of looks at the channel, in order.
pub open spec fn after_reports<T>(state: JoinState<T>, reports: Seq<JoinState<T>>) -> JoinState<T>
    decreases reports.len(),
{
    if reports.len() == 0 {
        state
    } else {
        after_reports(next_state(state, reports[0]), reports.drop_first())
    }
}

/// The outcome that a state stands for, once it is terminal.
pub open spec fn outcome_of<T>(state: JoinState<T>) -> Option<JoinOutcome<T>> {
    match state {
        JoinState::Pending => None,
        JoinState::Ready(v) => Some(JoinOutcome::Completed(v)),
        JoinState::Disconnected => Some(JoinOutcome::Disconnected),
    }
}

/// Combines a state with one report of the channel.
pub fn advance<T>(state: JoinState<T>, report: JoinState<T>) -> (r: JoinState<T>)
    ensures
        r == next_state(state, report),
{
    match state {
        JoinState::Pending => report,
        other => other,
    }
}

/// A terminal state is never changed by later looks at the channel: a handle
/// seen `Ready(v)` stays `Ready(v)`, one seen `Disconnected` stays so.
pub proof fn lemma_terminal_state_is_stable<T>(state: JoinState<T>, reports: Seq<JoinState<T>>)
    requires
        state.is_terminal(),
    ensures
        after_reports(state, reports) == state,
    decreases reports.len(),
{
    if reports.len() > 0 {
        lemma_terminal_state_is_stable(next_state(state, reports[0]), reports.drop_first());
    }
}

// ---------------------------------------------------------------------------
// Calls into the channel and the runtime
// ---------------------------------------------------------------------------

/// Relies on `futures::channel::oneshot::channel`: a fresh sender and the
/// receiver paired with it.
#[verifier::external_body]
fn oneshot_channel<T>() -> (r: (Sender<T>, Receiver<T>)) {
    futures::channel::oneshot::channel()
}

/// Relies on `Sender::send`: when the receiver is gone the value comes back
/// unchanged in `Err`.
#[verifier::external_body]
fn send_value<T>(tx: Sender<T>, value: T) -> (r: Result<(), T>)
    ensures
        r matches Err(v) ==> v == value,
{
    tx.send(value)
}

/// Relies on `FutureExt::map` and `FutureObj::new`: a boxed task that awaits
/// `fut` and hands its value to `deliver`.
#[verifier::external_body]
fn forward_into<F, T>(fut: F, tx: Sender<T>) -> (r: FutureObj<'static, ()>)
    where
        F: Future<Output = T> + Send + 'static,
        T: Send + 'static,
{
    FutureObj::new(Box::new(fut.map(move |t| deliver(tx, t))))
}

/// Relies on `Runtime::spawn_boxed` of `runtime`: it accepts the task or
/// refuses it. Whether it accepts is that runtime's own answer, so nothing is
/// promised of the result.
#[verifier::external_body]
fn submit_to<R: Runtime>(runtime: &R, future: FutureObj<'static, ()>) -> (r: Result<(), SpawnError>) {
    runtime.spawn_boxed(future.boxed())
}

/// Relies on `Receiver`'s `Future::poll`: `Pending` while nothing has
/// arrived (the context is then woken on arrival), the value once it has,
/// `Disconnected` once the sender is gone without one.
#[verifier::external_body]
fn poll_receiver<T>(rx: &mut Receiver<T>, cx: &mut Context<'_>) -> (r: JoinState<T>) {
    match rx.poll_unpin(cx) {
        core::task::Poll::Pending => JoinState::Pending,
        core::task::Poll::Ready(Ok(t)) => JoinState::Ready(t),
        core::task::Poll::Ready(Err(_)) => JoinState::Disconnected,
    }
}

/// Relies on `Receiver::try_recv`, which looks at the channel without
/// registering for a wake-up: `Ok(None)` while nothing has arrived, the value
/// once it has, `Err` once the sender is gone without one.
#[verifier::external_body]
fn try_receive<T>(rx: &mut Receiver<T>) -> (r: JoinState<T>) {
    match rx.try_recv() {
        Ok(None) => JoinState::Pending,
        Ok(Some(t)) => JoinState::Ready(t),
        Err(_) => JoinState::Disconnected,
    }
}

/// Sends a finished task's value to its handle. A handle that was dropped no
/// longer wants it: that failed send is no error, and the value is discarded.
/// Never panics, whether or not the receiver is still there.
pub fn deliver<T>(tx: Sender<T>, value: T) {
    let _ = send_value(tx, value);
}

// ---------------------------------------------------------------------------
// The spawning handle
// ---------------------------------------------------------------------------

/// A handle for handing futures to a runtime's thread pool.
///
/// It carries the runtime it submits to, or none: a spawner without a runtime
/// stands for "no backend is active", and every submission through it fails.
#[derive(Debug)]
#[verifier::reject_recursive_types(R)]
pub struct Spawner<R: 'static> {
    runtime: Option<&'static R>,
}

impl<R: 'static> Spawner<R> {
    /// The runtime that this spawner submits to, if any.
    pub closed spec fn backend(&self) -> Option<&'static R> {
        self.runtime
    }

    /// Constructs a spawner with no runtime behind it.
    pub fn new() -> (r: Spawner<R>)
        ensures
            r.backend() is None,
    {
        Spawner { runtime: None }
    }

    /// Constructs a spawner that submits to `runtime`.
    pub fn with_runtime(runtime: &'static R) -> (r: Spawner<R>)
        ensures
            r.backend() == Some(runtime),
    {
        Spawner { runtime: Some(runtime) }
    }

    /// Whether a runtime stands behind this spawner.
    pub fn is_active(&self) -> (r: bool)
        ensures
            r == self.backend() is Some,
    {
        self.runtime.is_some()
    }

    /// Hands `future` to this spawner's runtime. Returns
    /// `Err(SubmitError::Unavailable)` when there is none, or when it refuses
    /// the future (as a runtime that is shutting down does); then the future is
    /// dropped unrun. Does not block and does not run any part of the task.
    pub fn spawn_obj(&mut self, future: FutureObj<'static, ()>) -> (r: Result<(), SubmitError>)
        where
            R: Runtime,
        ensures
            *final(self) == *old(self),
            old(self).backend() is None ==> r == Err::<(), SubmitError>(SubmitError::Unavailable),
    {
        match self.runtime {
            None => Err(SubmitError::Unavailable),
            Some(runtime) => match submit_to(runtime, future) {
                Ok(()) => Ok(()),
                Err(_) => Err(SubmitError::Unavailable),
            },
        }
    }
}

impl<R: 'static> Default for Spawner<R> {
    fn default() -> (r: Spawner<R>)
        ensures
            r.backend() is None,
    {
        Spawner::new()
    }
}

impl<R: 'static> Clone for Spawner<R> {
    fn clone(&self) -> (r: Spawner<R>)
        ensures
            r == *self,
    {
        Spawner { runtime: self.runtime }
    }
}

/// Two spawners with the same runtime behind them are the same value, so a
/// clone and a freshly constructed spawner behave alike on every submission.
pub proof fn lemma_spawners_interchangeable<R>(a: Spawner<R>, b: Spawner<R>)
    requires
        a.backend() == b.backend(),
    ensures
        a == b,
{
}

// ---------------------------------------------------------------------------
// The task handle
// ---------------------------------------------------------------------------

/// A handle that observes the result of a [`spawn`]ed future.
///
/// Dropping it does not stop the task: the task runs on and its value is
/// discarded.
#[must_use]
#[derive(Debug)]
#[verifier::reject_recursive_types(T)]
pub struct JoinHandle<T> {
    rx: Receiver<T>,
    state: JoinState<T>,
}

impl<T> View for JoinHandle<T> {
    type V = JoinState<T>;

    closed spec fn view(&self) -> JoinState<T> {
        self.state
    }
}

impl<T> JoinHandle<T> {
    /// Takes in one report of the result channel.
    fn settle(&mut self, report: JoinState<T>)
        ensures
            final(self)@ == next_state(old(self)@, report),
    {
        let mut current = JoinState::Pending;
        core::mem::swap(&mut current, &mut self.state);
        self.state = advance(current, report);
    }

    /// Polls the task within the task context `cx`. While pending, `cx` is
    /// woken when the result channel resolves. Returns whether the handle is
    /// now in a terminal state; a terminal state never changes.
    pub fn poll_join(&mut self, cx: &mut Context<'_>) -> (r: bool)
        ensures
            final(self)@ == next_state(old(self)@, final(self)@),
            old(self)@.is_terminal() ==> final(self)@ == old(self)@,
            r == final(self)@.is_terminal(),
    {
        if self.state.is_pending() {
            let report = poll_receiver(&mut self.rx, cx);
            self.settle(report);
        }
        !self.state.is_pending()
    }

    /// Like [`JoinHandle::poll_join`], outside of any task context: looks at
    /// the result channel without registering for a wake-up.
    pub fn try_join(&mut self) -> (r: bool)
        ensures
            final(self)@ == next_state(old(self)@, final(self)@),
            old(self)@.is_terminal() ==> final(self)@ == old(self)@,
            r == final(self)@.is_terminal(),
    {
        if self.state.is_pending() {
            let report = try_receive(&mut self.rx);
            self.settle(report);
        }
        !self.state.is_pending()
    }

    /// The state observed so far.
    pub fn state(&self) -> (r: &JoinState<T>)
        ensures
            *r == self@,
    {
        &self.state
    }

    /// Whether the handle has reached a terminal state.
    pub fn is_finished(&self) -> (r: bool)
        ensures
            r == self@.is_terminal(),
    {
        !self.state.is_pending()
    }

    /// Consumes the handle, giving the task's outcome once it is terminal and
    /// `None` while it is still pending (the task then runs on, detached).
    pub fn into_outcome(self) -> (r: Option<JoinOutcome<T>>)
        ensures
            r == outcome_of(self@),
    {
        match self.state {
            JoinState::Pending => None,
            JoinState::Ready(v) => Some(JoinOutcome::Completed(v)),
            JoinState::Disconnected => Some(JoinOutcome::Disconnected),
        }
    }
}

/// Spawns a future through `spawner` and returns a handle to its result at
/// once, whenever the task itself starts or ends.
///
/// Returns `Err(SubmitError::Unavailable)` when the spawner has no runtime or
/// its runtime refuses the task; otherwise the handle starts out pending.
pub fn spawn<R, F, T>(spawner: &mut Spawner<R>, fut: F) -> (r: Result<JoinHandle<T>, SubmitError>)
    where
        R: Runtime,
        F: Future<Output = T> + Send + 'static,
        T: Send + 'static,
    ensures
        *final(spawner) == *old(spawner),
        old(spawner).backend() is None ==> r matches Err(SubmitError::Unavailable),
        r matches Ok(h) ==> h@ is Pending,
{
    let (tx, rx) = oneshot_channel();
    let task = forward_into(fut, tx);
    match spawner.spawn_obj(task) {
        Ok(()) => Ok(JoinHandle { rx, state: JoinState::Pending }),
        Err(e) => Err(e),
    }
}

} // verus!
