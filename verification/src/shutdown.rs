//! The cancellation channel of a monitor: a broadcast channel of `tokio`
//! whose sender is the handle that the session store keeps, and whose
//! receiver goes to the monitor's task.

use vstd::prelude::*;
use crate::session::SessionState;

verus! {

/// The sending half of a broadcast channel of `tokio`.
#[verifier::external_type_specification]
#[verifier::external_body]
#[verifier::reject_recursive_types(T)]
pub struct ExBroadcastSender<T>(tokio::sync::broadcast::Sender<T>);

/// The receiving half of a broadcast channel of `tokio`.
#[verifier::external_type_specification]
#[verifier::external_body]
#[verifier::reject_recursive_types(T)]
pub struct ExBroadcastReceiver<T>(tokio::sync::broadcast::Receiver<T>);

/// The signals that a cancellation channel can hold: one is enough, since a
/// monitor is cancelled once.
pub const SHUTDOWN_CAPACITY: usize = 1;

/// Whether a sender and a receiver are the two ends of one channel, as
/// `tokio::sync::broadcast::channel` hands them out together.
pub uninterp spec fn feeds(
    sender: tokio::sync::broadcast::Sender<()>,
    receiver: tokio::sync::broadcast::Receiver<()>,
) -> bool;

/// `tokio::sync::broadcast::channel` for signals without content: a fresh
/// channel with room for `capacity` pending signals, as its sender and its
/// one receiver, which are the two ends of that one channel. `tokio` panics
/// on a capacity of zero or above `usize::MAX / 2`.
#[verifier::external_body]
fn signal_channel(capacity: usize) -> (ends: (
    tokio::sync::broadcast::Sender<()>,
    tokio::sync::broadcast::Receiver<()>,
))
    requires
        0 < capacity <= usize::MAX / 2,
    ensures
        feeds(ends.0, ends.1),
{
    tokio::sync::broadcast::channel(capacity)
}

/// `tokio::sync::broadcast::Sender::send` of one signal: the number of
/// receivers that the channel had then, nothing where it had none. Both
/// depend on what became of the receivers, so nothing is promised.
#[verifier::external_body]
fn send_signal(sender: &tokio::sync::broadcast::Sender<()>) -> (receivers: Option<usize>) {
    sender.send(()).ok()
}

/// Starts the monitoring of a session that has just logged in: opens a
/// fresh cancellation channel, attaches its sender to the store in place of
/// any that was attached, which closes that one's channel and so ends the
/// monitor behind it, and hands back the receiver of the same channel for
/// the task to be spawned. Nothing else of the session changes.
pub fn start_monitoring<U>(
    state: &mut SessionState<U, tokio::sync::broadcast::Sender<()>>,
) -> (receiver: tokio::sync::broadcast::Receiver<()>)
    ensures
        final(state)@.cancellation_handle is Some,
        feeds(final(state)@.cancellation_handle->0, receiver),
        final(state)@ == old(state)@.attached(final(state)@.cancellation_handle->0),
{
    let (sender, receiver) = signal_channel(SHUTDOWN_CAPACITY);
    let _ = state.attach_cancellation_handle(sender);
    receiver
}

/// Starts the monitoring of a session unless a monitor is attached already.
/// Where none was, a fresh channel's sender is attached and the receiver of
/// the same channel comes back for the task to be spawned. Where one was,
/// nothing comes back and the store stays as it was.
pub fn start_session_monitor<U>(
    state: &mut SessionState<U, tokio::sync::broadcast::Sender<()>>,
) -> (receiver: Option<tokio::sync::broadcast::Receiver<()>>)
    ensures
        receiver is Some <==> old(state)@.monitor_starts(),
        receiver is None ==> final(state)@ == old(state)@,
        receiver is Some ==> {
            &&& final(state)@.cancellation_handle is Some
            &&& feeds(final(state)@.cancellation_handle->0, receiver->0)
            &&& final(state)@ == old(state)@.attached(final(state)@.cancellation_handle->0)
        },
        final(state)@.cancellation_handle is Some,
        final(state)@ == old(state)@.monitor_requested(final(state)@.cancellation_handle->0),
{
    if state.is_monitoring() {
        None
    } else {
        Some(start_monitoring(state))
    }
}

/// Logs out: signals the attached monitor, if any, to stop, then clears the
/// login flag, the user's record and the handle. The answer says whether a
/// monitor was attached.
pub fn logout<U>(state: &mut SessionState<U, tokio::sync::broadcast::Sender<()>>) -> (signalled:
    bool)
    ensures
        final(state)@ == old(state)@.logged_out(),
        signalled == old(state)@.monitoring(),
{
    let signalled = match state.cancellation_handle() {
        Some(sender) => {
            let _ = send_signal(sender);
            true
        },
        None => false,
    };
    let _ = state.logout();
    signalled
}

} // verus!
