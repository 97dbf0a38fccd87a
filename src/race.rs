use vstd::prelude::*;
use vstd::std_specs::convert::FromSpec;

use crate::channel::{Receiver, SignalChannel, TryRecvError};
use crate::interrupt::InterruptError;

verus! {

/// `e` is the caller's error that embeds an interrupt marker.
pub open spec fn is_interrupt<E: From<InterruptError>>(e: E) -> bool {
    E::obeys_from_spec() ==> e == E::from_spec(InterruptError {})
}

/// Whether a read of the signal counts as an interrupt: a received value, a
/// closed channel (no signal can come any more) and a lag (signals were
/// missed) all do; only an empty read does not.
pub open spec fn signalled<V>(read: Result<V, TryRecvError>) -> bool {
    read != Err::<V, TryRecvError>(TryRecvError::Empty)
}

/// The outcome of one step of the race between a computation and the wait
/// for a signal: `None` while neither has resolved. A signal that is ready
/// wins, even over a computation that is ready in the same step.
pub open spec fn race_step<T, E: From<InterruptError>>(
    signal: bool,
    done: Option<Result<T, E>>,
    r: Option<Result<T, E>>,
) -> bool {
    if signal {
        r matches Some(Err(e)) && is_interrupt(e)
    } else {
        r == done
    }
}

/// Whether a read of the signal counts as an interrupt (see `signalled`).
pub fn signal_observed<V>(read: &Result<V, TryRecvError>) -> (r: bool)
    ensures
        r == signalled(*read),
{
    match read {
        Err(TryRecvError::Empty) => false,
        _ => true,
    }
}

/// Decides one step of the race: `signal` says whether the wait for a
/// signal resolved, `done` holds the computation's result once it resolved.
/// The computation's own errors pass through unchanged.
pub fn settle<T, E: From<InterruptError>>(signal: bool, done: Option<Result<T, E>>) -> (r: Option<
    Result<T, E>,
>)
    ensures
        race_step(signal, done, r),
{
    if signal {
        Some(Err(E::from(InterruptError::new())))
    } else {
        done
    }
}

/// The resolved race, given which side finished first: `None` when the wait
/// for a signal did, else the computation's result.
pub fn resolve<T, E: From<InterruptError>>(first: Option<Result<T, E>>) -> (r: Result<T, E>)
    ensures
        race_step(first is None, first, Some(r)),
{
    match first {
        None => Err(E::from(InterruptError::new())),
        Some(done) => done,
    }
}

/// One step of the race run on a signal channel: polls `rx` once without
/// waiting, then decides as `settle` does.
pub fn poll_interruptible<V: Copy, T, E: From<InterruptError>>(
    ch: &SignalChannel<V>,
    rx: &mut Receiver,
    done: Option<Result<T, E>>,
) -> (r: Option<Result<T, E>>)
    requires
        ch.wf(),
        old(rx)@ <= ch.sent_spec(),
    ensures
        final(rx)@ == ch.read_at(old(rx)@).1,
        final(rx)@ <= ch.sent_spec(),
        race_step(signalled(ch.read_at(old(rx)@).0), done, r),
{
    let read = ch.try_recv(rx);
    let signal = signal_observed(&read);
    settle(signal, done)
}

/// A check-point: `Ok(())` unless a signal is pending on `rx`, in which case
/// the interrupt error.
pub fn check_for_interrupt<V: Copy, E: From<InterruptError>>(
    ch: &SignalChannel<V>,
    rx: &mut Receiver,
) -> (r: Result<(), E>)
    requires
        ch.wf(),
        old(rx)@ <= ch.sent_spec(),
    ensures
        final(rx)@ == ch.read_at(old(rx)@).1,
        final(rx)@ <= ch.sent_spec(),
        race_step(signalled(ch.read_at(old(rx)@).0), Some(Ok(())), Some(r)),
{
    match poll_interruptible(ch, rx, Some(Ok(()))) {
        Some(r) => r,
        None => Ok(()),
    }
}

} // verus!
