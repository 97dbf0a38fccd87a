use vstd::prelude::*;

use crate::channel::{SignalChannel, TryRecvError};
use crate::interrupt::InterruptError;
use crate::race::{is_interrupt, race_step, signalled};

verus! {

/// No spurious interrupt: while nothing is published after a receiver's
/// position and the channel stays open, a read leaves the cursor where it is,
/// counts as no signal, and the race resolves exactly to the computation's
/// own outcome.
pub proof fn lemma_no_spurious_interrupt<V, T, E: From<InterruptError>>(
    ch: SignalChannel<V>,
    p: nat,
    done: Option<Result<T, E>>,
    r: Option<Result<T, E>>,
)
    requires
        ch.wf(),
        p == ch.sent_spec(),
        !ch.closed_spec(),
    ensures
        ch.read_at(p) == (Err::<V, TryRecvError>(TryRecvError::Empty), p),
        !signalled(ch.read_at(p).0),
        race_step(signalled(ch.read_at(p).0), done, r) <==> r == done,
{
}

/// A pending signal wins: once a value was published after a receiver's
/// position, or the channel was closed, the race resolves to the interrupt
/// error whatever the computation produced, even an immediate success.
pub proof fn lemma_signal_wins<V, T, E: From<InterruptError>>(
    ch: SignalChannel<V>,
    p: nat,
    done: Option<Result<T, E>>,
    r: Option<Result<T, E>>,
)
    requires
        ch.wf(),
        p <= ch.sent_spec(),
        p < ch.sent_spec() || ch.closed_spec(),
        race_step(signalled(ch.read_at(p).0), done, r),
    ensures
        signalled(ch.read_at(p).0),
        r matches Some(Err(e)) && is_interrupt(e),
{
}

/// Broadcast fan-out: every receiver that had read everything before a
/// publish of `v` reads `v` next, exactly once, whatever the other receivers
/// do (a read changes only the reader's own cursor).
pub proof fn lemma_broadcast_fan_out<V>(
    before: SignalChannel<V>,
    v: V,
    after: SignalChannel<V>,
    p: nat,
)
    requires
        before.wf(),
        before.published(v, &after),
        p == before.sent_spec(),
    ensures
        after.read_at(p) == (Ok::<V, TryRecvError>(v), p + 1),
        after.read_at(p + 1).0 is Err,
        !(after.read_at(p + 1).0 matches Err(TryRecvError::Lagged(_))),
        after.read_at(p + 1).1 == p + 1,
{
    assert(after.start() <= p);
    if before.backlog_spec().len() < before.capacity_spec() {
        assert(after.backlog_spec().last() == v);
    } else {
        assert(after.backlog_spec() == before.backlog_spec().push(v).drop_first());
        assert(after.backlog_spec()[after.backlog_spec().len() - 1] == v);
    }
}

/// Cursor independence: a receiver subscribed now starts at the present, so
/// none of the values published earlier is replayed to it.
pub proof fn lemma_new_subscriber_sees_no_history<V>(ch: SignalChannel<V>)
    requires
        ch.wf(),
    ensures
        ch.read_at(ch.sent_spec()).0 == Err::<V, TryRecvError>(
            if ch.closed_spec() { TryRecvError::Closed } else { TryRecvError::Empty },
        ),
        ch.read_at(ch.sent_spec()).1 == ch.sent_spec(),
{
}

/// Interrupt markers carry nothing: any two are equal.
pub proof fn lemma_interrupt_markers_equal(a: InterruptError, b: InterruptError)
    ensures
        a == b,
{
}

} // verus!
