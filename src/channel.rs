use vstd::prelude::*;

verus! {

/// Why a signal channel could not be created.
#[derive(Debug, Clone, Copy, PartialEq, Eq, Structural)]
pub enum ConfigError {
    /// The backlog must hold at least one value.
    ZeroCapacity,
}

/// A value that could not be published because nobody was subscribed.
#[derive(Debug)]
pub struct SendError<V>(pub V);

/// Why a non-suspending read produced no value.
#[derive(Debug, Clone, Copy, PartialEq, Eq, Structural)]
pub enum TryRecvError {
    /// Nothing new has been published since this cursor last read.
    Empty,
    /// Every sender is gone and this cursor has read everything.
    Closed,
    /// The cursor fell behind the backlog; this many values were skipped.
    Lagged(u64),
}

/// A read cursor into a signal channel.
///
/// A cursor is never duplicated: a further reader is made by subscribing to
/// the channel, which starts a fresh cursor at the present.
pub struct Receiver {
    next: u64,
}

impl View for Receiver {
    type V = nat;

    /// The position of the next value this cursor will read.
    closed spec fn view(&self) -> nat {
        self.next as nat
    }
}

/// The shared broadcast medium of a signal channel.
///
/// Every published value is kept in a bounded backlog of the newest
/// `capacity` values; each receiver reads the backlog through its own
/// cursor, so a value read by one receiver stays there for the others.
pub struct SignalChannel<V> {
    capacity: usize,
    backlog: Vec<V>,
    sent: u64,
    receivers: usize,
    closed: bool,
}

impl<V> SignalChannel<V> {
    /// Largest number of values the backlog keeps.
    pub closed spec fn capacity_spec(&self) -> nat {
        self.capacity as nat
    }

    /// Number of values published so far.
    pub closed spec fn sent_spec(&self) -> nat {
        self.sent as nat
    }

    /// The newest published values, oldest first.
    pub closed spec fn backlog_spec(&self) -> Seq<V> {
        self.backlog@
    }

    /// Number of live subscribers.
    pub closed spec fn receivers_spec(&self) -> nat {
        self.receivers as nat
    }

    /// Whether every sender is gone.
    pub closed spec fn closed_spec(&self) -> bool {
        self.closed
    }

    /// The channel's invariant: a backlog of at least one slot, never
    /// holding more than its capacity nor more than was ever published.
    pub open spec fn wf(&self) -> bool {
        &&& self.capacity_spec() >= 1
        &&& self.backlog_spec().len() <= self.capacity_spec()
        &&& self.backlog_spec().len() <= self.sent_spec()
    }

    /// Position of the oldest value still in the backlog.
    pub open spec fn start(&self) -> nat {
        (self.sent_spec() - self.backlog_spec().len()) as nat
    }

    /// What a read through a cursor at position `p` yields, and where the
    /// cursor stands afterwards.
    pub open spec fn read_at(&self, p: nat) -> (Result<V, TryRecvError>, nat) {
        if p < self.start() {
            (Err(TryRecvError::Lagged((self.start() - p) as u64)), self.start())
        } else if p >= self.sent_spec() {
            (Err(if self.closed_spec() { TryRecvError::Closed } else { TryRecvError::Empty }), p)
        } else {
            (Ok(self.backlog_spec()[p - self.start()]), p + 1)
        }
    }

    /// `after` is this channel once `v` has been published to its subscribers.
    pub open spec fn published(&self, v: V, after: &Self) -> bool {
        &&& after.capacity_spec() == self.capacity_spec()
        &&& after.sent_spec() == self.sent_spec() + 1
        &&& after.backlog_spec() == if self.backlog_spec().len() < self.capacity_spec() {
            self.backlog_spec().push(v)
        } else {
            self.backlog_spec().push(v).drop_first()
        }
        &&& after.receivers_spec() == self.receivers_spec()
        &&& after.closed_spec() == self.closed_spec()
    }

    /// Opens a channel whose backlog keeps `capacity` values, with one
    /// subscriber.
    pub fn create(capacity: usize) -> (r: Result<(Self, Receiver), ConfigError>)
        ensures
            capacity == 0 <==> r is Err,
            r is Err ==> r == Err::<(Self, Receiver), ConfigError>(ConfigError::ZeroCapacity),
            r matches Ok((ch, rx)) ==> {
                &&& ch.wf()
                &&& ch.capacity_spec() == capacity
                &&& ch.sent_spec() == 0
                &&& ch.backlog_spec() == Seq::<V>::empty()
                &&& ch.receivers_spec() == 1
                &&& !ch.closed_spec()
                &&& rx@ == 0
            },
    {
        if capacity == 0 {
            return Err(ConfigError::ZeroCapacity);
        }
        let ch = SignalChannel { capacity, backlog: Vec::new(), sent: 0, receivers: 1, closed: false };
        Ok((ch, Receiver { next: 0 }))
    }

    /// Publishes `v` to every current subscriber and returns how many there
    /// are. With no subscriber the value is handed back and nothing changes.
    pub fn send(&mut self, v: V) -> (r: Result<usize, SendError<V>>)
        requires
            old(self).wf(),
            !old(self).closed_spec(),
            old(self).sent_spec() < u64::MAX,
        ensures
            final(self).wf(),
            old(self).receivers_spec() == 0 <==> r is Err,
            r matches Err(e) ==> e.0 == v && *final(self) == *old(self),
            r matches Ok(n) ==> n == old(self).receivers_spec() && old(self).published(v, final(self)),
    {
        if self.receivers == 0 {
            return Err(SendError(v));
        }
        let ghost before = self.backlog@;
        if self.backlog.len() == self.capacity {
            self.backlog.remove(0);
        }
        self.backlog.push(v);
        proof {
            if before.len() == self.capacity {
                assert(self.backlog@ =~= before.push(v).drop_first());
            }
        }
        self.sent = self.sent + 1;
        Ok(self.receivers)
    }

    /// Current number of live subscribers. Advisory: another party may
    /// subscribe or leave right after.
    pub fn receiver_count(&self) -> (r: usize)
        ensures
            r == self.receivers_spec(),
    {
        self.receivers
    }

    /// Number of values published so far.
    pub fn sent_count(&self) -> (r: u64)
        ensures
            r == self.sent_spec(),
    {
        self.sent
    }

    /// Whether every sender is gone.
    pub fn is_closed(&self) -> (r: bool)
        ensures
            r == self.closed_spec(),
    {
        self.closed
    }

    /// Starts a new cursor at the present: it reads only what is published
    /// from now on.
    pub fn subscribe(&mut self) -> (rx: Receiver)
        requires
            old(self).wf(),
            old(self).receivers_spec() < usize::MAX,
        ensures
            final(self).wf(),
            rx@ == old(self).sent_spec(),
            final(self).receivers_spec() == old(self).receivers_spec() + 1,
            final(self).capacity_spec() == old(self).capacity_spec(),
            final(self).sent_spec() == old(self).sent_spec(),
            final(self).backlog_spec() == old(self).backlog_spec(),
            final(self).closed_spec() == old(self).closed_spec(),
    {
        self.receivers = self.receivers + 1;
        Receiver { next: self.sent }
    }

    /// Ends the subscription of `rx`.
    pub fn unsubscribe(&mut self, rx: Receiver)
        requires
            old(self).wf(),
        ensures
            final(self).wf(),
            final(self).receivers_spec() == if old(self).receivers_spec() > 0 {
                (old(self).receivers_spec() - 1) as nat
            } else {
                0
            },
            final(self).capacity_spec() == old(self).capacity_spec(),
            final(self).sent_spec() == old(self).sent_spec(),
            final(self).backlog_spec() == old(self).backlog_spec(),
            final(self).closed_spec() == old(self).closed_spec(),
    {
        if self.receivers > 0 {
            self.receivers = self.receivers - 1;
        }
    }

    /// Records that every sender is gone: nothing more will be published.
    pub fn close(&mut self)
        requires
            old(self).wf(),
        ensures
            final(self).wf(),
            final(self).closed_spec(),
            final(self).capacity_spec() == old(self).capacity_spec(),
            final(self).sent_spec() == old(self).sent_spec(),
            final(self).backlog_spec() == old(self).backlog_spec(),
            final(self).receivers_spec() == old(self).receivers_spec(),
    {
        self.closed = true;
    }
}

impl<V: Copy> SignalChannel<V> {
    /// Reads the next value through `rx` without waiting. A cursor that fell
    /// behind the backlog is moved to its oldest value and told how many
    /// values it skipped.
    pub fn try_recv(&self, rx: &mut Receiver) -> (r: Result<V, TryRecvError>)
        requires
            self.wf(),
            old(rx)@ <= self.sent_spec(),
        ensures
            (r, final(rx)@) == self.read_at(old(rx)@),
            final(rx)@ <= self.sent_spec(),
    {
        let start: u64 = self.sent - self.backlog.len() as u64;
        if rx.next < start {
            let skipped: u64 = start - rx.next;
            rx.next = start;
            Err(TryRecvError::Lagged(skipped))
        } else if rx.next == self.sent {
            if self.closed {
                Err(TryRecvError::Closed)
            } else {
                Err(TryRecvError::Empty)
            }
        } else {
            let i: usize = (rx.next - start) as usize;
            let v: V = self.backlog[i];
            rx.next = rx.next + 1;
            Ok(v)
        }
    }
}

impl Receiver {
    /// A further reader of the channel `rx` reads from: a new cursor at the
    /// present, not a copy of this one.
    pub fn clone_subscription<V>(&self, ch: &mut SignalChannel<V>) -> (r: Receiver)
        requires
            old(ch).wf(),
            old(ch).receivers_spec() < usize::MAX,
        ensures
            final(ch).wf(),
            r@ == old(ch).sent_spec(),
            final(ch).receivers_spec() == old(ch).receivers_spec() + 1,
            final(ch).capacity_spec() == old(ch).capacity_spec(),
            final(ch).sent_spec() == old(ch).sent_spec(),
            final(ch).backlog_spec() == old(ch).backlog_spec(),
            final(ch).closed_spec() == old(ch).closed_spec(),
    {
        ch.subscribe()
    }
}

} // verus!
