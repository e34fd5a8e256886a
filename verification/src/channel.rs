//! The shared endpoint state of one channel, the transfer buffer, and the
//! readiness subscriptions — the pieces both the future channel and the
//! stream channel are built from.
//!
//! The writer and the reader half never touch each other's memory: the only
//! interaction is the handoff of one [`Buffer`] through the channel state,
//! and the two edge-triggered readiness flags.  Every executable operation
//! here carries a contract stated over [`ChannelModel`], the mathematical
//! view of the channel, so the composite operations in the sibling modules
//! can reason about whole protocol runs.

use vstd::prelude::*;

verus! {

/// An opaque, copyable reference to a channel endpoint, shared by the
/// writer and the reader half.  The id `0` denotes "no handle".
#[derive(Clone, Copy, PartialEq, Eq, Structural, Debug)]
pub struct Handle {
    pub id: usize,
}

/// Which readiness edge a subscription waits for.
#[derive(Clone, Copy, PartialEq, Eq, Structural, Debug)]
pub enum Direction {
    /// The peer supplied a read buffer (or released its half): writing can proceed.
    WriteReady,
    /// The peer finished a write (or closed): reading can proceed.
    ReadReady,
}

/// The mathematical view of a transfer buffer: its capacity in items and
/// the items it currently holds.
#[verifier::ext_equal]
pub struct BufferModel<T> {
    pub cap: nat,
    pub items: Seq<T>,
}

/// A caller-owned transfer unit: a region with a fixed item capacity and a
/// logical sequence of items.  A buffer is exclusively owned by whichever
/// side currently holds it; it changes sides only through
/// [`ChannelState::start_reading`], [`ChannelState::start_writing`] and
/// [`ChannelState::finish_writing`], never by sharing.
pub struct Buffer<T> {
    pub items: Vec<T>,
    pub cap: usize,
}

impl<T> View for Buffer<T> {
    type V = BufferModel<T>;

    open spec fn view(&self) -> BufferModel<T> {
        BufferModel { cap: self.cap as nat, items: self.items@ }
    }
}

impl<T> Buffer<T> {
    /// The buffer never holds more items than its capacity.
    pub open spec fn wf(&self) -> bool {
        self@.items.len() <= self@.cap
    }

    /// A fresh, empty buffer able to hold `cap` items.
    pub fn new(cap: usize) -> (r: Buffer<T>)
        ensures
            r@.cap == cap,
            r@.items == Seq::<T>::empty(),
            r.wf(),
    {
        Buffer { items: Vec::new(), cap }
    }

    /// How many items this buffer can hold in total.
    pub fn capacity(&self) -> (r: usize)
        ensures
            r == self@.cap,
    {
        self.cap
    }

    /// How many items the buffer currently holds (its logical size).
    pub fn size(&self) -> (r: usize)
        ensures
            r == self@.items.len(),
    {
        self.items.len()
    }

    /// Append one item; the caller must have checked the capacity.
    pub fn push(&mut self, value: T)
        requires
            old(self).wf(),
            old(self)@.items.len() < old(self)@.cap,
        ensures
            final(self)@.cap == old(self)@.cap,
            final(self)@.items == old(self)@.items.push(value),
            final(self).wf(),
    {
        self.items.push(value);
    }

    /// Move every item of `items` into the buffer, keeping their order.
    pub fn fill_from(&mut self, items: Vec<T>)
        requires
            old(self).wf(),
            old(self)@.items.len() + items@.len() <= old(self)@.cap,
        ensures
            final(self)@.cap == old(self)@.cap,
            final(self)@.items == old(self)@.items + items@,
            final(self).wf(),
    {
        let mut rest = items;
        self.items.append(&mut rest);
    }

    /// Give up the buffer and keep only the items it held.
    pub fn into_items(self) -> (r: Vec<T>)
        ensures
            r@ == self@.items,
    {
        self.items
    }
}

/// The mathematical view of one channel endpoint's shared state.
#[verifier::ext_equal]
pub struct ChannelModel<T> {
    /// The endpoint id both halves share.
    pub id: nat,
    /// The empty buffer the reader supplied, awaiting the writer.
    pub read_buf: Option<BufferModel<T>>,
    /// True while the writer has the reader's buffer checked out.
    pub checked_out: bool,
    /// The filled buffer the writer handed back, awaiting the reader.
    pub result_buf: Option<BufferModel<T>>,
    /// The write end signalled completion: no further value will arrive.
    pub closed: bool,
    /// The reader half released its endpoint.
    pub reader_dropped: bool,
    /// Edge flag: a write-readiness event fired since the last reset.
    pub write_ready: bool,
    /// Edge flag: a read-readiness event fired since the last reset.
    pub read_ready: bool,
}

impl<T> ChannelModel<T> {
    /// At most one side owns the transfer buffer, and any buffer in
    /// transit respects its capacity.
    pub open spec fn wf(&self) -> bool {
        &&& (self.read_buf is Some ==> !self.checked_out && self.result_buf is None)
        &&& (self.checked_out ==> self.result_buf is None)
        &&& (self.read_buf matches Some(b) ==> b.items.len() <= b.cap)
        &&& (self.result_buf matches Some(b) ==> b.items.len() <= b.cap)
    }

    /// No buffer is in transit or checked out.
    pub open spec fn is_idle(&self) -> bool {
        self.read_buf is None && !self.checked_out && self.result_buf is None
    }
}

/// The state of a fresh channel endpoint: idle, open, no pending event.
pub open spec fn fresh_channel<T>(id: nat) -> ChannelModel<T> {
    ChannelModel {
        id,
        read_buf: None,
        checked_out: false,
        result_buf: None,
        closed: false,
        reader_dropped: false,
        write_ready: false,
        read_ready: false,
    }
}

/// Effect of `start_reading`: the reader's buffer is now pending for the
/// writer and the write-readiness edge fires.
pub open spec fn on_start_reading<T>(m: ChannelModel<T>, b: BufferModel<T>) -> ChannelModel<T> {
    ChannelModel { read_buf: Some(b), write_ready: true, ..m }
}

/// Effect of `start_writing`: the pending buffer leaves the channel,
/// checked out to the writer.
pub open spec fn on_start_writing<T>(m: ChannelModel<T>) -> ChannelModel<T> {
    ChannelModel { read_buf: None, checked_out: true, ..m }
}

/// Effect of `finish_writing(Some(b))`: the filled buffer becomes the
/// reader's result and the read-readiness edge fires.
pub open spec fn on_finish_writing<T>(m: ChannelModel<T>, b: BufferModel<T>) -> ChannelModel<T> {
    ChannelModel { checked_out: false, result_buf: Some(b), read_ready: true, ..m }
}

/// Effect of `finish_writing(None)`: the channel closes and the
/// read-readiness edge fires so a waiting reader observes the end.
pub open spec fn on_close<T>(m: ChannelModel<T>) -> ChannelModel<T> {
    ChannelModel { closed: true, read_ready: true, ..m }
}

/// Effect of collecting the result buffer with `read_result`.
pub open spec fn on_read_result<T>(m: ChannelModel<T>) -> ChannelModel<T> {
    ChannelModel { result_buf: None, ..m }
}

/// Effect of `write_ready_activate`: the write-readiness edge fires.
pub open spec fn on_write_ready_activate<T>(m: ChannelModel<T>) -> ChannelModel<T> {
    ChannelModel { write_ready: true, ..m }
}

/// Effect of the reader half releasing its endpoint: the peer learns of it
/// and a writer suspended on write-readiness is woken.
pub open spec fn on_reader_release<T>(m: ChannelModel<T>) -> ChannelModel<T> {
    ChannelModel { reader_dropped: true, write_ready: true, ..m }
}

/// Effect of a canceling reader withdrawing its outstanding buffers: the
/// scratch buffer it supplied, and an undelivered result, leave the
/// channel, so a fresh pull can be armed.
pub open spec fn on_cancel_reclaim<T>(m: ChannelModel<T>) -> ChannelModel<T> {
    ChannelModel { read_buf: None, result_buf: None, ..m }
}

/// A suspended write operation wakes on the write-readiness edge, or
/// because the reader half is gone.
pub open spec fn wake_write<T>(m: ChannelModel<T>) -> bool {
    m.write_ready || m.reader_dropped
}

/// A suspended read operation wakes on the read-readiness edge, or because
/// the channel is closed.
pub open spec fn wake_read<T>(m: ChannelModel<T>) -> bool {
    m.read_ready || m.closed
}

/// One channel endpoint's shared state: the buffer in transit (if any),
/// the closure flags, and the two readiness edges.  The writer and reader
/// operations of the sibling modules thread a `ChannelState` explicitly to
/// every step, so no state is hidden in global mutable storage.
pub struct ChannelState<T> {
    pub id: usize,
    pub read_buf: Option<Buffer<T>>,
    pub checked_out: bool,
    pub result_buf: Option<Buffer<T>>,
    pub closed: bool,
    pub reader_dropped: bool,
    pub write_ready: bool,
    pub read_ready: bool,
}

impl<T> View for ChannelState<T> {
    type V = ChannelModel<T>;

    open spec fn view(&self) -> ChannelModel<T> {
        ChannelModel {
            id: self.id as nat,
            read_buf: match self.read_buf {
                Some(b) => Some(b@),
                None => None,
            },
            checked_out: self.checked_out,
            result_buf: match self.result_buf {
                Some(b) => Some(b@),
                None => None,
            },
            closed: self.closed,
            reader_dropped: self.reader_dropped,
            write_ready: self.write_ready,
            read_ready: self.read_ready,
        }
    }
}

impl<T> ChannelState<T> {
    /// Allocate a fresh channel endpoint.  `id` is the nonzero opaque
    /// reference value both halves will share.
    pub fn new(id: usize) -> (r: ChannelState<T>)
        requires
            id != 0,
        ensures
            r@ == fresh_channel::<T>(id as nat),
    {
        let r = ChannelState {
            id,
            read_buf: None,
            checked_out: false,
            result_buf: None,
            closed: false,
            reader_dropped: false,
            write_ready: false,
            read_ready: false,
        };
        proof {
            assert(r@ =~= fresh_channel::<T>(id as nat));
        }
        r
    }

    /// Non-suspending probe: can a write proceed right now?  True exactly
    /// when the reader has a buffer pending.
    pub fn is_ready_to_write(&self) -> (r: bool)
        ensures
            r == (self@.read_buf is Some),
    {
        self.read_buf.is_some()
    }

    /// Non-suspending probe: no buffer is in transit or checked out.
    pub fn is_idle(&self) -> (r: bool)
        ensures
            r == self@.is_idle(),
    {
        self.read_buf.is_none() && !self.checked_out && self.result_buf.is_none()
    }

    /// Non-suspending probe: has the write end already signalled closure?
    pub fn is_write_closed(&self) -> (r: bool)
        ensures
            r == self@.closed,
    {
        self.closed
    }

    /// Obtain a subscription to the write-readiness edge of this endpoint.
    pub fn write_ready_subscribe(&self) -> (s: Subscription)
        ensures
            s.kind == Direction::WriteReady,
    {
        Subscription { kind: Direction::WriteReady }
    }

    /// Obtain a subscription to the read-readiness edge of this endpoint.
    pub fn read_ready_subscribe(&self) -> (s: Subscription)
        ensures
            s.kind == Direction::ReadReady,
    {
        Subscription { kind: Direction::ReadReady }
    }

    /// The capacity of the buffer the reader supplied.
    pub fn write_capacity(&self) -> (r: usize)
        requires
            self@.read_buf is Some,
        ensures
            r == self@.read_buf->0.cap,
    {
        match &self.read_buf {
            Some(b) => b.capacity(),
            None => unreached(),
        }
    }

    /// Supply an empty buffer for the peer to fill.  Fires the peer's
    /// write-readiness edge: this is the handoff that makes the channel
    /// ready to write.
    pub fn start_reading(&mut self, buf: Buffer<T>)
        requires
            old(self)@.is_idle(),
            buf@.items.len() == 0,
        ensures
            final(self)@ == on_start_reading(old(self)@, buf@),
    {
        self.read_buf = Some(buf);
        self.write_ready = true;
        proof {
            assert(self@ =~= on_start_reading(old(self)@, buf@));
        }
    }

    /// Check the pending buffer out to the writer, which may now fill it.
    pub fn start_writing(&mut self) -> (b: Buffer<T>)
        requires
            old(self)@.read_buf is Some,
        ensures
            b@ == old(self)@.read_buf->0,
            final(self)@ == on_start_writing(old(self)@),
    {
        let b = self.read_buf.take();
        self.checked_out = true;
        proof {
            assert(self@ =~= on_start_writing(old(self)@));
        }
        match b {
            Some(b) => b,
            None => unreached(),
        }
    }

    /// Hand a filled buffer (or, with `None`, the closure signal) to the
    /// peer.  Fires the peer's read-readiness edge.
    pub fn finish_writing(&mut self, buf: Option<Buffer<T>>)
        requires
            buf is Some ==> old(self)@.checked_out && buf->0.wf(),
            buf is None ==> !old(self)@.closed,
        ensures
            buf matches Some(b) ==> final(self)@ == on_finish_writing(old(self)@, b@),
            buf is None ==> final(self)@ == on_close(old(self)@),
    {
        match buf {
            Some(b) => {
                self.checked_out = false;
                self.result_buf = Some(b);
                self.read_ready = true;
                proof {
                    assert(self@ =~= on_finish_writing(old(self)@, b@));
                }
            }
            None => {
                self.closed = true;
                self.read_ready = true;
                proof {
                    assert(self@ =~= on_close(old(self)@));
                }
            }
        }
    }

    /// Collect the filled buffer once available, or learn that the channel
    /// closed with no data.
    pub fn read_result(&mut self) -> (r: Option<Buffer<T>>)
        requires
            old(self)@.result_buf is Some || old(self)@.closed,
        ensures
            final(self)@ == on_read_result(old(self)@),
            old(self)@.result_buf matches Some(b) ==> r matches Some(rb) && rb@ == b,
            old(self)@.result_buf is None ==> r is None,
    {
        let r = self.result_buf.take();
        proof {
            assert(self@ =~= on_read_result(old(self)@));
        }
        r
    }

    /// Withdraw any outstanding transfer buffers, returning the endpoint
    /// towards the idle state: a canceling reader reclaims the scratch
    /// buffer it supplied and discards an undelivered result.
    pub fn cancel_reclaim(&mut self)
        ensures
            final(self)@ == on_cancel_reclaim(old(self)@),
    {
        self.read_buf = None;
        self.result_buf = None;
        proof {
            assert(self@ =~= on_cancel_reclaim(old(self)@));
        }
    }

    /// Fire the write-readiness edge directly, waking a writer suspended
    /// on it.  The releasing reader uses this so the peer is never left
    /// stuck.
    pub fn write_ready_activate(&mut self)
        ensures
            final(self)@ == on_write_ready_activate(old(self)@),
    {
        self.write_ready = true;
        proof {
            assert(self@ =~= on_write_ready_activate(old(self)@));
        }
    }

    /// Record that the reader half released its endpoint, and wake a
    /// writer suspended on write-readiness.
    pub fn reader_release(&mut self)
        ensures
            final(self)@ == on_reader_release(old(self)@),
    {
        self.reader_dropped = true;
        self.write_ready = true;
        proof {
            assert(self@ =~= on_reader_release(old(self)@));
        }
    }
}

/// The single-owner discipline is preserved by every handoff step: a
/// fresh channel is well-formed, and each transition keeps at most one
/// side owning the transfer buffer, with the buffer inside its capacity.
pub proof fn lemma_handoff_preserves_wf<T>(m: ChannelModel<T>, b: BufferModel<T>)
    requires
        m.wf(),
        b.items.len() <= b.cap,
    ensures
        fresh_channel::<T>(m.id).wf(),
        m.is_idle() ==> on_start_reading(m, b).wf(),
        m.read_buf is Some ==> on_start_writing(m).wf(),
        m.checked_out ==> on_finish_writing(m, b).wf(),
        on_close(m).wf(),
        on_read_result(m).wf(),
        on_cancel_reclaim(m).wf(),
        on_write_ready_activate(m).wf(),
        on_reader_release(m).wf(),
{
}

/// Effect of resetting a subscription: the matching edge flag clears.
pub open spec fn on_reset<T>(m: ChannelModel<T>, kind: Direction) -> ChannelModel<T> {
    match kind {
        Direction::WriteReady => ChannelModel { write_ready: false, ..m },
        Direction::ReadReady => ChannelModel { read_ready: false, ..m },
    }
}

/// A pending-event token bound to one readiness edge of a channel
/// endpoint.  A subscription fires at most once per registration and must
/// be reset before each new wait; a stale edge that is not reset makes the
/// next wait return immediately.
pub struct Subscription {
    pub kind: Direction,
}

impl Subscription {
    /// Clear a previously fired edge so a fresh wait can be issued.
    pub fn reset<T>(&self, ch: &mut ChannelState<T>)
        ensures
            final(ch)@ == on_reset(old(ch)@, self.kind),
    {
        match self.kind {
            Direction::WriteReady => {
                ch.write_ready = false;
                proof {
                    assert(ch@ =~= on_reset(old(ch)@, self.kind));
                }
            }
            Direction::ReadReady => {
                ch.read_ready = false;
                proof {
                    assert(ch@ =~= on_reset(old(ch)@, self.kind));
                }
            }
        }
    }

    /// Has this subscription's edge fired since the last reset?
    pub fn is_fired<T>(&self, ch: &ChannelState<T>) -> (r: bool)
        ensures
            self.kind is WriteReady ==> r == ch@.write_ready,
            self.kind is ReadReady ==> r == ch@.read_ready,
    {
        match self.kind {
            Direction::WriteReady => ch.write_ready,
            Direction::ReadReady => ch.read_ready,
        }
    }
}

/// The outcome one step of an asynchronous operation reports to the event
/// loop that drives it: the operation resolved with a value, or it
/// suspended and must be re-polled when its readiness edge fires.
pub enum Poll<A> {
    /// The operation resolved.
    Ready(A),
    /// The operation is suspended on a readiness subscription.
    Pending,
}

} // verus!
