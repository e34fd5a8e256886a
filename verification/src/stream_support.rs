//! The chunked stream channel: ordered batches of values move from the
//! writer half to the reader half, one transfer buffer per chunk.
//!
//! The reader arms each pull with a scratch buffer sized to a fixed
//! transfer quantum (a byte budget divided by the element size, rounded
//! up); the writer copies as many items as the buffer's capacity allows,
//! sets the logical size and hands the buffer back.  [`StreamWrite`] and
//! [`StreamRead`] are the in-flight operations; like the future-channel
//! operations they are explicit state machines polled by an external
//! cooperative event loop.

use vstd::prelude::*;

use core::marker::PhantomData;

use crate::channel::fresh_channel;
use crate::channel::on_cancel_reclaim;
use crate::channel::on_close;
use crate::channel::on_read_result;
use crate::channel::on_reader_release;
use crate::channel::on_reset;
use crate::channel::wake_read;
use crate::channel::wake_write;
use crate::channel::Buffer;
use crate::channel::BufferModel;
use crate::channel::ChannelModel;
use crate::channel::ChannelState;
use crate::channel::Direction;
use crate::channel::Handle;
use crate::channel::Poll;
use crate::channel::Subscription;

verus! {

/// The byte budget one read chunk is sized to.
pub const CHUNK_BYTE_BUDGET: usize = 4096;

/// `x / y` rounded towards positive infinity: the number of `y`-sized
/// units needed to cover `x` bytes.
pub fn ceiling(x: usize, y: usize) -> (r: usize)
    requires
        y >= 1,
    ensures
        y * r >= x,
        y * r < x + y,
        x >= 1 ==> r >= 1,
        x == 0 ==> r == 0,
{
    let d = x / y;
    let m = x % y;
    proof {
        vstd::arithmetic::div_mod::lemma_fundamental_div_mod(x as int, y as int);
        assert(x == y * d + m);
        assert(y * (d + 1) == y * d + y) by (nonlinear_arith);
        if m != 0 {
            assert(d <= y * d) by (nonlinear_arith)
                requires
                    y >= 1,
                    d >= 0,
            ;
        }
        if x >= 1 && m == 0 {
            assert(d >= 1) by (nonlinear_arith)
                requires
                    y * d >= 1,
                    y >= 1,
                    d >= 0,
            ;
        }
    }
    if m == 0 {
        d
    } else {
        d + 1
    }
}

/// The per-element layout information the generated bindings supply for a
/// stream: how many bytes one lowered element occupies.  The chunk
/// capacity of a reader is derived from it.
#[derive(Clone, Copy, PartialEq, Eq, Structural, Debug)]
pub struct StreamVtable {
    pub elem_size: usize,
}

/// The completion marker a stream write resolves with.
#[derive(Clone, Copy, PartialEq, Eq, Structural, Debug)]
pub enum StreamResult {
    /// The batch was accepted and readiness for the next one was
    /// established.
    Complete(usize),
    /// The reader half is gone; the batch (or its unsent remainder) is
    /// handed back.
    Dropped,
}

/// The values a resolved stream write hands back: the items that were not
/// transferred (none after a completed write, the whole batch when the
/// reader dropped).
pub struct AbiBuffer<T> {
    pub items: Vec<T>,
}

impl<T> AbiBuffer<T> {
    /// How many items were not transferred.
    pub fn remaining(&self) -> (r: usize)
        ensures
            r == self.items@.len(),
    {
        self.items.len()
    }

    /// Recover the untransferred items.
    pub fn into_items(self) -> (r: Vec<T>)
        ensures
            r@ == self.items@,
    {
        self.items
    }
}

/// Effect of the writer sending one batch: the pending buffer is checked
/// out, the items are appended in order, the logical size is set, and the
/// buffer is handed back; the read-readiness edge fires.
pub open spec fn stream_send<T>(m: ChannelModel<T>, items: Seq<T>) -> ChannelModel<T> {
    let b = m.read_buf->0;
    ChannelModel {
        read_buf: None,
        checked_out: false,
        result_buf: Some(BufferModel { cap: b.cap, items: b.items + items }),
        read_ready: true,
        ..m
    }
}

/// Effect of the reader arming one pull with an empty scratch buffer of
/// `cap` items: the buffer becomes pending, the peer's write-readiness
/// edge fires, and any stale read-readiness edge is cleared before the
/// suspension.
pub open spec fn stream_reader_arm<T>(m: ChannelModel<T>, cap: nat) -> ChannelModel<T> {
    ChannelModel {
        read_buf: Some(BufferModel { cap, items: Seq::empty() }),
        write_ready: true,
        read_ready: false,
        ..m
    }
}

/// What a woken pull yields: the next chunk, truncated to its reported
/// size.  A closed channel with no result, and equally a result whose
/// reported size is zero, yield the end of the sequence.
pub open spec fn stream_read_outcome<T>(m: ChannelModel<T>) -> Option<Seq<T>> {
    match m.result_buf {
        Some(b) => if b.items.len() > 0 {
            Some(b.items)
        } else {
            None
        },
        None => None,
    }
}

/// The writable half of a stream channel.  Writable repeatedly until it
/// is closed or released.
pub struct StreamWriter<T> {
    pub handle: Handle,
    pub sub: Option<Subscription>,
    pub vtable: StreamVtable,
    pub _marker: PhantomData<T>,
}

impl<T> StreamWriter<T> {
    /// A held subscription always waits for write-readiness.
    pub open spec fn wf(&self) -> bool {
        self.sub matches Some(s) ==> s.kind is WriteReady
    }

    /// Wrap a channel endpoint reference as the writable half.
    pub fn new(handle: Handle, vtable: StreamVtable) -> (r: StreamWriter<T>)
        ensures
            r.handle == handle,
            r.vtable == vtable,
            r.sub is None,
            r.wf(),
    {
        StreamWriter { handle, sub: None, vtable, _marker: PhantomData }
    }

    /// Begin writing a batch; the returned operation resolves once the
    /// batch has been accepted and readiness for the next one observed,
    /// or once the reader half is found gone.
    pub fn write(&self, values: Vec<T>) -> (r: StreamWrite<T>)
        ensures
            r.values == values,
            !r.sent,
            !r.done,
    {
        StreamWrite { values, sent: false, done: false }
    }

    /// Abandon a pending readiness wait before any buffer handoff.  A
    /// write can only be canceled while no transfer has started; once the
    /// buffer is handed over the batch is with the peer.
    pub fn cancel(&mut self)
        ensures
            final(self).handle == old(self).handle,
            final(self).vtable == old(self).vtable,
            final(self).sub is None,
            final(self).wf(),
    {
        self.sub = None;
    }

    /// Suspend until the channel is ready to accept a batch: ready at
    /// once if the reader's buffer is pending, otherwise subscribe to
    /// write-readiness (clearing any stale edge) and wait for it to fire.
    pub fn poll_ready(&mut self, ch: &mut ChannelState<T>) -> (r: Poll<()>)
        requires
            old(self).wf(),
        ensures
            final(self).handle == old(self).handle,
            final(self).vtable == old(self).vtable,
            final(self).wf(),
            ({
                let m = old(ch)@;
                if old(self).sub is None {
                    if m.read_buf is Some {
                        &&& r is Ready
                        &&& final(self).sub is None
                        &&& final(ch)@ == m
                    } else {
                        &&& r is Pending
                        &&& (final(self).sub matches Some(s) && s.kind is WriteReady)
                        &&& final(ch)@ == on_reset(m, Direction::WriteReady)
                    }
                } else {
                    if wake_write(m) {
                        &&& r is Ready
                        &&& final(self).sub is None
                        &&& final(ch)@ == m
                    } else {
                        &&& r is Pending
                        &&& *final(self) == *old(self)
                        &&& final(ch)@ == m
                    }
                }
            }),
    {
        match &self.sub {
            None => {
                if ch.is_ready_to_write() {
                    Poll::Ready(())
                } else {
                    let sub = ch.write_ready_subscribe();
                    sub.reset(ch);
                    self.sub = Some(sub);
                    Poll::Pending
                }
            }
            Some(_) => {
                if ch.write_ready || ch.reader_dropped {
                    self.sub = None;
                    Poll::Ready(())
                } else {
                    Poll::Pending
                }
            }
        }
    }

    /// Copy a batch into the pending buffer and hand it to the peer.
    /// The batch must fit in the buffer's remaining capacity: handing a
    /// producer less capacity than it was promised ready for is a fatal
    /// usage defect, never a recoverable outcome, so an oversized batch
    /// is ruled out by contract and aborts an unverified caller.
    pub fn start_send(&self, ch: &mut ChannelState<T>, items: Vec<T>)
        requires
            old(ch)@.wf(),
            (old(ch)@.read_buf matches Some(b) && b.items.len() + items@.len() <= b.cap),
        ensures
            final(ch)@ == stream_send(old(ch)@, items@),
    {
        let ghost m = ch@;
        let cap = ch.write_capacity();
        let pending = match &ch.read_buf {
            Some(b) => b.size(),
            None => unreached(),
        };
        if items.len() <= cap && pending <= cap - items.len() {
            let mut buffer = ch.start_writing();
            buffer.fill_from(items);
            ch.finish_writing(Some(buffer));
            proof {
                assert(ch@ =~= stream_send(m, items@));
            }
        } else {
            unreached::<()>();
        }
    }

    /// Release the writable half.  If closure was not yet signalled, a
    /// final empty handoff marks the channel closed, so the reader's next
    /// pull observes the end of the sequence instead of suspending
    /// forever.
    pub fn close(self, ch: &mut ChannelState<T>)
        ensures
            final(ch)@.closed,
            !old(ch)@.closed ==> final(ch)@ == on_close(old(ch)@),
            old(ch)@.closed ==> final(ch)@ == old(ch)@,
    {
        if !ch.is_write_closed() {
            ch.finish_writing(None);
        }
    }
}

/// An in-flight batch write.  It adapts the producer contract: wait for
/// readiness, copy the batch, then wait for readiness again so completion
/// is only reported once the chunk has been taken up.
pub struct StreamWrite<T> {
    pub values: Vec<T>,
    pub sent: bool,
    pub done: bool,
}

impl<T> StreamWrite<T> {
    /// Drive the batch write one step against its writer and the shared
    /// channel state.  An empty batch is a permitted no-op: it resolves
    /// at once, without suspension, with a completion marker.  A
    /// non-empty batch must fit the pending buffer's remaining capacity;
    /// exceeding it is a fatal capacity violation, ruled out by contract
    /// here as in [`StreamWriter::start_send`].
    pub fn poll(&mut self, w: &mut StreamWriter<T>, ch: &mut ChannelState<T>) -> (r: Poll<
        (StreamResult, AbiBuffer<T>),
    >)
        requires
            !old(self).done,
            old(w).wf(),
            old(ch)@.wf(),
            (old(ch)@.read_buf matches Some(b) ==> b.items.len() + old(self).values@.len()
                <= b.cap),
            old(w).sub is Some && old(ch)@.write_ready && !old(ch)@.reader_dropped ==> old(
                ch,
            )@.read_buf is Some,
            old(self).sent ==> old(w).sub is Some,
        ensures
            final(w).handle == old(w).handle,
            final(w).vtable == old(w).vtable,
            final(w).wf(),
            ({
                let m = old(ch)@;
                if !old(self).sent && old(self).values@.len() == 0 {
                    &&& (r matches Poll::Ready(out) && out.0 == StreamResult::Complete(1)
                        && out.1.items@ == Seq::<T>::empty())
                    &&& final(self).done
                    &&& *final(w) == *old(w)
                    &&& final(ch)@ == m
                } else if !old(self).sent {
                    let ready_now = if old(w).sub is None {
                        m.read_buf is Some
                    } else {
                        wake_write(m)
                    };
                    if !ready_now {
                        &&& r is Pending
                        &&& !final(self).done
                        &&& !final(self).sent
                        &&& final(self).values == old(self).values
                        &&& (old(w).sub is None ==> (final(w).sub matches Some(s)
                            && s.kind is WriteReady) && final(ch)@ == on_reset(
                            m,
                            Direction::WriteReady,
                        ))
                        &&& (old(w).sub is Some ==> *final(w) == *old(w) && final(ch)@ == m)
                    } else if m.reader_dropped {
                        &&& (r matches Poll::Ready(out) && out.0 is Dropped
                            && out.1.items@ == old(self).values@)
                        &&& final(self).done
                        &&& final(w).sub is None
                        &&& final(ch)@ == m
                    } else {
                        &&& r is Pending
                        &&& final(self).sent
                        &&& !final(self).done
                        &&& final(self).values@.len() == 0
                        &&& (final(w).sub matches Some(s) && s.kind is WriteReady)
                        &&& final(ch)@ == on_reset(
                            stream_send(m, old(self).values@),
                            Direction::WriteReady,
                        )
                    }
                } else {
                    if wake_write(m) {
                        &&& (r matches Poll::Ready(out) && out.0 == StreamResult::Complete(1)
                            && out.1.items@ == Seq::<T>::empty())
                        &&& final(self).done
                        &&& final(w).sub is None
                        &&& final(ch)@ == m
                    } else {
                        &&& r is Pending
                        &&& *final(self) == *old(self)
                        &&& *final(w) == *old(w)
                        &&& final(ch)@ == m
                    }
                }
            }),
    {
        if !self.sent && self.values.len() == 0 {
            self.done = true;
            return Poll::Ready((StreamResult::Complete(1), AbiBuffer { items: Vec::new() }));
        }
        if !self.sent {
            let ghost m = ch@;
            match w.poll_ready(ch) {
                Poll::Pending => Poll::Pending,
                Poll::Ready(_) => {
                    if ch.reader_dropped {
                        self.done = true;
                        let mut rest: Vec<T> = Vec::new();
                        core::mem::swap(&mut rest, &mut self.values);
                        Poll::Ready((StreamResult::Dropped, AbiBuffer { items: rest }))
                    } else {
                        let mut batch: Vec<T> = Vec::new();
                        core::mem::swap(&mut batch, &mut self.values);
                        w.start_send(ch, batch);
                        self.sent = true;
                        match w.poll_ready(ch) {
                            Poll::Pending => Poll::Pending,
                            Poll::Ready(_) => unreached(),
                        }
                    }
                }
            }
        } else {
            match w.poll_ready(ch) {
                Poll::Pending => Poll::Pending,
                Poll::Ready(_) => {
                    self.done = true;
                    Poll::Ready((StreamResult::Complete(1), AbiBuffer { items: Vec::new() }))
                }
            }
        }
    }
}

/// The readable half of a stream channel: a finite-until-closed lazy
/// sequence of chunks.
pub struct StreamReader<T> {
    pub handle: Handle,
    pub sub: Option<Subscription>,
    pub chunk_cap: usize,
    pub _marker: PhantomData<T>,
}

impl<T> StreamReader<T> {
    /// A held subscription always waits for read-readiness, and every
    /// pull is armed with at least one item of scratch capacity.
    pub open spec fn wf(&self) -> bool {
        &&& (self.sub matches Some(s) ==> s.kind is ReadReady)
        &&& self.chunk_cap >= 1
    }

    /// Pull the next chunk.  With no pull in flight, arm one: allocate a
    /// scratch buffer of the chunk capacity, supply it to the peer,
    /// subscribe to read-readiness (clearing any stale edge) and
    /// suspend.  Once the edge fires or the channel closes, yield the
    /// chunk truncated to its reported size; an empty or closed result
    /// yields the end of the sequence.
    pub fn poll_next(&mut self, ch: &mut ChannelState<T>) -> (r: Poll<Option<Vec<T>>>)
        requires
            old(self).wf(),
            old(self).sub is None ==> old(ch)@.is_idle(),
            old(self).sub is Some && old(ch)@.read_ready ==> old(ch)@.result_buf is Some || old(
                ch,
            )@.closed,
        ensures
            final(self).handle == old(self).handle,
            final(self).chunk_cap == old(self).chunk_cap,
            final(self).wf(),
            ({
                let m = old(ch)@;
                if old(self).sub is None {
                    &&& r is Pending
                    &&& (final(self).sub matches Some(s) && s.kind is ReadReady)
                    &&& final(ch)@ == stream_reader_arm(m, old(self).chunk_cap as nat)
                } else if wake_read(m) {
                    &&& final(self).sub is None
                    &&& final(ch)@ == on_read_result(m)
                    &&& (r matches Poll::Ready(out) && (match stream_read_outcome(m) {
                        Some(items) => out matches Some(v) && v@ == items,
                        None => out is None,
                    }))
                } else {
                    &&& r is Pending
                    &&& *final(self) == *old(self)
                    &&& final(ch)@ == m
                }
            }),
    {
        match &self.sub {
            None => {
                let ghost m = ch@;
                let buffer = Buffer::new(self.chunk_cap);
                ch.start_reading(buffer);
                let sub = ch.read_ready_subscribe();
                sub.reset(ch);
                self.sub = Some(sub);
                proof {
                    assert(ch@ =~= stream_reader_arm(m, self.chunk_cap as nat));
                }
                Poll::Pending
            }
            Some(_) => {
                if ch.read_ready || ch.closed {
                    self.sub = None;
                    let result = ch.read_result();
                    match result {
                        Some(buffer) => {
                            if buffer.size() > 0 {
                                Poll::Ready(Some(buffer.into_items()))
                            } else {
                                Poll::Ready(None)
                            }
                        }
                        None => Poll::Ready(None),
                    }
                } else {
                    Poll::Pending
                }
            }
        }
    }

    /// Cancel the pending pull: the in-flight bookkeeping is discarded
    /// and the buffers the pull had outstanding — the supplied scratch
    /// buffer, or an undelivered result — are reclaimed from the
    /// channel, so a fresh pull can be armed.  It is a caller error to
    /// cancel when no pull is in flight; that usage defect is ruled out
    /// by contract and aborts an unverified caller.
    pub fn cancel(&mut self, ch: &mut ChannelState<T>)
        requires
            old(self).sub is Some,
        ensures
            final(self).handle == old(self).handle,
            final(self).chunk_cap == old(self).chunk_cap,
            final(self).sub is None,
            final(ch)@ == on_cancel_reclaim(old(ch)@),
    {
        match &self.sub {
            Some(_) => {
                self.sub = None;
                ch.cancel_reclaim();
            }
            None => unreached(),
        }
    }

    /// The raw opaque endpoint reference this half wraps.
    pub fn take_handle(&self) -> (r: usize)
        ensures
            r == self.handle.id,
    {
        self.handle.id
    }

    /// Give the readable half up for its raw opaque endpoint reference.
    pub fn into_handle(self) -> (r: usize)
        ensures
            r == self.handle.id,
    {
        self.handle.id
    }

    /// Begin a pull that collects the next chunk into a caller-supplied
    /// vector.
    pub fn read(&self, buf: Vec<T>) -> (r: StreamRead<T>)
        ensures
            r.buf == buf,
            !r.done,
    {
        StreamRead { buf, done: false }
    }

    /// Release the readable half.  If the handle is still live, the
    /// peer's write-readiness edge is activated so a writer suspended on
    /// it is not left stuck.
    pub fn release(self, ch: &mut ChannelState<T>)
        ensures
            self.handle.id != 0 ==> final(ch)@ == on_reader_release(old(ch)@),
            self.handle.id == 0 ==> final(ch)@ == old(ch)@,
    {
        if self.handle.id != 0 {
            ch.reader_release();
        }
    }
}

/// An in-flight pull that collects the next chunk into a caller-supplied
/// vector and resolves with a completion marker: how many items arrived,
/// or that the stream ended.
pub struct StreamRead<T> {
    pub buf: Vec<T>,
    pub done: bool,
}

impl<T> StreamRead<T> {
    /// Drive the pull one step against its reader and the shared channel
    /// state.  On completion the received items stand appended, in
    /// order, to the caller's vector.
    pub fn poll(&mut self, reader: &mut StreamReader<T>, ch: &mut ChannelState<T>) -> (r: Poll<
        (StreamResult, Vec<T>),
    >)
        requires
            !old(self).done,
            old(reader).wf(),
            old(reader).sub is None ==> old(ch)@.is_idle(),
            old(reader).sub is Some && old(ch)@.read_ready ==> old(ch)@.result_buf is Some || old(
                ch,
            )@.closed,
        ensures
            final(reader).handle == old(reader).handle,
            final(reader).chunk_cap == old(reader).chunk_cap,
            final(reader).wf(),
            ({
                let m = old(ch)@;
                if old(reader).sub is None {
                    &&& r is Pending
                    &&& (final(reader).sub matches Some(s) && s.kind is ReadReady)
                    &&& final(ch)@ == stream_reader_arm(m, old(reader).chunk_cap as nat)
                    &&& final(self).buf == old(self).buf
                    &&& !final(self).done
                } else if wake_read(m) {
                    &&& final(reader).sub is None
                    &&& final(ch)@ == on_read_result(m)
                    &&& final(self).done
                    &&& (r matches Poll::Ready(out) && (match stream_read_outcome(m) {
                        Some(items) => (out.0 matches StreamResult::Complete(n) && n
                            == items.len()) && out.1@ == old(self).buf@ + items,
                        None => out.0 is Dropped && out.1@ == old(self).buf@,
                    }))
                } else {
                    &&& r is Pending
                    &&& *final(self) == *old(self)
                    &&& *final(reader) == *old(reader)
                    &&& final(ch)@ == m
                }
            }),
    {
        match reader.poll_next(ch) {
            Poll::Pending => Poll::Pending,
            Poll::Ready(chunk) => {
                self.done = true;
                let mut out: Vec<T> = Vec::new();
                core::mem::swap(&mut out, &mut self.buf);
                match chunk {
                    Some(items) => {
                        let n = items.len();
                        let mut rest = items;
                        out.append(&mut rest);
                        Poll::Ready((StreamResult::Complete(n), out))
                    }
                    None => Poll::Ready((StreamResult::Dropped, out)),
                }
            }
        }
    }
}

/// Allocate a fresh stream channel: the writable half, the readable half,
/// and the shared endpoint state both operate on.  `id` is the nonzero
/// opaque reference value the two halves share; the reader's chunk
/// capacity is the byte budget divided by the element size, rounded up.
pub fn stream_new<T>(id: usize, vtable: StreamVtable) -> (r: (
    StreamWriter<T>,
    StreamReader<T>,
    ChannelState<T>,
))
    requires
        id != 0,
        vtable.elem_size >= 1,
    ensures
        r.0.handle.id == id,
        r.0.sub is None,
        r.0.vtable == vtable,
        r.0.wf(),
        r.1.handle.id == id,
        r.1.sub is None,
        r.1.wf(),
        vtable.elem_size as int * r.1.chunk_cap as int >= CHUNK_BYTE_BUDGET as int,
        (vtable.elem_size as int * r.1.chunk_cap as int) < CHUNK_BYTE_BUDGET as int
            + vtable.elem_size as int,
        r.2@ == fresh_channel::<T>(id as nat),
{
    let handle = Handle { id };
    let chunk_cap = ceiling(CHUNK_BYTE_BUDGET, vtable.elem_size);
    let state = ChannelState::new(id);
    let writer = StreamWriter::new(handle, vtable);
    let reader = StreamReader { handle, sub: None, chunk_cap, _marker: PhantomData };
    (writer, reader, state)
}

/// Batch round-trip law.  For every non-empty batch that fits the chunk
/// capacity: after the reader arms a pull on a fresh channel and the
/// writer sends the batch, the reader is woken and yields exactly that
/// batch, in its original order.  (An empty batch never transfers: the
/// write resolves as a no-op without a handoff, and a handed-over empty
/// result would read as the end of the sequence.)
pub proof fn lemma_stream_batch_round_trip<T>(id: nat, cap: nat, items: Seq<T>)
    requires
        1 <= items.len() <= cap,
    ensures
        ({
            let armed = stream_reader_arm(fresh_channel::<T>(id), cap);
            let sent = stream_send(armed, items);
            &&& armed.read_buf matches Some(b) && b.items.len() + items.len() <= b.cap
            &&& wake_read(sent)
            &&& stream_read_outcome(sent) == Some(items)
        }),
{
    let armed = stream_reader_arm(fresh_channel::<T>(id), cap);
    let sent = stream_send(armed, items);
    assert(Seq::<T>::empty() + items =~= items);
}

/// A stream channel's reported transfer size never exceeds the supplied
/// buffer's capacity: a batch that fits keeps the channel well-formed,
/// and the result the reader collects respects the capacity it supplied.
pub proof fn lemma_send_respects_capacity<T>(m: ChannelModel<T>, items: Seq<T>)
    requires
        m.wf(),
        m.read_buf matches Some(b) && b.items.len() + items.len() <= b.cap,
    ensures
        stream_send(m, items).wf(),
        (stream_send(m, items).result_buf matches Some(rb) && rb.items.len() <= rb.cap),
{
}

/// Releasing the readable half unblocks a writer suspended on
/// write-readiness: the release fires the write-readiness edge.
pub proof fn lemma_reader_drop_unblocks_writer<T>(m: ChannelModel<T>)
    ensures
        wake_write(on_reader_release(m)),
{
}

/// Releasing the writable half without an explicit close still ends the
/// stream: the close signal wakes the reader's next pull, which observes
/// the end of the sequence rather than suspending forever.
pub proof fn lemma_writer_drop_ends_stream<T>(m: ChannelModel<T>)
    requires
        m.result_buf is None,
    ensures
        wake_read(on_close(m)),
        stream_read_outcome(on_close(m)) == None::<Seq<T>>,
{
}

} // verus!
