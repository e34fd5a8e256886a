//! The one-shot future channel: a single value moves from the writer half
//! to the reader half through one capacity-one transfer buffer.
//!
//! [`CancelableWrite`] and [`CancelableRead`] are the in-flight
//! asynchronous operations.  Each is an explicit state machine driven by a
//! `poll` function that takes the shared [`ChannelState`]; an external
//! cooperative event loop re-polls an operation when the readiness edge it
//! suspended on fires.  A channel's value transfers at most once: a
//! resolved operation must not be polled again, which its `poll` states as
//! a precondition.

use vstd::prelude::*;

use core::marker::PhantomData;

use crate::channel::fresh_channel;
use crate::channel::on_cancel_reclaim;
use crate::channel::on_close;
use crate::channel::on_read_result;
use crate::channel::wake_read;
use crate::channel::wake_write;
use crate::channel::Buffer;
use crate::channel::BufferModel;
use crate::channel::ChannelModel;
use crate::channel::ChannelState;
use crate::channel::Handle;
use crate::channel::Poll;

verus! {

/// The channel is in the handoff state and the pending buffer has room
/// for one more item, so a write transfer can run to completion.
pub open spec fn can_transfer<T>(m: ChannelModel<T>) -> bool {
    m.read_buf matches Some(b) && b.items.len() < b.cap
}

/// Effect of one complete write transfer: the writer checks the pending
/// buffer out, places `v` in it, sets the logical size, and hands it back;
/// the read-readiness edge fires.
pub open spec fn write_transfer<T>(m: ChannelModel<T>, v: T) -> ChannelModel<T> {
    let b = m.read_buf->0;
    ChannelModel {
        read_buf: None,
        checked_out: false,
        result_buf: Some(BufferModel { cap: b.cap, items: b.items.push(v) }),
        read_ready: true,
        ..m
    }
}

/// Effect of arming a one-shot read: the reader supplies an empty
/// capacity-one buffer, subscribes to read-readiness and clears any stale
/// edge before suspending.
pub open spec fn reader_arm<T>(m: ChannelModel<T>) -> ChannelModel<T> {
    ChannelModel {
        read_buf: Some(BufferModel { cap: 1 as nat, items: Seq::empty() }),
        write_ready: true,
        read_ready: false,
        ..m
    }
}

/// What a woken one-shot read resolves with: the transferred value if the
/// result buffer holds one, and an empty result if the channel closed with
/// no data.
pub open spec fn read_outcome<T>(m: ChannelModel<T>) -> Option<T> {
    match m.result_buf {
        Some(b) => if b.items.len() > 0 {
            Some(b.items[0])
        } else {
            None
        },
        None => None,
    }
}

/// The writable half of a future channel.  Writable exactly once:
/// `write` consumes it.
pub struct FutureWriter<T> {
    pub handle: Handle,
    pub _marker: PhantomData<T>,
}

impl<T> FutureWriter<T> {
    /// Wrap a channel endpoint reference as the writable half.
    pub fn new(handle: Handle) -> (r: FutureWriter<T>)
        ensures
            r.handle == handle,
    {
        FutureWriter { handle, _marker: PhantomData }
    }

    /// Begin writing `data`; the returned operation resolves once the
    /// value has been delivered into the reader's buffer.
    pub fn write(self, data: T) -> (r: CancelableWrite<T>)
        ensures
            r.writer == self,
            r.state is Unstarted,
            r.data == Some(data),
            r.wf(),
    {
        CancelableWrite { writer: self, state: WriteOpState::Unstarted, data: Some(data) }
    }

    /// Release the writable half without writing.  If closure was not
    /// yet signalled, a final empty handoff marks the channel closed, so
    /// a pending or later read resolves with an empty result instead of
    /// suspending forever.
    pub fn close(self, ch: &mut ChannelState<T>)
        ensures
            final(ch)@.closed,
            !old(ch)@.closed ==> final(ch)@ == on_close(old(ch)@),
            old(ch)@.closed ==> final(ch)@ == old(ch)@,
    {
        if !ch.is_write_closed() {
            ch.finish_writing(None);
        }
    }
}

/// Where an in-flight write stands.
pub enum WriteOpState {
    /// Not yet polled.
    Unstarted,
    /// Suspended on the write-readiness subscription.
    Waiting,
    /// Resolved; the operation must not be polled again.
    Done,
}

/// A one-shot write operation which may be canceled prior to completion.
pub struct CancelableWrite<T> {
    pub writer: FutureWriter<T>,
    pub state: WriteOpState,
    pub data: Option<T>,
}

impl<T> CancelableWrite<T> {
    /// An unresolved write still carries the value it will deliver.
    pub open spec fn wf(&self) -> bool {
        !(self.state is Done) ==> self.data is Some
    }

    /// Drive the write one step.  On the first step, if the channel is
    /// not ready the operation subscribes to write-readiness and
    /// suspends; once the edge fires it checks the reader's buffer out,
    /// places the value, sets the logical size to one item and hands the
    /// buffer back.  The operation resolves exactly once.
    pub fn poll(&mut self, ch: &mut ChannelState<T>) -> (r: Poll<()>)
        requires
            old(self).wf(),
            !(old(self).state is Done),
            old(self).state is Unstarted && old(ch)@.read_buf is Some ==> can_transfer(
                old(ch)@,
            ),
            old(self).state is Waiting && wake_write(old(ch)@) ==> can_transfer(old(ch)@),
        ensures
            final(self).writer == old(self).writer,
            final(self).wf(),
            ({
                let m = old(ch)@;
                let woken = if old(self).state is Unstarted {
                    m.read_buf is Some
                } else {
                    wake_write(m)
                };
                if woken {
                    &&& r is Ready
                    &&& final(self).state is Done
                    &&& final(ch)@ == write_transfer(m, old(self).data->0)
                } else {
                    &&& r is Pending
                    &&& final(self).state is Waiting
                    &&& final(self).data == old(self).data
                    &&& final(ch)@ == m
                }
            }),
    {
        let woken = match self.state {
            WriteOpState::Unstarted => ch.is_ready_to_write(),
            WriteOpState::Waiting => ch.write_ready || ch.reader_dropped,
            WriteOpState::Done => unreached(),
        };
        if woken {
            let ghost m = ch@;
            let mut buffer = ch.start_writing();
            let value = match self.data.take() {
                Some(value) => value,
                None => unreached(),
            };
            buffer.push(value);
            ch.finish_writing(Some(buffer));
            self.state = WriteOpState::Done;
            proof {
                assert(ch@ =~= write_transfer(m, value));
            }
            Poll::Ready(())
        } else {
            self.state = WriteOpState::Waiting;
            Poll::Pending
        }
    }

    /// Cancel the write before completion, recovering the writable half
    /// and the value.  A write can only be canceled before the buffer
    /// handoff; once the operation has resolved the value is with the
    /// peer.
    pub fn cancel(self) -> (r: (FutureWriter<T>, T))
        requires
            !(self.state is Done),
            self.wf(),
        ensures
            r.0 == self.writer,
            r.1 == self.data->0,
    {
        let value = match self.data {
            Some(value) => value,
            None => unreached(),
        };
        (self.writer, value)
    }
}

/// The readable half of a future channel.  Readable exactly once:
/// `read` consumes it.
pub struct FutureReader<T> {
    pub handle: Handle,
    pub _marker: PhantomData<T>,
}

impl<T> FutureReader<T> {
    /// Wrap a channel endpoint reference as the readable half.
    pub fn new(handle: Handle) -> (r: FutureReader<T>)
        ensures
            r.handle == handle,
    {
        FutureReader { handle, _marker: PhantomData }
    }

    /// Begin reading; the returned operation resolves to the transferred
    /// value, or to an empty result if the writer half is dropped without
    /// writing.
    pub fn read(self) -> (r: CancelableRead<T>)
        ensures
            r.reader == self,
            r.state is Unstarted,
    {
        CancelableRead { reader: self, state: ReadOpState::Unstarted }
    }

    /// The raw opaque endpoint reference this half wraps.
    pub fn take_handle(&self) -> (r: usize)
        ensures
            r == self.handle.id,
    {
        self.handle.id
    }
}

/// Where an in-flight read stands.
pub enum ReadOpState {
    /// Not yet polled: no buffer supplied.
    Unstarted,
    /// Buffer supplied, suspended on the read-readiness subscription.
    Waiting,
    /// Resolved; the operation must not be polled again.
    Done,
}

/// A one-shot read operation which may be canceled prior to completion.
pub struct CancelableRead<T> {
    pub reader: FutureReader<T>,
    pub state: ReadOpState,
}

impl<T> CancelableRead<T> {
    /// Drive the read one step.  On the first step the operation supplies
    /// an empty capacity-one buffer, subscribes to read-readiness after
    /// clearing any stale edge, and suspends.  Once the edge fires (or
    /// the channel is closed) it resolves: with the value if the peer
    /// wrote one, and with an empty result if the peer closed without
    /// writing.  The operation resolves exactly once.
    pub fn poll(&mut self, ch: &mut ChannelState<T>) -> (r: Poll<Option<T>>)
        requires
            !(old(self).state is Done),
            old(self).state is Unstarted ==> old(ch)@.is_idle(),
            old(self).state is Waiting && old(ch)@.read_ready ==> old(ch)@.result_buf is Some
                || old(ch)@.closed,
        ensures
            final(self).reader == old(self).reader,
            ({
                let m = old(ch)@;
                if old(self).state is Unstarted {
                    &&& r is Pending
                    &&& final(self).state is Waiting
                    &&& final(ch)@ == reader_arm(m)
                } else if wake_read(m) {
                    &&& r == Poll::Ready(read_outcome(m))
                    &&& final(self).state is Done
                    &&& final(ch)@ == on_read_result(m)
                } else {
                    &&& r is Pending
                    &&& final(self).state is Waiting
                    &&& final(ch)@ == m
                }
            }),
    {
        match self.state {
            ReadOpState::Unstarted => {
                let ghost m = ch@;
                let buffer = Buffer::new(1);
                ch.start_reading(buffer);
                let sub = ch.read_ready_subscribe();
                sub.reset(ch);
                self.state = ReadOpState::Waiting;
                proof {
                    assert(ch@ =~= reader_arm(m));
                }
                Poll::Pending
            }
            ReadOpState::Waiting => {
                if ch.read_ready || ch.closed {
                    let result = ch.read_result();
                    self.state = ReadOpState::Done;
                    match result {
                        Some(buffer) => {
                            if buffer.size() > 0 {
                                let mut items = buffer.into_items();
                                let value = items.remove(0);
                                Poll::Ready(Some(value))
                            } else {
                                Poll::Ready(None)
                            }
                        }
                        None => Poll::Ready(None),
                    }
                } else {
                    Poll::Pending
                }
            }
            ReadOpState::Done => unreached(),
        }
    }

    /// Cancel the read before completion, recovering the readable half.
    /// The in-flight bookkeeping is discarded, and the buffers the
    /// operation had outstanding — the supplied scratch buffer, or an
    /// undelivered result — are reclaimed from the channel, so the
    /// recovered half can arm a fresh read.
    pub fn cancel(self, ch: &mut ChannelState<T>) -> (r: FutureReader<T>)
        ensures
            r == self.reader,
            self.state is Waiting ==> final(ch)@ == on_cancel_reclaim(old(ch)@),
            !(self.state is Waiting) ==> final(ch)@ == old(ch)@,
    {
        match self.state {
            ReadOpState::Waiting => ch.cancel_reclaim(),
            _ => {},
        }
        self.reader
    }
}

/// Allocate a fresh future channel: the writable half, the readable half,
/// and the shared endpoint state both operate on.  `id` is the nonzero
/// opaque reference value the two halves share.
pub fn new_future<T>(id: usize) -> (r: (FutureWriter<T>, FutureReader<T>, ChannelState<T>))
    requires
        id != 0,
    ensures
        r.0.handle.id == id,
        r.1.handle.id == id,
        r.2@ == fresh_channel::<T>(id as nat),
{
    let handle = Handle { id };
    let state = ChannelState::new(id);
    (FutureWriter::new(handle), FutureReader::new(handle), state)
}

/// Round-trip law.  For every value `v`: arming the read on a fresh
/// channel makes a transfer possible; writing `v` then wakes the reader,
/// which resolves with exactly `Some(v)`; and afterwards the channel holds
/// no further value and is not closed, so the value transfers at most
/// once.
pub proof fn lemma_future_round_trip<T>(id: nat, v: T)
    ensures
        ({
            let armed = reader_arm(fresh_channel::<T>(id));
            let written = write_transfer(armed, v);
            &&& can_transfer(armed)
            &&& wake_read(written)
            &&& read_outcome(written) == Some(v)
            &&& on_read_result(written).result_buf is None
            &&& !on_read_result(written).closed
        }),
{
}

/// A reader whose writer half dropped before writing is not left
/// suspended forever: the close signal wakes it and it resolves with an
/// empty result — in either order of the close and the arming of the
/// read.
pub proof fn lemma_future_read_after_writer_drop<T>(id: nat)
    ensures
        wake_read(on_close(reader_arm(fresh_channel::<T>(id)))),
        read_outcome(on_close(reader_arm(fresh_channel::<T>(id)))) == None::<T>,
        wake_read(reader_arm(on_close(fresh_channel::<T>(id)))),
        read_outcome(reader_arm(on_close(fresh_channel::<T>(id)))) == None::<T>,
{
}

} // verus!
