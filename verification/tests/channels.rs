//! Runtime scenarios for the future channel and the stream channel,
//! driven the way the cooperative event loop would drive them: every
//! operation is re-polled once the readiness edge it suspended on fires.

use symmetric_channels::channel::Buffer;
use symmetric_channels::channel::ChannelState;
use symmetric_channels::channel::Poll;
use symmetric_channels::future_support::new_future;
use symmetric_channels::stream_support::ceiling;
use symmetric_channels::stream_support::stream_new;
use symmetric_channels::stream_support::StreamResult;
use symmetric_channels::stream_support::StreamVtable;

#[test]
fn future_round_trip() {
    let (w, r, mut ch) = new_future::<i32>(1);
    let mut write_op = w.write(7);
    // no reader buffer yet: the write suspends on write-readiness
    assert!(matches!(write_op.poll(&mut ch), Poll::Pending));
    let mut read_op = r.read();
    // the read arms the channel and suspends on read-readiness
    assert!(matches!(read_op.poll(&mut ch), Poll::Pending));
    // the reader's buffer woke the writer: the value transfers
    assert!(matches!(write_op.poll(&mut ch), Poll::Ready(())));
    match read_op.poll(&mut ch) {
        Poll::Ready(v) => assert_eq!(v, Some(7)),
        Poll::Pending => panic!("value not delivered"),
    }
}

#[test]
fn future_write_resolves_synchronously_when_armed() {
    let (w, r, mut ch) = new_future::<i32>(2);
    let mut read_op = r.read();
    assert!(matches!(read_op.poll(&mut ch), Poll::Pending));
    // the channel is already armed: the write completes on its first poll
    let mut write_op = w.write(-3);
    assert!(matches!(write_op.poll(&mut ch), Poll::Ready(())));
    match read_op.poll(&mut ch) {
        Poll::Ready(v) => assert_eq!(v, Some(-3)),
        Poll::Pending => panic!("value not delivered"),
    }
}

#[test]
fn future_read_after_writer_drop() {
    let (w, r, mut ch) = new_future::<i32>(1);
    let mut read_op = r.read();
    assert!(matches!(read_op.poll(&mut ch), Poll::Pending));
    // the writer half goes away without writing
    w.close(&mut ch);
    match read_op.poll(&mut ch) {
        Poll::Ready(v) => assert_eq!(v, None),
        Poll::Pending => panic!("reader left suspended after writer drop"),
    }
}

#[test]
fn future_read_after_writer_drop_before_arming() {
    let (w, r, mut ch) = new_future::<i32>(1);
    w.close(&mut ch);
    let mut read_op = r.read();
    assert!(matches!(read_op.poll(&mut ch), Poll::Pending));
    match read_op.poll(&mut ch) {
        Poll::Ready(v) => assert_eq!(v, None),
        Poll::Pending => panic!("reader left suspended on a closed channel"),
    }
}

#[test]
fn future_write_cancel_recovers_value() {
    let (w, r, mut ch) = new_future::<i32>(5);
    let op = w.write(11);
    let (w2, v) = op.cancel();
    assert_eq!(v, 11);
    assert_eq!(w2.handle.id, 5);
    // the recovered half can still carry out the write
    let mut read_op = r.read();
    assert!(matches!(read_op.poll(&mut ch), Poll::Pending));
    let mut op2 = w2.write(12);
    assert!(matches!(op2.poll(&mut ch), Poll::Ready(())));
    match read_op.poll(&mut ch) {
        Poll::Ready(got) => assert_eq!(got, Some(12)),
        Poll::Pending => panic!("value not delivered"),
    }
}

#[test]
fn future_read_cancel_returns_reader() {
    let (w, r, mut ch) = new_future::<i32>(3);
    let mut read_op = r.read();
    assert!(matches!(read_op.poll(&mut ch), Poll::Pending));
    // canceling reclaims the outstanding buffer and recovers the half
    let recovered = read_op.cancel(&mut ch);
    assert_eq!(recovered.take_handle(), 3);
    assert!(ch.is_idle());
    // the recovered half can arm a fresh read that still delivers
    let mut read_again = recovered.read();
    assert!(matches!(read_again.poll(&mut ch), Poll::Pending));
    let mut write_op = w.write(17);
    assert!(matches!(write_op.poll(&mut ch), Poll::Ready(())));
    match read_again.poll(&mut ch) {
        Poll::Ready(v) => assert_eq!(v, Some(17)),
        Poll::Pending => panic!("value not delivered after cancel"),
    }
}

#[test]
fn future_end_to_end_doubling() {
    // an input future supplies x; a task computes x*2 and writes it to
    // the output future; the reading side observes exactly the doubled
    // value once it is available
    let (in_w, in_r, mut in_ch) = new_future::<i32>(1);
    let (out_w, out_r, mut out_ch) = new_future::<i32>(2);

    let mut in_read = in_r.read();
    assert!(matches!(in_read.poll(&mut in_ch), Poll::Pending));
    let mut out_read = out_r.read();
    assert!(matches!(out_read.poll(&mut out_ch), Poll::Pending));

    // the input arrives
    let mut in_write = in_w.write(21);
    assert!(matches!(in_write.poll(&mut in_ch), Poll::Ready(())));

    // the task wakes, computes, and writes the result
    let x: i32 = match in_read.poll(&mut in_ch) {
        Poll::Ready(Some(v)) => v,
        _ => panic!("input not delivered"),
    };
    let mut out_write = out_w.write(x * 2);
    assert!(matches!(out_write.poll(&mut out_ch), Poll::Ready(())));

    match out_read.poll(&mut out_ch) {
        Poll::Ready(v) => assert_eq!(v, Some(42)),
        Poll::Pending => panic!("doubled value not delivered"),
    }
}

#[test]
fn stream_end_to_end_two_chunks() {
    // chunk capacity 2: two items per element of 2048 bytes in the
    // 4096-byte budget
    let (mut w, mut r, mut ch) = stream_new::<i32>(1, StreamVtable { elem_size: 2048 });
    assert_eq!(r.chunk_cap, 2);

    let mut op1 = w.write(vec![1, 2]);
    // no readiness yet: the batch write suspends
    assert!(matches!(op1.poll(&mut w, &mut ch), Poll::Pending));
    // the reader arms its first pull, which fires write-readiness
    assert!(matches!(r.poll_next(&mut ch), Poll::Pending));
    // the batch is copied and handed over; completion waits for the next
    // readiness
    assert!(matches!(op1.poll(&mut w, &mut ch), Poll::Pending));
    match r.poll_next(&mut ch) {
        Poll::Ready(chunk) => assert_eq!(chunk, Some(vec![1, 2])),
        Poll::Pending => panic!("first chunk not delivered"),
    }
    // the next pull is armed, which completes the first write
    assert!(matches!(r.poll_next(&mut ch), Poll::Pending));
    match op1.poll(&mut w, &mut ch) {
        Poll::Ready((res, rest)) => {
            assert_eq!(res, StreamResult::Complete(1));
            assert_eq!(rest.remaining(), 0);
        }
        Poll::Pending => panic!("first write never completed"),
    }

    let mut op2 = w.write(vec![3]);
    // the pull is already armed: the batch goes out at once, completion
    // again waits for the next readiness
    assert!(matches!(op2.poll(&mut w, &mut ch), Poll::Pending));
    match r.poll_next(&mut ch) {
        Poll::Ready(chunk) => assert_eq!(chunk, Some(vec![3])),
        Poll::Pending => panic!("second chunk not delivered"),
    }

    // the writer goes away; the reader's next pull observes the end
    w.close(&mut ch);
    assert!(matches!(r.poll_next(&mut ch), Poll::Pending));
    match r.poll_next(&mut ch) {
        Poll::Ready(chunk) => assert_eq!(chunk, None),
        Poll::Pending => panic!("end of sequence not observed"),
    }
}

#[test]
fn stream_empty_batch_completes_without_suspension() {
    let (mut w, _r, mut ch) = stream_new::<i32>(1, StreamVtable { elem_size: 2048 });
    let mut op = w.write(Vec::new());
    match op.poll(&mut w, &mut ch) {
        Poll::Ready((res, rest)) => {
            assert_eq!(res, StreamResult::Complete(1));
            assert_eq!(rest.remaining(), 0);
        }
        Poll::Pending => panic!("empty batch suspended"),
    }
}

#[test]
fn stream_empty_result_ends_sequence() {
    let (w, mut r, mut ch) = stream_new::<i32>(1, StreamVtable { elem_size: 2048 });
    assert!(matches!(r.poll_next(&mut ch), Poll::Pending));
    // a handed-over result of size zero reads as the end of the
    // sequence, not as an empty chunk
    w.start_send(&mut ch, Vec::new());
    match r.poll_next(&mut ch) {
        Poll::Ready(chunk) => assert_eq!(chunk, None),
        Poll::Pending => panic!("empty result did not end the sequence"),
    }
}

#[test]
fn stream_batch_at_full_capacity_accepted() {
    let (w, mut r, mut ch) = stream_new::<i32>(1, StreamVtable { elem_size: 2048 });
    // a cap-2 buffer is pending once the reader arms its pull; a batch
    // of exactly the capacity is the accepted boundary — one item more
    // is the fatal capacity violation the contract rules out
    assert!(matches!(r.poll_next(&mut ch), Poll::Pending));
    w.start_send(&mut ch, vec![1, 2]);
    match r.poll_next(&mut ch) {
        Poll::Ready(chunk) => assert_eq!(chunk, Some(vec![1, 2])),
        Poll::Pending => panic!("full-capacity batch not delivered"),
    }
}

#[test]
fn stream_reader_drop_unblocks_writer() {
    let (mut w, r, mut ch) = stream_new::<i32>(1, StreamVtable { elem_size: 2048 });
    let mut op = w.write(vec![5]);
    // suspended waiting for write-readiness
    assert!(matches!(op.poll(&mut w, &mut ch), Poll::Pending));
    // dropping the reader activates write-readiness
    r.release(&mut ch);
    match op.poll(&mut w, &mut ch) {
        Poll::Ready((res, rest)) => {
            assert_eq!(res, StreamResult::Dropped);
            assert_eq!(rest.remaining(), 1);
            assert_eq!(rest.into_items(), vec![5]);
        }
        Poll::Pending => panic!("writer still stuck after reader drop"),
    }
}

#[test]
fn stream_cancel_needs_pull_in_flight() {
    let (mut w, mut r, mut ch) = stream_new::<i32>(1, StreamVtable { elem_size: 2048 });
    // with no pull in flight, canceling is the documented fatal usage
    // error; the contract rules it out, observable here as no held
    // subscription
    assert!(r.sub.is_none());
    assert!(matches!(r.poll_next(&mut ch), Poll::Pending));
    // with a pull in flight, cancel discards it and reclaims the buffer
    assert!(r.sub.is_some());
    r.cancel(&mut ch);
    assert!(r.sub.is_none());
    assert!(ch.is_idle());
    // the sequence is restartable: a fresh pull still delivers
    let mut op = w.write(vec![6]);
    assert!(matches!(op.poll(&mut w, &mut ch), Poll::Pending));
    assert!(matches!(r.poll_next(&mut ch), Poll::Pending));
    assert!(matches!(op.poll(&mut w, &mut ch), Poll::Pending));
    match r.poll_next(&mut ch) {
        Poll::Ready(chunk) => assert_eq!(chunk, Some(vec![6])),
        Poll::Pending => panic!("pull after cancel not delivered"),
    }
}

#[test]
fn stream_writer_cancel_discards_wait() {
    let (mut w, _r, mut ch) = stream_new::<i32>(1, StreamVtable { elem_size: 2048 });
    assert!(matches!(w.poll_ready(&mut ch), Poll::Pending));
    assert!(w.sub.is_some());
    w.cancel();
    assert!(w.sub.is_none());
}

#[test]
fn stream_read_with_caller_buffer() {
    let (mut w, mut r, mut ch) = stream_new::<i32>(2, StreamVtable { elem_size: 2048 });
    let mut pull = r.read(vec![0]);
    assert!(matches!(pull.poll(&mut r, &mut ch), Poll::Pending));
    let mut op = w.write(vec![8, 9]);
    assert!(matches!(op.poll(&mut w, &mut ch), Poll::Pending));
    match pull.poll(&mut r, &mut ch) {
        Poll::Ready((res, collected)) => {
            assert_eq!(res, StreamResult::Complete(2));
            assert_eq!(collected, vec![0, 8, 9]);
        }
        Poll::Pending => panic!("pull not completed"),
    }
}

#[test]
fn stream_handles() {
    let (w, r, mut ch) = stream_new::<i32>(9, StreamVtable { elem_size: 1 });
    assert_eq!(r.take_handle(), 9);
    assert_eq!(r.into_handle(), 9);
    assert_eq!(w.handle.id, 9);
    assert!(!ch.is_ready_to_write());
    assert!(!ch.is_write_closed());
    w.close(&mut ch);
    assert!(ch.is_write_closed());
}

#[test]
fn ceiling_values() {
    assert_eq!(ceiling(4096, 2048), 2);
    assert_eq!(ceiling(4096, 4096), 1);
    assert_eq!(ceiling(4096, 3), 1366);
    assert_eq!(ceiling(0, 5), 0);
    assert_eq!(ceiling(1, 4096), 1);
    assert_eq!(ceiling(4097, 4096), 2);
}

#[test]
fn buffer_transfer_unit() {
    let mut b = Buffer::<i32>::new(3);
    assert_eq!(b.capacity(), 3);
    assert_eq!(b.size(), 0);
    b.push(10);
    b.push(20);
    assert_eq!(b.size(), 2);
    assert_eq!(b.into_items(), vec![10, 20]);
}

#[test]
fn subscription_edges() {
    let mut ch = ChannelState::<i32>::new(4);
    let ws = ch.write_ready_subscribe();
    let rs = ch.read_ready_subscribe();
    assert!(!ws.is_fired(&ch));
    ch.write_ready_activate();
    assert!(ws.is_fired(&ch));
    ws.reset(&mut ch);
    assert!(!ws.is_fired(&ch));
    // supplying a read buffer fires the write edge; the handoff back
    // fires the read edge
    ch.start_reading(Buffer::new(1));
    assert!(ws.is_fired(&ch));
    let mut buf = ch.start_writing();
    buf.push(5);
    ch.finish_writing(Some(buf));
    assert!(rs.is_fired(&ch));
    let got = match ch.read_result() {
        Some(b) => b,
        None => panic!("result buffer missing"),
    };
    assert_eq!(got.into_items(), vec![5]);
}
