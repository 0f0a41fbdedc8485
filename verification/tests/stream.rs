use resource_host::error::OpError;
use resource_host::event::{Completion, Started};
use resource_host::stream::{settle_read, settle_write, Stream, WriteDone};

#[test]
fn a_read_fills_the_front_of_the_buffer() {
    assert_eq!(
        settle_read(vec![0, 0, 0, 0], Completion::Done(b"ping".to_vec())),
        Ok((4, b"ping".to_vec()))
    );
    // A short read leaves the rest of the buffer, and its length, alone.
    assert_eq!(
        settle_read(vec![9, 9, 9, 9, 9], Completion::Done(vec![1, 2])),
        Ok((2, vec![1, 2, 9, 9, 9]))
    );
}

#[test]
fn a_read_of_no_bytes_signals_end_of_stream() {
    assert_eq!(
        settle_read(vec![7, 7, 7], Completion::Done(vec![])),
        Ok((0, vec![7, 7, 7]))
    );
    assert_eq!(settle_read(vec![], Completion::Done(vec![])), Ok((0, vec![])));
}

#[test]
fn a_failed_read_is_an_io_error() {
    assert_eq!(settle_read(vec![0; 4], Completion::Failed), Err(OpError::IoError));
    // More bytes than the buffer holds cannot have been read into it.
    assert_eq!(
        settle_read(vec![0; 2], Completion::Done(vec![1, 2, 3])),
        Err(OpError::IoError)
    );
}

#[test]
fn a_write_reports_the_count_of_the_socket() {
    assert_eq!(settle_write(4, Completion::Done(4)), Ok(4));
    assert_eq!(settle_write(4, Completion::Done(3)), Ok(3));
    assert_eq!(settle_write(4, Completion::Done(0)), Ok(0));
    assert_eq!(settle_write(0, Completion::Done(0)), Ok(0));
}

#[test]
fn a_write_never_reports_more_than_was_asked() {
    assert_eq!(settle_write(4, Completion::Done(5)), Err(OpError::IoError));
    assert_eq!(settle_write(0, Completion::Done(1)), Err(OpError::IoError));
    assert_eq!(settle_write(4, Completion::Done(usize::MAX)), Err(OpError::IoError));
    assert_eq!(settle_write(4, Completion::Failed), Err(OpError::IoError));
}

#[test]
fn a_read_on_an_idle_stream_runs_at_once() {
    let mut stream = Stream::new();
    assert_eq!(stream.read(1, vec![0; 4]), Ok(Started::Run));
    let done = stream.read_done(1, Completion::Done(vec![1, 2, 3])).unwrap();
    assert_eq!(done.outcome, Ok((3, vec![1, 2, 3, 0])));
    assert_eq!(done.next, None);
    // It has ended: it cannot end again.
    assert!(stream.read_done(1, Completion::Done(vec![1])).is_none());
}

#[test]
fn a_second_read_waits_and_its_buffer_is_untouched() {
    let mut stream = Stream::new();
    assert_eq!(stream.read(1, vec![0xAA; 4]), Ok(Started::Run));
    assert_eq!(stream.read(2, vec![0xBB; 3]), Ok(Started::Wait));
    // The second read is not in flight: nothing can arrive for it.
    assert!(stream.read_done(2, Completion::Done(vec![1])).is_none());
    // The first ends; only its buffer was written to, and the second starts.
    let done = stream.read_done(1, Completion::Done(b"ab".to_vec())).unwrap();
    assert_eq!(done.outcome, Ok((2, vec![b'a', b'b', 0xAA, 0xAA])));
    assert_eq!(done.next, Some((2, 3)));
    let done = stream.read_done(2, Completion::Done(b"c".to_vec())).unwrap();
    assert_eq!(done.outcome, Ok((1, vec![b'c', 0xBB, 0xBB])));
    assert_eq!(done.next, None);
}

#[test]
fn reads_keep_their_order_of_issue() {
    let mut stream = Stream::new();
    assert_eq!(stream.read(3, vec![0; 1]), Ok(Started::Run));
    assert_eq!(stream.read(1, vec![0; 2]), Ok(Started::Wait));
    assert_eq!(stream.read(2, vec![0; 3]), Ok(Started::Wait));
    assert_eq!(stream.read_done(3, Completion::Failed).unwrap().next, Some((1, 2)));
    assert_eq!(stream.read_done(1, Completion::Failed).unwrap().next, Some((2, 3)));
    assert_eq!(stream.read_done(2, Completion::Failed).unwrap().next, None);
}

#[test]
fn a_failed_read_leaves_the_stream_open() {
    let mut stream = Stream::new();
    stream.read(1, vec![0; 4]).unwrap();
    let done = stream.read_done(1, Completion::Failed).unwrap();
    assert_eq!(done.outcome, Err(OpError::IoError));
    assert!(!stream.is_closed());
    assert_eq!(stream.read(2, vec![0; 4]), Ok(Started::Run));
}

#[test]
fn a_read_and_a_write_run_side_by_side() {
    let mut stream = Stream::new();
    assert_eq!(stream.read(1, vec![0; 4]), Ok(Started::Run));
    assert_eq!(stream.write(2, 4), Started::Run);
    assert_eq!(stream.write(3, 8), Started::Wait);
    assert_eq!(stream.read(4, vec![0; 4]), Ok(Started::Wait));
    // The halves end in either order.
    let wrote = stream.write_done(2, Completion::Done(4)).unwrap();
    assert_eq!(wrote, WriteDone { outcome: Ok(4), next: Some((3, 8)) });
    let read = stream.read_done(1, Completion::Done(vec![5])).unwrap();
    assert_eq!(read.outcome, Ok((1, vec![5, 0, 0, 0])));
    assert_eq!(read.next, Some((4, 4)));
}

#[test]
fn only_the_write_in_flight_can_end() {
    let mut stream = Stream::new();
    assert!(stream.write_done(1, Completion::Done(1)).is_none());
    assert_eq!(stream.write(1, 10), Started::Run);
    assert_eq!(stream.write(2, 20), Started::Wait);
    assert!(stream.write_done(2, Completion::Done(20)).is_none());
    assert_eq!(
        stream.write_done(1, Completion::Done(7)),
        Some(WriteDone { outcome: Ok(7), next: Some((2, 20)) })
    );
    assert_eq!(
        stream.write_done(2, Completion::Done(21)),
        Some(WriteDone { outcome: Err(OpError::IoError), next: None })
    );
}

#[test]
fn close_cancels_the_reads_in_flight_and_waiting() {
    let mut stream = Stream::new();
    stream.read(1, vec![0; 4]).unwrap();
    stream.read(2, vec![0; 4]).unwrap();
    assert_eq!(
        stream.close(),
        vec![(1, OpError::Canceled), (2, OpError::Canceled)]
    );
    assert!(stream.is_closed());
    assert!(stream.is_drained());
    // Bytes that arrive now belong to no read.
    assert!(stream.read_done(1, Completion::Done(vec![1])).is_none());
    assert!(stream.read_done(2, Completion::Done(vec![1])).is_none());
}

#[test]
fn close_lets_the_writes_finish() {
    let mut stream = Stream::new();
    assert_eq!(stream.write(1, 4), Started::Run);
    assert_eq!(stream.write(2, 6), Started::Wait);
    stream.read(3, vec![0; 4]).unwrap();
    assert_eq!(stream.close(), vec![(3, OpError::Canceled)]);
    assert!(stream.is_closed());
    assert!(!stream.is_drained());
    assert_eq!(
        stream.write_done(1, Completion::Done(4)),
        Some(WriteDone { outcome: Ok(4), next: Some((2, 6)) })
    );
    assert!(!stream.is_drained());
    assert_eq!(
        stream.write_done(2, Completion::Done(5)),
        Some(WriteDone { outcome: Ok(5), next: None })
    );
    assert!(stream.is_drained());
}

#[test]
fn a_read_on_a_closed_stream_is_canceled_at_once() {
    let mut stream = Stream::new();
    assert_eq!(stream.close(), vec![]);
    assert_eq!(stream.read(1, vec![0; 4]), Err(OpError::Canceled));
    assert!(stream.read_done(1, Completion::Done(vec![1])).is_none());
    // Closing does not stand in the way of a write.
    assert_eq!(stream.write(2, 3), Started::Run);
    assert_eq!(
        stream.write_done(2, Completion::Done(3)),
        Some(WriteDone { outcome: Ok(3), next: None })
    );
}

#[test]
fn closing_a_stream_twice_changes_nothing_more() {
    let mut stream = Stream::new();
    stream.read(1, vec![0; 4]).unwrap();
    assert_eq!(stream.close(), vec![(1, OpError::Canceled)]);
    assert_eq!(stream.close(), vec![]);
    assert!(stream.is_closed());
}
