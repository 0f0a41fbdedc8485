use resource_host::error::OpError;
use resource_host::event::{Completion, Started};
use resource_host::ops::{Host, Issued, Op};
use resource_host::stream::WriteDone;

fn host_with_stream() -> Host {
    let mut host = Host::new();
    assert_eq!(host.listen(Completion::Done(())), Ok(0));
    assert_eq!(host.accept(0, 1), Ok(()));
    assert_eq!(host.accepted(0, 1, Completion::Done(())), Some(Ok(1)));
    host
}

#[test]
fn a_new_host_has_no_resource() {
    let host = Host::new();
    assert!(!host.is_open(0));
    assert!(host.can_register());
}

#[test]
fn listen_reports_a_bind_failure_at_once() {
    let mut host = Host::new();
    assert_eq!(host.listen(Completion::Failed), Err(OpError::BindError));
    assert!(!host.is_open(0));
    // No handle was spent on the failure.
    assert_eq!(host.listen(Completion::Done(())), Ok(0));
    assert_eq!(host.listen(Completion::Done(())), Ok(1));
}

#[test]
fn each_accepted_connection_gets_a_fresh_handle() {
    let mut host = Host::new();
    assert_eq!(host.listen(Completion::Done(())), Ok(0));
    assert_eq!(host.accept(0, 10), Ok(()));
    assert_eq!(host.accept(0, 11), Ok(()));
    assert_eq!(host.accepted(0, 11, Completion::Done(())), Some(Ok(1)));
    assert_eq!(host.accepted(0, 10, Completion::Done(())), Some(Ok(2)));
    assert!(host.is_open(1));
    assert!(host.is_open(2));
}

#[test]
fn a_failed_accept_registers_nothing() {
    let mut host = Host::new();
    host.listen(Completion::Done(())).unwrap();
    host.accept(0, 10).unwrap();
    assert_eq!(host.accepted(0, 10, Completion::Failed), Some(Err(OpError::IoError)));
    assert!(!host.is_open(1));
    // The listener stays in the table and the next handle is still 1.
    assert!(host.is_open(0));
    host.accept(0, 11).unwrap();
    assert_eq!(host.accepted(0, 11, Completion::Done(())), Some(Ok(1)));
}

#[test]
fn an_operation_on_a_resource_of_the_other_kind_is_invalid() {
    let mut host = host_with_stream();
    assert_eq!(host.accept(1, 20), Err(OpError::InvalidHandle));
    assert_eq!(host.read(0, 21, vec![0; 4]), Err(OpError::InvalidHandle));
    assert_eq!(host.write(0, 22, 4), Err(OpError::InvalidHandle));
    assert_eq!(host.read_done(0, 21, Completion::Done(vec![1])).map(|d| d.outcome), None);
    assert_eq!(host.write_done(0, 22, Completion::Done(1)), None);
    assert_eq!(host.accepted(1, 20, Completion::Done(())), None);
}

#[test]
fn an_operation_on_an_unknown_handle_is_invalid() {
    let mut host = host_with_stream();
    assert_eq!(host.accept(2, 20), Err(OpError::InvalidHandle));
    assert_eq!(host.read(2, 21, vec![0; 4]), Err(OpError::InvalidHandle));
    assert_eq!(host.write(2, 22, 4), Err(OpError::InvalidHandle));
    assert_eq!(host.close(2), Err(OpError::InvalidHandle));
    assert_eq!(host.close(u32::MAX), Err(OpError::InvalidHandle));
}

#[test]
fn closing_a_listener_cancels_its_pending_accept() {
    let mut host = Host::new();
    host.listen(Completion::Done(())).unwrap();
    host.accept(0, 10).unwrap();
    assert_eq!(host.close(0), Ok(vec![(10, OpError::Canceled)]));
    assert!(!host.is_open(0));
    // A connection that arrives now registers no stream.
    assert_eq!(host.accepted(0, 10, Completion::Done(())), None);
    assert!(!host.is_open(1));
    assert_eq!(host.listen(Completion::Done(())), Ok(1));
}

#[test]
fn closing_a_listener_leaves_its_streams_open() {
    let mut host = host_with_stream();
    assert_eq!(host.close(0), Ok(vec![]));
    assert!(host.is_open(1));
    assert_eq!(host.read(1, 20, vec![0; 2]), Ok(Started::Run));
    let done = host.read_done(1, 20, Completion::Done(vec![1, 2])).unwrap();
    assert_eq!(done.outcome, Ok((2, vec![1, 2])));
}

#[test]
fn closing_a_stream_cancels_its_pending_reads() {
    let mut host = host_with_stream();
    assert_eq!(host.read(1, 20, vec![0; 4]), Ok(Started::Run));
    assert_eq!(host.read(1, 21, vec![0; 4]), Ok(Started::Wait));
    assert_eq!(
        host.close(1),
        Ok(vec![(20, OpError::Canceled), (21, OpError::Canceled)])
    );
    assert_eq!(host.read_done(1, 20, Completion::Done(vec![1])).map(|d| d.outcome), None);
    assert_eq!(host.read(1, 22, vec![0; 4]), Err(OpError::InvalidHandle));
}

#[test]
fn a_write_in_flight_outlives_the_close_of_its_stream() {
    let mut host = host_with_stream();
    assert_eq!(host.write(1, 20, 4), Ok(Started::Run));
    assert_eq!(host.write(1, 21, 9), Ok(Started::Wait));
    assert_eq!(host.read(1, 22, vec![0; 4]), Ok(Started::Run));
    assert_eq!(host.close(1), Ok(vec![(22, OpError::Canceled)]));
    // The handle is invalid at once.
    assert!(!host.is_open(1));
    assert_eq!(host.write(1, 23, 1), Err(OpError::InvalidHandle));
    assert_eq!(host.close(1), Err(OpError::InvalidHandle));
    // The writes that were issued before still end with their true counts.
    assert_eq!(
        host.write_done(1, 20, Completion::Done(4)),
        Some(WriteDone { outcome: Ok(4), next: Some((21, 9)) })
    );
    assert_eq!(
        host.write_done(1, 21, Completion::Done(6)),
        Some(WriteDone { outcome: Ok(6), next: None })
    );
    // The stream has left the table with its last write.
    assert_eq!(host.write_done(1, 21, Completion::Done(6)), None);
}

#[test]
fn closing_one_stream_leaves_the_other() {
    let mut host = host_with_stream();
    host.accept(0, 2).unwrap();
    assert_eq!(host.accepted(0, 2, Completion::Done(())), Some(Ok(2)));
    assert_eq!(host.read(2, 30, vec![0; 1]), Ok(Started::Run));
    assert_eq!(host.close(1), Ok(vec![]));
    assert!(host.is_open(2));
    let done = host.read_done(2, 30, Completion::Done(vec![8])).unwrap();
    assert_eq!(done.outcome, Ok((1, vec![8])));
}

#[test]
fn an_io_error_leaves_the_resource_in_the_table() {
    let mut host = host_with_stream();
    host.read(1, 20, vec![0; 4]).unwrap();
    let done = host.read_done(1, 20, Completion::Failed).unwrap();
    assert_eq!(done.outcome, Err(OpError::IoError));
    host.write(1, 21, 4).unwrap();
    assert_eq!(
        host.write_done(1, 21, Completion::Failed),
        Some(WriteDone { outcome: Err(OpError::IoError), next: None })
    );
    assert!(host.is_open(1));
    assert_eq!(host.close(1), Ok(vec![]));
}

#[test]
fn dispatch_issues_each_of_the_four_operations() {
    let mut host = Host::new();
    assert_eq!(
        host.dispatch(Op::Listen { bound: Completion::Done(()) }),
        Ok(Issued::Listening(0))
    );
    assert_eq!(host.dispatch(Op::Accept { rid: 0, op: 1 }), Ok(Issued::Accepting));
    assert_eq!(host.accepted(0, 1, Completion::Done(())), Some(Ok(1)));
    assert_eq!(
        host.dispatch(Op::Read { rid: 1, op: 2, buf: vec![0; 4] }),
        Ok(Issued::Reading(Started::Run))
    );
    assert_eq!(
        host.dispatch(Op::Read { rid: 1, op: 3, buf: vec![0; 4] }),
        Ok(Issued::Reading(Started::Wait))
    );
    assert_eq!(
        host.dispatch(Op::Write { rid: 1, op: 4, len: 4 }),
        Ok(Issued::Writing(Started::Run))
    );
}

#[test]
fn dispatch_reports_each_failure() {
    let mut host = Host::new();
    assert_eq!(
        host.dispatch(Op::Listen { bound: Completion::Failed }),
        Err(OpError::BindError)
    );
    assert_eq!(host.dispatch(Op::Accept { rid: 0, op: 1 }), Err(OpError::InvalidHandle));
    assert_eq!(
        host.dispatch(Op::Read { rid: 0, op: 2, buf: vec![] }),
        Err(OpError::InvalidHandle)
    );
    assert_eq!(
        host.dispatch(Op::Write { rid: 0, op: 3, len: 0 }),
        Err(OpError::InvalidHandle)
    );
}
