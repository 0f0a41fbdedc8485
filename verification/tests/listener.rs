use resource_host::error::OpError;
use resource_host::event::Completion;
use resource_host::listener::Listener;

#[test]
fn an_accept_ends_with_a_new_open_stream() {
    let mut listener = Listener::new();
    assert!(!listener.is_closed());
    assert_eq!(listener.accept(1), Ok(()));
    match listener.accepted(1, Completion::Done(())) {
        Some(Ok(stream)) => {
            assert!(!stream.is_closed());
            assert!(!stream.is_drained());
        }
        _ => panic!("the accept was pending and the socket answered"),
    }
    // It has ended: it cannot end again.
    assert!(listener.accepted(1, Completion::Done(())).is_none());
}

#[test]
fn a_failed_accept_ends_with_an_io_error() {
    let mut listener = Listener::new();
    assert_eq!(listener.accept(1), Ok(()));
    match listener.accepted(1, Completion::Failed) {
        Some(Err(e)) => assert_eq!(e, OpError::IoError),
        _ => panic!("the accept was pending and the socket failed"),
    }
    // The listener is not closed by that.
    assert_eq!(listener.accept(2), Ok(()));
}

#[test]
fn an_accept_that_is_not_pending_cannot_end() {
    let mut listener = Listener::new();
    assert!(listener.accepted(1, Completion::Done(())).is_none());
    assert_eq!(listener.accept(1), Ok(()));
    assert!(listener.accepted(2, Completion::Done(())).is_none());
}

#[test]
fn several_accepts_can_be_pending() {
    let mut listener = Listener::new();
    assert_eq!(listener.accept(1), Ok(()));
    assert_eq!(listener.accept(2), Ok(()));
    // They end in the order in which connections arrive.
    assert!(matches!(listener.accepted(2, Completion::Done(())), Some(Ok(_))));
    assert!(matches!(listener.accepted(1, Completion::Done(())), Some(Ok(_))));
}

#[test]
fn close_cancels_the_pending_accepts() {
    let mut listener = Listener::new();
    listener.accept(4).unwrap();
    listener.accept(2).unwrap();
    assert_eq!(
        listener.close(),
        vec![(4, OpError::Canceled), (2, OpError::Canceled)]
    );
    assert!(listener.is_closed());
    // A connection that arrives now belongs to no accept.
    assert!(listener.accepted(4, Completion::Done(())).is_none());
    assert!(listener.accepted(2, Completion::Done(())).is_none());
}

#[test]
fn close_without_a_pending_accept_cancels_the_next_one() {
    let mut listener = Listener::new();
    assert_eq!(listener.close(), vec![]);
    assert_eq!(listener.accept(1), Err(OpError::Canceled));
    assert!(listener.accepted(1, Completion::Done(())).is_none());
}

#[test]
fn closing_a_listener_twice_changes_nothing_more() {
    let mut listener = Listener::new();
    listener.accept(1).unwrap();
    assert_eq!(listener.close(), vec![(1, OpError::Canceled)]);
    assert_eq!(listener.close(), vec![]);
    assert!(listener.is_closed());
}
