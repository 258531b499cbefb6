use vsock_incoming::{
    accepted_item, AcceptPoll, HelloRequest, MyGreeter, PeerAddr, StreamPoll,
    VsockConnectInfo, VsockListenerStream, VsockStreamConnectable,
};

type Item = StreamPoll<Result<VsockStreamConnectable<u32>, String>>;

fn expect_handle(item: Item) -> VsockStreamConnectable<u32> {
    match item {
        StreamPoll::Ready(Some(Ok(h))) => h,
        _ => panic!("expected an accepted connection"),
    }
}

#[test]
fn pending_accept_stays_pending() {
    let item: Item = accepted_item(AcceptPoll::Pending);
    assert!(matches!(item, StreamPoll::Pending));
}

#[test]
fn accepted_socket_becomes_handle_with_peer() {
    let h = expect_handle(accepted_item(AcceptPoll::Accepted(7, Some(PeerAddr::new(3, 1234)))));
    assert_eq!(h.inner, 7);
    assert_eq!(
        h.connect_info(),
        VsockConnectInfo { peer_addr: Some(PeerAddr { cid: 3, port: 1234 }) }
    );
}

#[test]
fn unknown_peer_still_emits_connection() {
    let h = expect_handle(accepted_item(AcceptPoll::Accepted(9, None)));
    assert_eq!(h.inner, 9);
    assert_eq!(h.connect_info().peer_addr, None);
}

#[test]
fn accept_failure_is_one_error_item() {
    let item: Item = accepted_item(AcceptPoll::Failed("connection aborted".to_string()));
    match item {
        StreamPoll::Ready(Some(Err(e))) => assert_eq!(e, "connection aborted"),
        _ => panic!("expected one error item"),
    }
}

#[test]
fn stream_goes_on_after_accept_failure() {
    let outcomes: Vec<AcceptPoll<u32, String>> = vec![
        AcceptPoll::Accepted(1, None),
        AcceptPoll::Failed("transient".to_string()),
        AcceptPoll::Pending,
        AcceptPoll::Accepted(2, Some(PeerAddr::new(5, 80))),
    ];
    let mut errors = 0;
    let mut sockets = Vec::new();
    let mut pending = 0;
    for o in outcomes {
        match accepted_item(o) {
            StreamPoll::Pending => pending += 1,
            StreamPoll::Ready(None) => panic!("the stream must not end"),
            StreamPoll::Ready(Some(Err(_))) => errors += 1,
            StreamPoll::Ready(Some(Ok(h))) => sockets.push(h.inner),
        }
    }
    assert_eq!(errors, 1);
    assert_eq!(pending, 1);
    assert_eq!(sockets, vec![1, 2]);
}

#[test]
fn emits_each_accepted_connection_in_order() {
    let n: u32 = 5;
    let mut emitted = Vec::new();
    for i in 0..n {
        let h = expect_handle(accepted_item(AcceptPoll::Accepted(100 + i, Some(PeerAddr::new(i, 8000)))));
        emitted.push((h.inner, h.connect_info().peer_addr));
    }
    assert_eq!(emitted.len(), 5);
    for (i, (sock, peer)) in emitted.iter().enumerate() {
        assert_eq!(*sock, 100 + i as u32);
        assert_eq!(*peer, Some(PeerAddr::new(i as u32, 8000)));
    }
}

#[test]
fn connect_info_is_fixed_across_io() {
    let mut h = VsockStreamConnectable::new(Vec::<u8>::new(), Some(PeerAddr::new(2, 9000)));
    let first = h.connect_info();
    h.inner.extend_from_slice(b"ping");
    h.inner.clear();
    h.inner.extend_from_slice(b"pong");
    assert_eq!(h.connect_info(), first);
    assert_eq!(h.connect_info(), h.connect_info());
    let (sock, peer) = h.into_parts();
    assert_eq!(sock, b"pong".to_vec());
    assert_eq!(peer, Some(PeerAddr { cid: 2, port: 9000 }));
}

#[test]
fn listener_stream_owns_listener() {
    let s = VsockListenerStream::new(42u64);
    assert_eq!(s.inner, 42);
}

#[test]
fn greeter_replies_with_name() {
    let g = MyGreeter::default();
    let r = g.say_hello(HelloRequest { name: "My name".to_string() });
    assert_eq!(r.message, "Hello My name");
}

#[test]
fn greeter_replies_to_empty_name() {
    let g = MyGreeter {};
    let r = g.say_hello(HelloRequest { name: String::new() });
    assert_eq!(r.message, "Hello ");
}
