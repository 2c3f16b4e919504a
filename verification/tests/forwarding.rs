use ssh_forwarder::Client;
use ssh_forwarder::ConnectOutcome;
use ssh_forwarder::ConnectionTask;
use ssh_forwarder::Credentials;
use ssh_forwarder::DisconnectReason;
use ssh_forwarder::ForwardError;
use ssh_forwarder::ForwardTarget;
use ssh_forwarder::InboundPush;
use ssh_forwarder::Initiator;
use ssh_forwarder::KeepAlive;
use ssh_forwarder::ListenReply;
use ssh_forwarder::ListenState;
use ssh_forwarder::ListenerHandle;
use ssh_forwarder::LocalAction;
use ssh_forwarder::LocalEvent;
use ssh_forwarder::LocalForwarder;
use ssh_forwarder::OpenRequest;
use ssh_forwarder::Origin;
use ssh_forwarder::PipeAction;
use ssh_forwarder::PipeEnd;
use ssh_forwarder::PipeEvent;
use ssh_forwarder::PortForwarder;
use ssh_forwarder::RemoteAction;
use ssh_forwarder::RemoteEvent;
use ssh_forwarder::RemoteForwarder;
use ssh_forwarder::RemoteState;
use ssh_forwarder::Reply;
use ssh_forwarder::Session;
use ssh_forwarder::Side;
use ssh_forwarder::StopPlan;

fn port_forwarder(local_addr: &str, remote_ip: &str, remote_port: u32) -> PortForwarder {
    PortForwarder::new(
        "gateway.example:22".to_string(),
        "alice".to_string(),
        "secret".to_string(),
        local_addr.to_string(),
        remote_ip.to_string(),
        remote_port,
        ConnectOutcome::Authenticated,
    )
    .ok()
    .unwrap()
}

fn session(keepalive: KeepAlive) -> Session {
    Session::connect(
        "gateway.example:22".to_string(),
        Credentials::new("alice".to_string(), "secret".to_string()),
        keepalive,
        ConnectOutcome::Authenticated,
    )
    .ok()
    .unwrap()
}

fn listening_local() -> LocalForwarder {
    let mut forwarder = port_forwarder("127.0.0.1:9000", "10.0.0.5", 80).local_forward();
    assert_eq!(forwarder.bind(true), Ok(()));
    forwarder
}

fn listening_remote() -> RemoteForwarder {
    let mut forwarder = port_forwarder("127.0.0.1:3000", "0.0.0.0", 2222).remote_forward();
    assert!(forwarder.start(ListenReply::Bound(0)).is_ok());
    forwarder
}

fn client_at(port: u32) -> Origin {
    Origin::new("127.0.0.1".to_string(), port)
}

fn web() -> ForwardTarget {
    ForwardTarget::new("10.0.0.5".to_string(), 80)
}

fn pushed_on(port: u32) -> InboundPush {
    InboundPush {
        connected: ForwardTarget::new("0.0.0.0".to_string(), port),
        origin: Origin::new("198.51.100.4".to_string(), 40123),
    }
}

fn relayed(action: LocalAction) -> ConnectionTask {
    match action {
        LocalAction::Relay(task) => task,
        other => panic!("no relay: {:?}", other),
    }
}

fn connect_asked(action: RemoteAction) -> (String, ssh_forwarder::LogicalStream) {
    match action {
        RemoteAction::Connect(addr, stream) => (addr, stream),
        other => panic!("no connect: {:?}", other),
    }
}

#[test]
fn local_forward_starts_unbound_with_the_forwarder_s_addresses() {
    let forwarder = port_forwarder("127.0.0.1:9000", "10.0.0.5", 80).local_forward();
    assert_eq!(forwarder.state(), ListenState::Idle);
    assert_eq!(forwarder.local_addr(), "127.0.0.1:9000");
    assert_eq!(forwarder.target(), &web());
    assert!(forwarder.session().is_connected());
}

#[test]
fn local_forward_relays_a_client_to_the_remote_target() {
    let mut forwarder = port_forwarder("127.0.0.1:9000", "10.0.0.5", 80).local_forward();
    assert_eq!(forwarder.bind(true), Ok(()));
    assert_eq!(forwarder.state(), ListenState::Listening);

    let asked = forwarder.run(LocalEvent::Accepted(client_at(51000)));
    assert_eq!(
        asked,
        LocalAction::Open(OpenRequest { target: web(), origin: client_at(51000) })
    );
    let request = match asked {
        LocalAction::Open(request) => request,
        _ => unreachable!(),
    };
    let mut task = relayed(forwarder.run(LocalEvent::Opened(request, Reply::Granted)));
    assert_eq!(task.stream().initiator(), Initiator::Local);
    assert_eq!(task.stream().target(), &web());
    assert_eq!(task.stream().origin(), &client_at(51000));

    let socket = ConnectionTask::socket_side();
    let stream = ConnectionTask::stream_side();
    assert_eq!(
        task.step(PipeEvent::Data(socket, b"GET / HTTP/1.0\r\n".to_vec())),
        PipeAction::Write(stream, b"GET / HTTP/1.0\r\n".to_vec())
    );
    assert_eq!(
        task.step(PipeEvent::Data(socket, b"\r\n".to_vec())),
        PipeAction::Write(stream, b"\r\n".to_vec())
    );
    assert_eq!(
        task.step(PipeEvent::Data(stream, b"HTTP/1.0 200 OK\r\n".to_vec())),
        PipeAction::Write(socket, b"HTTP/1.0 200 OK\r\n".to_vec())
    );
    assert_eq!(task.outcome(), None);

    assert_eq!(task.step(PipeEvent::Eof(socket)), PipeAction::Shutdown(PipeEnd::Eof(socket)));
    assert_eq!(task.ended(), Some(PipeEnd::Eof(socket)));
    assert_eq!(task.outcome(), Some(Ok(())));
    assert_eq!(task.step(PipeEvent::Data(stream, vec![1])), PipeAction::Idle);
    assert_eq!(forwarder.state(), ListenState::Listening);
}

#[test]
fn failed_bind_is_a_bind_error_and_stops_the_forwarder() {
    let mut forwarder = port_forwarder("127.0.0.1:9000", "10.0.0.5", 80).local_forward();
    assert_eq!(forwarder.bind(false), Err(ForwardError::Bind));
    assert_eq!(forwarder.state(), ListenState::Stopped);
    assert_eq!(forwarder.bind(true), Err(ForwardError::Bind));
    assert_eq!(forwarder.state(), ListenState::Stopped);
    assert_eq!(forwarder.run(LocalEvent::Accepted(client_at(51000))), LocalAction::Stop(None));
}

#[test]
fn forwarder_binds_once() {
    let mut forwarder = listening_local();
    assert_eq!(forwarder.bind(true), Err(ForwardError::Bind));
    assert_eq!(forwarder.state(), ListenState::Listening);
    assert_eq!(forwarder.bind(false), Err(ForwardError::Bind));
    assert_eq!(forwarder.state(), ListenState::Listening);
}

#[test]
fn unbound_forwarder_accepts_nothing() {
    let mut forwarder = port_forwarder("127.0.0.1:9000", "10.0.0.5", 80).local_forward();
    assert_eq!(forwarder.run(LocalEvent::Accepted(client_at(51000))), LocalAction::Stop(None));
    assert_eq!(forwarder.run(LocalEvent::AcceptFailed), LocalAction::Stop(None));
    assert_eq!(forwarder.state(), ListenState::Idle);
}

#[test]
fn refused_stream_closes_one_connection_and_the_next_is_relayed() {
    let mut forwarder = listening_local();
    let first = OpenRequest { target: web(), origin: client_at(51000) };
    assert_eq!(
        forwarder.run(LocalEvent::Opened(first, Reply::Refused)),
        LocalAction::Close(ForwardError::Open)
    );
    assert_eq!(forwarder.state(), ListenState::Listening);
    assert!(forwarder.session().is_connected());

    assert_eq!(
        forwarder.run(LocalEvent::Accepted(client_at(51001))),
        LocalAction::Open(OpenRequest { target: web(), origin: client_at(51001) })
    );
    let second = OpenRequest { target: web(), origin: client_at(51001) };
    let mut task = relayed(forwarder.run(LocalEvent::Opened(second, Reply::Granted)));
    assert_eq!(
        task.step(PipeEvent::Data(Side::A, vec![1, 2, 3])),
        PipeAction::Write(Side::B, vec![1, 2, 3])
    );
}

#[test]
fn failed_accept_does_not_end_the_loop() {
    let mut forwarder = listening_local();
    for _ in 0..10 {
        assert_eq!(forwarder.run(LocalEvent::AcceptFailed), LocalAction::Continue);
    }
    assert_eq!(forwarder.state(), ListenState::Listening);
    assert_eq!(
        forwarder.run(LocalEvent::Accepted(client_at(51000))),
        LocalAction::Open(OpenRequest { target: web(), origin: client_at(51000) })
    );
}

#[test]
fn peer_reset_on_one_connection_leaves_the_others_alone() {
    let mut forwarder = listening_local();
    let first = OpenRequest { target: web(), origin: client_at(51000) };
    let second = OpenRequest { target: web(), origin: client_at(51001) };
    let mut one = relayed(forwarder.run(LocalEvent::Opened(first, Reply::Granted)));
    let mut two = relayed(forwarder.run(LocalEvent::Opened(second, Reply::Granted)));

    assert_eq!(
        one.step(PipeEvent::Failed(Side::B)),
        PipeAction::Shutdown(PipeEnd::Failed(Side::B))
    );
    assert_eq!(one.outcome(), Some(Err(ForwardError::Pipe)));

    assert_eq!(two.outcome(), None);
    assert_eq!(
        two.step(PipeEvent::Data(Side::A, vec![4, 5])),
        PipeAction::Write(Side::B, vec![4, 5])
    );
    assert_eq!(forwarder.state(), ListenState::Listening);
    assert!(forwarder.session().is_connected());
    assert_eq!(
        forwarder.run(LocalEvent::Accepted(client_at(51002))),
        LocalAction::Open(OpenRequest { target: web(), origin: client_at(51002) })
    );
}

#[test]
fn lost_transport_on_open_ends_the_local_run() {
    let mut forwarder = listening_local();
    let request = OpenRequest { target: web(), origin: client_at(51000) };
    assert_eq!(
        forwarder.run(LocalEvent::Opened(request, Reply::Lost)),
        LocalAction::Stop(Some(ForwardError::SessionClosed))
    );
    assert_eq!(forwarder.state(), ListenState::Stopped);
    assert!(!forwarder.session().is_connected());
    assert_eq!(
        forwarder.run(LocalEvent::Accepted(client_at(51001))),
        LocalAction::Stop(Some(ForwardError::SessionClosed))
    );
    let late = OpenRequest { target: web(), origin: client_at(51002) };
    assert_eq!(
        forwarder.run(LocalEvent::Opened(late, Reply::Granted)),
        LocalAction::Stop(Some(ForwardError::SessionClosed))
    );
}

#[test]
fn reported_loss_of_transport_ends_the_local_run() {
    let mut forwarder = listening_local();
    assert_eq!(
        forwarder.run(LocalEvent::Lost),
        LocalAction::Stop(Some(ForwardError::SessionClosed))
    );
    assert_eq!(forwarder.state(), ListenState::Stopped);
    assert!(!forwarder.session().is_connected());
}

#[test]
fn unanswered_probes_end_the_local_run() {
    let mut forwarder = listening_local();
    assert_eq!(forwarder.run(LocalEvent::Probe(false)), LocalAction::Continue);
    assert_eq!(forwarder.run(LocalEvent::Probe(false)), LocalAction::Continue);
    assert_eq!(forwarder.run(LocalEvent::Probe(false)), LocalAction::Continue);
    assert_eq!(
        forwarder.run(LocalEvent::Probe(false)),
        LocalAction::Stop(Some(ForwardError::SessionClosed))
    );
    assert_eq!(forwarder.state(), ListenState::Stopped);
    assert_eq!(
        forwarder.run(LocalEvent::Accepted(client_at(51000))),
        LocalAction::Stop(Some(ForwardError::SessionClosed))
    );
}

#[test]
fn answered_probes_keep_the_local_run_going() {
    let mut forwarder = listening_local();
    for _ in 0..20 {
        assert_eq!(forwarder.run(LocalEvent::Probe(false)), LocalAction::Continue);
        assert_eq!(forwarder.run(LocalEvent::Probe(true)), LocalAction::Continue);
    }
    assert_eq!(forwarder.state(), ListenState::Listening);
}

#[test]
fn shutdown_stops_accepting_and_lets_open_streams_through() {
    let mut forwarder = listening_local();
    assert_eq!(forwarder.run(LocalEvent::Shutdown), LocalAction::Stop(None));
    assert_eq!(forwarder.state(), ListenState::Stopped);
    assert!(forwarder.session().is_connected());
    assert_eq!(forwarder.run(LocalEvent::Accepted(client_at(51000))), LocalAction::Stop(None));
    assert_eq!(forwarder.run(LocalEvent::AcceptFailed), LocalAction::Stop(None));
    assert_eq!(forwarder.run(LocalEvent::Probe(true)), LocalAction::Stop(None));
    let pending = OpenRequest { target: web(), origin: client_at(51000) };
    let task = relayed(forwarder.run(LocalEvent::Opened(pending, Reply::Granted)));
    assert_eq!(task.outcome(), None);
}

#[test]
fn local_forwarder_on_a_closed_session_stops_at_once() {
    let mut closed = session(KeepAlive::default());
    closed.transport_lost();
    let mut forwarder = LocalForwarder::new(closed, "127.0.0.1:9000".to_string(), web());
    assert_eq!(forwarder.bind(true), Ok(()));
    assert_eq!(
        forwarder.run(LocalEvent::Accepted(client_at(51000))),
        LocalAction::Stop(Some(ForwardError::SessionClosed))
    );
    assert_eq!(forwarder.state(), ListenState::Stopped);
}

#[test]
fn remote_forward_starts_idle_with_the_forwarder_s_addresses() {
    let forwarder = port_forwarder("127.0.0.1:3000", "0.0.0.0", 2222).remote_forward();
    assert_eq!(forwarder.state(), &RemoteState::Idle);
    assert_eq!(forwarder.local(), "127.0.0.1:3000");
    assert_eq!(forwarder.bind(), &ForwardTarget::new("0.0.0.0".to_string(), 2222));
    assert!(forwarder.session().is_connected());
}

#[test]
fn remote_forward_relays_a_pushed_stream_to_the_local_target() {
    let mut forwarder = port_forwarder("127.0.0.1:3000", "0.0.0.0", 2222).remote_forward();
    assert_eq!(forwarder.request(), Ok(ForwardTarget::new("0.0.0.0".to_string(), 2222)));
    let handle = forwarder.start(ListenReply::Bound(0)).unwrap();
    assert_eq!(handle, ListenerHandle { host: "0.0.0.0".to_string(), port: 2222 });
    assert_eq!(forwarder.state(), &RemoteState::Listening(handle));

    let (addr, stream) = connect_asked(forwarder.run(RemoteEvent::Inbound(pushed_on(2222))));
    assert_eq!(addr, "127.0.0.1:3000");
    assert_eq!(stream.initiator(), Initiator::Remote);
    assert_eq!(stream.origin(), &Origin::new("198.51.100.4".to_string(), 40123));

    let mut task = match forwarder.run(RemoteEvent::Connected(stream)) {
        RemoteAction::Relay(task) => task,
        other => panic!("no relay: {:?}", other),
    };
    let socket = ConnectionTask::socket_side();
    let stream = ConnectionTask::stream_side();
    assert_eq!(
        task.step(PipeEvent::Data(stream, b"hello ".to_vec())),
        PipeAction::Write(socket, b"hello ".to_vec())
    );
    assert_eq!(
        task.step(PipeEvent::Data(stream, b"world".to_vec())),
        PipeAction::Write(socket, b"world".to_vec())
    );
    assert_eq!(task.step(PipeEvent::Eof(stream)), PipeAction::Shutdown(PipeEnd::Eof(stream)));
    assert_eq!(task.outcome(), Some(Ok(())));
}

#[test]
fn remote_forward_on_an_ephemeral_port_uses_the_port_the_peer_chose() {
    let mut forwarder = port_forwarder("127.0.0.1:3000", "0.0.0.0", 0).remote_forward();
    let handle = forwarder.start(ListenReply::Bound(45678)).unwrap();
    assert_eq!(handle.port, 45678);
    assert!(matches!(
        forwarder.run(RemoteEvent::Inbound(pushed_on(45678))),
        RemoteAction::Connect(_, _)
    ));
    assert_eq!(
        forwarder.run(RemoteEvent::Inbound(pushed_on(2222))),
        RemoteAction::Close(ForwardError::Open)
    );
}

#[test]
fn refused_listener_is_an_open_error_and_stops_the_forwarder() {
    let mut forwarder = port_forwarder("127.0.0.1:3000", "0.0.0.0", 2222).remote_forward();
    assert_eq!(forwarder.start(ListenReply::Refused), Err(ForwardError::Open));
    assert_eq!(forwarder.state(), &RemoteState::Stopped);
    assert_eq!(forwarder.request(), Err(ForwardError::Open));
    assert_eq!(forwarder.run(RemoteEvent::Inbound(pushed_on(2222))), RemoteAction::Stop(None));
}

#[test]
fn lost_transport_at_start_is_session_closed() {
    let mut forwarder = port_forwarder("127.0.0.1:3000", "0.0.0.0", 2222).remote_forward();
    assert_eq!(forwarder.start(ListenReply::Lost), Err(ForwardError::SessionClosed));
    assert_eq!(forwarder.state(), &RemoteState::Stopped);
    assert!(!forwarder.session().is_connected());
}

#[test]
fn remote_forwarder_starts_once() {
    let mut forwarder = listening_remote();
    assert_eq!(forwarder.request(), Err(ForwardError::Open));
    assert_eq!(forwarder.start(ListenReply::Bound(0)), Err(ForwardError::Open));
    assert!(matches!(forwarder.state(), RemoteState::Listening(_)));
}

#[test]
fn remote_forwarder_on_a_closed_session_asks_nothing() {
    let mut closed = session(KeepAlive::default());
    closed.transport_lost();
    let mut forwarder = RemoteForwarder::new(
        closed,
        Client::new("127.0.0.1:3000".to_string()),
        ForwardTarget::new("0.0.0.0".to_string(), 2222),
    );
    assert_eq!(forwarder.request(), Err(ForwardError::SessionClosed));
    assert_eq!(forwarder.start(ListenReply::Bound(0)), Err(ForwardError::SessionClosed));
    assert_eq!(forwarder.state(), &RemoteState::Stopped);
}

#[test]
fn idle_remote_forwarder_takes_no_stream() {
    let mut forwarder = port_forwarder("127.0.0.1:3000", "0.0.0.0", 2222).remote_forward();
    assert_eq!(forwarder.run(RemoteEvent::Inbound(pushed_on(2222))), RemoteAction::Stop(None));
    assert_eq!(forwarder.state(), &RemoteState::Idle);
}

#[test]
fn failed_local_connect_closes_one_stream_and_the_next_is_relayed() {
    let mut forwarder = listening_remote();
    let (_, first) = connect_asked(forwarder.run(RemoteEvent::Inbound(pushed_on(2222))));
    assert_eq!(
        forwarder.run(RemoteEvent::ConnectFailed(first)),
        RemoteAction::Close(ForwardError::Pipe)
    );
    assert!(matches!(forwarder.state(), RemoteState::Listening(_)));
    assert!(forwarder.session().is_connected());

    let (addr, second) = connect_asked(forwarder.run(RemoteEvent::Inbound(pushed_on(2222))));
    assert_eq!(addr, "127.0.0.1:3000");
    let mut task = match forwarder.run(RemoteEvent::Connected(second)) {
        RemoteAction::Relay(task) => task,
        other => panic!("no relay: {:?}", other),
    };
    assert_eq!(
        task.step(PipeEvent::Data(Side::B, vec![7, 7])),
        PipeAction::Write(Side::A, vec![7, 7])
    );
}

#[test]
fn stream_pushed_for_another_port_is_closed_and_the_loop_goes_on() {
    let mut forwarder = listening_remote();
    assert_eq!(
        forwarder.run(RemoteEvent::Inbound(pushed_on(8080))),
        RemoteAction::Close(ForwardError::Open)
    );
    assert!(matches!(forwarder.state(), RemoteState::Listening(_)));
    assert!(matches!(
        forwarder.run(RemoteEvent::Inbound(pushed_on(2222))),
        RemoteAction::Connect(_, _)
    ));
}

#[test]
fn stop_cancels_the_listener_and_disconnects() {
    let mut forwarder = listening_remote();
    assert_eq!(
        forwarder.stop(),
        StopPlan {
            cancel: Some(ForwardTarget::new("0.0.0.0".to_string(), 2222)),
            disconnect: Some(DisconnectReason::ByApplication),
        }
    );
    assert_eq!(forwarder.state(), &RemoteState::Stopped);
    assert!(!forwarder.session().is_connected());
    assert_eq!(
        forwarder.run(RemoteEvent::Inbound(pushed_on(2222))),
        RemoteAction::Stop(Some(ForwardError::SessionClosed))
    );
}

#[test]
fn stop_on_an_ephemeral_listener_cancels_the_port_the_peer_chose() {
    let mut forwarder = port_forwarder("127.0.0.1:3000", "0.0.0.0", 0).remote_forward();
    forwarder.start(ListenReply::Bound(45678)).unwrap();
    assert_eq!(
        forwarder.stop(),
        StopPlan {
            cancel: Some(ForwardTarget::new("0.0.0.0".to_string(), 45678)),
            disconnect: Some(DisconnectReason::ByApplication),
        }
    );
}

#[test]
fn stop_can_be_repeated() {
    let mut forwarder = listening_remote();
    forwarder.stop();
    assert_eq!(forwarder.stop(), StopPlan { cancel: None, disconnect: None });
    assert_eq!(forwarder.stop(), StopPlan { cancel: None, disconnect: None });
    assert_eq!(forwarder.state(), &RemoteState::Stopped);
}

#[test]
fn stop_after_the_session_closed_asks_nothing_of_the_peer() {
    let mut forwarder = listening_remote();
    assert_eq!(
        forwarder.run(RemoteEvent::Lost),
        RemoteAction::Stop(Some(ForwardError::SessionClosed))
    );
    assert_eq!(forwarder.stop(), StopPlan { cancel: None, disconnect: None });
    assert_eq!(forwarder.state(), &RemoteState::Stopped);
}

#[test]
fn stop_before_start_only_disconnects() {
    let mut forwarder = port_forwarder("127.0.0.1:3000", "0.0.0.0", 2222).remote_forward();
    assert_eq!(forwarder.stop(), StopPlan { cancel: None, disconnect: Some(DisconnectReason::ByApplication) });
    assert_eq!(forwarder.start(ListenReply::Bound(0)), Err(ForwardError::Open));
}

#[test]
fn unanswered_probes_end_the_remote_run() {
    let mut forwarder = listening_remote();
    assert_eq!(forwarder.run(RemoteEvent::Probe(false)), RemoteAction::Continue);
    assert_eq!(forwarder.run(RemoteEvent::Probe(false)), RemoteAction::Continue);
    assert_eq!(forwarder.run(RemoteEvent::Probe(false)), RemoteAction::Continue);
    assert_eq!(
        forwarder.run(RemoteEvent::Probe(false)),
        RemoteAction::Stop(Some(ForwardError::SessionClosed))
    );
    assert_eq!(forwarder.state(), &RemoteState::Stopped);
    assert_eq!(
        forwarder.run(RemoteEvent::Inbound(pushed_on(2222))),
        RemoteAction::Stop(Some(ForwardError::SessionClosed))
    );
}

#[test]
fn streams_in_progress_are_relayed_after_stop() {
    let mut forwarder = listening_remote();
    let (_, stream) = connect_asked(forwarder.run(RemoteEvent::Inbound(pushed_on(2222))));
    forwarder.stop();
    assert!(matches!(forwarder.run(RemoteEvent::Connected(stream)), RemoteAction::Relay(_)));
}

#[test]
fn task_names_its_two_sides() {
    assert_eq!(ConnectionTask::socket_side(), Side::A);
    assert_eq!(ConnectionTask::stream_side(), Side::B);
    assert_eq!(ConnectionTask::socket_side().other(), ConnectionTask::stream_side());
}
