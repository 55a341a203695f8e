use m5stack_control::echo::{
    Endpoint, Exit, IoEvent, Listener, ListenerAction, ListenerEvent, ListenerPhase, Phase,
    ServerError, Worker, WorkerAction, CHUNK_SIZE, DEFAULT_PORT,
};

/// Feeds `chunks` to a worker as the reads of one connection, completes every
/// write, and returns what was written.
fn echo_all(worker: &mut Worker, chunks: &[&[u8]]) -> Vec<u8> {
    let mut written: Vec<u8> = Vec::new();
    for chunk in chunks {
        match worker.on_event(IoEvent::Read(chunk.to_vec())) {
            WorkerAction::Write(data) => written.extend_from_slice(&data),
            other => panic!("expected a write, got {:?}", other),
        }
        assert_eq!(worker.phase(), Phase::Writing);
        assert_eq!(worker.on_event(IoEvent::Written), WorkerAction::Read { limit: 128 });
        assert_eq!(worker.phase(), Phase::Reading);
    }
    written
}

#[test]
fn limits_are_fixed() {
    assert_eq!(CHUNK_SIZE, 128);
    assert_eq!(DEFAULT_PORT, 8080);
}

#[test]
fn a_worker_starts_by_reading() {
    let (worker, first) = Worker::start();
    assert_eq!(worker.phase(), Phase::Reading);
    assert_eq!(first, WorkerAction::Read { limit: 128 });
}

#[test]
fn a_chunk_is_written_back_unchanged() {
    let (mut worker, _) = Worker::start();
    let action = worker.on_event(IoEvent::Read(b"hello".to_vec()));
    assert_eq!(action, WorkerAction::Write(b"hello".to_vec()));
    assert_eq!(worker.phase(), Phase::Writing);
}

#[test]
fn every_byte_value_is_echoed() {
    let (mut worker, _) = Worker::start();
    let first: Vec<u8> = (0..=127u8).collect();
    let second: Vec<u8> = (128..=255u8).collect();
    let written = echo_all(&mut worker, &[&first, &second]);
    let all: Vec<u8> = (0..=255u8).collect();
    assert_eq!(written, all);
}

#[test]
fn writes_of_up_to_one_chunk_come_back_in_order() {
    let (mut worker, _) = Worker::start();
    let parts: [&[u8]; 4] = [b"a", b"bc", b"", b"defg"];
    let sent: Vec<&[u8]> = parts.iter().copied().filter(|part| !part.is_empty()).collect();
    let written = echo_all(&mut worker, &sent);
    assert_eq!(written, b"abcdefg".to_vec());
}

#[test]
fn a_full_chunk_is_echoed() {
    let (mut worker, _) = Worker::start();
    let chunk = vec![0x5a_u8; 128];
    assert_eq!(worker.on_event(IoEvent::Read(chunk.clone())), WorkerAction::Write(chunk));
}

#[test]
fn a_chunk_over_the_limit_is_a_fault() {
    let (mut worker, _) = Worker::start();
    let action = worker.on_event(IoEvent::Read(vec![0_u8; 129]));
    assert_eq!(action, WorkerAction::Stop(Exit::Fault));
    assert_eq!(worker.phase(), Phase::Stopped(Exit::Fault));
}

#[test]
fn an_empty_read_ends_the_worker_cleanly() {
    let (mut worker, _) = Worker::start();
    assert_eq!(echo_all(&mut worker, &[b"bye"]), b"bye".to_vec());
    assert_eq!(worker.on_event(IoEvent::Read(Vec::new())), WorkerAction::Stop(Exit::PeerClosed));
    assert_eq!(worker.phase(), Phase::Stopped(Exit::PeerClosed));
}

#[test]
fn a_failed_read_is_a_fault() {
    let (mut worker, _) = Worker::start();
    assert_eq!(worker.on_event(IoEvent::ReadFailed), WorkerAction::Stop(Exit::Fault));
    assert_eq!(worker.phase(), Phase::Stopped(Exit::Fault));
}

#[test]
fn a_failed_write_is_a_fault() {
    let (mut worker, _) = Worker::start();
    assert_eq!(
        worker.on_event(IoEvent::Read(b"x".to_vec())),
        WorkerAction::Write(b"x".to_vec())
    );
    assert_eq!(worker.on_event(IoEvent::WriteFailed), WorkerAction::Stop(Exit::Fault));
    assert_eq!(worker.phase(), Phase::Stopped(Exit::Fault));
}

#[test]
fn an_event_out_of_turn_is_a_fault() {
    let (mut worker, _) = Worker::start();
    assert_eq!(worker.on_event(IoEvent::Written), WorkerAction::Stop(Exit::Fault));

    let (mut worker, _) = Worker::start();
    assert_eq!(worker.on_event(IoEvent::WriteFailed), WorkerAction::Stop(Exit::Fault));

    let (mut worker, _) = Worker::start();
    let _ = worker.on_event(IoEvent::Read(b"x".to_vec()));
    assert_eq!(worker.on_event(IoEvent::Read(b"y".to_vec())), WorkerAction::Stop(Exit::Fault));

    let (mut worker, _) = Worker::start();
    let _ = worker.on_event(IoEvent::Read(b"x".to_vec()));
    assert_eq!(worker.on_event(IoEvent::ReadFailed), WorkerAction::Stop(Exit::Fault));
}

#[test]
fn a_stopped_worker_stays_stopped() {
    let (mut worker, _) = Worker::start();
    let _ = worker.on_event(IoEvent::Read(Vec::new()));
    assert_eq!(worker.on_event(IoEvent::Read(b"x".to_vec())), WorkerAction::Stop(Exit::PeerClosed));
    assert_eq!(worker.on_event(IoEvent::Written), WorkerAction::Stop(Exit::PeerClosed));
    assert_eq!(worker.on_event(IoEvent::ReadFailed), WorkerAction::Stop(Exit::PeerClosed));
    assert_eq!(worker.phase(), Phase::Stopped(Exit::PeerClosed));

    let (mut worker, _) = Worker::start();
    let _ = worker.on_event(IoEvent::ReadFailed);
    assert_eq!(worker.on_event(IoEvent::Read(Vec::new())), WorkerAction::Stop(Exit::Fault));
    assert_eq!(worker.phase(), Phase::Stopped(Exit::Fault));
}

#[test]
fn two_clients_each_get_their_own_payload() {
    let (mut first, _) = Worker::start();
    let (mut second, _) = Worker::start();
    let ping = first.on_event(IoEvent::Read(b"ping".to_vec()));
    let pong = second.on_event(IoEvent::Read(b"pong".to_vec()));
    assert_eq!(ping, WorkerAction::Write(b"ping".to_vec()));
    assert_eq!(pong, WorkerAction::Write(b"pong".to_vec()));
    assert_eq!(second.on_event(IoEvent::Written), WorkerAction::Read { limit: 128 });
    assert_eq!(first.on_event(IoEvent::Written), WorkerAction::Read { limit: 128 });
}

#[test]
fn a_second_connection_mid_transfer_disturbs_nothing() {
    let (mut listener, _) = Listener::serve(Endpoint::any(DEFAULT_PORT));
    assert_eq!(listener.on_event(ListenerEvent::Bound), ListenerAction::Accept);

    assert_eq!(listener.on_event(ListenerEvent::Accepted), ListenerAction::SpawnWorker);
    let (mut first, _) = Worker::start();
    assert_eq!(
        first.on_event(IoEvent::Read(b"one-".to_vec())),
        WorkerAction::Write(b"one-".to_vec())
    );

    assert_eq!(listener.on_event(ListenerEvent::Accepted), ListenerAction::SpawnWorker);
    assert_eq!(listener.phase(), ListenerPhase::Listening);
    let (mut second, _) = Worker::start();
    assert_eq!(
        second.on_event(IoEvent::Read(b"two-".to_vec())),
        WorkerAction::Write(b"two-".to_vec())
    );

    assert_eq!(first.phase(), Phase::Writing);
    assert_eq!(first.on_event(IoEvent::Written), WorkerAction::Read { limit: 128 });
    assert_eq!(first.on_event(IoEvent::Read(Vec::new())), WorkerAction::Stop(Exit::PeerClosed));

    assert_eq!(second.on_event(IoEvent::Written), WorkerAction::Read { limit: 128 });
    assert_eq!(echo_all(&mut second, &[b"still", b"here"]), b"stillhere".to_vec());
    assert_eq!(listener.phase(), ListenerPhase::Listening);
}

#[test]
fn a_fault_on_one_connection_leaves_the_other_and_the_listener_alone() {
    let (mut listener, _) = Listener::serve(Endpoint::any(DEFAULT_PORT));
    let _ = listener.on_event(ListenerEvent::Bound);
    let _ = listener.on_event(ListenerEvent::Accepted);
    let _ = listener.on_event(ListenerEvent::Accepted);
    let (mut first, _) = Worker::start();
    let (mut second, _) = Worker::start();
    assert_eq!(first.on_event(IoEvent::ReadFailed), WorkerAction::Stop(Exit::Fault));
    assert_eq!(echo_all(&mut second, &[b"pong"]), b"pong".to_vec());
    assert_eq!(listener.on_event(ListenerEvent::Accepted), ListenerAction::SpawnWorker);
}

#[test]
fn the_listener_binds_first() {
    let endpoint = Endpoint::any(8080);
    assert_eq!(endpoint, Endpoint { address: [0, 0, 0, 0], port: 8080 });
    let (listener, first) = Listener::serve(endpoint);
    assert_eq!(listener.phase(), ListenerPhase::Binding);
    assert_eq!(first, ListenerAction::Bind(endpoint));

    let elsewhere = Endpoint { address: [192, 168, 71, 1], port: 7 };
    let (_, first) = Listener::serve(elsewhere);
    assert_eq!(first, ListenerAction::Bind(elsewhere));
}

#[test]
fn a_failed_bind_is_fatal() {
    let (mut listener, _) = Listener::serve(Endpoint::any(8080));
    assert_eq!(listener.on_event(ListenerEvent::BindFailed), ListenerAction::Fail(ServerError::Bind));
    assert_eq!(listener.phase(), ListenerPhase::Failed(ServerError::Bind));
    assert_eq!(listener.on_event(ListenerEvent::Bound), ListenerAction::Fail(ServerError::Bind));
    assert_eq!(listener.on_event(ListenerEvent::Accepted), ListenerAction::Fail(ServerError::Bind));
}

#[test]
fn a_failed_accept_is_fatal() {
    let (mut listener, _) = Listener::serve(Endpoint::any(8080));
    assert_eq!(listener.on_event(ListenerEvent::Bound), ListenerAction::Accept);
    assert_eq!(listener.on_event(ListenerEvent::Accepted), ListenerAction::SpawnWorker);
    assert_eq!(
        listener.on_event(ListenerEvent::AcceptFailed),
        ListenerAction::Fail(ServerError::Accept)
    );
    assert_eq!(listener.phase(), ListenerPhase::Failed(ServerError::Accept));
    assert_eq!(
        listener.on_event(ListenerEvent::Accepted),
        ListenerAction::Fail(ServerError::Accept)
    );
}

#[test]
fn a_listener_event_out_of_turn_fails_the_outstanding_operation() {
    let (mut listener, _) = Listener::serve(Endpoint::any(8080));
    assert_eq!(listener.on_event(ListenerEvent::Accepted), ListenerAction::Fail(ServerError::Bind));

    let (mut listener, _) = Listener::serve(Endpoint::any(8080));
    assert_eq!(
        listener.on_event(ListenerEvent::AcceptFailed),
        ListenerAction::Fail(ServerError::Bind)
    );

    let (mut listener, _) = Listener::serve(Endpoint::any(8080));
    let _ = listener.on_event(ListenerEvent::Bound);
    assert_eq!(listener.on_event(ListenerEvent::Bound), ListenerAction::Fail(ServerError::Accept));

    let (mut listener, _) = Listener::serve(Endpoint::any(8080));
    let _ = listener.on_event(ListenerEvent::Bound);
    assert_eq!(
        listener.on_event(ListenerEvent::BindFailed),
        ListenerAction::Fail(ServerError::Accept)
    );
}

#[test]
fn a_connection_that_breaks_while_accepted_is_passed_over() {
    let (mut listener, _) = Listener::serve(Endpoint::any(8080));
    let _ = listener.on_event(ListenerEvent::Bound);
    assert_eq!(listener.on_event(ListenerEvent::ConnectionAborted), ListenerAction::Accept);
    assert_eq!(listener.phase(), ListenerPhase::Listening);
    assert_eq!(listener.on_event(ListenerEvent::Accepted), ListenerAction::SpawnWorker);
    assert_eq!(listener.on_event(ListenerEvent::ConnectionAborted), ListenerAction::Accept);
    assert_eq!(listener.on_event(ListenerEvent::Accepted), ListenerAction::SpawnWorker);
    assert_eq!(listener.phase(), ListenerPhase::Listening);
}

#[test]
fn a_broken_connection_before_the_bind_fails_the_bind() {
    let (mut listener, _) = Listener::serve(Endpoint::any(8080));
    assert_eq!(
        listener.on_event(ListenerEvent::ConnectionAborted),
        ListenerAction::Fail(ServerError::Bind)
    );
    assert_eq!(listener.phase(), ListenerPhase::Failed(ServerError::Bind));
}

#[test]
fn the_listener_accepts_without_end() {
    let (mut listener, _) = Listener::serve(Endpoint::any(8080));
    let _ = listener.on_event(ListenerEvent::Bound);
    for _ in 0..10_000 {
        assert_eq!(listener.on_event(ListenerEvent::Accepted), ListenerAction::SpawnWorker);
        assert_eq!(listener.phase(), ListenerPhase::Listening);
    }
}
