use oysterpack_message::aio::{
    client_step, request_outcome, server_start, server_step, AioResult, AioState, ClientAioAction,
    ClientAioEvent, ClientAioState, Delivery, RequestError, ServerAioAction, ServerAioEvent,
};
use oysterpack_message::service::{
    supervise, InstanceGauge, PipeEvent, Registry, ReqRepId, ServerCommand, ServerMetrics,
    StopSignal, SupervisorAction,
};

#[test]
fn server_context_round_trip() {
    let (s, a) = server_start();
    assert_eq!((s, a), (AioState::Recv, ServerAioAction::Recv));
    let (s, a) = server_step(s, ServerAioEvent::Completed { result: AioResult::Done, has_message: true });
    assert_eq!((s, a), (AioState::Recv, ServerAioAction::Forward));
    let (s, a) = server_step(s, ServerAioEvent::ReplyReady);
    assert_eq!((s, a), (AioState::Send, ServerAioAction::Send));
    let (s, a) = server_step(s, ServerAioEvent::Completed { result: AioResult::Done, has_message: false });
    assert_eq!((s, a), (AioState::Recv, ServerAioAction::Recv));
    let (s, a) = server_step(s, ServerAioEvent::Completed { result: AioResult::Closed, has_message: false });
    assert_eq!((s, a), (AioState::Closed, ServerAioAction::Exit));
    assert_eq!(server_step(s, ServerAioEvent::ReplyReady), (AioState::Closed, ServerAioAction::Exit));
}

#[test]
fn server_context_recovers_from_errors() {
    let r = server_step(AioState::Recv, ServerAioEvent::Completed { result: AioResult::Done, has_message: false });
    assert_eq!(r, (AioState::Recv, ServerAioAction::CancelAndRecv));
    let r = server_step(AioState::Recv, ServerAioEvent::Completed { result: AioResult::Failed, has_message: false });
    assert_eq!(r, (AioState::Recv, ServerAioAction::CancelAndRecv));
    assert_eq!(server_step(AioState::Recv, ServerAioEvent::ReplyFailed), (AioState::Recv, ServerAioAction::CancelAndRecv));
    assert_eq!(server_step(AioState::Send, ServerAioEvent::SendRejected), (AioState::Recv, ServerAioAction::CancelAndRecv));
    let r = server_step(AioState::Send, ServerAioEvent::Completed { result: AioResult::Failed, has_message: false });
    assert_eq!(r, (AioState::Recv, ServerAioAction::CancelAndRecv));
    assert_eq!(server_step(AioState::Send, ServerAioEvent::ChannelClosed), (AioState::Closed, ServerAioAction::Exit));
}

#[test]
fn client_context_round_trip_and_errors() {
    let (s, a) = client_step(ClientAioState::Idle, ClientAioEvent::Request { has_message: true });
    assert_eq!((s, a), (ClientAioState::Sending, ClientAioAction::Send));
    let (s, a) = client_step(s, ClientAioEvent::Completed { result: AioResult::Done, has_message: false });
    assert_eq!((s, a), (ClientAioState::Receiving, ClientAioAction::Recv));
    let (s, a) = client_step(s, ClientAioEvent::Completed { result: AioResult::Done, has_message: true });
    assert_eq!((s, a), (ClientAioState::Idle, ClientAioAction::Deliver { outcome: Delivery::Reply, cancel: false }));

    assert_eq!(
        client_step(ClientAioState::Idle, ClientAioEvent::Request { has_message: false }).1,
        ClientAioAction::Deliver { outcome: Delivery::Failure(RequestError::InvalidRequest), cancel: false }
    );
    assert_eq!(
        client_step(ClientAioState::Sending, ClientAioEvent::SendRejected).1,
        ClientAioAction::Deliver { outcome: Delivery::Failure(RequestError::SendFailed), cancel: true }
    );
    assert_eq!(
        client_step(ClientAioState::Receiving, ClientAioEvent::Completed { result: AioResult::Failed, has_message: false }).1,
        ClientAioAction::Deliver { outcome: Delivery::Failure(RequestError::RecvFailed), cancel: true }
    );
    assert_eq!(
        client_step(ClientAioState::Receiving, ClientAioEvent::Completed { result: AioResult::Done, has_message: false }).1,
        ClientAioAction::Deliver { outcome: Delivery::Failure(RequestError::NoReplyMessage), cancel: false }
    );
    assert_eq!(client_step(ClientAioState::Receiving, ClientAioEvent::ChannelClosed), (ClientAioState::Closed, ClientAioAction::Exit));
}

#[test]
fn request_outcomes() {
    assert_eq!(request_outcome(false, true, None), Err(RequestError::NngAioContextPoolChannelDisconnected));
    assert_eq!(request_outcome(true, false, None), Err(RequestError::AioContextChannelDisconnected));
    assert_eq!(request_outcome(true, true, None), Err(RequestError::ReplyChannelClosed));
    assert_eq!(request_outcome(true, true, Some(Ok(()))), Ok(()));
    assert_eq!(request_outcome(true, true, Some(Err(RequestError::SendFailed))), Err(RequestError::SendFailed));
}

#[test]
fn connection_counts_follow_pipe_events() {
    let mut m = ServerMetrics::new(ReqRepId(5));
    for e in [PipeEvent::AddPre, PipeEvent::AddPost, PipeEvent::AddPre, PipeEvent::AddPost, PipeEvent::RemovePost].iter() {
        assert!(m.can_record(*e));
        m.on_pipe_event(*e);
    }
    assert_eq!(m.active_conn_count(), 1);
    assert_eq!(m.tot_conn_count(), 2);
    assert_eq!(m.tot_conn_initiate_count(), 2);
    assert_eq!(m.reqrep_id(), ReqRepId(5));
}

#[test]
fn instance_gauge_counts_live_tasks() {
    let mut g = InstanceGauge::new();
    assert!(g.task_started(1));
    assert!(g.task_started(2));
    assert!(!g.task_started(2));
    assert_eq!(g.get(), 2);
    assert!(g.task_exited(1));
    assert_eq!(g.get(), 1);
    assert!(!g.task_exited(1));
    assert!(g.task_exited(2));
    assert_eq!(g.get(), 0);
}

#[test]
fn registry_insert_get_remove() {
    let mut r: Registry<&str> = Registry::new();
    assert_eq!(r.len(), 0);
    r.insert(1, "a");
    r.insert(2, "b");
    r.insert(1, "c");
    assert_eq!(r.len(), 2);
    assert_eq!(r.get(1), Some(&"c"));
    assert!(r.contains(2));
    let mut keys = r.keys();
    keys.sort();
    assert_eq!(keys, vec![1, 2]);
    assert_eq!(r.remove(1), Some("c"));
    assert_eq!(r.get(1), None);
    assert_eq!(r.remove(1), None);
    assert_eq!(r.keys(), vec![2]);
}

#[test]
fn stop_fires_once_and_supervisor_shuts_down() {
    let mut s = StopSignal::new();
    assert!(!s.stop_signalled());
    assert!(s.stop_async());
    assert!(s.stop_signalled());
    assert!(!s.stop_async());
    assert_eq!(supervise(Some(ServerCommand::Ping)), SupervisorAction::Pong);
    assert_eq!(supervise(Some(ServerCommand::Stop)), SupervisorAction::Shutdown);
    assert_eq!(supervise(None), SupervisorAction::Shutdown);
}
