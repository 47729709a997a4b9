use globed_game_server::control::{
    int_to_log_level, settle_enqueue, settle_wait, shutdown_request, status_request,
    ControlError, ControlPlane, FfiMessage, LogLevelFilter, FFI_CHANNEL_SIZE,
    RESPONSE_TIMEOUT_SECS,
};
use globed_game_server::util::{RecvTimeoutError, TrySendError};
use std::time::{Duration, Instant};
use tokio::sync::mpsc::error::TryRecvError;

#[test]
fn log_level_codes() {
    assert_eq!(int_to_log_level(0), LogLevelFilter::Error);
    assert_eq!(int_to_log_level(1), LogLevelFilter::Warn);
    assert_eq!(int_to_log_level(2), LogLevelFilter::Info);
    assert_eq!(int_to_log_level(3), LogLevelFilter::Debug);
    assert_eq!(int_to_log_level(4), LogLevelFilter::Trace);
}

#[test]
fn unknown_log_level_codes_mean_warn() {
    assert_eq!(int_to_log_level(5), LogLevelFilter::Warn);
    assert_eq!(int_to_log_level(-1), LogLevelFilter::Warn);
    assert_eq!(int_to_log_level(i32::MAX), LogLevelFilter::Warn);
    assert_eq!(int_to_log_level(i32::MIN), LogLevelFilter::Warn);
}

#[test]
fn control_constants() {
    assert_eq!(FFI_CHANNEL_SIZE, 8);
    assert_eq!(RESPONSE_TIMEOUT_SECS, 5);
}

#[test]
fn request_messages() {
    assert_eq!(shutdown_request(), FfiMessage::Shutdown);
    assert_eq!(status_request(), FfiMessage::PrintInfo);
}

#[test]
fn nothing_is_handed_over_without_a_server() {
    let plane = ControlPlane::new();
    assert_eq!(plane.plan_request(FfiMessage::Shutdown), None);
    assert_eq!(plane.plan_request(FfiMessage::PrintInfo), None);
    assert_eq!(plane.plan_notify(FfiMessage::PrintInfo), None);
}

#[test]
fn request_hands_over_the_message_and_a_wait_of_five_seconds() {
    let mut plane = ControlPlane::new();
    let _server = plane.open_link();
    assert_eq!(plane.plan_request(FfiMessage::Shutdown), Some((FfiMessage::Shutdown, 5)));
    assert_eq!(plane.plan_request(FfiMessage::PrintInfo), Some((FfiMessage::PrintInfo, 5)));
    assert_eq!(plane.plan_request(FfiMessage::ShutdownAck), Some((FfiMessage::ShutdownAck, 5)));
    assert_eq!(plane.plan_notify(FfiMessage::PrintInfo), Some(FfiMessage::PrintInfo));
    assert_eq!(plane.plan_notify(FfiMessage::Shutdown), Some(FfiMessage::Shutdown));
}

#[test]
fn each_call_enqueues_its_own_message_once() {
    let mut plane = ControlPlane::new();
    let mut server = plane.open_link();
    assert_eq!(plane.handle_req_no_resp(FfiMessage::ShutdownAck), Ok(()));
    assert_eq!(server.up.rx.try_recv(), Ok(FfiMessage::ShutdownAck));
    assert_eq!(server.up.rx.try_recv(), Err(TryRecvError::Empty));

    assert_eq!(plane.print_status(), Ok(()));
    assert_eq!(server.up.rx.try_recv(), Ok(FfiMessage::PrintInfo));
    assert_eq!(server.up.rx.try_recv(), Err(TryRecvError::Empty));

    server.down.send(FfiMessage::PrintInfo).unwrap();
    server.down.send(FfiMessage::ShutdownAck).unwrap();
    assert_eq!(plane.handle_req(FfiMessage::PrintInfo), Ok(FfiMessage::PrintInfo));
    assert_eq!(server.up.rx.try_recv(), Ok(FfiMessage::PrintInfo));
    assert_eq!(server.up.rx.try_recv(), Err(TryRecvError::Empty));

    // one reply was taken by the request, the other is left for the shutdown
    assert_eq!(plane.shutdown(), Ok(()));
    assert_eq!(server.up.rx.try_recv(), Ok(FfiMessage::Shutdown));
    assert_eq!(server.up.rx.try_recv(), Err(TryRecvError::Empty));
}

#[test]
fn failed_calls_enqueue_nothing_and_take_no_reply() {
    let mut plane = ControlPlane::new();
    let mut server = plane.open_link();
    for _ in 0..8 {
        assert_eq!(plane.print_status(), Ok(()));
    }
    server.down.send(FfiMessage::ShutdownAck).unwrap();
    assert_eq!(plane.shutdown(), Err(ControlError::SendFailed));
    assert_eq!(plane.print_status(), Err(ControlError::SendFailed));
    for _ in 0..8 {
        assert_eq!(server.up.rx.try_recv(), Ok(FfiMessage::PrintInfo));
    }
    assert_eq!(server.up.rx.try_recv(), Err(TryRecvError::Empty));
    // the acknowledgement is still there for the shutdown that gets through
    assert_eq!(plane.shutdown(), Ok(()));
}

#[test]
fn host_sends_into_the_channel_the_server_receives_on() {
    let mut plane = ControlPlane::new();
    let mut server = plane.open_link();
    let mut other_plane = ControlPlane::new();
    let mut other_server = other_plane.open_link();
    assert_eq!(plane.print_status(), Ok(()));
    assert_eq!(other_server.up.rx.try_recv(), Err(TryRecvError::Empty));
    assert_eq!(server.up.rx.try_recv(), Ok(FfiMessage::PrintInfo));
}

#[test]
fn withdrawn_link_leaves_no_server() {
    let mut plane = ControlPlane::new();
    let mut server = plane.open_link();
    assert!(plane.is_running());
    plane.withdraw_link();
    assert!(!plane.is_running());
    assert_eq!(plane.print_status(), Err(ControlError::NotRunning));
    assert_eq!(plane.shutdown(), Err(ControlError::NotRunning));
    assert_eq!(server.up.rx.try_recv(), Err(TryRecvError::Empty));
    assert!(server.down.send(FfiMessage::ShutdownAck).is_err());
}

#[test]
fn withdrawing_without_a_server_changes_nothing() {
    let mut plane = ControlPlane::new();
    plane.withdraw_link();
    assert!(!plane.is_running());
    let _server = plane.open_link();
    assert!(plane.is_running());
}

#[test]
fn enqueue_outcomes() {
    assert_eq!(settle_enqueue(Ok(())), Ok(()));
    assert_eq!(
        settle_enqueue(Err(TrySendError::Full(FfiMessage::Shutdown))),
        Err(ControlError::SendFailed)
    );
    assert_eq!(
        settle_enqueue(Err(TrySendError::Closed(FfiMessage::PrintInfo))),
        Err(ControlError::SendFailed)
    );
}

#[test]
fn wait_outcomes() {
    assert_eq!(settle_wait(Ok(FfiMessage::ShutdownAck)), Ok(FfiMessage::ShutdownAck));
    assert_eq!(settle_wait(Ok(FfiMessage::PrintInfo)), Ok(FfiMessage::PrintInfo));
    assert_eq!(settle_wait(Err(RecvTimeoutError::Timeout)), Err(ControlError::NoResponse));
    assert_eq!(settle_wait(Err(RecvTimeoutError::Disconnected)), Err(ControlError::NoResponse));
}

#[test]
fn nothing_runs_before_the_first_start() {
    let mut plane = ControlPlane::new();
    assert!(!plane.is_running());
    assert!(!plane.is_running());
    assert_eq!(plane.print_status(), Err(ControlError::NotRunning));
    assert_eq!(plane.handle_req(FfiMessage::PrintInfo), Err(ControlError::NotRunning));
    assert_eq!(plane.handle_req_no_resp(FfiMessage::Shutdown), Err(ControlError::NotRunning));
    assert_eq!(plane.shutdown(), Err(ControlError::NotRunning));
    assert!(!plane.is_running());
}

#[test]
fn link_towards_the_server_holds_eight_requests() {
    let mut plane = ControlPlane::new();
    let server = plane.open_link();
    assert_eq!(server.up.max_capacity(), 8);
    assert_eq!(server.up.tx.max_capacity(), 8);
    for _ in 0..8 {
        assert_eq!(plane.print_status(), Ok(()));
    }
    assert_eq!(plane.print_status(), Err(ControlError::SendFailed));
    assert_eq!(plane.handle_req(FfiMessage::Shutdown), Err(ControlError::SendFailed));
    assert!(plane.is_running());
}

#[test]
fn start_status_shutdown_and_shutdown_again() {
    let mut plane = ControlPlane::new();
    assert!(!plane.is_running());
    let mut server = plane.open_link();
    assert!(plane.is_running());
    assert_eq!(plane.print_status(), Ok(()));
    assert!(plane.is_running());

    server.down.send(FfiMessage::ShutdownAck).unwrap();
    assert_eq!(plane.shutdown(), Ok(()));
    assert!(!plane.is_running());
    assert_eq!(plane.shutdown(), Err(ControlError::NotRunning));
    assert!(!plane.is_running());

    assert_eq!(server.up.rx.try_recv(), Ok(FfiMessage::PrintInfo));
    assert_eq!(server.up.rx.try_recv(), Ok(FfiMessage::Shutdown));
    assert_eq!(server.up.rx.try_recv(), Err(TryRecvError::Empty));
}

#[test]
fn server_task_acknowledges_shutdown() {
    let mut plane = ControlPlane::new();
    let mut server = plane.open_link();
    let runtime = tokio::runtime::Builder::new_multi_thread().worker_threads(1).build().unwrap();
    let worker = runtime.spawn(async move {
        let mut seen = Vec::new();
        while let Some(msg) = server.up.rx.recv().await {
            seen.push(msg);
            if msg == FfiMessage::Shutdown {
                server.down.send(FfiMessage::ShutdownAck).unwrap();
                break;
            }
        }
        seen
    });
    assert_eq!(plane.print_status(), Ok(()));
    assert_eq!(plane.shutdown(), Ok(()));
    assert!(!plane.is_running());
    let seen = runtime.block_on(worker).unwrap();
    assert_eq!(seen, vec![FfiMessage::PrintInfo, FfiMessage::Shutdown]);
}

#[test]
fn request_returns_the_reply() {
    let mut plane = ControlPlane::new();
    let server = plane.open_link();
    server.down.send(FfiMessage::PrintInfo).unwrap();
    assert_eq!(plane.handle_req(FfiMessage::PrintInfo), Ok(FfiMessage::PrintInfo));
    server.down.send(FfiMessage::ShutdownAck).unwrap();
    assert_eq!(plane.handle_req(FfiMessage::Shutdown), Ok(FfiMessage::ShutdownAck));
    assert!(plane.is_running());
}

#[test]
fn shutdown_needs_the_acknowledgement() {
    let mut plane = ControlPlane::new();
    let server = plane.open_link();
    server.down.send(FfiMessage::PrintInfo).unwrap();
    assert_eq!(plane.shutdown(), Err(ControlError::UnexpectedReply));
    assert!(plane.is_running());
    server.down.send(FfiMessage::Shutdown).unwrap();
    assert_eq!(plane.shutdown(), Err(ControlError::UnexpectedReply));
    assert!(plane.is_running());
    server.down.send(FfiMessage::ShutdownAck).unwrap();
    assert_eq!(plane.shutdown(), Ok(()));
    assert!(!plane.is_running());
}

#[test]
fn finish_shutdown_by_outcome() {
    let mut plane = ControlPlane::new();
    let _server = plane.open_link();
    assert_eq!(plane.finish_shutdown(Err(ControlError::NoResponse)), Err(ControlError::NoResponse));
    assert!(plane.is_running());
    assert_eq!(plane.finish_shutdown(Err(ControlError::SendFailed)), Err(ControlError::SendFailed));
    assert!(plane.is_running());
    assert_eq!(
        plane.finish_shutdown(Ok(FfiMessage::PrintInfo)),
        Err(ControlError::UnexpectedReply)
    );
    assert!(plane.is_running());
    assert_eq!(plane.finish_shutdown(Ok(FfiMessage::ShutdownAck)), Ok(()));
    assert!(!plane.is_running());
    assert_eq!(plane.finish_shutdown(Err(ControlError::NotRunning)), Err(ControlError::NotRunning));
    assert!(!plane.is_running());
}

#[test]
fn server_can_be_started_again_after_shutdown() {
    let mut plane = ControlPlane::new();
    let first = plane.open_link();
    first.down.send(FfiMessage::ShutdownAck).unwrap();
    assert_eq!(plane.shutdown(), Ok(()));
    assert!(!plane.is_running());
    let mut second = plane.open_link();
    assert!(plane.is_running());
    assert_eq!(plane.print_status(), Ok(()));
    assert_eq!(second.up.rx.try_recv(), Ok(FfiMessage::PrintInfo));
}

#[test]
fn requests_to_a_vanished_server_fail_without_waiting() {
    let mut plane = ControlPlane::new();
    let server = plane.open_link();
    drop(server);
    let before = Instant::now();
    assert_eq!(plane.print_status(), Err(ControlError::SendFailed));
    assert_eq!(plane.handle_req(FfiMessage::Shutdown), Err(ControlError::SendFailed));
    assert_eq!(plane.shutdown(), Err(ControlError::SendFailed));
    assert!(before.elapsed() < Duration::from_secs(1));
    assert!(plane.is_running());
}

#[test]
fn request_without_reply_times_out_after_five_seconds() {
    let mut plane = ControlPlane::new();
    let mut server = plane.open_link();
    let before = Instant::now();
    assert_eq!(plane.handle_req(FfiMessage::Shutdown), Err(ControlError::NoResponse));
    let waited = before.elapsed();
    assert!(waited >= Duration::from_secs(5));
    assert!(waited < Duration::from_secs(10));
    assert!(plane.is_running());
    assert_eq!(server.up.rx.try_recv(), Ok(FfiMessage::Shutdown));
}

#[test]
fn late_reply_answers_the_next_request() {
    let mut plane = ControlPlane::new();
    let server = plane.open_link();
    assert_eq!(plane.shutdown(), Err(ControlError::NoResponse));
    assert!(plane.is_running());
    // the acknowledgement of the first request arrives after its caller gave up
    server.down.send(FfiMessage::ShutdownAck).unwrap();
    assert_eq!(plane.handle_req(FfiMessage::PrintInfo), Ok(FfiMessage::ShutdownAck));
    assert!(plane.is_running());
}
