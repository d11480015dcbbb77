//! The per-iteration decisions of the serve loop.

use jsonrpc_stream::LoopEvent;
use jsonrpc_stream::StreamMsg;
use jsonrpc_stream::request_payload;
use jsonrpc_stream::serve_step;
use jsonrpc_stream::write_outcome;

#[test]
fn stream_exhaustion_ends_loop_cleanly() {
    let r = serve_step::<String>(false, LoopEvent::Pipelined(None));
    assert_eq!(r.write, None);
    assert!(!r.rearm_idle);
    assert_eq!(r.exit, Some(Ok(())));
}

#[test]
fn response_is_written_as_data_frame() {
    let r = serve_step::<String>(
        false,
        LoopEvent::Pipelined(Some(Ok(Some("response".to_string())))),
    );
    assert_eq!(r.write, Some(StreamMsg::Str("response".to_string())));
    assert!(!r.rearm_idle);
    assert_eq!(r.exit, None);
}

#[test]
fn notification_writes_nothing() {
    let r = serve_step::<String>(false, LoopEvent::Pipelined(Some(Ok(None))));
    assert_eq!(r.write, None);
    assert_eq!(r.exit, None);
}

#[test]
fn inbound_frame_rearms_idle_deadline_with_keep_alive() {
    // Any received frame counts as liveness, a dispatched request as much as
    // a bare keep-alive frame that produced no response.
    let with_response = serve_step::<String>(
        true,
        LoopEvent::Pipelined(Some(Ok(Some("response".to_string())))),
    );
    assert!(with_response.rearm_idle);
    let without_response = serve_step::<String>(true, LoopEvent::Pipelined(Some(Ok(None))));
    assert!(without_response.rearm_idle);
}

#[test]
fn inbound_frame_does_not_rearm_without_keep_alive() {
    let r = serve_step::<String>(false, LoopEvent::Pipelined(Some(Ok(None))));
    assert!(!r.rearm_idle);
}

#[test]
fn read_error_is_the_loop_outcome() {
    let r = serve_step::<String>(true, LoopEvent::Pipelined(Some(Err("broken pipe".to_string()))));
    assert_eq!(r.write, None);
    assert_eq!(r.exit, Some(Err("broken pipe".to_string())));
}

#[test]
fn push_message_is_written_directly() {
    // A push message goes to the sink as a data frame and never touches the
    // dispatcher; it does not rearm the idle deadline either.
    let r = serve_step::<String>(true, LoopEvent::Pushed("notification".to_string()));
    assert_eq!(r.write, Some(StreamMsg::Str("notification".to_string())));
    assert!(!r.rearm_idle);
    assert_eq!(r.exit, None);
}

#[test]
fn idle_timeout_closes_cleanly_with_keep_alive() {
    let r = serve_step::<String>(true, LoopEvent::IdleElapsed);
    assert_eq!(r.write, None);
    assert_eq!(r.exit, Some(Ok(())));
}

#[test]
fn idle_deadline_is_inert_without_keep_alive() {
    let r = serve_step::<String>(false, LoopEvent::IdleElapsed);
    assert_eq!(r.write, None);
    assert_eq!(r.exit, None);
}

#[test]
fn ping_tick_writes_ping_with_keep_alive() {
    let r = serve_step::<String>(true, LoopEvent::PingTick);
    assert_eq!(r.write, Some(StreamMsg::Ping));
    assert_eq!(r.exit, None);
}

#[test]
fn ping_timer_is_inert_without_keep_alive() {
    let r = serve_step::<String>(false, LoopEvent::PingTick);
    assert_eq!(r.write, None);
    assert_eq!(r.exit, None);
}

#[test]
fn cancellation_ends_loop_successfully() {
    let r = serve_step::<String>(true, LoopEvent::Cancelled);
    assert_eq!(r.write, None);
    assert_eq!(r.exit, Some(Ok(())));
    let r = serve_step::<String>(false, LoopEvent::Cancelled);
    assert_eq!(r.exit, Some(Ok(())));
}

#[test]
fn only_data_frames_reach_the_dispatcher() {
    assert_eq!(
        request_payload(StreamMsg::Str("{\"method\":\"add\"}".to_string())),
        Some("{\"method\":\"add\"}".to_string())
    );
    assert_eq!(request_payload(StreamMsg::Ping), None);
    assert_eq!(request_payload(StreamMsg::Pong), None);
}

#[test]
fn successful_write_lets_loop_continue() {
    assert_eq!(write_outcome::<String>(Ok(())), None);
}

#[test]
fn sink_write_failure_stops_loop_with_that_error() {
    assert_eq!(
        write_outcome::<String>(Err("connection reset".to_string())),
        Some(Err("connection reset".to_string()))
    );
}
