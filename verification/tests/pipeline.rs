//! The pipelined dispatch stage: ordering and exactly-once delivery.

use jsonrpc_stream::LoopEvent;
use jsonrpc_stream::Pipeline;
use jsonrpc_stream::StreamMsg;
use jsonrpc_stream::StreamServerConfig;
use jsonrpc_stream::serve_step;

#[test]
fn capacity_one_completes_in_admission_order() {
    // With no pipelining there is never a second request in flight, so each
    // completion is the request that was admitted first.
    let mut p = Pipeline::new(1);
    let mut completed = Vec::new();
    for request in [10u64, 11, 12] {
        assert!(p.has_slot());
        p.accept(request);
        assert!(!p.has_slot());
        completed.push(p.complete(0));
    }
    assert_eq!(completed, vec![10, 11, 12]);
}

#[test]
fn out_of_order_completion_delivers_every_response_exactly_once() {
    // Four requests with distinct artificial delays: completions come in a
    // scrambled order, yet each admitted request is handed out exactly once.
    let mut p = Pipeline::new(4);
    for request in [1u64, 2, 3, 4] {
        assert!(p.has_slot());
        p.accept(request);
    }
    assert!(!p.has_slot());
    let mut completed = Vec::new();
    completed.push(p.complete(2)); // 3
    completed.push(p.complete(0)); // 1
    completed.push(p.complete(1)); // 4
    completed.push(p.complete(0)); // 2
    assert_eq!(p.in_flight_len(), 0);
    completed.sort();
    assert_eq!(completed, vec![1, 2, 3, 4]);
}

#[test]
fn slots_free_up_as_requests_complete() {
    let mut p = Pipeline::new(2);
    p.accept(7);
    p.accept(8);
    assert!(!p.has_slot());
    assert_eq!(p.complete(1), 8);
    assert!(p.has_slot());
    assert_eq!(p.in_flight_len(), 1);
    assert_eq!(p.complete(0), 7);
    assert_eq!(p.in_flight_len(), 0);
}

#[test]
fn two_concurrent_requests_both_answered_then_clean_close() {
    // Configuration with pipelining 4 and a push queue of 4, keep-alive off;
    // an `add` request and a slower `sleep` request are dispatched
    // concurrently. Both responses reach the sink, in whichever order they
    // finish, with no third spurious message; the end of the inbound stream
    // then closes the connection cleanly.
    let config = StreamServerConfig::default()
        .with_channel_size(4)
        .with_pipeline_size(4);
    assert!(!config.keep_alive);

    let mut p = Pipeline::new(config.pipeline_size);
    p.accept(0); // add(1, 2, 3)
    p.accept(1); // sleep(2)
    let responses = ["6".to_string(), "2".to_string()];

    let mut written = Vec::new();
    // The sleep request finishes last: completions arrive as add, sleep.
    for i in [0, 0] {
        let request = p.complete(i);
        let event = LoopEvent::Pipelined(Some(Ok(Some(responses[request as usize].clone()))));
        let step = serve_step::<String>(config.keep_alive, event);
        if let Some(msg) = step.write {
            written.push(msg);
        }
        assert_eq!(step.exit, None);
    }
    let end = serve_step::<String>(config.keep_alive, LoopEvent::Pipelined(None));
    assert_eq!(end.write, None);
    assert_eq!(end.exit, Some(Ok(())));

    assert_eq!(
        written,
        vec![
            StreamMsg::Str("6".to_string()),
            StreamMsg::Str("2".to_string())
        ]
    );

    // The opposite completion order answers both as well, sleep first.
    let mut p = Pipeline::new(config.pipeline_size);
    p.accept(0);
    p.accept(1);
    let mut written = Vec::new();
    for i in [1, 0] {
        let request = p.complete(i);
        let event = LoopEvent::Pipelined(Some(Ok(Some(responses[request as usize].clone()))));
        let step = serve_step::<String>(config.keep_alive, event);
        if let Some(msg) = step.write {
            written.push(msg);
        }
    }
    assert_eq!(
        written,
        vec![
            StreamMsg::Str("2".to_string()),
            StreamMsg::Str("6".to_string())
        ]
    );
}
