//! Message envelopes and the per-iteration decision logic of the connection
//! serve loop.
//!
//! The loop itself races several asynchronous sources (the pipelined dispatch
//! results, the session's push queue, the idle deadline, the ping timer and
//! the cancellation signal). Each time one of them becomes ready, the runtime
//! glue turns it into a [`LoopEvent`] and asks [`serve_step`] what to do:
//! which frame to write, whether to rearm the idle deadline, and whether to
//! stop. All connection policy lives here, where it is verified.

use vstd::prelude::*;

verus! {

/// One transport-level frame exchanged over the stream: a JSON-RPC text
/// payload, or one of the two keep-alive frames.
///
/// Only `Str` frames are ever handed to the dispatcher; `Ping` and `Pong`
/// are keep-alive traffic (see [`request_payload`]).
#[derive(Debug, PartialEq, Eq)]
pub enum StreamMsg {
    Str(String),
    Ping,
    Pong,
}

/// The one readiness event that a loop iteration observed.
///
/// `Pipelined` carries the next item of the concurrency-limited dispatch
/// stream: `None` when the inbound stream is exhausted, `Some(Err(e))` when
/// reading from the transport failed, and `Some(Ok(response))` for a frame
/// that was received successfully (`response` is `None` for notifications
/// and for non-`Str` frames, which are never dispatched).
pub enum LoopEvent<E> {
    Pipelined(Option<Result<Option<String>, E>>),
    Pushed(String),
    IdleElapsed,
    PingTick,
    Cancelled,
}

/// What one loop iteration must do: optionally write a frame to the sink,
/// optionally rearm the idle deadline, and optionally exit with the given
/// overall outcome. The loop performs the write first, then the rearm, then
/// the exit.
pub struct StepResult<E> {
    pub write: Option<StreamMsg>,
    pub rearm_idle: bool,
    pub exit: Option<Result<(), E>>,
}

/// The connection policy: the exact action taken for each event.
///
/// - End of the inbound stream, the idle deadline (when keep-alive is on) and
///   cancellation all end the loop successfully: they are expected lifecycle
///   events, not errors.
/// - A transport read error ends the loop with that error.
/// - A successfully received frame is answered (when the dispatcher produced
///   a response) and counts as liveness: it rearms the idle deadline when
///   keep-alive is on. Push messages do not rearm it.
/// - A push message is written directly, bypassing the dispatcher.
/// - A ping tick (when keep-alive is on) writes a `Ping` frame.
/// - The idle deadline and the ping timer are inert when keep-alive is off.
pub open spec fn step_decision<E>(keep_alive: bool, event: LoopEvent<E>) -> StepResult<E> {
    match event {
        LoopEvent::Pipelined(item) => match item {
            None => StepResult { write: None, rearm_idle: false, exit: Some(Ok(())) },
            Some(Err(e)) => StepResult { write: None, rearm_idle: false, exit: Some(Err(e)) },
            Some(Ok(response)) => StepResult {
                write: match response {
                    Some(payload) => Some(StreamMsg::Str(payload)),
                    None => None,
                },
                rearm_idle: keep_alive,
                exit: None,
            },
        },
        LoopEvent::Pushed(msg) => StepResult {
            write: Some(StreamMsg::Str(msg)),
            rearm_idle: false,
            exit: None,
        },
        LoopEvent::IdleElapsed => StepResult {
            write: None,
            rearm_idle: false,
            exit: if keep_alive {
                Some(Ok(()))
            } else {
                None
            },
        },
        LoopEvent::PingTick => StepResult {
            write: if keep_alive {
                Some(StreamMsg::Ping)
            } else {
                None
            },
            rearm_idle: false,
            exit: None,
        },
        LoopEvent::Cancelled => StepResult { write: None, rearm_idle: false, exit: Some(Ok(())) },
    }
}

/// Decide what one loop iteration does with the event it observed.
pub fn serve_step<E>(keep_alive: bool, event: LoopEvent<E>) -> (r: StepResult<E>)
    ensures
        r == step_decision(keep_alive, event),
{
    match event {
        LoopEvent::Pipelined(item) => match item {
            None => StepResult { write: None, rearm_idle: false, exit: Some(Ok(())) },
            Some(Err(e)) => StepResult { write: None, rearm_idle: false, exit: Some(Err(e)) },
            Some(Ok(response)) => StepResult {
                write: match response {
                    Some(payload) => Some(StreamMsg::Str(payload)),
                    None => None,
                },
                rearm_idle: keep_alive,
                exit: None,
            },
        },
        LoopEvent::Pushed(msg) => StepResult {
            write: Some(StreamMsg::Str(msg)),
            rearm_idle: false,
            exit: None,
        },
        LoopEvent::IdleElapsed => StepResult {
            write: None,
            rearm_idle: false,
            exit: if keep_alive {
                Some(Ok(()))
            } else {
                None
            },
        },
        LoopEvent::PingTick => StepResult {
            write: if keep_alive {
                Some(StreamMsg::Ping)
            } else {
                None
            },
            rearm_idle: false,
            exit: None,
        },
        LoopEvent::Cancelled => StepResult { write: None, rearm_idle: false, exit: Some(Ok(())) },
    }
}

/// Which frames reach the dispatcher: exactly the `Str` frames, which carry
/// their payload through; `Ping` and `Pong` short-circuit to "no response"
/// without ever being dispatched.
pub fn request_payload(msg: StreamMsg) -> (r: Option<String>)
    ensures
        msg matches StreamMsg::Str(payload) ==> r == Some(payload),
        !(msg is Str) ==> r is None,
{
    match msg {
        StreamMsg::Str(payload) => Some(payload),
        StreamMsg::Ping => None,
        StreamMsg::Pong => None,
    }
}

/// Fold the outcome of a sink write into the loop's fate: a successful write
/// lets the loop continue; a write failure is the connection's transport
/// error and stops the loop immediately.
pub fn write_outcome<E>(written: Result<(), E>) -> (exit: Option<Result<(), E>>)
    ensures
        written is Ok ==> exit is None,
        written matches Err(e) ==> exit == Some(Result::<(), E>::Err(e)),
{
    match written {
        Ok(()) => None,
        Err(e) => Some(Err(e)),
    }
}

/// Triggering the cancellation signal ends the loop in that very iteration,
/// successfully and without writing anything further, whatever may still be
/// in flight.
pub proof fn lemma_cancellation_stops_loop<E>(keep_alive: bool)
    ensures
        step_decision::<E>(keep_alive, LoopEvent::Cancelled).exit == Some(Result::<(), E>::Ok(())),
        step_decision::<E>(keep_alive, LoopEvent::Cancelled).write is None,
{
}

/// With keep-alive on, an elapsed idle deadline ends the loop successfully:
/// an idle timeout is a clean, policy-driven close, not an error.
pub proof fn lemma_idle_timeout_is_clean_close<E>()
    ensures
        step_decision::<E>(true, LoopEvent::IdleElapsed).exit == Some(Result::<(), E>::Ok(())),
{
}

/// With keep-alive on, every successfully received inbound frame rearms the
/// idle deadline, whether or not it produced a response: notifications and
/// bare keep-alive frames (`response` is `None`) count as liveness too.
pub proof fn lemma_inbound_frame_rearms_idle<E>(response: Option<String>)
    ensures
        step_decision::<E>(true, LoopEvent::Pipelined(Some(Ok(response)))).rearm_idle,
{
}

/// A transport read error is the loop's outcome, immediately: nothing more
/// is written and the error is handed to the caller unmodified.
pub proof fn lemma_read_error_is_fatal<E>(keep_alive: bool, e: E)
    ensures
        step_decision::<E>(keep_alive, LoopEvent::Pipelined(Some(Err(e)))).exit == Some(
            Result::<(), E>::Err(e),
        ),
        step_decision::<E>(keep_alive, LoopEvent::Pipelined(Some(Err(e)))).write is None,
{
}

/// A push message is written to the sink as a data frame exactly as it was
/// enqueued, bypassing the dispatcher, and never ends the loop. Unlike
/// inbound traffic it is no sign of liveness: it never rearms the idle
/// deadline.
pub proof fn lemma_push_bypasses_dispatch<E>(keep_alive: bool, msg: String)
    ensures
        step_decision::<E>(keep_alive, LoopEvent::Pushed(msg)).write == Some(StreamMsg::Str(msg)),
        step_decision::<E>(keep_alive, LoopEvent::Pushed(msg)).exit is None,
        !step_decision::<E>(keep_alive, LoopEvent::Pushed(msg)).rearm_idle,
{
}

} // verus!
