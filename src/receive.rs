//! One listener's receive loop as a state machine: the caller performs each
//! action (wait for a message, decode the text, run the handler) and reports
//! back what happened as the next event.
use vstd::prelude::*;
use vstd::utf8::{encode_utf8, valid_utf8};
use crate::codec::{payload_text, DecodeError};

verus! {

/// Where a listener's loop stands.
#[derive(Debug, Clone, Copy, PartialEq, Eq, Structural)]
pub enum LoopState {
    /// Suspended until the next message or the end of the subscription.
    Waiting,
    /// A message's text is being decoded into a request.
    Decoding,
    /// The handler runs on a decoded request.
    Handling,
    /// The subscription is exhausted; the loop has ended.
    Closed,
}

/// What happened since the last action.
pub enum LoopEvent<T> {
    /// A message arrived with this payload.
    Delivered(Vec<u8>),
    /// The subscription reported that no message will follow.
    StreamEnded,
    /// The text handed out by `Decode` was decoded, or failed to be.
    Decoded(Result<T, DecodeError>),
    /// The handler returned; `false` when it failed.
    Handled(bool),
}

/// What the loop asks for next.
pub enum LoopAction<T> {
    /// Wait for the next message of the subscription.
    Await,
    /// Decode this text into a request and report it with `Decoded`.
    Decode(String),
    /// Run the handler on this request and report it with `Handled`.
    Handle(T),
    /// The message was dropped for this reason; wait for the next one.
    Dropped(DecodeError),
    /// The handler failed; report it and wait for the next message.
    HandlerFailed,
    /// The loop has ended.
    Stop,
    /// The event does not belong to this state and was ignored.
    Ignored,
}

/// The state that follows `s` on event `e`.
pub open spec fn next_state<T>(s: LoopState, e: LoopEvent<T>) -> LoopState {
    match (s, e) {
        (LoopState::Waiting, LoopEvent::Delivered(p)) => if valid_utf8(p@) {
            LoopState::Decoding
        } else {
            LoopState::Waiting
        },
        (LoopState::Waiting, LoopEvent::StreamEnded) => LoopState::Closed,
        (LoopState::Decoding, LoopEvent::Decoded(Ok(_))) => LoopState::Handling,
        (LoopState::Decoding, LoopEvent::Decoded(Err(_))) => LoopState::Waiting,
        (LoopState::Handling, LoopEvent::Handled(_)) => LoopState::Waiting,
        _ => s,
    }
}

/// The state after the events of `es`, in order, from `s`.
pub open spec fn run_events<T>(s: LoopState, es: Seq<LoopEvent<T>>) -> LoopState
    decreases es.len(),
{
    if es.len() == 0 {
        s
    } else {
        run_events(next_state(s, es[0]), es.drop_first())
    }
}

/// Is `e` the end of the subscription?
pub open spec fn is_end<T>(e: LoopEvent<T>) -> bool {
    e is StreamEnded
}

/// Advances the loop on one event and says what to do next.
pub fn step<T>(s: LoopState, e: LoopEvent<T>) -> (r: (LoopState, LoopAction<T>))
    ensures
        r.0 == next_state(s, e),
        match (s, e) {
            (LoopState::Waiting, LoopEvent::Delivered(p)) => if valid_utf8(p@) {
                r.1 matches LoopAction::Decode(t) && encode_utf8(t@) == p@
            } else {
                r.1 == LoopAction::<T>::Dropped(DecodeError::InvalidText)
            },
            (LoopState::Waiting, LoopEvent::StreamEnded) => r.1 is Stop,
            (LoopState::Decoding, LoopEvent::Decoded(Ok(req))) => r.1 == LoopAction::Handle(req),
            (LoopState::Decoding, LoopEvent::Decoded(Err(err))) => r.1 == LoopAction::<
                T,
            >::Dropped(err),
            (LoopState::Handling, LoopEvent::Handled(ok)) => if ok {
                r.1 is Await
            } else {
                r.1 is HandlerFailed
            },
            (LoopState::Closed, _) => r.1 is Stop,
            _ => r.1 is Ignored,
        },
{
    match s {
        LoopState::Waiting => match e {
            LoopEvent::Delivered(p) => match payload_text(p.as_slice()) {
                Ok(t) => (LoopState::Decoding, LoopAction::Decode(t)),
                Err(err) => (LoopState::Waiting, LoopAction::Dropped(err)),
            },
            LoopEvent::StreamEnded => (LoopState::Closed, LoopAction::Stop),
            _ => (s, LoopAction::Ignored),
        },
        LoopState::Decoding => match e {
            LoopEvent::Decoded(Ok(req)) => (LoopState::Handling, LoopAction::Handle(req)),
            LoopEvent::Decoded(Err(err)) => (LoopState::Waiting, LoopAction::Dropped(err)),
            _ => (s, LoopAction::Ignored),
        },
        LoopState::Handling => match e {
            LoopEvent::Handled(ok) => if ok {
                (LoopState::Waiting, LoopAction::Await)
            } else {
                (LoopState::Waiting, LoopAction::HandlerFailed)
            },
            _ => (s, LoopAction::Ignored),
        },
        LoopState::Closed => (s, LoopAction::Stop),
    }
}

/// A loop ends only through the end of its subscription: no dropped message
/// and no failed handler closes it.
pub proof fn lemma_closes_only_on_end<T>(s: LoopState, es: Seq<LoopEvent<T>>)
    requires
        s != LoopState::Closed,
        run_events(s, es) == LoopState::Closed,
    ensures
        exists|i: int| 0 <= i < es.len() && is_end(#[trigger] es[i]),
    decreases es.len(),
{
    if es.len() == 0 {
    } else {
        let n = next_state(s, es[0]);
        if n == LoopState::Closed {
            assert(is_end(es[0]));
        } else {
            lemma_closes_only_on_end(n, es.drop_first());
            let i = choose|i: int| 0 <= i < es.drop_first().len() && is_end(#[trigger] es.drop_first()[i]);
            assert(is_end(es[i + 1]));
        }
    }
}

/// After a message that fails to decode, whether as text or as a record,
/// the loop waits again, and the next well-formed message is decoded.
pub proof fn lemma_resumes_after_decode_failure<T>(bad: Vec<u8>, err: DecodeError, good: Vec<u8>)
    requires
        !valid_utf8(bad@),
        valid_utf8(good@),
    ensures
        next_state(LoopState::Waiting, LoopEvent::<T>::Delivered(bad)) == LoopState::Waiting,
        next_state(LoopState::Decoding, LoopEvent::<T>::Decoded(Err(err))) == LoopState::Waiting,
        next_state(LoopState::Waiting, LoopEvent::<T>::Delivered(good)) == LoopState::Decoding,
{
}

} // verus!
