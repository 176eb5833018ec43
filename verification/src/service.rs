//! The plugin serving session.
//!
//! A plugin implements [`Handler`]. The session reads messages, forwards
//! `method`/`params` of requests to the handler, answers every request with
//! exactly one response that carries its id and the handler's result or
//! error, hands notifications to the handler without answering them, and
//! ignores stray responses. It is driven step by step: each [`Event`] (what a
//! read, a handler call or a write gave) yields the next [`Action`] (read,
//! call the handler, write a reply, or finish with the number of requests
//! served).
use vstd::prelude::*;

use crate::rpc::{Id, Message, RpcError};
use crate::transport::TransportError;

verus! {

/// Plugin identity reported to hosts and diagnostics.
#[derive(Debug, Clone)]
pub struct PluginInfo {
    pub name: String,
    pub version: String,
}

/// The full method surface of a plugin.
pub trait Handler {
    /// Plugin identity (used in logs and the optional handshake).
    fn info(&self) -> PluginInfo;

    /// Handle one request; called only for requests, never notifications.
    /// Return [`RpcError::method_not_found`] for unknown methods.
    fn call(&mut self, method: &str, params: &serde_json::Value) -> Result<
        serde_json::Value,
        RpcError,
    >;

    /// Handle a one-way notification. Default: ignore.
    fn notify(&mut self, method: &str, params: &serde_json::Value) {
    }
}

/// The response that answers request `id` with what the handler gave: its
/// result, or its error.
pub open spec fn reply_spec(id: Id, outcome: Result<serde_json::Value, RpcError>) -> Message {
    match outcome {
        Ok(v) => Message::Response { id: id, result: Some(v), error: None },
        Err(e) => Message::Response { id: id, result: None, error: Some(e) },
    }
}

/// The reply to a request carries the request's id and the handler's outcome
/// unchanged: a result as the result and no error, an error (its code, its
/// message and its data) as the error and no result.
pub proof fn lemma_reply_carries_outcome(id: Id, outcome: Result<serde_json::Value, RpcError>)
    ensures
        reply_spec(id, outcome) matches Message::Response { id: reply_id, result, error } && {
            &&& reply_id == id
            &&& (result is Some) != (error is Some)
            &&& outcome matches Ok(v) ==> result == Some(v)
            &&& outcome matches Err(e) ==> (error matches Some(got) && got.code == e.code
                && got.message == e.message && got.data == e.data && got == e)
        },
{
}

/// The response that answers request `id` with what the handler gave.
pub fn reply_to(id: Id, outcome: Result<serde_json::Value, RpcError>) -> (r: Message)
    ensures
        r == reply_spec(id, outcome),
        outcome matches Ok(v) ==> r == (Message::Response { id: id, result: Some(v), error: None }),
        outcome matches Err(e) ==> r == (Message::Response { id: id, result: None, error: Some(e) }),
{
    match outcome {
        Ok(v) => Message::ok(id, v),
        Err(e) => Message::err(id, e),
    }
}

/// What performing the session's last action gave.
#[derive(Debug)]
pub enum Event {
    /// The result of reading the next message: `None` at the end of input.
    Read(Result<Option<Message>, TransportError>),
    /// What `Handler::call` returned for the request being answered.
    Called(Result<serde_json::Value, RpcError>),
    /// `Handler::notify` has been called for the notification.
    Notified,
    /// The result of writing the reply.
    Wrote(Result<(), TransportError>),
}

/// What the session asks for next.
#[derive(Debug)]
pub enum Action {
    /// Read the next message.
    Read,
    /// Call `Handler::call` with this method and params, and hand back what
    /// it returned as `Event::Called`.
    Call { method: String, params: serde_json::Value },
    /// Call `Handler::notify` with this method and params, then hand back
    /// `Event::Notified`.
    Notify { method: String, params: serde_json::Value },
    /// Write this reply.
    Write(Message),
    /// Stop: the number of requests served, or the transport failure.
    Finish(Result<usize, TransportError>),
}

/// Which event the session waits for.
#[derive(Debug, Clone, Copy, PartialEq, Eq, Structural)]
pub enum Phase {
    /// The outcome of a read.
    Reading,
    /// What the handler returned for a request.
    Calling,
    /// The end of a notification's handling.
    Notifying,
    /// The outcome of writing a reply.
    Writing,
}

/// Whether `event` is the kind of event that `phase` waits for.
pub open spec fn event_fits(phase: Phase, event: Event) -> bool {
    match event {
        Event::Read(_) => phase == Phase::Reading,
        Event::Called(_) => phase == Phase::Calling,
        Event::Notified => phase == Phase::Notifying,
        Event::Wrote(_) => phase == Phase::Writing,
    }
}

/// The state of a serving session.
pub struct Session {
    served: usize,
    phase: Phase,
    /// The id to answer with, held from the request until its reply is made.
    reply_id: Id,
    pending: Ghost<Id>,
    answered: Ghost<Seq<Id>>,
}

impl Session {
    /// The ids of the requests answered so far, in order: each entry is a
    /// reply that was written successfully.
    pub closed spec fn answered(self) -> Seq<Id> {
        self.answered@
    }

    /// Which event the session waits for.
    pub closed spec fn phase_spec(self) -> Phase {
        self.phase
    }

    /// The id of the request being answered.
    pub closed spec fn pending(self) -> Id {
        self.pending@
    }

    /// The count of requests served is the number of replies written, and
    /// while the handler is at work the id to answer with is the pending one.
    pub closed spec fn wf(self) -> bool {
        &&& self.served == self.answered@.len()
        &&& self.phase == Phase::Calling ==> self.reply_id == self.pending@
    }

    /// A session that has served nothing and is about to read.
    pub fn new() -> (r: Session)
        ensures
            r.wf(),
            r.answered() == Seq::<Id>::empty(),
            r.phase_spec() == Phase::Reading,
    {
        Session {
            served: 0,
            phase: Phase::Reading,
            reply_id: Id::Num(0),
            pending: Ghost(Id::Num(0)),
            answered: Ghost(Seq::empty()),
        }
    }

    /// The number of requests served so far.
    pub fn served(&self) -> (r: usize)
        requires
            self.wf(),
        ensures
            r == self.answered().len(),
    {
        self.served
    }

    /// Which event the session waits for.
    pub fn phase(&self) -> (r: Phase)
        ensures
            r == self.phase_spec(),
    {
        self.phase
    }

    /// Takes what performing the last action gave and decides the next one.
    ///
    /// A request is handed to the handler (`Action::Call` with its method and
    /// params); what the handler returned is answered with exactly one
    /// response that carries the request's id and the handler's result or
    /// error. A notification is handed to the handler (`Action::Notify`) and
    /// never answered; a stray response is ignored. A reply counts as served
    /// once it is written. The end of input finishes with the number served;
    /// a transport failure finishes with the failure.
    pub fn step(&mut self, event: Event) -> (action: Action)
        requires
            old(self).wf(),
            event_fits(old(self).phase_spec(), event),
            event matches Event::Wrote(Ok(_)) ==> old(self).answered().len() < usize::MAX,
        ensures
            final(self).wf(),
            match event {
                Event::Read(Err(e)) => action == Action::Finish(Err(e)) && *final(self) == *old(
                    self,
                ),
                Event::Read(Ok(None)) => action == Action::Finish(
                    Ok(old(self).answered().len() as usize),
                ) && *final(self) == *old(self),
                Event::Read(Ok(Some(Message::Request { id, method, params }))) => {
                    &&& action == (Action::Call { method: method, params: params })
                    &&& final(self).phase_spec() == Phase::Calling
                    &&& final(self).pending() == id
                    &&& final(self).answered() == old(self).answered()
                },
                Event::Read(Ok(Some(Message::Notification { method, params }))) => {
                    &&& action == (Action::Notify { method: method, params: params })
                    &&& final(self).phase_spec() == Phase::Notifying
                    &&& final(self).pending() == old(self).pending()
                    &&& final(self).answered() == old(self).answered()
                },
                Event::Read(Ok(Some(Message::Response { .. }))) => action == Action::Read
                    && *final(self) == *old(self),
                Event::Called(outcome) => {
                    &&& action == Action::Write(reply_spec(old(self).pending(), outcome))
                    &&& outcome matches Ok(v) ==> action == Action::Write(
                        Message::Response { id: old(self).pending(), result: Some(v), error: None },
                    )
                    &&& outcome matches Err(e) ==> action == Action::Write(
                        Message::Response { id: old(self).pending(), result: None, error: Some(e) },
                    )
                    &&& final(self).phase_spec() == Phase::Writing
                    &&& final(self).pending() == old(self).pending()
                    &&& final(self).answered() == old(self).answered()
                },
                Event::Notified => {
                    &&& action == Action::Read
                    &&& final(self).phase_spec() == Phase::Reading
                    &&& final(self).pending() == old(self).pending()
                    &&& final(self).answered() == old(self).answered()
                },
                Event::Wrote(Ok(_)) => {
                    &&& action == Action::Read
                    &&& final(self).phase_spec() == Phase::Reading
                    &&& final(self).answered() == old(self).answered().push(old(self).pending())
                },
                Event::Wrote(Err(e)) => action == Action::Finish(Err(e)) && *final(self) == *old(
                    self,
                ),
            },
    {
        match event {
            Event::Read(Err(e)) => Action::Finish(Err(e)),
            Event::Read(Ok(None)) => Action::Finish(Ok(self.served)),
            Event::Read(Ok(Some(Message::Request { id, method, params }))) => {
                let ghost asked = id;
                self.reply_id = id;
                self.pending = Ghost(asked);
                self.phase = Phase::Calling;
                Action::Call { method, params }
            },
            Event::Read(Ok(Some(Message::Notification { method, params }))) => {
                self.phase = Phase::Notifying;
                Action::Notify { method, params }
            },
            Event::Read(Ok(Some(Message::Response { .. }))) => Action::Read,
            Event::Called(outcome) => {
                let mut id = Id::Num(0);
                std::mem::swap(&mut id, &mut self.reply_id);
                self.phase = Phase::Writing;
                Action::Write(reply_to(id, outcome))
            },
            Event::Notified => {
                self.phase = Phase::Reading;
                Action::Read
            },
            Event::Wrote(Ok(())) => {
                self.served = self.served + 1;
                self.phase = Phase::Reading;
                self.answered = Ghost(self.answered@.push(self.pending@));
                Action::Read
            },
            Event::Wrote(Err(e)) => Action::Finish(Err(e)),
        }
    }
}

} // verus!
