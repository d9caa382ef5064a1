//! How the server answers a request.
//!
//! Answering needs the user database, which the server reaches over the network.
//! The decisions are kept apart from that work: a [`Handler`] says which database
//! operation it needs next ([`Query`]), is handed what came back ([`Reply`]), and
//! in the end gives the [`Answer`] for the client.

use crate::comunication::message_type::{Answer, Request};
use crate::server::invalid_request_error::{refusal_answer, InvalidRequestError};
use vstd::prelude::*;

verus! {

/// A database operation that answering a request needs.
#[derive(Debug, Clone, PartialEq, Eq)]
pub enum Query {
    /// Is there a user named `username`?
    IsNamePresent { username: String },
    /// Does `password` belong to the user `username`?
    ValidateCredentials { username: String, password: String },
    /// Store a new user.
    SaveUser { username: String, password: String, pubkey: String },
    /// Store `message`, sent by `sender` to `receiver`.
    SaveMessage { message: String, sender: String, receiver: String },
    /// The messages that `sender` sent to `receiver`.
    GetMessages { sender: String, receiver: String },
}

/// What the database gave back for a [`Query`].
#[derive(Debug, PartialEq, Eq)]
pub enum Reply {
    /// The outcome of a yes/no question (`IsNamePresent`, `ValidateCredentials`).
    Flag(Result<bool, InvalidRequestError>),
    /// The outcome of a write (`SaveUser`, `SaveMessage`).
    Stored(Result<(), InvalidRequestError>),
    /// The outcome of `GetMessages`.
    Fetched(Result<Vec<String>, InvalidRequestError>),
}

impl Query {
    /// Whether `reply` is of the kind that answers this query.
    pub open spec fn answered_by(self, reply: Reply) -> bool {
        match self {
            Query::IsNamePresent { .. } => reply is Flag,
            Query::ValidateCredentials { .. } => reply is Flag,
            Query::SaveUser { .. } => reply is Stored,
            Query::SaveMessage { .. } => reply is Stored,
            Query::GetMessages { .. } => reply is Fetched,
        }
    }
}

/// A request in the middle of being answered: what has been learnt so far and
/// which database operation is awaited.
#[derive(Debug, Clone, PartialEq, Eq)]
pub enum Handler {
    /// Registration: waiting to know whether the name is taken.
    RegisterCheckName { username: String, password: String, public_key: String },
    /// Registration: waiting for the new user to be stored.
    RegisterSave,
    /// Sending: waiting to know whether the sender exists.
    SendCheckName { username: String, password: String, message: String, receiver: String },
    /// Sending: waiting for the sender's password to be checked.
    SendCheckCredentials { name_valid: bool, username: String, message: String, receiver: String },
    /// Sending: waiting for the message to be stored.
    SendSave,
    /// Receiving: waiting to know whether the user exists.
    ReceiveCheckName { username: String, password: String, sender: String },
    /// Receiving: waiting for the user's password to be checked.
    ReceiveCheckCredentials { name_valid: bool, username: String, sender: String },
    /// Receiving: waiting for the messages.
    ReceiveFetch,
}

/// What the server does next for a request.
#[derive(Debug, PartialEq, Eq)]
pub enum Step {
    /// Run the query, then hand its reply to the handler.
    Ask(Handler, Query),
    /// The request is answered.
    Respond(Answer),
}

impl Handler {
    /// Whether `reply` is of the kind this handler waits for.
    pub open spec fn accepts(self, reply: Reply) -> bool {
        match self {
            Handler::RegisterSave => reply is Stored,
            Handler::SendSave => reply is Stored,
            Handler::ReceiveFetch => reply is Fetched,
            _ => reply is Flag,
        }
    }
}

/// The first step in answering `request`: every request starts by asking whether
/// the user it names exists.
pub open spec fn start(request: Request) -> Step {
    match request {
        Request::Register { username, password, public_key } => Step::Ask(
            Handler::RegisterCheckName { username, password, public_key },
            Query::IsNamePresent { username },
        ),
        Request::Send { username, password, message, receiver } => Step::Ask(
            Handler::SendCheckName { username, password, message, receiver },
            Query::IsNamePresent { username },
        ),
        Request::Receive { username, password, sender } => Step::Ask(
            Handler::ReceiveCheckName { username, password, sender },
            Query::IsNamePresent { username },
        ),
    }
}

/// The step that follows once `handler` is given `reply`.
///
/// A failed query ends the exchange with the refusal that reports it. A registration
/// stores the user only if the name is free. Sending and receiving check the name,
/// then the password, and refuse an unknown name before a wrong password.
pub open spec fn next(handler: Handler, reply: Reply) -> Step
    recommends
        handler.accepts(reply),
{
    match (handler, reply) {
        (Handler::RegisterCheckName { username, password, public_key }, Reply::Flag(r)) => match r {
            Err(e) => Step::Respond(refusal_answer(e)),
            Ok(taken) => if taken {
                Step::Respond(Answer::BadName)
            } else {
                Step::Ask(Handler::RegisterSave, Query::SaveUser { username, password, pubkey: public_key })
            },
        },
        (Handler::RegisterSave, Reply::Stored(r)) => match r {
            Err(e) => Step::Respond(refusal_answer(e)),
            Ok(_) => Step::Respond(Answer::Success),
        },
        (Handler::SendCheckName { username, password, message, receiver }, Reply::Flag(r)) => match r {
            Err(e) => Step::Respond(refusal_answer(e)),
            Ok(name_valid) => Step::Ask(
                Handler::SendCheckCredentials { name_valid, username, message, receiver },
                Query::ValidateCredentials { username, password },
            ),
        },
        (Handler::SendCheckCredentials { name_valid, username, message, receiver }, Reply::Flag(r)) => match r {
            Err(e) => Step::Respond(refusal_answer(e)),
            Ok(password_valid) => if !name_valid {
                Step::Respond(Answer::BadName)
            } else if !password_valid {
                Step::Respond(Answer::BadPwd)
            } else {
                Step::Ask(Handler::SendSave, Query::SaveMessage { message, sender: username, receiver })
            },
        },
        (Handler::SendSave, Reply::Stored(r)) => match r {
            Err(e) => Step::Respond(refusal_answer(e)),
            Ok(_) => Step::Respond(Answer::Success),
        },
        (Handler::ReceiveCheckName { username, password, sender }, Reply::Flag(r)) => match r {
            Err(e) => Step::Respond(refusal_answer(e)),
            Ok(name_valid) => Step::Ask(
                Handler::ReceiveCheckCredentials { name_valid, username, sender },
                Query::ValidateCredentials { username, password },
            ),
        },
        (Handler::ReceiveCheckCredentials { name_valid, username, sender }, Reply::Flag(r)) => match r {
            Err(e) => Step::Respond(refusal_answer(e)),
            Ok(password_valid) => if !name_valid {
                Step::Respond(Answer::BadName)
            } else if !password_valid {
                Step::Respond(Answer::BadPwd)
            } else {
                Step::Ask(Handler::ReceiveFetch, Query::GetMessages { sender, receiver: username })
            },
        },
        (Handler::ReceiveFetch, Reply::Fetched(r)) => match r {
            Err(e) => Step::Respond(refusal_answer(e)),
            Ok(messages) => Step::Respond(Answer::Messages(messages)),
        },
        _ => arbitrary(),
    }
}

impl Handler {
    /// Starts answering a registration of `username`.
    pub fn handle_register(username: String, password: String, public_key: String) -> (step: Step)
        ensures
            step == start(Request::Register { username, password, public_key }),
    {
        let query = Query::IsNamePresent { username: username.clone() };
        Step::Ask(Handler::RegisterCheckName { username, password, public_key }, query)
    }

    /// Starts answering a request of `username` to send `message` to `receiver`.
    pub fn handle_send(username: String, password: String, receiver: String, message: String) -> (step: Step)
        ensures
            step == start(Request::Send { username, password, message, receiver }),
    {
        let query = Query::IsNamePresent { username: username.clone() };
        Step::Ask(Handler::SendCheckName { username, password, message, receiver }, query)
    }

    /// Starts answering a request of `username` for the messages `sender` sent them.
    pub fn handle_receive(username: String, password: String, sender: String) -> (step: Step)
        ensures
            step == start(Request::Receive { username, password, sender }),
    {
        let query = Query::IsNamePresent { username: username.clone() };
        Step::Ask(Handler::ReceiveCheckName { username, password, sender }, query)
    }

    /// Starts answering `client_request`.
    pub fn examine_request(client_request: Request) -> (step: Step)
        ensures
            step == start(client_request),
    {
        match client_request {
            Request::Register { username, password, public_key } =>
                Self::handle_register(username, password, public_key),
            Request::Send { username, password, message, receiver } =>
                Self::handle_send(username, password, receiver, message),
            Request::Receive { username, password, sender } =>
                Self::handle_receive(username, password, sender),
        }
    }

    /// Whether `reply` is of the kind this handler waits for.
    pub fn accepts_reply(&self, reply: &Reply) -> (res: bool)
        ensures
            res == self.accepts(*reply),
    {
        match self {
            Handler::RegisterSave | Handler::SendSave => matches!(reply, Reply::Stored(_)),
            Handler::ReceiveFetch => matches!(reply, Reply::Fetched(_)),
            _ => matches!(reply, Reply::Flag(_)),
        }
    }

    /// Takes the database's `reply` to the awaited query and gives the next step.
    pub fn resume(self, reply: Reply) -> (step: Step)
        requires
            self.accepts(reply),
        ensures
            step == next(self, reply),
    {
        match self {
            Handler::RegisterCheckName { username, password, public_key } => match reply {
                Reply::Flag(Err(e)) => Step::Respond(e.into_answer()),
                Reply::Flag(Ok(taken)) => if taken {
                    Step::Respond(Answer::BadName)
                } else {
                    Step::Ask(Handler::RegisterSave, Query::SaveUser { username, password, pubkey: public_key })
                },
                _ => unreached(),
            },
            Handler::RegisterSave | Handler::SendSave => match reply {
                Reply::Stored(Err(e)) => Step::Respond(e.into_answer()),
                Reply::Stored(Ok(())) => Step::Respond(Answer::Success),
                _ => unreached(),
            },
            Handler::SendCheckName { username, password, message, receiver } => match reply {
                Reply::Flag(Err(e)) => Step::Respond(e.into_answer()),
                Reply::Flag(Ok(name_valid)) => {
                    let query = Query::ValidateCredentials { username: username.clone(), password };
                    Step::Ask(Handler::SendCheckCredentials { name_valid, username, message, receiver }, query)
                },
                _ => unreached(),
            },
            Handler::SendCheckCredentials { name_valid, username, message, receiver } => match reply {
                Reply::Flag(Err(e)) => Step::Respond(e.into_answer()),
                Reply::Flag(Ok(password_valid)) => if !name_valid {
                    Step::Respond(Answer::BadName)
                } else if !password_valid {
                    Step::Respond(Answer::BadPwd)
                } else {
                    Step::Ask(Handler::SendSave, Query::SaveMessage { message, sender: username, receiver })
                },
                _ => unreached(),
            },
            Handler::ReceiveCheckName { username, password, sender } => match reply {
                Reply::Flag(Err(e)) => Step::Respond(e.into_answer()),
                Reply::Flag(Ok(name_valid)) => {
                    let query = Query::ValidateCredentials { username: username.clone(), password };
                    Step::Ask(Handler::ReceiveCheckCredentials { name_valid, username, sender }, query)
                },
                _ => unreached(),
            },
            Handler::ReceiveCheckCredentials { name_valid, username, sender } => match reply {
                Reply::Flag(Err(e)) => Step::Respond(e.into_answer()),
                Reply::Flag(Ok(password_valid)) => if !name_valid {
                    Step::Respond(Answer::BadName)
                } else if !password_valid {
                    Step::Respond(Answer::BadPwd)
                } else {
                    Step::Ask(Handler::ReceiveFetch, Query::GetMessages { sender, receiver: username })
                },
                _ => unreached(),
            },
            Handler::ReceiveFetch => match reply {
                Reply::Fetched(Err(e)) => Step::Respond(e.into_answer()),
                Reply::Fetched(Ok(messages)) => Step::Respond(Answer::Messages(messages)),
                _ => unreached(),
            },
        }
    }
}

} // verus!
