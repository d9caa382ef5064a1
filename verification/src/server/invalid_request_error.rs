use crate::comunication::message_type::Answer;
use vstd::prelude::*;

verus! {

/// Why the server refuses a request.
#[derive(Debug, Clone, Copy, PartialEq, Eq, Structural)]
pub enum InvalidRequestError {
    BadUsername,
    BadPassword,
    BadSender,
    BadReceiver,
    DatabaseError,
}

/// The answer that reports the refusal `e`.
pub open spec fn refusal_answer(e: InvalidRequestError) -> Answer {
    match e {
        InvalidRequestError::BadUsername => Answer::BadName,
        InvalidRequestError::BadPassword => Answer::BadPwd,
        InvalidRequestError::BadSender => Answer::BadSender,
        InvalidRequestError::BadReceiver => Answer::BadReceiver,
        InvalidRequestError::DatabaseError => Answer::ServerError,
    }
}

impl InvalidRequestError {
    /// The answer sent back to a client whose request was refused for this reason.
    pub fn into_answer(&self) -> (answer: Answer)
        ensures
            answer == refusal_answer(*self),
    {
        match self {
            Self::BadUsername => Answer::BadName,
            Self::BadPassword => Answer::BadPwd,
            Self::BadSender => Answer::BadSender,
            Self::BadReceiver => Answer::BadReceiver,
            Self::DatabaseError => Answer::ServerError,
        }
    }
}

} // verus!
