//! How a client reads the server's answer to each of its requests.
//!
//! `None` stands for an exchange in which no answer could be read: the request
//! could not be encoded or written, or the reply could not be read or decoded.

use crate::comunication::message_type::Answer;
use vstd::prelude::*;

verus! {

/// Why a registration failed.
#[derive(Debug, Clone, Copy, PartialEq, Eq, Structural)]
pub enum RegistrationError {
    BadUsername,
    ServerError,
    Unknown,
}

/// Why sending a message failed.
#[derive(Debug, Clone, Copy, PartialEq, Eq, Structural)]
pub enum SendError {
    BadUsername,
    BadPassword,
    BadReceiver,
    ServerError,
    Unknown,
}

/// Why fetching messages failed.
#[derive(Debug, Clone, Copy, PartialEq, Eq, Structural)]
pub enum ReceiveError {
    BadUsername,
    BadPassword,
    BadSender,
    ServerError,
    Unknown,
}

/// The outcome of a registration whose exchange gave `answer`.
pub open spec fn registration_outcome(answer: Option<Answer>) -> Result<(), RegistrationError> {
    match answer {
        None => Err(RegistrationError::Unknown),
        Some(Answer::Success) => Ok(()),
        Some(Answer::BadName) => Err(RegistrationError::BadUsername),
        Some(Answer::ServerError) => Err(RegistrationError::ServerError),
        Some(_) => Err(RegistrationError::Unknown),
    }
}

/// The outcome of a send whose exchange gave `answer`. An unknown sender, a wrong
/// password and an unknown receiver are all reported as `BadUsername`.
pub open spec fn send_outcome(answer: Option<Answer>) -> Result<(), SendError> {
    match answer {
        None => Err(SendError::Unknown),
        Some(Answer::Success) => Ok(()),
        Some(Answer::BadName) => Err(SendError::BadUsername),
        Some(Answer::BadPwd) => Err(SendError::BadUsername),
        Some(Answer::BadReceiver) => Err(SendError::BadUsername),
        Some(Answer::ServerError) => Err(SendError::ServerError),
        Some(_) => Err(SendError::Unknown),
    }
}

/// The outcome of a fetch whose exchange gave `answer`. An unknown user, a wrong
/// password and an unknown sender are all reported as `BadUsername`.
pub open spec fn receive_outcome(answer: Option<Answer>) -> Result<Vec<String>, ReceiveError> {
    match answer {
        None => Err(ReceiveError::Unknown),
        Some(Answer::Messages(messages)) => Ok(messages),
        Some(Answer::BadName) => Err(ReceiveError::BadUsername),
        Some(Answer::BadPwd) => Err(ReceiveError::BadUsername),
        Some(Answer::BadSender) => Err(ReceiveError::BadUsername),
        Some(Answer::ServerError) => Err(ReceiveError::ServerError),
        Some(_) => Err(ReceiveError::Unknown),
    }
}

/// Reads the server's answer to a registration.
pub fn register_result(answer: Option<Answer>) -> (res: Result<(), RegistrationError>)
    ensures
        res == registration_outcome(answer),
{
    match answer {
        None => Err(RegistrationError::Unknown),
        Some(answ) => match answ {
            Answer::Success => Ok(()),
            Answer::BadName => Err(RegistrationError::BadUsername),
            Answer::BadSender | Answer::BadPwd | Answer::BadReceiver => Err(RegistrationError::Unknown),
            Answer::Messages(_mess) => Err(RegistrationError::Unknown),
            Answer::ServerError => Err(RegistrationError::ServerError),
        },
    }
}

/// Reads the server's answer to a send.
pub fn send_result(answer: Option<Answer>) -> (res: Result<(), SendError>)
    ensures
        res == send_outcome(answer),
{
    match answer {
        None => Err(SendError::Unknown),
        Some(answ) => match answ {
            Answer::Success => Ok(()),
            Answer::BadName => Err(SendError::BadUsername),
            Answer::BadPwd => Err(SendError::BadUsername),
            Answer::BadReceiver => Err(SendError::BadUsername),
            Answer::BadSender => Err(SendError::Unknown),
            Answer::Messages(_mess) => Err(SendError::Unknown),
            Answer::ServerError => Err(SendError::ServerError),
        },
    }
}

/// Reads the server's answer to a fetch.
pub fn receive_result(answer: Option<Answer>) -> (res: Result<Vec<String>, ReceiveError>)
    ensures
        res == receive_outcome(answer),
{
    match answer {
        None => Err(ReceiveError::Unknown),
        Some(answ) => match answ {
            Answer::Success => Err(ReceiveError::Unknown),
            Answer::BadName => Err(ReceiveError::BadUsername),
            Answer::BadPwd => Err(ReceiveError::BadUsername),
            Answer::BadSender => Err(ReceiveError::BadUsername),
            Answer::BadReceiver => Err(ReceiveError::Unknown),
            Answer::Messages(mess) => Ok(mess),
            Answer::ServerError => Err(ReceiveError::ServerError),
        },
    }
}

} // verus!
