use vstd::prelude::*;

verus! {

/// A request that a client sends to the server.
#[derive(Debug, Clone, PartialEq, Eq)]
pub enum Request {
    /// Create an account named `username`, guarded by `password`.
    Register { username: String, password: String, public_key: String },
    /// Deliver `message` from `username` to `receiver`.
    Send { username: String, password: String, message: String, receiver: String },
    /// Fetch the messages that `sender` sent to `username`.
    Receive { username: String, password: String, sender: String },
}

/// The server's answer to a request.
#[derive(Debug, Clone, PartialEq, Eq)]
pub enum Answer {
    /// The request went through (written `Ok` on the wire).
    Success,
    BadName,
    BadPwd,
    BadSender,
    BadReceiver,
    ServerError,
    Messages(Vec<String>),
}

impl Answer {
    /// Whether the answer reports that the request went through.
    pub open spec fn is_success(self) -> bool {
        self is Success || self is Messages
    }
}

} // verus!
