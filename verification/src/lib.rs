//! The verified core of a small end-to-end messaging service: the messages that
//! clients and the server exchange, the answers the server gives to each request,
//! and how a client reads those answers.

pub mod client;
pub mod comunication;
pub mod server;
pub mod laws;
