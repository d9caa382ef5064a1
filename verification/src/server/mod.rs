pub mod invalid_request_error;
pub mod server;
