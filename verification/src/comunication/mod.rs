pub mod message_type;
