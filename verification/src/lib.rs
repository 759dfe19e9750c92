//! The decision logic of a small peer-to-peer chat: the sign-in prompt, the
//! chat window, message composition and identification, console commands,
//! peer discovery bookkeeping and the choice of a peer to dial.
pub mod config;
pub mod setup;
pub mod message;
pub mod chat_log;
pub mod message_id;
pub mod console;
pub mod peers;
pub mod dial;
