//! Messages, their routing and the addressing of replies.

pub mod message;
pub mod router;
pub mod utils;
