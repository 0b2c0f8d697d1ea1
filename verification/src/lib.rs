//! Core of a chat-bot service that links a user's external messaging account
//! through an interactive multi-step login handshake and then produces a
//! recurring daily audio digest for that user.
//!
//! The crate holds the parts of the service that carry real state and timing
//! rules: the per-user authentication state machine and its controller, the
//! session store shared by the message path and the scheduler path, the
//! computation of the delay until the next daily fire time, and the localized
//! reply table. All network and file work stays outside, in the surrounding
//! program, which performs the actions this library decides on and feeds the
//! outcomes back as events.

pub mod auth;
pub mod digest;
pub mod messages;
pub mod schedule;
pub mod store;
