//! Channels for handing values between a producer and a consumer.
//!
//! The heart of the crate is [`oneshot::Channel`], a single-use cell that
//! carries exactly one value from exactly one sender to exactly one receiver,
//! with the whole lifecycle protocol stated and proved.  Beside it stands
//! [`basic_channel::BasicChannel`], a plain first-in-first-out queue channel.

pub mod basic_channel;
pub mod oneshot;
