//! Inbound half of an IEEE 2030.5 client: a notification server that routes
//! pushed resources by path to typed callbacks, and a clock-offset service
//! that corrects coarse wall-clock reads against a trusted time sample.

pub mod pubsub;
pub mod shutdown;
pub mod time;
