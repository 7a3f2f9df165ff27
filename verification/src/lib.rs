//! Client library for a legacy binary push-notification protocol: a
//! length-prefixed notification frame encoder, a delivery-session state
//! machine that interprets in-band error replies, and a decoder for the
//! fixed-size records of the feedback stream.
pub mod apns;
pub mod errors;
pub mod feedback;
pub mod frame;
pub mod identifier;
pub mod payload;
pub mod session;
pub mod wire;
