//! Core of a bridge between a USB racing wheel and a text-message client.
//!
//! The library turns raw fixed-size device reports into normalised axis
//! values, decides which changes are worth transmitting and renders the
//! outgoing message. Device and socket I/O live outside of it: a polling
//! loop reads a report, hands it to [`session::Session::step`] and performs
//! the action that comes back.

pub mod axis;
pub mod delta;
pub mod device;
pub mod message;
pub mod policy;
pub mod relay;
pub mod session;
