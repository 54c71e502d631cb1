//! A streaming decode driver for MPEG audio.
//!
//! The driver turns a stream of bytes into a sequence of decoded frames,
//! optionally restricted to a time interval. It sits between a byte source
//! and a codec engine that does the actual decoding, and it touches neither:
//! its host reads the bytes and runs the engine. What the driver owns is
//! every decision of a decode session, and the byte window that the engine
//! decodes from:
//!
//! - when to decode a header and when a frame, and what frame to make of the
//!   outcome;
//! - which errors of the engine end a pull, which of them leave the session
//!   able to go on, and which never reach the caller;
//! - when and how to refill the window, so that the stream continues in it
//!   without a gap;
//! - how far to skip ahead for an interval, and where to stop;
//! - where in the stream each frame starts.
//!
//! A [`Decoder`] is driven in turns. The host hands in an [`Event`],
//! beginning with [`Event::Pull`], and the decoder answers with a [`Step`]:
//! either the [`Request`] to carry out next, whose outcome is the next event,
//! or the result of the pull. [`Decoder::next`] does the same for an
//! iteration over all frames.
//!
//! Every executable function is proved to do what its contract says. The
//! contracts of the decoder refer to [`session::Session`], the decode session
//! as a mathematical state machine; [`laws`] and [`runs`] prove what holds of
//! every session and of every run of one.
//!
//! Time is counted in the engine's timer ticks, 352,800,000 to the second
//! (see [`timing`]), and so are the bounds of an interval.

pub mod buffer;
pub mod decoder;
pub mod error;
pub mod fixed;
pub mod frame;
pub mod laws;
pub mod runs;
pub mod session;
pub mod timing;

pub use decoder::{Decoder, Event, Poll, Step};
pub use error::{MadError, SimplemadError};
pub use fixed::MadFixed32;
pub use frame::{Frame, Header, MadLayer, MadMode, Pcm};
pub use session::Request;
pub use timing::MadTimer;
