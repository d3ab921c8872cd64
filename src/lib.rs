//! A bounded three-stage frame pipeline for real-time playback: frames, the staged queue,
//! the decode-session state machine that gates it, and the prefetch loop's decisions.

pub mod decoder;
pub mod error;
pub mod frame;
pub mod player;
pub mod prefetch;
pub mod queue;
pub mod session;
pub mod tensor;
pub mod text;
pub mod utils;
