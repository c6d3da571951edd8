//! Records the audio of a device into a WAVE file.

pub mod cli;
pub mod codec;
pub mod config;
pub mod delay;
pub mod device;
pub mod error;
pub mod format;
pub mod session;
pub mod sink;
pub mod stream;

pub use crate::cli::{Command, ListenKind, Opts};
pub use crate::codec::Codec;
pub use crate::config::{StreamConfig, WavExt, WavFormat, WavSpec};
pub use crate::delay::{Countdown, CountdownState, DelayStep, SETTLE_MILLIS, TICK_MILLIS};
pub use crate::device::{Device, DeviceBuilder, Found};
pub use crate::error::Error;
pub use crate::format::{SampleFormat, SampleFrame};
pub use crate::session::{Outcome, Session, SessionState, Stage, Step};
pub use crate::sink::{SinkState, WriterSink, MAX_DATA_BYTES};
pub use crate::stream::{StreamBuilder, StreamState, Transition};
