use vstd::prelude::*;
use vstd::string::*;
use crate::device::Device;
use crate::error::Error;

verus! {

/// Which kind of device to listen to.
#[derive(Debug, Clone, Copy, PartialEq, Eq, Structural)]
pub enum ListenKind {
    /// Listen to the input device.
    Input,
    /// Listen to the output device.
    Output,
}

/// What the program is asked to do.
#[derive(Debug, Clone, PartialEq)]
pub enum Command {
    /// Redirect the audio of a device to another stream.
    Loopback { kind: ListenKind },
    /// Record the audio of a device to a file; `output` is where the file
    /// goes, if the user said so.
    Record { kind: ListenKind, output: Option<String> },
}

/// The options of one run.
#[derive(Debug, Clone, PartialEq)]
pub struct Opts {
    pub command: Command,
    /// Seconds to wait before the recording starts.
    pub delay: Option<u32>,
    /// Whether the countdown is silent.
    pub quiet: bool,
}

impl ListenKind {
    pub open spec fn spec_device(self) -> Device {
        match self {
            ListenKind::Input => Device::Input,
            ListenKind::Output => Device::Output,
        }
    }

    /// The direction of the device to listen to.
    pub fn device(&self) -> (device: Device)
        ensures
            device == self.spec_device(),
    {
        match self {
            ListenKind::Input => Device::Input,
            ListenKind::Output => Device::Output,
        }
    }
}

impl Command {
    pub open spec fn spec_kind(&self) -> ListenKind {
        match self {
            Command::Loopback { kind } => *kind,
            Command::Record { kind, .. } => *kind,
        }
    }

    pub open spec fn spec_is_record(&self) -> bool {
        self is Record
    }

    /// Where a recording goes: the place that the user gave, or `out.wav`.
    pub open spec fn spec_output_path(&self) -> Seq<char> {
        match self {
            Command::Record { output: Some(path), .. } => path@,
            _ => "out.wav"@,
        }
    }

    pub fn kind(&self) -> (kind: ListenKind)
        ensures
            kind == self.spec_kind(),
    {
        match self {
            Command::Loopback { kind } => *kind,
            Command::Record { kind, .. } => *kind,
        }
    }

    pub fn is_record(&self) -> (b: bool)
        ensures
            b == self.spec_is_record(),
    {
        match self {
            Command::Record { .. } => true,
            Command::Loopback { .. } => false,
        }
    }

    pub fn output_path(&self) -> (path: String)
        ensures
            path@ == self.spec_output_path(),
    {
        match self {
            Command::Record { output: Some(path), .. } => path.clone(),
            _ => String::from_str("out.wav"),
        }
    }
}

} // verus!
