use vstd::prelude::*;
use vstd::string::*;

verus! {

/// Everything that can go wrong between resolving a device and closing the
/// recording.
#[derive(Debug, PartialEq)]
pub enum Error {
    /// The host has no default input device.
    DefaultInputDeviceError,
    /// The host has no default output device.
    DefaultOutputDeviceError,
    /// The device would not report its native configuration.
    DefaultConfigError,
    /// The configuration names a sample format, or a channel count or rate,
    /// that cannot be recorded.
    StreamConfigFormatError,
    /// The backend rejected the stream.
    StreamCreationError,
    /// The lock around the writer could not be taken.
    OutputLockError,
    /// The writer could not be created; the payload is the cause.
    WriterCreationError(String),
    /// The backend would not start the stream.
    PlayError,
    /// A sample could not be written, or the recording could not be closed;
    /// the payload is the cause.
    WriteError(String),
}

impl Clone for Error {
    fn clone(&self) -> (copy: Error)
        ensures
            copy == *self,
    {
        match self {
            Error::DefaultInputDeviceError => Error::DefaultInputDeviceError,
            Error::DefaultOutputDeviceError => Error::DefaultOutputDeviceError,
            Error::DefaultConfigError => Error::DefaultConfigError,
            Error::StreamConfigFormatError => Error::StreamConfigFormatError,
            Error::StreamCreationError => Error::StreamCreationError,
            Error::OutputLockError => Error::OutputLockError,
            Error::WriterCreationError(cause) => Error::WriterCreationError(cause.clone()),
            Error::PlayError => Error::PlayError,
            Error::WriteError(cause) => Error::WriteError(cause.clone()),
        }
    }
}

impl Error {
    /// The text shown to the user for this error.
    pub open spec fn spec_message(&self) -> Seq<char> {
        match self {
            Error::DefaultInputDeviceError => "Error getting default input device"@,
            Error::DefaultOutputDeviceError => "Error getting default output device"@,
            Error::DefaultConfigError => "Error getting default device config"@,
            Error::StreamConfigFormatError => "Bad stream config format"@,
            Error::StreamCreationError => "Error creating stream"@,
            Error::OutputLockError => "Error getting output lock"@,
            Error::WriterCreationError(cause) => "Error creating data writer\n"@ + cause@,
            Error::PlayError => "Error recording data"@,
            Error::WriteError(cause) => "Error writing data\n"@ + cause@,
        }
    }

    pub fn message(&self) -> (text: String)
        ensures
            text@ == self.spec_message(),
    {
        match self {
            Error::DefaultInputDeviceError => String::from_str(
                "Error getting default input device",
            ),
            Error::DefaultOutputDeviceError => String::from_str(
                "Error getting default output device",
            ),
            Error::DefaultConfigError => String::from_str("Error getting default device config"),
            Error::StreamConfigFormatError => String::from_str("Bad stream config format"),
            Error::StreamCreationError => String::from_str("Error creating stream"),
            Error::OutputLockError => String::from_str("Error getting output lock"),
            Error::WriterCreationError(cause) => String::from_str(
                "Error creating data writer\n",
            ).concat(cause.as_str()),
            Error::PlayError => String::from_str("Error recording data"),
            Error::WriteError(cause) => String::from_str("Error writing data\n").concat(
                cause.as_str(),
            ),
        }
    }
}

} // verus!
