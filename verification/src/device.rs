use vstd::prelude::*;
use crate::config::StreamConfig;
use crate::error::Error;

verus! {

/// The direction in which a device moves audio.
#[derive(Debug, Clone, Copy, PartialEq, Eq, Structural)]
pub enum Device {
    Input,
    Output,
}

/// What a host has for a default device: the handle by which the backend
/// knows it, its name where it has one, and its native configuration where
/// it reports one.
pub struct Found<D> {
    pub handle: D,
    pub name: Option<String>,
    pub config: Option<StreamConfig>,
}

/// A resolved device with its direction and the configuration that a stream
/// on it will use.
pub struct DeviceBuilder<D> {
    kind: Device,
    inner: D,
    name: Option<String>,
    config: StreamConfig,
}

impl<D> DeviceBuilder<D> {
    pub closed spec fn spec_kind(&self) -> Device {
        self.kind
    }

    pub closed spec fn spec_inner(&self) -> D {
        self.inner
    }

    pub closed spec fn spec_name(&self) -> Option<String> {
        self.name
    }

    pub closed spec fn spec_config(&self) -> StreamConfig {
        self.config
    }

    /// What resolving the default device of direction `kind` gives for the
    /// host's answer `found`: the device with its native configuration; an
    /// error naming the direction where the host has no such device; a
    /// configuration error where the device reports none.
    pub open spec fn resolved(kind: Device, found: Option<Found<D>>, r: Result<Self, Error>) -> bool {
        match found {
            None => r matches Err(e) && e == match kind {
                Device::Input => Error::DefaultInputDeviceError,
                Device::Output => Error::DefaultOutputDeviceError,
            },
            Some(f) => match f.config {
                None => r matches Err(e) && e == Error::DefaultConfigError,
                Some(config) => {
                    &&& r matches Ok(device)
                    &&& device.spec_kind() == kind
                    &&& device.spec_inner() == f.handle
                    &&& device.spec_name() == f.name
                    &&& device.spec_config() == config
                },
            },
        }
    }

    pub fn new_default_input(found: Option<Found<D>>) -> (r: Result<DeviceBuilder<D>, Error>)
        ensures
            Self::resolved(Device::Input, found, r),
    {
        match found {
            None => Err(Error::DefaultInputDeviceError),
            Some(f) => match f.config {
                None => Err(Error::DefaultConfigError),
                Some(config) => Ok(
                    DeviceBuilder { kind: Device::Input, inner: f.handle, name: f.name, config },
                ),
            },
        }
    }

    pub fn new_default_output(found: Option<Found<D>>) -> (r: Result<DeviceBuilder<D>, Error>)
        ensures
            Self::resolved(Device::Output, found, r),
    {
        match found {
            None => Err(Error::DefaultOutputDeviceError),
            Some(f) => match f.config {
                None => Err(Error::DefaultConfigError),
                Some(config) => Ok(
                    DeviceBuilder { kind: Device::Output, inner: f.handle, name: f.name, config },
                ),
            },
        }
    }

    pub fn kind(&self) -> (kind: Device)
        ensures
            kind == self.spec_kind(),
    {
        self.kind
    }

    /// The handle by which the backend knows the device.
    pub fn inner(&self) -> (inner: &D)
        ensures
            *inner == self.spec_inner(),
    {
        &self.inner
    }

    /// The name of the device, where it has one.
    pub fn name(&self) -> (name: Option<&String>)
        ensures
            name == match self.spec_name() {
                Some(n) => Some(&n),
                None => None,
            },
    {
        self.name.as_ref()
    }

    pub fn config(&self) -> (config: &StreamConfig)
        ensures
            *config == self.spec_config(),
    {
        &self.config
    }

    /// Puts `config` in place of the configuration of the device. Whether
    /// the device can work with it shows when the stream is built.
    pub fn with_config(&mut self, config: StreamConfig) -> (this: &mut Self)
        ensures
            this.spec_config() == config,
            this.spec_kind() == old(self).spec_kind(),
            this.spec_inner() == old(self).spec_inner(),
            this.spec_name() == old(self).spec_name(),
            *final(self) == *final(this),
    {
        self.config = config;
        self
    }
}

} // verus!
