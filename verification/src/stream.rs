use vstd::prelude::*;
use crate::codec::Codec;
use crate::config::StreamConfig;
use crate::device::{Device, DeviceBuilder};
use crate::error::Error;

verus! {

/// Where a stream stands in its life.
#[derive(Debug, Clone, Copy, PartialEq, Eq, Structural)]
pub enum StreamState {
    /// The device is resolved; no stream is built.
    Idle,
    /// The stream is built and waits to be started.
    Armed,
    /// The backend calls the callback.
    Playing,
    /// The stream is given up. Nothing leads out of here.
    Stopped,
}

/// What can be asked of a stream.
#[derive(Debug, Clone, Copy, PartialEq, Eq, Structural)]
pub enum Transition {
    Build,
    Play,
    Finalize,
}

impl StreamState {
    /// The state that follows `self` when `transition` was asked for and
    /// the backend, where it had a say, answered `ok`. Building leads from
    /// idle to armed; playing leads from armed or playing to playing; each
    /// of the two leaves the state as it is where the backend refuses or the
    /// state is another. Finalizing leads to stopped from anywhere.
    pub open spec fn after(self, transition: Transition, ok: bool) -> StreamState {
        match transition {
            Transition::Build => if self == StreamState::Idle && ok {
                StreamState::Armed
            } else {
                self
            },
            Transition::Play => if (self == StreamState::Armed || self == StreamState::Playing)
                && ok {
                StreamState::Playing
            } else {
                self
            },
            Transition::Finalize => StreamState::Stopped,
        }
    }
}

/// Nothing leads out of the stopped state.
pub proof fn lemma_stopped_is_terminal(transition: Transition, ok: bool)
    ensures
        StreamState::Stopped.after(transition, ok) == StreamState::Stopped,
{
}

/// Playing before anything is built changes nothing.
pub proof fn lemma_play_before_build(ok: bool)
    ensures
        StreamState::Idle.after(Transition::Play, ok) == StreamState::Idle,
{
}

/// Building, playing and finalizing, each with success, lead from idle
/// through armed and playing to stopped.
pub proof fn lemma_life_cycle()
    ensures
        StreamState::Idle.after(Transition::Build, true) == StreamState::Armed,
        StreamState::Armed.after(Transition::Play, true) == StreamState::Playing,
        StreamState::Playing.after(Transition::Finalize, true) == StreamState::Stopped,
{
}

/// A configuration that can be recorded, with the codec that is chosen for
/// its format. The two are made together and never change.
struct Setup {
    config: StreamConfig,
    codec: Codec,
}

impl Setup {
    #[verifier::type_invariant]
    spec fn well_formed(self) -> bool {
        &&& self.config.spec_recordable()
        &&& Codec::spec_select(self.config.sample_format) == Some(self.codec)
    }

    fn new(config: StreamConfig) -> (r: Result<Setup, Error>)
        ensures
            !config.spec_recordable() ==> (r matches Err(e) && e
                == Error::StreamConfigFormatError),
            config.spec_recordable() ==> (r matches Ok(setup) && setup.config == config
                && Codec::spec_select(config.sample_format) == Some(setup.codec)),
    {
        let codec = config.codec()?;
        Ok(Setup { config, codec })
    }

    fn config(&self) -> (config: &StreamConfig)
        ensures
            *config == self.config,
            config.spec_recordable(),
            Codec::spec_select(config.sample_format) == Some(self.codec),
    {
        proof {
            use_type_invariant(self);
        }
        &self.config
    }

    fn codec(&self) -> (codec: Codec)
        ensures
            codec == self.codec,
            self.config.spec_recordable(),
            Codec::spec_select(self.config.sample_format) == Some(codec),
    {
        proof {
            use_type_invariant(self);
        }
        self.codec
    }
}

/// A stream on a device, from before it is built until it is given up.
pub struct StreamBuilder<D, S> {
    device: DeviceBuilder<D>,
    setup: Setup,
    stream: Option<S>,
    kind: Device,
    playing: bool,
    stopped: bool,
}

impl<D, S> StreamBuilder<D, S> {
    pub closed spec fn spec_device(&self) -> DeviceBuilder<D> {
        self.device
    }

    pub closed spec fn spec_config(&self) -> StreamConfig {
        self.setup.config
    }

    pub closed spec fn spec_codec(&self) -> Codec {
        self.setup.codec
    }

    /// The handle of the stream, from when it is built until it is given up.
    pub closed spec fn spec_stream(&self) -> Option<S> {
        if self.stopped {
            None
        } else {
            self.stream
        }
    }

    /// The direction whose kind of callback the stream has, or will have.
    pub closed spec fn spec_kind(&self) -> Device {
        self.kind
    }

    pub closed spec fn spec_state(&self) -> StreamState {
        if self.stopped {
            StreamState::Stopped
        } else if self.stream is None {
            StreamState::Idle
        } else if self.playing {
            StreamState::Playing
        } else {
            StreamState::Armed
        }
    }

    /// Whether `self` is `before` but for its state and its stream.
    pub open spec fn same_setup(&self, before: &Self) -> bool {
        &&& self.spec_device() == before.spec_device()
        &&& self.spec_config() == before.spec_config()
        &&& self.spec_codec() == before.spec_codec()
        &&& self.spec_kind() == before.spec_kind()
    }

    /// A stream holds a handle exactly while it is armed or playing.
    pub proof fn lemma_stream_while_live(&self)
        ensures
            self.spec_stream() is Some <==> self.spec_state() == StreamState::Armed
                || self.spec_state() == StreamState::Playing,
    {
    }

    /// Prepares a stream on `device`, with the configuration of the device
    /// taken as it is and the codec chosen for it. A configuration that
    /// cannot be recorded is an error.
    pub fn from(device: DeviceBuilder<D>) -> (r: Result<StreamBuilder<D, S>, Error>)
        ensures
            !device.spec_config().spec_recordable() ==> (r matches Err(e) && e
                == Error::StreamConfigFormatError),
            device.spec_config().spec_recordable() ==> {
                &&& r matches Ok(stream)
                &&& stream.spec_state() == StreamState::Idle
                &&& stream.spec_stream() is None
                &&& stream.spec_device() == device
                &&& stream.spec_config() == device.spec_config()
                &&& stream.spec_kind() == device.spec_kind()
                &&& Codec::spec_select(device.spec_config().sample_format) == Some(
                    stream.spec_codec(),
                )
            },
    {
        let setup = Setup::new(*device.config())?;
        let kind = device.kind();
        Ok(StreamBuilder { device, setup, stream: None, kind, playing: false, stopped: false })
    }

    pub fn state(&self) -> (state: StreamState)
        ensures
            state == self.spec_state(),
    {
        if self.stopped {
            StreamState::Stopped
        } else if self.stream.is_none() {
            StreamState::Idle
        } else if self.playing {
            StreamState::Playing
        } else {
            StreamState::Armed
        }
    }

    pub fn device(&self) -> (device: &DeviceBuilder<D>)
        ensures
            *device == self.spec_device(),
    {
        &self.device
    }

    /// The configuration of the stream. It is one that can be recorded.
    pub fn config(&self) -> (config: &StreamConfig)
        ensures
            *config == self.spec_config(),
            config.spec_recordable(),
    {
        self.setup.config()
    }

    /// The codec of the stream: the one chosen for the format of its
    /// configuration.
    pub fn codec(&self) -> (codec: Codec)
        ensures
            codec == self.spec_codec(),
            Codec::spec_select(self.spec_config().sample_format) == Some(codec),
    {
        self.setup.codec()
    }

    pub fn kind(&self) -> (kind: Device)
        ensures
            kind == self.spec_kind(),
    {
        self.kind
    }

    pub fn stream(&self) -> (stream: Option<&S>)
        ensures
            stream == match self.spec_stream() {
                Some(s) => Some(&s),
                None => None,
            },
    {
        if self.stopped {
            None
        } else {
            self.stream.as_ref()
        }
    }

    /// Has the stream take the callback of an input device, whatever the
    /// direction of the device itself: `build` then builds through its
    /// reader.
    pub fn as_input(&mut self) -> (this: &mut Self)
        ensures
            this.spec_kind() == Device::Input,
            this.spec_device() == old(self).spec_device(),
            this.spec_config() == old(self).spec_config(),
            this.spec_codec() == old(self).spec_codec(),
            this.spec_stream() == old(self).spec_stream(),
            this.spec_state() == old(self).spec_state(),
            *final(self) == *final(this),
    {
        self.kind = Device::Input;
        self
    }

    /// Has the stream take the callback of an output device, whatever the
    /// direction of the device itself: `build` then builds through its
    /// writer.
    pub fn as_output(&mut self) -> (this: &mut Self)
        ensures
            this.spec_kind() == Device::Output,
            this.spec_device() == old(self).spec_device(),
            this.spec_config() == old(self).spec_config(),
            this.spec_codec() == old(self).spec_codec(),
            this.spec_stream() == old(self).spec_stream(),
            this.spec_state() == old(self).spec_state(),
            *final(self) == *final(this),
    {
        self.kind = Device::Output;
        self
    }

    /// Whether `r` and `after` are what building a stream for the callback
    /// of direction `kind` leaves of `before`. Only an idle stream is built:
    /// `build` is handed the device, the configuration and the codec as
    /// they stand, and the stream that it gives is kept. Where `build` gives
    /// none, or `before` is not idle, nothing changes and the result is an
    /// error.
    pub open spec fn built<F: FnOnce(&D, &StreamConfig, Codec) -> Option<S>>(
        before: &Self,
        after: &Self,
        kind: Device,
        build: F,
        r: Result<&S, Error>,
    ) -> bool {
        if before.spec_state() == StreamState::Idle {
            match r {
                Ok(stream) => {
                    &&& build.ensures(
                        (&before.spec_device().spec_inner(), &before.spec_config(), before.spec_codec()),
                        Some(*stream),
                    )
                    &&& after.spec_stream() == Some(*stream)
                    &&& after.spec_state() == StreamState::Armed
                    &&& after.spec_kind() == kind
                    &&& after.spec_device() == before.spec_device()
                    &&& after.spec_config() == before.spec_config()
                    &&& after.spec_codec() == before.spec_codec()
                },
                Err(e) => {
                    &&& e == Error::StreamCreationError
                    &&& build.ensures(
                        (&before.spec_device().spec_inner(), &before.spec_config(), before.spec_codec()),
                        None,
                    )
                    &&& *after == *before
                },
            }
        } else {
            &&& r matches Err(e) && e == Error::StreamCreationError
            &&& *after == *before
        }
    }

    fn arm<F: FnOnce(&D, &StreamConfig, Codec) -> Option<S>>(&mut self, kind: Device, build: F) -> (r:
        Result<&S, Error>)
        requires
            build.requires(
                (
                    &old(self).spec_device().spec_inner(),
                    &old(self).spec_config(),
                    old(self).spec_codec(),
                ),
            ),
        ensures
            Self::built(old(self), final(self), kind, build, r),
            final(self).spec_state() == old(self).spec_state().after(Transition::Build, r is Ok),
            old(self).spec_config().spec_recordable(),
            Codec::spec_select(old(self).spec_config().sample_format) == Some(
                old(self).spec_codec(),
            ),
    {
        let codec = self.setup.codec();
        if self.stopped || self.stream.is_some() {
            return Err(Error::StreamCreationError);
        }
        match build(self.device.inner(), self.setup.config(), codec) {
            Some(stream) => {
                self.stream = Some(stream);
                self.playing = false;
                self.kind = kind;
                match self.stream.as_ref() {
                    Some(stream) => Ok(stream),
                    None => Err(Error::StreamCreationError),
                }
            },
            None => Err(Error::StreamCreationError),
        }
    }

    /// Builds the stream with the callback of an input device, whatever
    /// direction the stream had: it has that of an input from then on.
    pub fn with_reader<F: FnOnce(&D, &StreamConfig, Codec) -> Option<S>>(&mut self, build: F) -> (r:
        Result<&S, Error>)
        requires
            build.requires(
                (
                    &old(self).spec_device().spec_inner(),
                    &old(self).spec_config(),
                    old(self).spec_codec(),
                ),
            ),
        ensures
            Self::built(old(self), final(self), Device::Input, build, r),
            final(self).spec_state() == old(self).spec_state().after(Transition::Build, r is Ok),
            old(self).spec_config().spec_recordable(),
            Codec::spec_select(old(self).spec_config().sample_format) == Some(
                old(self).spec_codec(),
            ),
    {
        self.arm(Device::Input, build)
    }

    /// Builds the stream with the callback of an output device, whatever
    /// direction the stream had: it has that of an output from then on.
    pub fn with_writer<F: FnOnce(&D, &StreamConfig, Codec) -> Option<S>>(&mut self, build: F) -> (r:
        Result<&S, Error>)
        requires
            build.requires(
                (
                    &old(self).spec_device().spec_inner(),
                    &old(self).spec_config(),
                    old(self).spec_codec(),
                ),
            ),
        ensures
            Self::built(old(self), final(self), Device::Output, build, r),
            final(self).spec_state() == old(self).spec_state().after(Transition::Build, r is Ok),
            old(self).spec_config().spec_recordable(),
            Codec::spec_select(old(self).spec_config().sample_format) == Some(
                old(self).spec_codec(),
            ),
    {
        self.arm(Device::Output, build)
    }

    /// Builds the stream with the callback of the direction that the stream
    /// has: that of its device, unless `as_input` or `as_output` said
    /// otherwise. An input stream is built through `reader`, an output
    /// stream through `writer`; the other of the two is left alone.
    pub fn build<
        R: FnOnce(&D, &StreamConfig, Codec) -> Option<S>,
        W: FnOnce(&D, &StreamConfig, Codec) -> Option<S>,
    >(&mut self, reader: R, writer: W) -> (r: Result<&S, Error>)
        requires
            old(self).spec_kind() == Device::Input ==> reader.requires(
                (
                    &old(self).spec_device().spec_inner(),
                    &old(self).spec_config(),
                    old(self).spec_codec(),
                ),
            ),
            old(self).spec_kind() == Device::Output ==> writer.requires(
                (
                    &old(self).spec_device().spec_inner(),
                    &old(self).spec_config(),
                    old(self).spec_codec(),
                ),
            ),
        ensures
            old(self).spec_kind() == Device::Input ==> Self::built(
                old(self),
                final(self),
                Device::Input,
                reader,
                r,
            ),
            old(self).spec_kind() == Device::Output ==> Self::built(
                old(self),
                final(self),
                Device::Output,
                writer,
                r,
            ),
            final(self).spec_kind() == old(self).spec_kind(),
            final(self).spec_state() == old(self).spec_state().after(Transition::Build, r is Ok),
            old(self).spec_config().spec_recordable(),
            Codec::spec_select(old(self).spec_config().sample_format) == Some(
                old(self).spec_codec(),
            ),
    {
        match self.kind {
            Device::Input => self.arm(Device::Input, reader),
            Device::Output => self.arm(Device::Output, writer),
        }
    }

    /// Starts the stream through `start`. Without a stream this does
    /// nothing and succeeds.
    pub fn play<F: FnOnce(&S) -> bool>(&mut self, start: F) -> (r: Result<(), Error>)
        requires
            old(self).spec_stream() matches Some(s) ==> start.requires((&s,)),
        ensures
            final(self).same_setup(old(self)),
            final(self).spec_stream() == old(self).spec_stream(),
            final(self).spec_state() == old(self).spec_state().after(Transition::Play, r is Ok),
            match old(self).spec_stream() {
                None => r is Ok,
                Some(s) => match r {
                    Ok(_) => start.ensures((&s,), true),
                    Err(e) => e == Error::PlayError && start.ensures((&s,), false),
                },
            },
    {
        if self.stopped {
            return Ok(());
        }
        let started = match self.stream.as_ref() {
            Some(stream) => start(stream),
            None => {
                return Ok(());
            },
        };
        if started {
            self.playing = true;
            Ok(())
        } else {
            Err(Error::PlayError)
        }
    }

    /// Gives the stream up, and hands its handle out where it has one.
    pub fn finalize(&mut self) -> (stream: Option<S>)
        ensures
            stream == old(self).spec_stream(),
            final(self).same_setup(old(self)),
            final(self).spec_stream() is None,
            final(self).spec_state() == old(self).spec_state().after(Transition::Finalize, true),
    {
        let stream = if self.stopped {
            None
        } else {
            self.stream.take()
        };
        self.stopped = true;
        stream
    }
}

} // verus!
