use vstd::prelude::*;
use vstd::string::*;
use crate::codec::Codec;
use crate::config::{StreamConfig, WavExt, WavSpec};
use crate::error::Error;
use crate::format::SampleFrame;

verus! {

/// The most bytes of samples that a file can hold. The size field of a file
/// is 32 bits wide and counts up to 60 bytes of header besides the samples.
pub const MAX_DATA_BYTES: u32 = 0xffff_ffff - 60;

/// What a write error says when the file is full.
pub open spec fn no_room_message() -> Seq<char> {
    "no room is left in the file"@
}

/// Whether `write` can answer `outcome` when it is handed `frame`, on some
/// writer.
pub open spec fn answers<T, F: FnMut(&mut T, SampleFrame) -> Result<(), String>>(
    write: F,
    frame: SampleFrame,
    outcome: Result<(), String>,
) -> bool {
    exists|w: &mut T| write.ensures((w, frame), outcome)
}

/// What a sink is, seen from outside: whether the writer is still in it,
/// the codec that its frames go through, and the frames that the writer has
/// taken, oldest first.
pub struct SinkState {
    pub open: bool,
    pub codec: Codec,
    pub written: Seq<SampleFrame>,
}

impl SinkState {
    /// Whether the sink takes `frame` next: the codec writes it and the
    /// file has room for it.
    pub open spec fn takes(self, frame: SampleFrame) -> bool {
        &&& self.codec.accepts(frame)
        &&& (self.written.len() + 1) * self.codec.spec_width() <= MAX_DATA_BYTES
    }

    /// Whether the sink takes each of `frames` in turn.
    pub open spec fn takes_all(self, frames: Seq<SampleFrame>) -> bool {
        &&& self.codec.accepts_all(frames)
        &&& (self.written.len() + frames.len()) * self.codec.spec_width() <= MAX_DATA_BYTES
    }

    /// The sink after the writer took the first `count` of `frames`. A sink
    /// without a writer stays as it is.
    pub open spec fn appended(self, frames: Seq<SampleFrame>, count: int) -> SinkState {
        if self.open {
            SinkState { written: self.written + frames.take(count), ..self }
        } else {
            self
        }
    }

    /// The sink after the writer was taken out.
    pub open spec fn finalized(self) -> SinkState {
        SinkState { open: false, ..self }
    }

    /// Whether `r` is what an append of `frames` returns when the writer
    /// took the first `count` of them. A sink without a writer takes none
    /// and reports success. Otherwise the append succeeds exactly when every
    /// frame was taken. It stops at the first frame that the codec does not
    /// write, with a format error; at the first that the file has no room
    /// for, with a write error that says so; and at the first that the
    /// writer refuses, with a write error that holds the writer's reason.
    pub open spec fn append_outcome(
        self,
        frames: Seq<SampleFrame>,
        count: int,
        r: Result<(), Error>,
    ) -> bool {
        if !self.open {
            r is Ok
        } else {
            &&& 0 <= count <= frames.len()
            &&& self.takes_all(frames.take(count))
            &&& r is Ok <==> count == frames.len()
            &&& count < frames.len() ==> if !self.codec.accepts(frames[count]) {
                r == Err::<(), Error>(Error::StreamConfigFormatError)
            } else if !self.appended(frames, count).takes(frames[count]) {
                r matches Err(Error::WriteError(cause)) && cause@ == no_room_message()
            } else {
                r matches Err(Error::WriteError(_))
            }
        }
    }
}

/// The count of what a writer has taken. It keeps the number of bytes in
/// step with the frames, and below what a file can hold.
struct Ledger {
    codec: Codec,
    data_bytes: u32,
    written: Ghost<Seq<SampleFrame>>,
}

impl Ledger {
    #[verifier::type_invariant]
    spec fn well_formed(self) -> bool {
        &&& self.data_bytes == self.written@.len() * self.codec.spec_width()
        &&& self.data_bytes <= MAX_DATA_BYTES
    }

    fn new(codec: Codec) -> (ledger: Ledger)
        ensures
            ledger.codec == codec,
            ledger.written@ == Seq::<SampleFrame>::empty(),
    {
        Ledger { codec, data_bytes: 0, written: Ghost(Seq::empty()) }
    }

    /// Whether the file has room for one more frame.
    fn has_room(&self) -> (b: bool)
        ensures
            b == ((self.written@.len() + 1) * self.codec.spec_width() <= MAX_DATA_BYTES),
    {
        proof {
            use_type_invariant(self);
            assert((self.written@.len() + 1) * self.codec.spec_width() == self.data_bytes
                + self.codec.spec_width()) by (nonlinear_arith)
                requires
                    self.data_bytes == self.written@.len() * self.codec.spec_width(),
            ;
        }
        let width: u32 = self.codec.width() as u32;
        self.data_bytes <= MAX_DATA_BYTES - width
    }

    /// Counts one more frame.
    fn record(&mut self, frame: SampleFrame)
        requires
            (old(self).written@.len() + 1) * old(self).codec.spec_width() <= MAX_DATA_BYTES,
        ensures
            final(self).codec == old(self).codec,
            final(self).written@ == old(self).written@.push(frame),
    {
        proof {
            use_type_invariant(&*self);
            assert((self.written@.len() + 1) * self.codec.spec_width() == self.data_bytes
                + self.codec.spec_width()) by (nonlinear_arith)
                requires
                    self.data_bytes == self.written@.len() * self.codec.spec_width(),
            ;
        }
        let width: u32 = self.codec.width() as u32;
        *self = Ledger {
            codec: self.codec,
            data_bytes: self.data_bytes + width,
            written: Ghost(self.written@.push(frame)),
        };
    }

    fn data_bytes(&self) -> (n: u32)
        ensures
            n == self.written@.len() * self.codec.spec_width(),
            n <= MAX_DATA_BYTES,
    {
        proof {
            use_type_invariant(self);
        }
        self.data_bytes
    }
}

/// A buffer of samples: frames, or the bytes that a device delivers.
enum Buffer<'a> {
    Frames(&'a [SampleFrame]),
    Raw(&'a [u8]),
}

impl<'a> Buffer<'a> {
    /// The frames that the buffer holds for a sink of the given codec.
    spec fn frames(self, codec: Codec) -> Seq<SampleFrame> {
        match self {
            Buffer::Frames(frames) => frames@,
            Buffer::Raw(raw) => codec.decode(raw@),
        }
    }

    fn count(&self, codec: Codec) -> (n: usize)
        ensures
            n == self.frames(codec).len(),
    {
        match self {
            Buffer::Frames(frames) => frames.len(),
            Buffer::Raw(raw) => raw.len() / codec.width(),
        }
    }

    fn frame(&self, codec: Codec, index: usize) -> (frame: SampleFrame)
        requires
            index < self.frames(codec).len(),
        ensures
            frame == self.frames(codec)[index as int],
    {
        match self {
            Buffer::Frames(frames) => frames[index],
            Buffer::Raw(raw) => {
                assert((index + 1) * codec.spec_width() <= raw@.len()) by (nonlinear_arith)
                    requires
                        index < raw@.len() / codec.spec_width(),
                        codec.spec_width() > 0,
                ;
                codec.read_frame(raw, index)
            },
        }
    }
}

/// Whether `write` answers every frame with success.
pub open spec fn always_accepts<T, F: FnMut(&mut T, SampleFrame) -> Result<(), String>>(
    write: F,
) -> bool {
    forall|w: &mut T, f: SampleFrame, o: Result<(), String>|
        write.ensures((w, f), o) ==> o is Ok
}

/// Whether `write` answers every frame with a refusal.
pub open spec fn always_refuses<T, F: FnMut(&mut T, SampleFrame) -> Result<(), String>>(
    write: F,
) -> bool {
    forall|w: &mut T, f: SampleFrame, o: Result<(), String>|
        write.ensures((w, f), o) ==> o is Err
}

/// Whether `after` and `r` are what feeding `frames` through `write` leaves
/// of the sink `before`. The sink grows by the frames that the writer took,
/// a leading part of `frames`, and `r` is as `append_outcome` says. Each
/// frame that was taken is one that `write` can answer with success; where
/// a frame that the sink would take ends the append, the error holds a
/// reason with which `write` can refuse that frame.
pub open spec fn fed<T, F: FnMut(&mut T, SampleFrame) -> Result<(), String>>(
    before: SinkState,
    after: SinkState,
    frames: Seq<SampleFrame>,
    write: F,
    r: Result<(), Error>,
) -> bool {
    let count = after.written.len() - before.written.len();
    &&& after == before.appended(frames, count)
    &&& before.append_outcome(frames, count, r)
    &&& before.open ==> {
        &&& forall|i: int|
            0 <= i < count ==> answers(write, #[trigger] frames[i], Ok::<(), String>(()))
        &&& count < frames.len() && before.appended(frames, count).takes(frames[count]) ==> (r matches Err(
            Error::WriteError(cause),
        ) && answers(write, frames[count], Err::<(), String>(cause)))
    }
}

/// The writer decides: an append to a sink that takes all the frames
/// succeeds where the writer accepts every frame, and an append of at least
/// one frame to an open sink fails where the writer refuses every frame.
pub proof fn lemma_writer_decides<T, F: FnMut(&mut T, SampleFrame) -> Result<(), String>>(
    before: SinkState,
    after: SinkState,
    frames: Seq<SampleFrame>,
    write: F,
    r: Result<(), Error>,
)
    requires
        fed(before, after, frames, write, r),
    ensures
        always_accepts(write) && before.takes_all(frames) ==> r is Ok,
        always_refuses(write) && before.open && frames.len() > 0 ==> r is Err,
{
    let count = after.written.len() - before.written.len();
    if before.open {
        if always_accepts(write) && before.takes_all(frames) && r is Err {
            assert(count < frames.len());
            assert(before.codec.accepts(frames[count]));
            assert(before.appended(frames, count).takes(frames[count])) by {
                assert(frames.take(count).len() == count);
                assert((before.written.len() + count + 1) * before.codec.spec_width() <= (
                before.written.len() + frames.len()) * before.codec.spec_width())
                    by (nonlinear_arith)
                    requires
                        count < frames.len(),
                ;
            }
            let cause = r->Err_0->WriteError_0;
            assert(answers(write, frames[count], Err::<(), String>(cause)));
            let w = choose|w: &mut T| write.ensures((w, frames[count]), Err::<(), String>(cause));
            assert(write.ensures((w, frames[count]), Err::<(), String>(cause)));
        }
        if always_refuses(write) && frames.len() > 0 && r is Ok {
            assert(count == frames.len());
            assert(answers(write, frames[0], Ok::<(), String>(())));
            let w = choose|w: &mut T| write.ensures((w, frames[0]), Ok::<(), String>(()));
            assert(write.ensures((w, frames[0]), Ok::<(), String>(())));
        }
    }
}

/// The one place that owns the writer of a recording. Frames go in through
/// `append` while the writer is there; `finalize` takes the writer out and
/// closes it, after which the sink is empty for good.
pub struct WriterSink<T> {
    slot: Option<T>,
    ledger: Ledger,
}

impl<T> View for WriterSink<T> {
    type V = SinkState;

    closed spec fn view(&self) -> SinkState {
        SinkState {
            open: self.slot is Some,
            codec: self.ledger.codec,
            written: self.ledger.written@,
        }
    }
}

impl<T> WriterSink<T> {
    /// The writer, while it is in the sink.
    pub closed spec fn spec_writer(&self) -> Option<T> {
        self.slot
    }

    /// A sink is open exactly while the writer is in it.
    pub proof fn lemma_open_with_writer(&self)
        ensures
            self@.open <==> self.spec_writer() is Some,
    {
    }

    /// Makes the sink for a stream of the given configuration. The writer
    /// comes from `open`, which is handed the header that the configuration
    /// gives, and is called only where the configuration can be recorded.
    pub fn create<F: FnOnce(WavSpec) -> Result<T, String>>(config: &StreamConfig, open: F) -> (r:
        Result<WriterSink<T>, Error>)
        requires
            open.requires((config.spec_wav_spec(),)),
        ensures
            !config.spec_recordable() ==> (r matches Err(e) && e
                == Error::StreamConfigFormatError),
            config.spec_recordable() ==> match r {
                Ok(sink) => {
                    &&& sink@.open
                    &&& sink@.written == Seq::<SampleFrame>::empty()
                    &&& Codec::spec_select(config.sample_format) == Some(sink@.codec)
                    &&& sink.spec_writer() matches Some(w) && open.ensures(
                        (config.spec_wav_spec(),),
                        Ok(w),
                    )
                },
                Err(e) => e matches Error::WriterCreationError(cause) && open.ensures(
                    (config.spec_wav_spec(),),
                    Err(cause),
                ),
            },
    {
        let codec = match config.codec() {
            Ok(codec) => codec,
            Err(e) => {
                return Err(e);
            },
        };
        match open(config.as_wav_spec()) {
            Ok(writer) => Ok(WriterSink { slot: Some(writer), ledger: Ledger::new(codec) }),
            Err(cause) => Err(Error::WriterCreationError(cause)),
        }
    }

    pub fn is_open(&self) -> (b: bool)
        ensures
            b == self@.open,
    {
        self.slot.is_some()
    }

    pub fn codec(&self) -> (c: Codec)
        ensures
            c == self@.codec,
    {
        self.ledger.codec
    }

    /// Bytes of samples that the writer has taken so far.
    pub fn data_bytes(&self) -> (n: u32)
        ensures
            n == self@.written.len() * self@.codec.spec_width(),
            n <= MAX_DATA_BYTES,
    {
        self.ledger.data_bytes()
    }

    /// Takes note of how the writer answered when it was handed `frame`.
    /// Where the sink takes the frame, an answer of success counts the
    /// frame as written, and a refusal comes back as a write error with the
    /// writer's reason, the sink unchanged. Where the sink does not take the
    /// frame, the answer counts for nothing: a sink without a writer
    /// reports success, a frame of another codec is a format error, and a
    /// full file is a write error that says so.
    pub fn settle(&mut self, frame: SampleFrame, outcome: Result<(), String>) -> (r: Result<
        (),
        Error,
    >)
        ensures
            final(self).spec_writer() == old(self).spec_writer(),
            final(self)@.open == old(self)@.open,
            final(self)@.codec == old(self)@.codec,
            !old(self)@.open ==> r is Ok && final(self)@ == old(self)@,
            old(self)@.open && !old(self)@.codec.accepts(frame) ==> final(self)@ == old(self)@
                && r == Err::<(), Error>(Error::StreamConfigFormatError),
            old(self)@.open && old(self)@.codec.accepts(frame) && !old(self)@.takes(frame)
                ==> final(self)@ == old(self)@ && (r matches Err(Error::WriteError(cause))
                && cause@ == no_room_message()),
            old(self)@.open && old(self)@.takes(frame) ==> match outcome {
                Ok(_) => r is Ok && final(self)@.written == old(self)@.written.push(frame),
                Err(cause) => r == Err::<(), Error>(Error::WriteError(cause)) && final(self)@
                    == old(self)@,
            },
    {
        if self.slot.is_none() {
            return Ok(());
        }
        if frame.codec() != self.ledger.codec {
            return Err(Error::StreamConfigFormatError);
        }
        if !self.ledger.has_room() {
            return Err(Error::WriteError(String::from_str("no room is left in the file")));
        }
        match outcome {
            Ok(_) => {
                self.ledger.record(frame);
                Ok(())
            },
            Err(cause) => Err(Error::WriteError(cause)),
        }
    }

    /// Hands one frame to the writer, if the sink takes it, and takes note
    /// of the answer.
    fn push<F: FnMut(&mut T, SampleFrame) -> Result<(), String>>(
        &mut self,
        frame: SampleFrame,
        write: &mut F,
    ) -> (r: Result<(), Error>)
        requires
            old(self)@.open,
            old(self)@.takes(frame) ==> forall|w: &mut T| (*old(write)).requires((w, frame)),
        ensures
            *final(write) == *old(write),
            final(self)@.open,
            final(self)@.codec == old(self)@.codec,
            r is Ok ==> old(self)@.takes(frame) && final(self)@.written == old(self)@.written.push(
                frame,
            ) && answers(*old(write), frame, Ok::<(), String>(())),
            r is Err ==> final(self)@ == old(self)@,
            !old(self)@.codec.accepts(frame) ==> r == Err::<(), Error>(
                Error::StreamConfigFormatError,
            ),
            old(self)@.codec.accepts(frame) && !old(self)@.takes(frame) ==> (r matches Err(
                Error::WriteError(cause),
            ) && cause@ == no_room_message()),
            old(self)@.takes(frame) ==> r is Ok || (r matches Err(Error::WriteError(cause))
                && answers(*old(write), frame, Err::<(), String>(cause))),
    {
        if frame.codec() != self.ledger.codec {
            return Err(Error::StreamConfigFormatError);
        }
        if !self.ledger.has_room() {
            return Err(Error::WriteError(String::from_str("no room is left in the file")));
        }
        let outcome = match self.slot.as_mut() {
            Some(writer) => {
                let outcome = write(writer, frame);
                assert(exists|w: &mut T| (*old(write)).ensures((w, frame), outcome));
                outcome
            },
            None => Ok(()),
        };
        assert(answers(*old(write), frame, outcome));
        assert(outcome is Ok ==> outcome == Ok::<(), String>(())) by {
            if outcome is Ok {
                assert(outcome->Ok_0 == ());
            }
        }
        self.settle(frame, outcome)
    }

    /// Hands the frames of `buffer` to the writer, in order, until one is
    /// not taken.
    fn feed<F: FnMut(&mut T, SampleFrame) -> Result<(), String>>(
        &mut self,
        buffer: Buffer<'_>,
        write: &mut F,
    ) -> (r: Result<(), Error>)
        requires
            old(self)@.open,
            forall|w: &mut T, i: int|
                #![trigger (*old(write)).requires((w, buffer.frames(old(self)@.codec)[i]))]
                0 <= i < buffer.frames(old(self)@.codec).len() ==> (*old(write)).requires(
                    (w, buffer.frames(old(self)@.codec)[i]),
                ),
        ensures
            *final(write) == *old(write),
            fed(old(self)@, final(self)@, buffer.frames(old(self)@.codec), *old(write), r),
    {
        let codec = self.ledger.codec;
        let count: usize = buffer.count(codec);
        let ghost frames = buffer.frames(codec);
        proof {
            use_type_invariant(&self.ledger);
            assert(frames.take(0) =~= Seq::<SampleFrame>::empty());
        }
        let mut i: usize = 0;
        while i < count
            invariant
                i <= count,
                count == frames.len(),
                codec == old(self)@.codec,
                frames == buffer.frames(codec),
                old(self)@.open,
                *write == *old(write),
                self@ == old(self)@.appended(frames, i as int),
                old(self)@.takes_all(frames.take(i as int)),
                forall|k: int|
                    0 <= k < i ==> answers(*write, #[trigger] frames[k], Ok::<(), String>(())),
                forall|w: &mut T, k: int|
                    #![trigger (*write).requires((w, frames[k]))]
                    0 <= k < frames.len() ==> (*write).requires((w, frames[k])),
            decreases count - i,
        {
            let frame = buffer.frame(codec, i);
            let ghost before = self@;
            match self.push(frame, write) {
                Ok(()) => {
                    proof {
                        assert(frames.take(i + 1) =~= frames.take(i as int).push(frame));
                        assert(self@.written =~= old(self)@.written + frames.take(i + 1));
                        assert((old(self)@.written.len() + frames.take(i + 1).len())
                            * self@.codec.spec_width() <= MAX_DATA_BYTES) by {
                            assert(before.written.len() + 1 == old(self)@.written.len() + i + 1);
                        }
                    }
                },
                Err(e) => {
                    proof {
                        assert(self@.written =~= old(self)@.written + frames.take(i as int));
                        assert(self@.written.len() - old(self)@.written.len() == i);
                    }
                    return Err(e);
                },
            }
            i = i + 1;
        }
        proof {
            assert(frames.take(frames.len() as int) =~= frames);
        }
        Ok(())
    }

    /// Hands `frames` to the writer, in order, through `write`. After
    /// `finalize` this does nothing and succeeds.
    pub fn append<F: FnMut(&mut T, SampleFrame) -> Result<(), String>>(
        &mut self,
        frames: &[SampleFrame],
        write: F,
    ) -> (r: Result<(), Error>)
        requires
            old(self)@.open ==> forall|w: &mut T, i: int|
                #![trigger write.requires((w, frames@[i]))]
                0 <= i < frames@.len() ==> write.requires((w, frames@[i])),
        ensures
            fed(old(self)@, final(self)@, frames@, write, r),
            always_accepts(write) && old(self)@.takes_all(frames@) ==> r is Ok,
            always_refuses(write) && old(self)@.open && frames@.len() > 0 ==> r is Err,
    {
        let mut held = write;
        let r = if self.slot.is_none() {
            Ok(())
        } else {
            self.feed(Buffer::Frames(frames), &mut held)
        };
        proof {
            lemma_writer_decides(old(self)@, self@, frames@, write, r);
        }
        r
    }

    /// Reads the samples out of `raw`, a buffer as the device delivers it,
    /// and hands them to the writer, in order, through `write`. A buffer
    /// that ends in the middle of a sample is refused as a whole. After
    /// `finalize` this does nothing and succeeds.
    pub fn append_raw<F: FnMut(&mut T, SampleFrame) -> Result<(), String>>(
        &mut self,
        raw: &[u8],
        write: F,
    ) -> (r: Result<(), Error>)
        requires
            old(self)@.open ==> forall|w: &mut T, i: int|
                #![trigger write.requires((w, old(self)@.codec.decode(raw@)[i]))]
                0 <= i < old(self)@.codec.decode(raw@).len() ==> write.requires(
                    (w, old(self)@.codec.decode(raw@)[i]),
                ),
        ensures
            old(self)@.open && !old(self)@.codec.whole(raw@) ==> final(self)@ == old(self)@ && r
                == Err::<(), Error>(Error::StreamConfigFormatError),
            !old(self)@.open || old(self)@.codec.whole(raw@) ==> {
                &&& fed(old(self)@, final(self)@, old(self)@.codec.decode(raw@), write, r)
                &&& always_accepts(write) && old(self)@.takes_all(old(self)@.codec.decode(raw@))
                    ==> r is Ok
                &&& always_refuses(write) && old(self)@.open && raw@.len() > 0 ==> r is Err
            },
    {
        let mut held = write;
        if self.slot.is_none() {
            return Ok(());
        }
        let codec = self.ledger.codec;
        if raw.len() % codec.width() != 0 {
            return Err(Error::StreamConfigFormatError);
        }
        let r = self.feed(Buffer::Raw(raw), &mut held);
        proof {
            lemma_writer_decides(old(self)@, self@, codec.decode(raw@), write, r);
            if raw@.len() > 0 {
                assert(raw@.len() >= codec.spec_width());
                assert(codec.decode(raw@).len() > 0) by (nonlinear_arith)
                    requires
                        codec.decode(raw@).len() == raw@.len() / codec.spec_width(),
                        raw@.len() >= codec.spec_width(),
                        codec.spec_width() > 0,
                ;
            }
        }
        r
    }

    /// Takes the writer out of the sink and closes it through `close`.
    /// Where the writer is already gone this does nothing and succeeds.
    pub fn finalize<F: FnOnce(T) -> Result<(), String>>(&mut self, close: F) -> (r: Result<
        (),
        Error,
    >)
        requires
            old(self).spec_writer() matches Some(w) ==> close.requires((w,)),
        ensures
            final(self)@ == old(self)@.finalized(),
            final(self).spec_writer() is None,
            !old(self)@.open ==> r is Ok,
            match old(self).spec_writer() {
                None => r is Ok,
                Some(w) => match r {
                    Ok(()) => close.ensures((w,), Ok(())),
                    Err(e) => e matches Error::WriteError(cause) && close.ensures(
                        (w,),
                        Err(cause),
                    ),
                },
            },
    {
        match self.slot.take() {
            Some(writer) => {
                match close(writer) {
                    Ok(done) => {
                        assert(done == ());
                        Ok(())
                    },
                    Err(cause) => Err(Error::WriteError(cause)),
                }
            },
            None => Ok(()),
        }
    }
}

/// Finalizing twice is finalizing once: the second time finds the writer
/// gone and changes nothing.
pub proof fn lemma_finalize_twice(sink: SinkState)
    ensures
        !sink.finalized().open,
        sink.finalized().finalized() == sink.finalized(),
{
}

/// After finalizing, an append takes no frame and reports success, whatever
/// the frames are.
pub proof fn lemma_append_after_finalize(
    sink: SinkState,
    frames: Seq<SampleFrame>,
    count: int,
    r: Result<(), Error>,
)
    requires
        sink.finalized().append_outcome(frames, count, r),
    ensures
        r is Ok,
        sink.finalized().appended(frames, count) == sink.finalized(),
{
}

/// Two appends that take all their frames leave what one append of both
/// buffers leaves.
pub proof fn lemma_append_in_turn(sink: SinkState, first: Seq<SampleFrame>, second: Seq<SampleFrame>)
    ensures
        sink.appended(first, first.len() as int).appended(second, second.len() as int)
            == sink.appended(first + second, (first + second).len() as int),
{
    assert(first.take(first.len() as int) =~= first);
    assert(second.take(second.len() as int) =~= second);
    assert((first + second).take((first + second).len() as int) =~= first + second);
    assert((sink.written + first) + second =~= sink.written + (first + second));
}

} // verus!
