use vstd::arithmetic::div_mod::{
    lemma_div_denominator, lemma_fundamental_div_mod, lemma_fundamental_div_mod_converse,
};
use vstd::prelude::*;
use crate::error::Error;
use crate::format::{le16, le32, le32_bytes, signed, unsigned, SampleFormat, SampleFrame};

verus! {

/// The write path for one of the four encodings that can be recorded.
#[derive(Debug, Clone, Copy, PartialEq, Eq, Structural)]
pub enum Codec {
    Int8,
    Int16,
    Int32,
    Float32,
}

impl Codec {
    /// The codec for `format`, if the format can be recorded.
    pub open spec fn spec_select(format: SampleFormat) -> Option<Codec> {
        match format {
            SampleFormat::I8 => Some(Codec::Int8),
            SampleFormat::I16 => Some(Codec::Int16),
            SampleFormat::I32 => Some(Codec::Int32),
            SampleFormat::F32 => Some(Codec::Float32),
            _ => None,
        }
    }

    /// The format whose samples this codec reads.
    pub open spec fn spec_format(self) -> SampleFormat {
        match self {
            Codec::Int8 => SampleFormat::I8,
            Codec::Int16 => SampleFormat::I16,
            Codec::Int32 => SampleFormat::I32,
            Codec::Float32 => SampleFormat::F32,
        }
    }

    /// Bytes that one sample takes in a buffer.
    pub open spec fn spec_width(self) -> nat {
        match self {
            Codec::Int8 => 1,
            Codec::Int16 => 2,
            Codec::Int32 | Codec::Float32 => 4,
        }
    }

    pub open spec fn spec_is_float(self) -> bool {
        self == Codec::Float32
    }

    /// Whether this codec writes `frame`.
    pub open spec fn accepts(self, frame: SampleFrame) -> bool {
        frame.spec_codec() == self
    }

    /// Whether this codec writes every frame of `frames`.
    pub open spec fn accepts_all(self, frames: Seq<SampleFrame>) -> bool {
        forall|i: int| 0 <= i < frames.len() ==> self.accepts(#[trigger] frames[i])
    }

    /// The frame that the first `spec_width()` bytes of `b` hold.
    pub open spec fn decode_frame(self, b: Seq<u8>) -> SampleFrame {
        match self {
            Codec::Int8 => SampleFrame::I8(signed(b[0] as int, 256) as i8),
            Codec::Int16 => SampleFrame::I16(signed(le16(b), 65536) as i16),
            Codec::Int32 => SampleFrame::I32(signed(le32(b), 0x1_0000_0000) as i32),
            Codec::Float32 => SampleFrame::F32(le32(b) as u32),
        }
    }

    /// Whether `raw` holds whole samples only.
    pub open spec fn whole(self, raw: Seq<u8>) -> bool {
        raw.len() % self.spec_width() == 0
    }

    /// The frames that `raw` holds, in order. Bytes after the last whole
    /// sample count for nothing.
    pub open spec fn decode(self, raw: Seq<u8>) -> Seq<SampleFrame> {
        Seq::new(
            raw.len() / self.spec_width(),
            |i: int|
                self.decode_frame(
                    raw.subrange(i * self.spec_width(), i * self.spec_width() + self.spec_width()),
                ),
        )
    }

    /// Chooses the write path for `format`. Only the four encodings that a
    /// codec exists for are taken; every other format is an error.
    pub fn select(format: SampleFormat) -> (r: Result<Codec, Error>)
        ensures
            match Codec::spec_select(format) {
                Some(c) => r == Ok::<Codec, Error>(c),
                None => r == Err::<Codec, Error>(Error::StreamConfigFormatError),
            },
    {
        match format {
            SampleFormat::I8 => Ok(Codec::Int8),
            SampleFormat::I16 => Ok(Codec::Int16),
            SampleFormat::I32 => Ok(Codec::Int32),
            SampleFormat::F32 => Ok(Codec::Float32),
            _ => Err(Error::StreamConfigFormatError),
        }
    }

    pub fn format(&self) -> (f: SampleFormat)
        ensures
            f == self.spec_format(),
    {
        match self {
            Codec::Int8 => SampleFormat::I8,
            Codec::Int16 => SampleFormat::I16,
            Codec::Int32 => SampleFormat::I32,
            Codec::Float32 => SampleFormat::F32,
        }
    }

    pub fn width(&self) -> (n: usize)
        ensures
            n == self.spec_width(),
    {
        match self {
            Codec::Int8 => 1,
            Codec::Int16 => 2,
            Codec::Int32 | Codec::Float32 => 4,
        }
    }

    pub fn is_float(&self) -> (b: bool)
        ensures
            b == self.spec_is_float(),
    {
        match self {
            Codec::Float32 => true,
            _ => false,
        }
    }

    /// Reads the sample with the given index out of `raw`, if `raw` holds
    /// that many whole samples.
    pub fn frame_at(&self, raw: &[u8], index: usize) -> (frame: Option<SampleFrame>)
        ensures
            index < self.decode(raw@).len() ==> frame == Some(self.decode(raw@)[index as int]),
            index >= self.decode(raw@).len() ==> frame is None,
    {
        let width: usize = self.width();
        if index < raw.len() / width {
            assert((index + 1) * width <= raw@.len()) by (nonlinear_arith)
                requires
                    index < raw@.len() / (width as nat),
                    width > 0,
            ;
            Some(self.read_frame(raw, index))
        } else {
            None
        }
    }

    /// Reads the sample with the given index out of `raw`.
    pub(crate) fn read_frame(&self, raw: &[u8], index: usize) -> (frame: SampleFrame)
        requires
            (index + 1) * self.spec_width() <= raw@.len(),
        ensures
            frame == self.decode(raw@)[index as int],
            self.accepts(frame),
    {
        let w: usize = self.width();
        let len: usize = raw.len();
        assert(index * w + w <= len) by (nonlinear_arith)
            requires
                (index + 1) * w <= len,
        ;
        let at: usize = index * w;
        proof {
            let n = raw@.len() / self.spec_width();
            assert(index < n) by (nonlinear_arith)
                requires
                    (index + 1) * self.spec_width() <= raw@.len(),
                    n == raw@.len() / self.spec_width(),
                    self.spec_width() > 0,
            ;
            let b = raw@.subrange(at as int, at + w);
            assert(self.decode(raw@)[index as int] == self.decode_frame(b));
        }
        match self {
            Codec::Int8 => {
                let b0: u8 = raw[at];
                if b0 < 128 {
                    SampleFrame::I8(b0 as i8)
                } else {
                    SampleFrame::I8((b0 as i16 - 256) as i8)
                }
            },
            Codec::Int16 => {
                let u: u16 = raw[at] as u16 + 256 * (raw[at + 1] as u16);
                if u < 32768 {
                    SampleFrame::I16(u as i16)
                } else {
                    SampleFrame::I16((u as i32 - 65536) as i16)
                }
            },
            Codec::Int32 => {
                let u: u32 = raw[at] as u32 + 256 * (raw[at + 1] as u32) + 65536 * (raw[at
                    + 2] as u32) + 16777216 * (raw[at + 3] as u32);
                if u < 0x8000_0000 {
                    SampleFrame::I32(u as i32)
                } else {
                    SampleFrame::I32((u as i64 - 0x1_0000_0000) as i32)
                }
            },
            Codec::Float32 => {
                let u: u32 = raw[at] as u32 + 256 * (raw[at + 1] as u32) + 65536 * (raw[at
                    + 2] as u32) + 16777216 * (raw[at + 3] as u32);
                SampleFrame::F32(u)
            },
        }
    }

    /// Reads every sample out of `raw`. A buffer that ends in the middle of
    /// a sample is refused as a whole.
    pub fn decode_buffer(&self, raw: &[u8]) -> (r: Result<Vec<SampleFrame>, Error>)
        ensures
            self.whole(raw@) ==> (r matches Ok(frames) && frames@ == self.decode(raw@)
                && self.accepts_all(frames@)),
            !self.whole(raw@) ==> r == Err::<Vec<SampleFrame>, Error>(
                Error::StreamConfigFormatError,
            ),
    {
        let w: usize = self.width();
        let len: usize = raw.len();
        if len % w != 0 {
            return Err(Error::StreamConfigFormatError);
        }
        let count: usize = len / w;
        let mut frames: Vec<SampleFrame> = Vec::new();
        let mut i: usize = 0;
        while i < count
            invariant
                w == self.spec_width(),
                len == raw@.len(),
                count == len / w,
                i <= count,
                frames@.len() == i,
                forall|k: int| 0 <= k < i ==> frames@[k] == self.decode(raw@)[k],
                forall|k: int| 0 <= k < i ==> self.accepts(#[trigger] frames@[k]),
            decreases count - i,
        {
            assert((i + 1) * w <= len) by (nonlinear_arith)
                requires
                    i < count,
                    count == len / w,
                    w > 0,
            ;
            let frame = self.read_frame(raw, i);
            frames.push(frame);
            i = i + 1;
        }
        assert(frames@ =~= self.decode(raw@));
        Ok(frames)
    }
}

/// A codec is chosen for a format only where it reads samples of the same
/// width and kind: as many bytes per sample, float for float, and signed
/// integers for integers. No codec is chosen for an unsigned format.
pub proof fn lemma_select_matches_format(format: SampleFormat)
    ensures
        Codec::spec_select(format) matches Some(c) ==> {
            &&& c.spec_format() == format
            &&& c.spec_width() == format.spec_sample_size()
            &&& c.spec_is_float() == format.spec_is_float()
            &&& !format.spec_is_uint()
        },
        Codec::spec_select(format) is Some <==> format == SampleFormat::I8 || format
            == SampleFormat::I16 || format == SampleFormat::I32 || format == SampleFormat::F32,
{
}

/// Every codec is the one chosen for its own format.
pub proof fn lemma_select_of_format(codec: Codec)
    ensures
        Codec::spec_select(codec.spec_format()) == Some(codec),
{
}

/// A number below 2^32 is the number that its four bytes spell.
proof fn lemma_le32_of_bytes(value: int)
    requires
        0 <= value < 0x1_0000_0000,
    ensures
        le32_bytes(value).len() == 4,
        le32(le32_bytes(value)) == value,
{
    let q1 = value / 256;
    let q2 = q1 / 256;
    let q3 = q2 / 256;
    lemma_fundamental_div_mod(value, 256);
    lemma_fundamental_div_mod(q1, 256);
    lemma_fundamental_div_mod(q2, 256);
    lemma_div_denominator(value, 256, 256);
    lemma_div_denominator(value, 65536, 256);
    assert(value / 65536 == q2);
    assert(value / 16777216 == q3);
    assert(0 <= q3 < 256);
    lemma_fundamental_div_mod_converse(q3, 256, 0, q3);
    assert(value == value % 256 + 256 * (q1 % 256) + 65536 * (q2 % 256) + 16777216 * (q3 % 256));
    let b = le32_bytes(value);
    assert(b[0] == value % 256);
    assert(b[1] == q1 % 256);
    assert(b[2] == q2 % 256);
    assert(b[3] == q3 % 256);
}

/// Reading back the bytes of a frame gives the frame itself.
pub proof fn lemma_decode_of_le_bytes(frame: SampleFrame)
    ensures
        frame.le_bytes().len() == frame.spec_codec().spec_width(),
        frame.spec_codec().decode_frame(frame.le_bytes()) == frame,
{
    match frame {
        SampleFrame::I8(v) => {},
        SampleFrame::I16(v) => {
            let u = unsigned(v as int, 65536);
            lemma_fundamental_div_mod(u, 256);
            assert(0 <= u / 256 < 256);
            assert(le16(frame.le_bytes()) == u);
        },
        SampleFrame::I32(v) => {
            lemma_le32_of_bytes(unsigned(v as int, 0x1_0000_0000));
        },
        SampleFrame::F32(bits) => {
            lemma_le32_of_bytes(bits as int);
        },
    }
}

/// The digits of a number in base 256 are the bytes that spell it.
proof fn lemma_le32_digits(b0: int, b1: int, b2: int, b3: int)
    requires
        0 <= b0 < 256,
        0 <= b1 < 256,
        0 <= b2 < 256,
        0 <= b3 < 256,
    ensures
        ({
            let v = b0 + 256 * b1 + 65536 * b2 + 16777216 * b3;
            &&& 0 <= v < 0x1_0000_0000
            &&& v % 256 == b0
            &&& v / 256 % 256 == b1
            &&& v / 65536 % 256 == b2
            &&& v / 16777216 % 256 == b3
        }),
{
    let v = b0 + 256 * b1 + 65536 * b2 + 16777216 * b3;
    lemma_fundamental_div_mod_converse(v, 256, b1 + 256 * b2 + 65536 * b3, b0);
    lemma_fundamental_div_mod_converse(b1 + 256 * b2 + 65536 * b3, 256, b2 + 256 * b3, b1);
    lemma_fundamental_div_mod_converse(v, 65536, b2 + 256 * b3, b0 + 256 * b1);
    lemma_fundamental_div_mod_converse(b2 + 256 * b3, 256, b3, b2);
    lemma_fundamental_div_mod_converse(v, 16777216, b3, b0 + 256 * b1 + 65536 * b2);
    lemma_fundamental_div_mod_converse(b3, 256, 0, b3);
}

/// The bytes of a frame that was read are the bytes it was read from.
pub proof fn lemma_le_bytes_of_decoded(codec: Codec, b: Seq<u8>)
    requires
        b.len() == codec.spec_width(),
    ensures
        codec.accepts(codec.decode_frame(b)),
        codec.decode_frame(b).le_bytes() == b,
{
    match codec {
        Codec::Int8 => {},
        Codec::Int16 => {
            lemma_fundamental_div_mod_converse(le16(b), 256, b[1] as int, b[0] as int);
        },
        Codec::Int32 | Codec::Float32 => {
            lemma_le32_digits(b[0] as int, b[1] as int, b[2] as int, b[3] as int);
        },
    }
    assert(codec.decode_frame(b).le_bytes() =~= b);
}

/// A buffer made of two parts, the first of whole samples, holds the frames
/// of the first part followed by those of the second.
pub proof fn lemma_decode_concat(codec: Codec, first: Seq<u8>, second: Seq<u8>)
    requires
        codec.whole(first),
    ensures
        codec.decode(first + second) == codec.decode(first) + codec.decode(second),
{
    let w = codec.spec_width() as int;
    let l1 = first.len() as int;
    let l2 = second.len() as int;
    let n1 = l1 / w;
    let n2 = l2 / w;
    let whole = first + second;
    assert(l1 == n1 * w) by (nonlinear_arith)
        requires
            l1 % w == 0,
            n1 == l1 / w,
            w > 0,
    ;
    assert((l1 + l2) / w == n1 + n2) by (nonlinear_arith)
        requires
            l1 == n1 * w,
            n2 == l2 / w,
            w > 0,
    ;
    assert(whole.len() == l1 + l2);
    assert forall|i: int| 0 <= i < n1 + n2 implies codec.decode(whole)[i] == (codec.decode(first)
        + codec.decode(second))[i] by {
        if i < n1 {
            assert(0 <= i * w && i * w + w <= l1) by (nonlinear_arith)
                requires
                    0 <= i < n1,
                    l1 == n1 * w,
                    w > 0,
            ;
            assert(whole.subrange(i * w, i * w + w) =~= first.subrange(i * w, i * w + w));
        } else {
            let j = i - n1;
            assert(i * w == l1 + j * w) by (nonlinear_arith)
                requires
                    j == i - n1,
                    l1 == n1 * w,
            ;
            assert(0 <= j * w && j * w + w <= l2) by (nonlinear_arith)
                requires
                    0 <= j < n2,
                    n2 == l2 / w,
                    w > 0,
            ;
            assert(whole.subrange(i * w, i * w + w) =~= second.subrange(j * w, j * w + w));
        }
    }
    assert(codec.decode(whole) =~= codec.decode(first) + codec.decode(second));
}

} // verus!
