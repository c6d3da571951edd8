use vstd::prelude::*;
use crate::codec::Codec;

verus! {

/// The encoding in which a device delivers its samples.
#[derive(Debug, Clone, Copy, PartialEq, Eq, Structural)]
pub enum SampleFormat {
    I8,
    I16,
    I32,
    I64,
    U8,
    U16,
    U32,
    U64,
    F32,
    F64,
}

impl SampleFormat {
    /// Bytes taken by one sample.
    pub open spec fn spec_sample_size(self) -> nat {
        match self {
            SampleFormat::I8 | SampleFormat::U8 => 1,
            SampleFormat::I16 | SampleFormat::U16 => 2,
            SampleFormat::I32 | SampleFormat::U32 | SampleFormat::F32 => 4,
            SampleFormat::I64 | SampleFormat::U64 | SampleFormat::F64 => 8,
        }
    }

    pub open spec fn spec_is_float(self) -> bool {
        self == SampleFormat::F32 || self == SampleFormat::F64
    }

    pub open spec fn spec_is_int(self) -> bool {
        self == SampleFormat::I8 || self == SampleFormat::I16 || self == SampleFormat::I32 || self
            == SampleFormat::I64
    }

    pub open spec fn spec_is_uint(self) -> bool {
        !self.spec_is_float() && !self.spec_is_int()
    }

    pub fn sample_size(&self) -> (n: usize)
        ensures
            n == self.spec_sample_size(),
    {
        match self {
            SampleFormat::I8 | SampleFormat::U8 => 1,
            SampleFormat::I16 | SampleFormat::U16 => 2,
            SampleFormat::I32 | SampleFormat::U32 | SampleFormat::F32 => 4,
            SampleFormat::I64 | SampleFormat::U64 | SampleFormat::F64 => 8,
        }
    }

    pub fn is_float(&self) -> (b: bool)
        ensures
            b == self.spec_is_float(),
    {
        match self {
            SampleFormat::F32 | SampleFormat::F64 => true,
            _ => false,
        }
    }

    pub fn is_int(&self) -> (b: bool)
        ensures
            b == self.spec_is_int(),
    {
        match self {
            SampleFormat::I8 | SampleFormat::I16 | SampleFormat::I32 | SampleFormat::I64 => true,
            _ => false,
        }
    }

    pub fn is_uint(&self) -> (b: bool)
        ensures
            b == self.spec_is_uint(),
    {
        match self {
            SampleFormat::U8 | SampleFormat::U16 | SampleFormat::U32 | SampleFormat::U64 => true,
            _ => false,
        }
    }
}

/// One sample of one channel. A float is held by the 32 bits that spell it,
/// so that no value is ever rounded on its way to the file.
#[derive(Debug, Clone, Copy, PartialEq, Eq, Structural)]
pub enum SampleFrame {
    I8(i8),
    I16(i16),
    I32(i32),
    F32(u32),
}

/// The signed number that the unsigned `value` stands for in two's
/// complement with `modulus` values.
pub open spec fn signed(value: int, modulus: int) -> int {
    if 2 * value < modulus {
        value
    } else {
        value - modulus
    }
}

/// The unsigned number that stands for `value` in two's complement with
/// `modulus` values.
pub open spec fn unsigned(value: int, modulus: int) -> int {
    if value < 0 {
        value + modulus
    } else {
        value
    }
}

/// The number spelt by the first two bytes of `b`, least significant first.
pub open spec fn le16(b: Seq<u8>) -> int {
    b[0] + 256 * b[1]
}

/// The number spelt by the first four bytes of `b`, least significant first.
pub open spec fn le32(b: Seq<u8>) -> int {
    b[0] + 256 * b[1] + 65536 * b[2] + 16777216 * b[3]
}

/// The four bytes that spell `value`, least significant first.
pub open spec fn le32_bytes(value: int) -> Seq<u8> {
    seq![
        (value % 256) as u8,
        (value / 256 % 256) as u8,
        (value / 65536 % 256) as u8,
        (value / 16777216 % 256) as u8,
    ]
}

impl SampleFrame {
    /// The codec that writes this frame.
    pub open spec fn spec_codec(self) -> Codec {
        match self {
            SampleFrame::I8(_) => Codec::Int8,
            SampleFrame::I16(_) => Codec::Int16,
            SampleFrame::I32(_) => Codec::Int32,
            SampleFrame::F32(_) => Codec::Float32,
        }
    }

    /// The bytes of this frame as a device lays them out, least significant
    /// byte first.
    pub open spec fn le_bytes(self) -> Seq<u8> {
        match self {
            SampleFrame::I8(v) => seq![unsigned(v as int, 256) as u8],
            SampleFrame::I16(v) => seq![
                (unsigned(v as int, 65536) % 256) as u8,
                (unsigned(v as int, 65536) / 256) as u8,
            ],
            SampleFrame::I32(v) => le32_bytes(unsigned(v as int, 0x1_0000_0000)),
            SampleFrame::F32(bits) => le32_bytes(bits as int),
        }
    }

    pub fn codec(&self) -> (c: Codec)
        ensures
            c == self.spec_codec(),
    {
        match self {
            SampleFrame::I8(_) => Codec::Int8,
            SampleFrame::I16(_) => Codec::Int16,
            SampleFrame::I32(_) => Codec::Int32,
            SampleFrame::F32(_) => Codec::Float32,
        }
    }
}

} // verus!
