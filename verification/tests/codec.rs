use audiort::{Codec, Error, SampleFormat, SampleFrame, StreamConfig, WavExt, WavFormat, WavSpec};

fn config(channels: u16, sample_rate: u32, sample_format: SampleFormat) -> StreamConfig {
    StreamConfig { channels, sample_rate, sample_format }
}

#[test]
fn select_takes_the_four_formats() {
    assert_eq!(Codec::select(SampleFormat::I8), Ok(Codec::Int8));
    assert_eq!(Codec::select(SampleFormat::I16), Ok(Codec::Int16));
    assert_eq!(Codec::select(SampleFormat::I32), Ok(Codec::Int32));
    assert_eq!(Codec::select(SampleFormat::F32), Ok(Codec::Float32));
}

#[test]
fn select_refuses_every_other_format() {
    let others = [
        SampleFormat::I64,
        SampleFormat::U8,
        SampleFormat::U16,
        SampleFormat::U32,
        SampleFormat::U64,
        SampleFormat::F64,
    ];
    for format in others {
        assert_eq!(Codec::select(format), Err(Error::StreamConfigFormatError));
    }
}

#[test]
fn codec_matches_width_and_kind_of_its_format() {
    let formats = [SampleFormat::I8, SampleFormat::I16, SampleFormat::I32, SampleFormat::F32];
    for format in formats {
        let codec = Codec::select(format).unwrap();
        assert_eq!(codec.format(), format);
        assert_eq!(codec.width(), format.sample_size());
        assert_eq!(codec.is_float(), format.is_float());
        assert!(!format.is_uint());
    }
}

#[test]
fn widths_of_the_codecs() {
    assert_eq!(Codec::Int8.width(), 1);
    assert_eq!(Codec::Int16.width(), 2);
    assert_eq!(Codec::Int32.width(), 4);
    assert_eq!(Codec::Float32.width(), 4);
    assert!(Codec::Float32.is_float());
    assert!(!Codec::Int32.is_float());
}

#[test]
fn sample_sizes_of_the_formats() {
    assert_eq!(SampleFormat::I8.sample_size(), 1);
    assert_eq!(SampleFormat::U8.sample_size(), 1);
    assert_eq!(SampleFormat::I16.sample_size(), 2);
    assert_eq!(SampleFormat::U16.sample_size(), 2);
    assert_eq!(SampleFormat::I32.sample_size(), 4);
    assert_eq!(SampleFormat::U32.sample_size(), 4);
    assert_eq!(SampleFormat::F32.sample_size(), 4);
    assert_eq!(SampleFormat::I64.sample_size(), 8);
    assert_eq!(SampleFormat::U64.sample_size(), 8);
    assert_eq!(SampleFormat::F64.sample_size(), 8);
}

#[test]
fn kinds_of_the_formats() {
    assert!(SampleFormat::F32.is_float() && SampleFormat::F64.is_float());
    assert!(!SampleFormat::I32.is_float() && !SampleFormat::U32.is_float());
    assert!(SampleFormat::I8.is_int() && SampleFormat::I64.is_int());
    assert!(!SampleFormat::U8.is_int() && !SampleFormat::F32.is_int());
    assert!(SampleFormat::U8.is_uint() && SampleFormat::U64.is_uint());
    assert!(!SampleFormat::I16.is_uint() && !SampleFormat::F64.is_uint());
}

#[test]
fn header_of_a_16_bit_stereo_device() {
    let spec = config(2, 44100, SampleFormat::I16).as_wav_spec();
    assert_eq!(
        spec,
        WavSpec { channels: 2, sample_rate: 44100, bits_per_sample: 16, sample_format: WavFormat::Int }
    );
}

#[test]
fn header_of_a_float_device() {
    let spec = config(1, 48000, SampleFormat::F32).as_wav_spec();
    assert_eq!(
        spec,
        WavSpec { channels: 1, sample_rate: 48000, bits_per_sample: 32, sample_format: WavFormat::Float }
    );
}

#[test]
fn header_has_eight_bits_for_each_byte() {
    assert_eq!(config(1, 8000, SampleFormat::I8).as_wav_spec().bits_per_sample, 8);
    assert_eq!(config(1, 8000, SampleFormat::U8).as_wav_spec().bits_per_sample, 8);
    assert_eq!(config(1, 8000, SampleFormat::I32).as_wav_spec().bits_per_sample, 32);
    assert_eq!(config(1, 8000, SampleFormat::F64).as_wav_spec().bits_per_sample, 64);
    assert_eq!(config(1, 8000, SampleFormat::F64).as_wav_spec().sample_format, WavFormat::Float);
    assert_eq!(config(1, 8000, SampleFormat::U64).as_wav_spec().sample_format, WavFormat::Int);
}

#[test]
fn recordable_config_gives_its_codec() {
    assert_eq!(config(2, 44100, SampleFormat::I16).codec(), Ok(Codec::Int16));
    assert_eq!(config(6, 192000, SampleFormat::F32).codec(), Ok(Codec::Float32));
}

#[test]
fn config_without_channels_or_rate_is_refused() {
    assert_eq!(config(0, 44100, SampleFormat::I16).codec(), Err(Error::StreamConfigFormatError));
    assert_eq!(config(2, 0, SampleFormat::I16).codec(), Err(Error::StreamConfigFormatError));
    assert_eq!(config(2, 44100, SampleFormat::U16).codec(), Err(Error::StreamConfigFormatError));
}

#[test]
fn config_with_too_many_bytes_a_second_is_refused() {
    // 4 bytes * 2 channels * 536_870_912 = 2^32, one more than a header counts.
    assert_eq!(
        config(2, 536_870_912, SampleFormat::I32).codec(),
        Err(Error::StreamConfigFormatError)
    );
    // 4 * 1 * 1_073_741_823 = 2^32 - 4 still fits.
    assert_eq!(config(1, 1_073_741_823, SampleFormat::I32).codec(), Ok(Codec::Int32));
}

#[test]
fn decode_reads_8_bit_samples() {
    let frames = Codec::Int8.decode_buffer(&[0x80, 0x7f, 0xff, 0x00]).unwrap();
    assert_eq!(
        frames,
        vec![SampleFrame::I8(-128), SampleFrame::I8(127), SampleFrame::I8(-1), SampleFrame::I8(0)]
    );
}

#[test]
fn decode_reads_16_bit_samples() {
    let frames = Codec::Int16.decode_buffer(&[0xff, 0xff, 0x02, 0x00, 0x00, 0x80, 0xff, 0x7f]).unwrap();
    assert_eq!(
        frames,
        vec![
            SampleFrame::I16(-1),
            SampleFrame::I16(2),
            SampleFrame::I16(-32768),
            SampleFrame::I16(32767)
        ]
    );
}

#[test]
fn decode_reads_32_bit_samples() {
    let frames = Codec::Int32
        .decode_buffer(&[0x00, 0x00, 0x00, 0x80, 0xff, 0xff, 0xff, 0x7f, 0x78, 0x56, 0x34, 0x12])
        .unwrap();
    assert_eq!(
        frames,
        vec![
            SampleFrame::I32(i32::MIN),
            SampleFrame::I32(i32::MAX),
            SampleFrame::I32(0x1234_5678)
        ]
    );
}

#[test]
fn decode_keeps_the_bits_of_a_float() {
    let mut raw: Vec<u8> = Vec::new();
    raw.extend_from_slice(&1.0f32.to_le_bytes());
    raw.extend_from_slice(&(-0.5f32).to_le_bytes());
    let frames = Codec::Float32.decode_buffer(&raw).unwrap();
    assert_eq!(
        frames,
        vec![SampleFrame::F32(1.0f32.to_bits()), SampleFrame::F32((-0.5f32).to_bits())]
    );
    assert_eq!(frames[0], SampleFrame::F32(0x3f80_0000));
}

#[test]
fn decode_agrees_with_the_bytes_of_every_16_bit_value() {
    for value in [i16::MIN, -12345, -1, 0, 1, 255, 256, 12345, i16::MAX] {
        let frames = Codec::Int16.decode_buffer(&value.to_le_bytes()).unwrap();
        assert_eq!(frames, vec![SampleFrame::I16(value)]);
    }
    for value in [i32::MIN, -70000, -1, 0, 1, 65536, 16_777_216, i32::MAX] {
        let frames = Codec::Int32.decode_buffer(&value.to_le_bytes()).unwrap();
        assert_eq!(frames, vec![SampleFrame::I32(value)]);
    }
}

#[test]
fn decode_refuses_a_buffer_that_ends_inside_a_sample() {
    assert_eq!(Codec::Int16.decode_buffer(&[1, 2, 3]), Err(Error::StreamConfigFormatError));
    assert_eq!(Codec::Int32.decode_buffer(&[1, 2, 3, 4, 5, 6]), Err(Error::StreamConfigFormatError));
    assert_eq!(Codec::Float32.decode_buffer(&[1]), Err(Error::StreamConfigFormatError));
}

#[test]
fn decode_of_an_empty_buffer_is_empty() {
    assert_eq!(Codec::Int8.decode_buffer(&[]), Ok(vec![]));
    assert_eq!(Codec::Float32.decode_buffer(&[]), Ok(vec![]));
}

#[test]
fn frame_at_reads_the_sample_of_that_index() {
    let raw = [0x01, 0x00, 0xfe, 0xff, 0x03, 0x00];
    assert_eq!(Codec::Int16.frame_at(&raw, 0), Some(SampleFrame::I16(1)));
    assert_eq!(Codec::Int16.frame_at(&raw, 1), Some(SampleFrame::I16(-2)));
    assert_eq!(Codec::Int16.frame_at(&raw, 2), Some(SampleFrame::I16(3)));
    assert_eq!(Codec::Int16.frame_at(&raw, 3), None);
    assert_eq!(Codec::Int16.frame_at(&raw, usize::MAX), None);
    assert_eq!(Codec::Int32.frame_at(&raw, 0), Some(SampleFrame::I32(-131071)));
    assert_eq!(Codec::Int32.frame_at(&raw, 1), None);
}

#[test]
fn frame_knows_its_codec() {
    assert_eq!(SampleFrame::I8(1).codec(), Codec::Int8);
    assert_eq!(SampleFrame::I16(1).codec(), Codec::Int16);
    assert_eq!(SampleFrame::I32(1).codec(), Codec::Int32);
    assert_eq!(SampleFrame::F32(1).codec(), Codec::Float32);
}

#[test]
fn messages_of_the_errors() {
    assert_eq!(Error::DefaultInputDeviceError.message(), "Error getting default input device");
    assert_eq!(Error::DefaultOutputDeviceError.message(), "Error getting default output device");
    assert_eq!(Error::DefaultConfigError.message(), "Error getting default device config");
    assert_eq!(Error::StreamConfigFormatError.message(), "Bad stream config format");
    assert_eq!(Error::StreamCreationError.message(), "Error creating stream");
    assert_eq!(Error::OutputLockError.message(), "Error getting output lock");
    assert_eq!(
        Error::WriterCreationError(String::from("disk full")).message(),
        "Error creating data writer\ndisk full"
    );
    assert_eq!(Error::PlayError.message(), "Error recording data");
    assert_eq!(Error::WriteError(String::from("gone")).message(), "Error writing data\ngone");
}

#[test]
fn clone_of_an_error_is_the_error() {
    let e = Error::WriterCreationError(String::from("no such directory"));
    assert_eq!(e.clone(), e);
    assert_eq!(Error::PlayError.clone(), Error::PlayError);
}
