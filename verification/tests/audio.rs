use meeting_assistant::buffer::AudioBuffer;
use meeting_assistant::wav::{
    whisper_input, WhisperInputError,
    check_samples, decoding_for, wav_format_for, AudioCheckError, SampleClass, SampleDecoding,
    SampleFormat, UnsupportedFormat, WavFormat,
};

#[test]
fn new_buffer_is_empty() {
    let buffer: AudioBuffer<i16> = AudioBuffer::new();
    assert_eq!(buffer.len(), 0);
    assert!(buffer.is_empty());
}

#[test]
fn add_data_appends_in_order() {
    let mut buffer = AudioBuffer::new();
    buffer.add_data(&[1i16, 2, 3]);
    buffer.add_data(&[4]);
    buffer.add_data(&[]);
    assert_eq!(buffer.samples(), &[1, 2, 3, 4]);
}

#[test]
fn batches_add_up_to_one_batch() {
    let mut split = AudioBuffer::new();
    split.add_data(&[1u8, 2]);
    split.add_data(&[3, 4]);
    let mut whole = AudioBuffer::new();
    whole.add_data(&[1u8, 2, 3, 4]);
    assert_eq!(split.samples(), whole.samples());
}

#[test]
fn clear_forgets_earlier_samples() {
    let mut buffer = AudioBuffer::from_samples(vec![9u32, 8]);
    buffer.clear();
    assert!(buffer.is_empty());
    buffer.add_data(&[7]);
    assert_eq!(buffer.into_samples(), vec![7]);
}

#[test]
fn thirty_two_bits_are_written_as_float() {
    assert_eq!(
        wav_format_for(48000, 32),
        WavFormat { channels: 1, sample_rate: 48000, bits_per_sample: 32, sample_format: SampleFormat::Float }
    );
}

#[test]
fn other_depths_are_written_as_sixteen_bit_integers() {
    for bits in [16u16, 24, 8, 0] {
        assert_eq!(
            wav_format_for(16000, bits),
            WavFormat { channels: 1, sample_rate: 16000, bits_per_sample: 16, sample_format: SampleFormat::Int }
        );
    }
}

#[test]
fn written_formats_read_back() {
    let f = wav_format_for(16000, 32);
    assert_eq!(decoding_for(f.sample_format, f.bits_per_sample), Ok(SampleDecoding::Float32));
    let f = wav_format_for(16000, 16);
    assert_eq!(decoding_for(f.sample_format, f.bits_per_sample), Ok(SampleDecoding::Int16));
}

#[test]
fn readable_formats_and_their_scales() {
    assert_eq!(decoding_for(SampleFormat::Int, 32), Ok(SampleDecoding::Int32));
    assert_eq!(SampleDecoding::Float32.full_scale(), 1);
    assert_eq!(SampleDecoding::Int16.full_scale(), 32768);
    assert_eq!(SampleDecoding::Int32.full_scale(), 2147483648);
}

#[test]
fn unsupported_formats_are_named() {
    let err = decoding_for(SampleFormat::Int, 8).unwrap_err();
    assert_eq!(err, UnsupportedFormat { sample_format: SampleFormat::Int, bits_per_sample: 8 });
    assert_eq!(err.message(), "Unsupported WAV format: Int 8bit");
    let err = decoding_for(SampleFormat::Float, 64).unwrap_err();
    assert_eq!(err.message(), "Unsupported WAV format: Float 64bit");
}

#[test]
fn empty_audio_is_refused_first() {
    assert_eq!(check_samples(&[]), Err(AudioCheckError::Empty));
    assert_eq!(AudioCheckError::Empty.message(), "Audio is empty");
}

#[test]
fn nan_is_reported_before_range() {
    let classes = [SampleClass::OutOfRange, SampleClass::InRange, SampleClass::NotANumber];
    assert_eq!(check_samples(&classes), Err(AudioCheckError::ContainsNan));
    assert_eq!(AudioCheckError::ContainsNan.message(), "Audio contains NaN");
}

#[test]
fn out_of_range_is_refused() {
    let classes = [SampleClass::InRange, SampleClass::OutOfRange];
    assert_eq!(check_samples(&classes), Err(AudioCheckError::OutOfRange));
    assert_eq!(AudioCheckError::OutOfRange.message(), "Audio samples out of range [-1.0, 1.0]");
}

#[test]
fn audio_in_range_is_accepted() {
    assert_eq!(check_samples(&[SampleClass::InRange, SampleClass::InRange]), Ok(()));
}

#[test]
fn whisper_takes_only_sixteen_khz_mono() {
    let stereo = WavFormat { channels: 2, sample_rate: 16000, bits_per_sample: 16, sample_format: SampleFormat::Int };
    let err = whisper_input(stereo).unwrap_err();
    assert_eq!(err, WhisperInputError::NotSixteenKilohertzMono { sample_rate: 16000, channels: 2 });
    assert_eq!(err.message(), "Audio must be 16 kHz mono, got 16000 Hz with 2 channels");
    let fast = WavFormat { channels: 1, sample_rate: 48000, bits_per_sample: 32, sample_format: SampleFormat::Float };
    assert_eq!(
        whisper_input(fast),
        Err(WhisperInputError::NotSixteenKilohertzMono { sample_rate: 48000, channels: 1 })
    );
}

#[test]
fn whisper_reads_the_formats_the_transcriber_knows() {
    let float = WavFormat { channels: 1, sample_rate: 16000, bits_per_sample: 32, sample_format: SampleFormat::Float };
    assert_eq!(whisper_input(float), Ok(SampleDecoding::Float32));
    let eight = WavFormat { channels: 1, sample_rate: 16000, bits_per_sample: 8, sample_format: SampleFormat::Int };
    let err = whisper_input(eight).unwrap_err();
    assert_eq!(
        err,
        WhisperInputError::Unsupported(UnsupportedFormat { sample_format: SampleFormat::Int, bits_per_sample: 8 })
    );
    assert_eq!(err.message(), "Unsupported WAV format: Int 8bit");
}
