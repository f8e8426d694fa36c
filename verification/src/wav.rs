use vstd::prelude::*;

use crate::text::{decimal, push_decimal};

verus! {

/// How the samples of a WAV file are stored.
#[derive(Debug, Clone, Copy, PartialEq, Eq, Structural)]
pub enum SampleFormat {
    /// IEEE floating point.
    Float,
    /// Signed integers.
    Int,
}

/// The header fields of a WAV file.
#[derive(Debug, Clone, Copy, PartialEq, Eq, Structural)]
pub struct WavFormat {
    pub channels: u16,
    pub sample_rate: u32,
    pub bits_per_sample: u16,
    pub sample_format: SampleFormat,
}

/// The format a recording is written in: always one channel at the given
/// rate; 32-bit floating point when 32 bits are asked for, 16-bit integers for
/// any other depth.
pub open spec fn spec_wav_format_for(sample_rate: u32, bits: u16) -> WavFormat {
    if bits == 32 {
        WavFormat {
            channels: 1,
            sample_rate,
            bits_per_sample: 32,
            sample_format: SampleFormat::Float,
        }
    } else {
        WavFormat {
            channels: 1,
            sample_rate,
            bits_per_sample: 16,
            sample_format: SampleFormat::Int,
        }
    }
}

/// Chooses the format a recording is written in.
pub fn wav_format_for(sample_rate: u32, bits: u16) -> (format: WavFormat)
    ensures
        format == spec_wav_format_for(sample_rate, bits),
{
    if bits == 32 {
        WavFormat {
            channels: 1,
            sample_rate,
            bits_per_sample: 32,
            sample_format: SampleFormat::Float,
        }
    } else {
        WavFormat {
            channels: 1,
            sample_rate,
            bits_per_sample: 16,
            sample_format: SampleFormat::Int,
        }
    }
}

/// How the samples of a WAV file are turned into samples in [-1, 1].
#[derive(Debug, Clone, Copy, PartialEq, Eq, Structural)]
pub enum SampleDecoding {
    /// 32-bit floats, taken as they are.
    Float32,
    /// 16-bit integers, divided by 2^15.
    Int16,
    /// 32-bit integers, divided by 2^31.
    Int32,
}

impl SampleDecoding {
    /// What a stored sample is divided by.
    pub open spec fn spec_full_scale(self) -> nat {
        match self {
            SampleDecoding::Float32 => 1,
            SampleDecoding::Int16 => 32768,
            SampleDecoding::Int32 => 2147483648,
        }
    }

    /// What a stored sample is divided by: one for floats, 2^(bits - 1) for integers.
    pub fn full_scale(&self) -> (scale: u64)
        ensures
            scale == self.spec_full_scale(),
    {
        match self {
            SampleDecoding::Float32 => 1,
            SampleDecoding::Int16 => 32768,
            SampleDecoding::Int32 => 2147483648,
        }
    }
}

/// A WAV format the transcriber cannot read.
#[derive(Debug, Clone, Copy, PartialEq, Eq, Structural)]
pub struct UnsupportedFormat {
    pub sample_format: SampleFormat,
    pub bits_per_sample: u16,
}

/// How a format is read: 32-bit floats, 16-bit and 32-bit integers; nothing else.
pub open spec fn spec_decoding_for(sample_format: SampleFormat, bits: u16) -> Result<
    SampleDecoding,
    UnsupportedFormat,
> {
    match (sample_format, bits) {
        (SampleFormat::Float, 32) => Ok(SampleDecoding::Float32),
        (SampleFormat::Int, 16) => Ok(SampleDecoding::Int16),
        (SampleFormat::Int, 32) => Ok(SampleDecoding::Int32),
        _ => Err(UnsupportedFormat { sample_format, bits_per_sample: bits }),
    }
}

/// Chooses how the samples of a WAV file are read.
pub fn decoding_for(sample_format: SampleFormat, bits: u16) -> (res: Result<
    SampleDecoding,
    UnsupportedFormat,
>)
    ensures
        res == spec_decoding_for(sample_format, bits),
{
    match sample_format {
        SampleFormat::Float => {
            if bits == 32 {
                return Ok(SampleDecoding::Float32);
            }
        },
        SampleFormat::Int => {
            if bits == 16 {
                return Ok(SampleDecoding::Int16);
            } else if bits == 32 {
                return Ok(SampleDecoding::Int32);
            }
        },
    }
    Err(UnsupportedFormat { sample_format, bits_per_sample: bits })
}

/// The name a sample format is shown under.
pub open spec fn format_name(sample_format: SampleFormat) -> Seq<char> {
    match sample_format {
        SampleFormat::Float => "Float"@,
        SampleFormat::Int => "Int"@,
    }
}

impl UnsupportedFormat {
    /// The text shown to the user, such as "Unsupported WAV format: Int 8bit".
    pub fn message(&self) -> (text: String)
        ensures
            text@ == "Unsupported WAV format: "@ + format_name(self.sample_format) + " "@
                + decimal(self.bits_per_sample as nat) + "bit"@,
    {
        let mut text = String::new();
        text.append("Unsupported WAV format: ");
        match self.sample_format {
            SampleFormat::Float => text.append("Float"),
            SampleFormat::Int => text.append("Int"),
        }
        text.append(" ");
        push_decimal(&mut text, self.bits_per_sample as u64);
        text.append("bit");
        assert(text@ =~= "Unsupported WAV format: "@ + format_name(self.sample_format) + " "@
            + decimal(self.bits_per_sample as nat) + "bit"@);
        text
    }
}

/// What a recording is written in can always be read back, the same way it
/// was written: floats as floats, integers as 16-bit integers.
pub proof fn lemma_written_format_is_readable(sample_rate: u32, bits: u16)
    ensures
        spec_decoding_for(
            spec_wav_format_for(sample_rate, bits).sample_format,
            spec_wav_format_for(sample_rate, bits).bits_per_sample,
        ) == if bits == 32 {
            Ok::<SampleDecoding, UnsupportedFormat>(SampleDecoding::Float32)
        } else {
            Ok::<SampleDecoding, UnsupportedFormat>(SampleDecoding::Int16)
        },
        spec_wav_format_for(sample_rate, bits).channels == 1,
        spec_wav_format_for(sample_rate, bits).sample_rate == sample_rate,
{
}

/// Why a WAV file is not handed to whisper.
#[derive(Debug, Clone, Copy, PartialEq, Eq, Structural)]
pub enum WhisperInputError {
    /// Whisper takes 16 kHz mono audio; the file has this rate and channel count.
    NotSixteenKilohertzMono { sample_rate: u32, channels: u16 },
    /// The samples are stored in a way the transcriber cannot read.
    Unsupported(UnsupportedFormat),
}

/// The sample rate whisper takes, in Hz.
pub open spec fn whisper_sample_rate() -> u32 {
    16000
}

/// How a WAV file is read for whisper: it must be 16 kHz mono, and its samples
/// must be 32-bit floats or 16-bit or 32-bit integers.
pub open spec fn spec_whisper_input(format: WavFormat) -> Result<SampleDecoding, WhisperInputError> {
    if format.sample_rate != whisper_sample_rate() || format.channels != 1 {
        Err(
            WhisperInputError::NotSixteenKilohertzMono {
                sample_rate: format.sample_rate,
                channels: format.channels,
            },
        )
    } else {
        match spec_decoding_for(format.sample_format, format.bits_per_sample) {
            Ok(d) => Ok(d),
            Err(e) => Err(WhisperInputError::Unsupported(e)),
        }
    }
}

/// Checks that a WAV file can go to whisper and says how its samples are read.
pub fn whisper_input(format: WavFormat) -> (res: Result<SampleDecoding, WhisperInputError>)
    ensures
        res == spec_whisper_input(format),
{
    if format.sample_rate != 16000 || format.channels != 1 {
        return Err(
            WhisperInputError::NotSixteenKilohertzMono {
                sample_rate: format.sample_rate,
                channels: format.channels,
            },
        );
    }
    match decoding_for(format.sample_format, format.bits_per_sample) {
        Ok(d) => Ok(d),
        Err(e) => Err(WhisperInputError::Unsupported(e)),
    }
}

impl WhisperInputError {
    /// The text shown to the user, such as
    /// "Audio must be 16 kHz mono, got 48000 Hz with 2 channels".
    pub fn message(&self) -> (text: String)
        ensures
            text@ == match self {
                WhisperInputError::NotSixteenKilohertzMono { sample_rate, channels } =>
                    "Audio must be 16 kHz mono, got "@ + decimal(*sample_rate as nat) + " Hz with "@
                        + decimal(*channels as nat) + " channels"@,
                WhisperInputError::Unsupported(e) => "Unsupported WAV format: "@ + format_name(
                    e.sample_format,
                ) + " "@ + decimal(e.bits_per_sample as nat) + "bit"@,
            },
    {
        match self {
            WhisperInputError::NotSixteenKilohertzMono { sample_rate, channels } => {
                let mut text = String::new();
                text.append("Audio must be 16 kHz mono, got ");
                push_decimal(&mut text, *sample_rate as u64);
                text.append(" Hz with ");
                push_decimal(&mut text, *channels as u64);
                text.append(" channels");
                assert(text@ =~= "Audio must be 16 kHz mono, got "@ + decimal(*sample_rate as nat)
                    + " Hz with "@ + decimal(*channels as nat) + " channels"@);
                text
            },
            WhisperInputError::Unsupported(e) => e.message(),
        }
    }
}

/// What a decoded sample is, as far as the transcriber's checks go.
#[derive(Debug, Clone, Copy, PartialEq, Eq, Structural)]
pub enum SampleClass {
    /// Not a number.
    NotANumber,
    /// A number below -1 or above 1.
    OutOfRange,
    /// A number in [-1, 1].
    InRange,
}

/// Why decoded audio is not handed to the transcriber.
#[derive(Debug, Clone, Copy, PartialEq, Eq, Structural)]
pub enum AudioCheckError {
    Empty,
    ContainsNan,
    OutOfRange,
}

impl AudioCheckError {
    /// The text shown to the user.
    pub fn message(&self) -> (text: &'static str)
        ensures
            text@ == match self {
                AudioCheckError::Empty => "Audio is empty"@,
                AudioCheckError::ContainsNan => "Audio contains NaN"@,
                AudioCheckError::OutOfRange => "Audio samples out of range [-1.0, 1.0]"@,
            },
    {
        match self {
            AudioCheckError::Empty => "Audio is empty",
            AudioCheckError::ContainsNan => "Audio contains NaN",
            AudioCheckError::OutOfRange => "Audio samples out of range [-1.0, 1.0]",
        }
    }
}

/// The verdict on decoded audio: empty audio first, then any sample that is
/// not a number, then any sample outside [-1, 1]; otherwise it is fit.
pub open spec fn spec_check_samples(classes: Seq<SampleClass>) -> Result<(), AudioCheckError> {
    if classes.len() == 0 {
        Err(AudioCheckError::Empty)
    } else if exists|i: int| 0 <= i < classes.len() && classes[i] == SampleClass::NotANumber {
        Err(AudioCheckError::ContainsNan)
    } else if exists|i: int| 0 <= i < classes.len() && classes[i] == SampleClass::OutOfRange {
        Err(AudioCheckError::OutOfRange)
    } else {
        Ok(())
    }
}

/// Decides whether decoded audio may be handed to the transcriber.
pub fn check_samples(classes: &[SampleClass]) -> (res: Result<(), AudioCheckError>)
    ensures
        res == spec_check_samples(classes@),
{
    let n = classes.len();
    if n == 0 {
        return Err(AudioCheckError::Empty);
    }
    let mut i: usize = 0;
    while i < n
        invariant
            n == classes@.len(),
            i <= n,
            forall|j: int| 0 <= j < i ==> classes@[j] != SampleClass::NotANumber,
        decreases n - i,
    {
        if classes[i] == SampleClass::NotANumber {
            return Err(AudioCheckError::ContainsNan);
        }
        i = i + 1;
    }
    let mut k: usize = 0;
    while k < n
        invariant
            n == classes@.len(),
            k <= n,
            forall|j: int| 0 <= j < n ==> classes@[j] != SampleClass::NotANumber,
            forall|j: int| 0 <= j < k ==> classes@[j] != SampleClass::OutOfRange,
        decreases n - k,
    {
        if classes[k] == SampleClass::OutOfRange {
            return Err(AudioCheckError::OutOfRange);
        }
        k = k + 1;
    }
    Ok(())
}

/// The sample format a decoding reads.
pub open spec fn decoding_format(d: SampleDecoding) -> SampleFormat {
    match d {
        SampleDecoding::Float32 => SampleFormat::Float,
        _ => SampleFormat::Int,
    }
}

/// The sample width, in bits, a decoding reads.
pub open spec fn decoding_bits(d: SampleDecoding) -> u16 {
    match d {
        SampleDecoding::Int16 => 16,
        _ => 32,
    }
}

/// A format is read only by a decoding of exactly its kind and width, and
/// every format that has such a decoding is read; any other is refused and
/// named as it is.
pub proof fn lemma_decoding_matches_format(sample_format: SampleFormat, bits: u16)
    ensures
        spec_decoding_for(sample_format, bits) matches Ok(d) ==> decoding_format(d) == sample_format
            && decoding_bits(d) == bits,
        (exists|d: SampleDecoding| decoding_format(d) == sample_format && decoding_bits(d) == bits)
            ==> spec_decoding_for(sample_format, bits) is Ok,
        spec_decoding_for(sample_format, bits) is Err ==> spec_decoding_for(sample_format, bits)
            == Err::<SampleDecoding, UnsupportedFormat>(
            UnsupportedFormat { sample_format, bits_per_sample: bits },
        ),
{
}

/// A decoding's divisor is 2^(bits - 1) for integers and 1 for floats, so
/// the largest stored magnitude maps to 1.
pub proof fn lemma_full_scale_is_half_range(d: SampleDecoding)
    ensures
        decoding_format(d) == SampleFormat::Int ==> d.spec_full_scale() * 2 == pow2_bits(decoding_bits(d)),
        decoding_format(d) == SampleFormat::Float ==> d.spec_full_scale() == 1,
{
}

/// 2 to the power `bits`, for the widths samples come in.
pub open spec fn pow2_bits(bits: u16) -> nat {
    if bits == 16 {
        65536
    } else if bits == 32 {
        4294967296
    } else {
        0
    }
}

/// Whisper gets a file only when it is 16 kHz mono, and then exactly when its
/// samples can be read; the check on rate and channels comes first.
pub proof fn lemma_whisper_gets_sixteen_khz_mono(format: WavFormat)
    ensures
        spec_whisper_input(format) is Ok ==> format.sample_rate == 16000 && format.channels == 1,
        format.sample_rate == 16000 && format.channels == 1 ==> (spec_whisper_input(format) is Ok
            <==> spec_decoding_for(format.sample_format, format.bits_per_sample) is Ok),
        spec_whisper_input(format) matches Ok(d) ==> decoding_format(d) == format.sample_format
            && decoding_bits(d) == format.bits_per_sample,
        !(format.sample_rate == 16000 && format.channels == 1) ==> spec_whisper_input(format)
            == Err::<SampleDecoding, WhisperInputError>(
            WhisperInputError::NotSixteenKilohertzMono {
                sample_rate: format.sample_rate,
                channels: format.channels,
            },
        ),
{
}

/// Decoded audio goes to the transcriber exactly when there is some and every
/// sample is a number in [-1, 1]; a sample that is not a number is reported
/// whenever there is one, and out-of-range audio only when no sample is one.
pub proof fn lemma_check_accepts_only_clean_audio(classes: Seq<SampleClass>)
    ensures
        spec_check_samples(classes) is Ok <==> classes.len() > 0 && forall|i: int|
            0 <= i < classes.len() ==> #[trigger] classes[i] == SampleClass::InRange,
        (classes.len() > 0 && exists|i: int|
            0 <= i < classes.len() && #[trigger] classes[i] == SampleClass::NotANumber)
            <==> spec_check_samples(classes) == Err::<(), AudioCheckError>(
            AudioCheckError::ContainsNan,
        ),
        spec_check_samples(classes) == Err::<(), AudioCheckError>(AudioCheckError::OutOfRange)
            ==> (exists|i: int| 0 <= i < classes.len() && #[trigger] classes[i] == SampleClass::OutOfRange)
            && forall|i: int| 0 <= i < classes.len() ==> #[trigger] classes[i] != SampleClass::NotANumber,
        spec_check_samples(classes) == Err::<(), AudioCheckError>(AudioCheckError::Empty)
            <==> classes.len() == 0,
{
    if classes.len() > 0 && (forall|i: int|
        0 <= i < classes.len() ==> #[trigger] classes[i] == SampleClass::InRange) {
        assert(!exists|i: int| 0 <= i < classes.len() && classes[i] == SampleClass::NotANumber);
        assert(!exists|i: int| 0 <= i < classes.len() && classes[i] == SampleClass::OutOfRange);
    }
    if spec_check_samples(classes) is Ok {
        assert forall|i: int| 0 <= i < classes.len() implies #[trigger] classes[i]
            == SampleClass::InRange by {
            if classes[i] == SampleClass::NotANumber {
            } else if classes[i] == SampleClass::OutOfRange {
            }
        }
    }
}

} // verus!
