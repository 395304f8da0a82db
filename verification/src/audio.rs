//! The decisions of the audio output: which sample formats a sink accepts,
//! how large the playback buffer is, and which failures are worth retrying.
//! The device itself is driven by the application.

use vstd::prelude::*;

verus! {

/// How far ahead of the device the playback buffer runs, in milliseconds.
pub const QUEUE_TARGET_MS: u64 = 150;

/// The playback buffer never takes more than this many bytes.
pub const MAX_QUEUE_BYTES: usize = 67_108_864;

/// The sample formats the decoder can hand a sink.
#[derive(Clone, Copy, Debug, PartialEq, Eq, Structural)]
pub enum SampleFormat {
    F64,
    F32,
    S32,
    S24,
    S24_3,
    S16,
}

impl SampleFormat {
    pub open spec fn spec_name(self) -> Seq<char> {
        match self {
            SampleFormat::F64 => "F64"@,
            SampleFormat::F32 => "F32"@,
            SampleFormat::S32 => "S32"@,
            SampleFormat::S24 => "S24"@,
            SampleFormat::S24_3 => "S24_3"@,
            SampleFormat::S16 => "S16"@,
        }
    }

    /// The format's name, as it appears in messages.
    pub fn name(self) -> (r: &'static str)
        ensures
            r@ == self.spec_name(),
    {
        match self {
            SampleFormat::F64 => "F64",
            SampleFormat::F32 => "F32",
            SampleFormat::S32 => "S32",
            SampleFormat::S24 => "S24",
            SampleFormat::S24_3 => "S24_3",
            SampleFormat::S16 => "S16",
        }
    }
}

/// Why an audio output could not be opened.
#[derive(Clone, Debug, PartialEq, Eq)]
pub enum AudioOpenError {
    /// The device or the audio system refused.
    Connection(String),
    /// The caller asked for something this output never supports.
    InvalidInput(String),
    /// The device offers no format the output can drive.
    InvalidFormat(String),
}

/// How the playback engine is told about a failed sink.
#[derive(Clone, Debug, PartialEq, Eq)]
pub enum SinkFailure {
    ConnectionRefused(String),
    InvalidParams(String),
}

impl AudioOpenError {
    /// Hardware failures may clear up on their own; a bad request does not.
    pub fn retryable(&self) -> (r: bool)
        ensures
            r == !(*self is InvalidInput),
    {
        !matches!(self, AudioOpenError::InvalidInput(_))
    }

    /// The failure as the playback engine sees it.
    pub fn sink_error(&self) -> (r: SinkFailure)
        ensures
            r == match *self {
                AudioOpenError::Connection(error) => SinkFailure::ConnectionRefused(error),
                AudioOpenError::InvalidInput(error) => SinkFailure::InvalidParams(error),
                AudioOpenError::InvalidFormat(error) => SinkFailure::InvalidParams(error),
            },
    {
        match self {
            AudioOpenError::Connection(error) => SinkFailure::ConnectionRefused(error.clone()),
            AudioOpenError::InvalidInput(error) => SinkFailure::InvalidParams(error.clone()),
            AudioOpenError::InvalidFormat(error) => SinkFailure::InvalidParams(error.clone()),
        }
    }
}

/// The number of samples in `QUEUE_TARGET_MS` of interleaved audio.
pub open spec fn queue_samples(sample_rate: u32, channels: u16) -> int {
    sample_rate as int * QUEUE_TARGET_MS as int / 1000 * channels as int
}

pub open spec fn platform_range_message() -> Seq<char> {
    "audio output queue size exceeds platform range"@
}

pub open spec fn queue_limit_message() -> Seq<char> {
    "audio output queue would exceed 64 MiB"@
}

/// The playback buffer's capacity in samples, or why it cannot be had.
pub fn queue_capacity(sample_rate: u32, channels: u16) -> (r: Result<usize, String>)
    ensures
        queue_samples(sample_rate, channels) > usize::MAX ==> (r matches Err(error) && error@
            == platform_range_message()),
        queue_samples(sample_rate, channels) <= usize::MAX && queue_samples(sample_rate, channels)
            > MAX_QUEUE_BYTES / 4 ==> (r matches Err(error) && error@ == queue_limit_message()),
        queue_samples(sample_rate, channels) <= MAX_QUEUE_BYTES / 4 ==> r == Ok::<usize, String>(
            queue_samples(sample_rate, channels) as usize,
        ),
{
    let per_channel: u64 = sample_rate as u64 * QUEUE_TARGET_MS / 1000;
    assert(per_channel <= 4_294_967_295u64);
    assert(per_channel * channels as u64 <= 4_294_967_295u64 * 65_535u64) by (nonlinear_arith)
        requires
            per_channel <= 4_294_967_295u64,
            channels <= 65_535u16,
    ;
    let samples: u64 = per_channel * channels as u64;
    if samples > usize::MAX as u64 {
        return Err(String::from_str("audio output queue size exceeds platform range"));
    }
    if samples > (MAX_QUEUE_BYTES / 4) as u64 {
        return Err(String::from_str("audio output queue would exceed 64 MiB"));
    }
    Ok(samples as usize)
}

/// The queued bytes a writer lets the device fall behind by before it waits:
/// `QUEUE_TARGET_MS` of samples of `sample_size` bytes, at most `u32::MAX`.
pub open spec fn drain_target(sample_rate: u32, channels: u8, sample_size: u8) -> int {
    let bytes = sample_rate as int * channels as int * sample_size as int * QUEUE_TARGET_MS as int / 1000;
    if bytes > u32::MAX {
        u32::MAX as int
    } else {
        bytes
    }
}

pub fn drain_target_bytes(sample_rate: u32, channels: u8, sample_size: u8) -> (r: u32)
    ensures
        r == drain_target(sample_rate, channels, sample_size),
{
    assert(channels as u64 * sample_size as u64 <= 255 * 255) by (nonlinear_arith)
        requires
            channels <= 255u8,
            sample_size <= 255u8,
    ;
    let frame: u64 = channels as u64 * sample_size as u64;
    assert(sample_rate as u64 * frame <= 4_294_967_295u64 * 65_025u64) by (nonlinear_arith)
        requires
            frame <= 65_025,
            sample_rate <= 4_294_967_295u32,
    ;
    let per_second: u64 = sample_rate as u64 * frame;
    assert(per_second * 150 <= 4_294_967_295u64 * 65_025u64 * 150u64) by (nonlinear_arith)
        requires
            per_second <= 4_294_967_295u64 * 65_025u64,
    ;
    let bytes: u64 = per_second * QUEUE_TARGET_MS / 1000;
    assert(bytes == sample_rate as int * channels as int * sample_size as int * 150 / 1000) by (nonlinear_arith)
        requires
            frame == channels as u64 * sample_size as u64,
            per_second == sample_rate as u64 * frame,
            bytes == per_second * 150 / 1000,
    ;
    if bytes > u32::MAX as u64 {
        u32::MAX
    } else {
        bytes as u32
    }
}

pub open spec fn unsupported_samples_message(format: SampleFormat) -> Seq<char> {
    "audio output does not support "@ + format.spec_name() + " samples"@
}

pub open spec fn named_output_message() -> Seq<char> {
    "selecting a named audio output is not supported"@
}

/// Checks what the playback engine asks of the default output before any
/// device is touched: it plays `F32` samples on the default device only, so
/// that integer input is not silently played without its dithering.
pub fn check_output_request(device: &Option<String>, format: SampleFormat) -> (r: Result<(), AudioOpenError>)
    ensures
        format != SampleFormat::F32 ==> (r matches Err(AudioOpenError::InvalidInput(error)) && error@
            == unsupported_samples_message(format)),
        format == SampleFormat::F32 && device is Some ==> (r matches Err(AudioOpenError::InvalidInput(error))
            && error@ == named_output_message()),
        format == SampleFormat::F32 && device is None ==> r is Ok,
{
    if format != SampleFormat::F32 {
        let mut message = String::from_str("audio output does not support ");
        message.append(format.name());
        message.append(" samples");
        return Err(AudioOpenError::InvalidInput(message));
    }
    if device.is_some() {
        return Err(AudioOpenError::InvalidInput(String::from_str("selecting a named audio output is not supported")));
    }
    Ok(())
}

pub open spec fn sdl_unsupported_message(format: SampleFormat) -> Seq<char> {
    "SDL does not support "@ + format.spec_name() + " output"@
}

/// Checks the format the low-latency SDL output is asked for: it queues
/// `F32`, `S32` and `S16` samples only.
pub fn check_sdl_format(format: SampleFormat) -> (r: Result<(), AudioOpenError>)
    ensures
        (format == SampleFormat::F32 || format == SampleFormat::S32 || format == SampleFormat::S16) ==> r is Ok,
        !(format == SampleFormat::F32 || format == SampleFormat::S32 || format == SampleFormat::S16) ==> (r matches Err(
            AudioOpenError::InvalidFormat(error),
        ) && error@ == sdl_unsupported_message(format)),
{
    match format {
        SampleFormat::F32 | SampleFormat::S32 | SampleFormat::S16 => Ok(()),
        _ => {
            let mut message = String::from_str("SDL does not support ");
            message.append(format.name());
            message.append(" output");
            Err(AudioOpenError::InvalidFormat(message))
        },
    }
}

/// A failed write is answered by reopening the output only when the stream
/// itself failed; otherwise the write's own result stands.
pub fn write_needs_recovery(write_failed: bool, stream_failed: bool) -> (r: bool)
    ensures
        r == (write_failed && stream_failed),
{
    write_failed && stream_failed
}

} // verus!
