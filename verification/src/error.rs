//! Error model for the player.
//!
//! The native media libraries report failures as negative `errno`-style codes.
//! The scheduler's control flow depends on telling a handful of those codes
//! apart — "needs more data", end-of-file, "operation not supported" — so the
//! codes it branches on are named here and every classification function has
//! an exact contract.

use vstd::prelude::*;

verus! {

/// End of file / end of stream, as reported by the native media libraries.
pub const AVERROR_EOF: i32 = -541478725;

/// Invalid or unsupported data inside a bitstream.
pub const AVERROR_INVALIDDATA: i32 = -1094995529;

/// No stream of the requested kind exists in the container.
pub const AVERROR_STREAM_NOT_FOUND: i32 = -1381258232;

/// An error of unknown origin.
pub const AVERROR_UNKNOWN: i32 = -1313558101;

/// "Resource temporarily unavailable": a decoder needs more input before it
/// can produce a frame, or more output must be drained before it accepts
/// another packet. This is the negated `EAGAIN` of a Linux host.
pub const AVERROR_EAGAIN: i32 = -11;

/// "Function not implemented": a source that has no notion of the requested
/// transport operation (play/pause on a plain file, for example).
pub const AVERROR_ENOSYS: i32 = -38;

/// "No such file or directory": a driver or device node that is absent.
pub const AVERROR_ENOENT: i32 = -2;

/// "No such device": a hardware device that is not present.
pub const AVERROR_ENODEV: i32 = -19;

#[derive(Debug)]
/// An error originating from the native media libraries: a negative status
/// code plus an optional human-readable message supplied by the caller.
pub struct FFmpegError {
    /// The raw negative status code.
    pub errno: i32,
    /// A descriptive message; empty when only the code is known.
    pub msg: String,
}

impl FFmpegError {
    /// Returns the status code carried by this error.
    pub fn errno(&self) -> (r: i32)
        ensures
            r == self.errno,
    {
        self.errno
    }

    /// Returns the error message.
    pub fn message(&self) -> (r: &str)
        ensures
            r@ == self.msg@,
    {
        self.msg.as_str()
    }

    /// Wraps a raw status code, with no message text.
    pub fn from_errno(errno: i32) -> (r: Self)
        ensures
            r.errno == errno,
            r.msg@ == Seq::<char>::empty(),
    {
        FFmpegError { errno, msg: String::new() }
    }

    /// An error described only by a message, carrying the unknown-origin code.
    pub fn custom(msg: String) -> (r: Self)
        ensures
            r.errno == AVERROR_UNKNOWN,
            r.msg@ == msg@,
    {
        FFmpegError { errno: AVERROR_UNKNOWN, msg }
    }

    /// Whether this error is the transient "needs more input/output" signal
    /// that drives the poll-then-read retry loop rather than a real failure.
    pub fn needs_data(&self) -> (r: bool)
        ensures
            r == (self.errno == AVERROR_EAGAIN),
    {
        self.errno == AVERROR_EAGAIN
    }

    /// Whether this error is the end-of-file signal.
    pub fn is_eof(&self) -> (r: bool)
        ensures
            r == (self.errno == AVERROR_EOF),
    {
        self.errno == AVERROR_EOF
    }
}

/// Converts a raw status code into a result: negative codes are errors,
/// everything else is returned unchanged as a success value.
pub fn convert_ff_result(result: i32) -> (r: Result<i32, FFmpegError>)
    ensures
        result >= 0 ==> (r matches Ok(v) && v == result),
        result < 0 ==> (r matches Err(e) && e.errno == result),
{
    if result < 0 {
        Err(FFmpegError::from_errno(result))
    } else {
        Ok(result)
    }
}

#[derive(Debug)]
/// An error that terminates the current player operation.
pub enum PlayerError {
    /// An error raised by the native media libraries.
    FFmpegError(FFmpegError),
    /// The source offers no video, audio or subtitle stream to play.
    NoAvailableStreams,
    /// The source and every selected decoder are exhausted; a normal
    /// termination signal for the caller's poll loop, not a failure.
    EndOfStream,
    /// A decoder was asked to open a second time.
    DecoderAlreadyOpen,
    /// A decoded subtitle was about to overwrite one not yet delivered —
    /// an internal-consistency violation.
    SubtitleOverwrite,
}

impl PlayerError {
    /// Wraps a native-library error.
    pub fn from_ffmpeg(err: FFmpegError) -> (r: Self)
        ensures
            r matches PlayerError::FFmpegError(e) && e == err,
    {
        PlayerError::FFmpegError(err)
    }
}

/// A result type alias for player operations.
pub type PlayerResult<T> = Result<T, PlayerError>;

/// Treats "operation not supported" as success: many sources have no concept
/// of transport control, so play/pause requests against them are no-ops.
/// Every other error is passed through unchanged.
pub fn ignore_not_supported(result: Result<(), FFmpegError>) -> (r: Result<(), FFmpegError>)
    ensures
        (match result {
            Ok(()) => r is Ok,
            Err(e) => if e.errno == AVERROR_ENOSYS {
                r is Ok
            } else {
                r matches Err(e2) && e2 == e
            },
        }),
{
    match result {
        Ok(()) => Ok(()),
        Err(err) => {
            if err.errno == AVERROR_ENOSYS {
                Ok(())
            } else {
                Err(err)
            }
        },
    }
}

} // verus!
