//! Decoder lifecycle models and the hardware-fallback chain.
//!
//! A decoder here is a state machine over plain values: created, opened,
//! flushed, exhausted. The native codec context lives outside the library;
//! the shell that drives it reports each call's outcome back into these
//! models, and the scheduler's correctness arguments are carried by the
//! model state.
//!
//! Video decoder construction walks an accelerator affinity list through a
//! [`FallbackChain`]: each entry is tried in order, soft failures
//! (accelerator absent, device unavailable, stream data rejected) move on to
//! the next entry, any other failure aborts, and when the list is exhausted
//! a plain software decoder is opened.

use vstd::prelude::*;
use vstd::string::StringExecFns;

use crate::accelerator::Accelerator;
use crate::error::{
    FFmpegError,
    PlayerError,
    AVERROR_EAGAIN,
    AVERROR_ENODEV,
    AVERROR_ENOENT,
    AVERROR_ENOSYS,
    AVERROR_INVALIDDATA,
};

verus! {

#[derive(Debug, Copy, Clone, Eq, PartialEq, Structural)]
/// The lifecycle state of one decoder: created, then opened, then — once the
/// source has no more packets — flushed, and finally exhausted when every
/// buffered frame has been drained.
pub struct BaseDecoder {
    /// Whether the decoder has been opened. Opening is not idempotent:
    /// a second open request is rejected.
    pub opened: bool,
    /// Whether end-of-input has been signalled to the decoder. After the
    /// flush it may still yield buffered frames.
    pub flushed: bool,
    /// Whether the decoder has reported end-of-stream: every buffered
    /// frame has been drained and no more will come.
    pub exhausted: bool,
}

impl BaseDecoder {
    /// Creates a decoder in its initial state: not opened, not flushed,
    /// not exhausted.
    pub fn create() -> (r: Self)
        ensures
            !r.opened,
            !r.flushed,
            !r.exhausted,
    {
        BaseDecoder { opened: false, flushed: false, exhausted: false }
    }

    /// Returns whether the decoder has been opened.
    pub fn is_open(&self) -> (r: bool)
        ensures
            r == self.opened,
    {
        self.opened
    }

    /// Opens the decoder. Opening twice is a programming error and fails
    /// loudly, leaving the state untouched.
    pub fn open(&mut self) -> (r: Result<(), PlayerError>)
        ensures
            old(self).opened ==> (r matches Err(PlayerError::DecoderAlreadyOpen) && *final(self)
                == *old(self)),
            !old(self).opened ==> (r is Ok && *final(self) == (BaseDecoder {
                opened: true,
                ..*old(self)
            })),
    {
        if self.opened {
            return Err(PlayerError::DecoderAlreadyOpen);
        }
        self.opened = true;
        Ok(())
    }

    /// Records that end-of-input has been signalled to the decoder. A
    /// decoder is flushed at most once, and only after it was opened.
    pub fn flush(&mut self)
        requires
            old(self).opened,
            !old(self).flushed,
        ensures
            *final(self) == (BaseDecoder { flushed: true, ..*old(self) }),
    {
        self.flushed = true;
    }

    /// Records that the decoder reported end-of-stream: it is exhausted.
    pub fn mark_exhausted(&mut self)
        requires
            old(self).opened,
        ensures
            *final(self) == (BaseDecoder { exhausted: true, ..*old(self) }),
    {
        self.exhausted = true;
    }
}

#[derive(Debug, Copy, Clone, Eq, PartialEq, Structural)]
/// The decoder model for an audio stream.
pub struct AudioDecoder {
    /// The lifecycle state.
    pub base: BaseDecoder,
}

impl AudioDecoder {
    /// Creates an audio decoder in its initial state.
    pub fn create() -> (r: Self)
        ensures
            r.base == (BaseDecoder { opened: false, flushed: false, exhausted: false }),
    {
        AudioDecoder { base: BaseDecoder::create() }
    }
}

#[derive(Debug, Copy, Clone, Eq, PartialEq, Structural)]
/// The decoder model for a subtitle stream.
///
/// Subtitle decoding is synchronous-in-write: submitting a packet decodes it
/// in full and parks the result in a ready slot; the decode step only
/// transfers that slot out. The slot must never be overwritten while
/// unconsumed — that would lose a subtitle and is treated as a fatal
/// internal-consistency violation, not a recoverable error.
pub struct SubtitleDecoder {
    /// The lifecycle state.
    pub base: BaseDecoder,
    /// The presentation timestamp of a decoded subtitle that has not yet
    /// been transferred out, if any.
    pub ready_subtitle: Option<i64>,
}

impl SubtitleDecoder {
    /// Creates a subtitle decoder in its initial state, with an empty slot.
    pub fn create() -> (r: Self)
        ensures
            r.base == (BaseDecoder { opened: false, flushed: false, exhausted: false }),
            r.ready_subtitle is None,
    {
        SubtitleDecoder { base: BaseDecoder::create(), ready_subtitle: None }
    }

    /// Records the outcome of submitting one packet: `got_subtitle` carries
    /// the timestamp of the decoded subtitle when the packet produced one.
    /// Filling an already-occupied slot is rejected as a fatal
    /// internal-consistency violation, with the state left untouched.
    pub fn write_packet(&mut self, got_subtitle: Option<i64>) -> (r: Result<(), PlayerError>)
        requires
            old(self).base.opened,
        ensures
            (match got_subtitle {
                Some(pts) => if old(self).ready_subtitle is Some {
                    r matches Err(PlayerError::SubtitleOverwrite) && *final(self) == *old(self)
                } else {
                    r is Ok && final(self).ready_subtitle == Some(pts) && final(self).base == old(self).base
                },
                None => r is Ok && *final(self) == *old(self),
            }),
    {
        match got_subtitle {
            Some(pts) => {
                if self.ready_subtitle.is_some() {
                    Err(PlayerError::SubtitleOverwrite)
                } else {
                    self.ready_subtitle = Some(pts);
                    Ok(())
                }
            },
            None => Ok(()),
        }
    }

    /// Attempts to transfer the ready slot out. With an empty slot this is
    /// the normal "needs more input" polling outcome, not an error.
    pub fn decode(&mut self) -> (r: Result<i64, FFmpegError>)
        requires
            old(self).base.opened,
        ensures
            (match old(self).ready_subtitle {
                Some(pts) => r matches Ok(p) && p == pts && final(self).ready_subtitle is None
                    && final(self).base == old(self).base,
                None => (r matches Err(e) && e.errno == AVERROR_EAGAIN) && *final(self) == *old(self),
            }),
    {
        match self.ready_subtitle {
            Some(pts) => {
                self.ready_subtitle = None;
                Ok(pts)
            },
            None => Err(FFmpegError::from_errno(AVERROR_EAGAIN)),
        }
    }
}

#[derive(Debug, Copy, Clone, Eq, PartialEq, Structural)]
/// The decoder model for a video stream, recording which hardware
/// accelerator — if any — the fallback chain actually selected.
pub struct VideoDecoder {
    /// The lifecycle state.
    pub base: BaseDecoder,
    /// The accelerator that was selected for this decoder, or `None` when
    /// it decodes in software.
    pub accelerator: Option<Accelerator>,
}

impl VideoDecoder {
    /// Creates a video decoder in its initial state, with no accelerator.
    pub fn create() -> (r: Self)
        ensures
            r.base == (BaseDecoder { opened: false, flushed: false, exhausted: false }),
            r.accelerator is None,
    {
        VideoDecoder { base: BaseDecoder::create(), accelerator: None }
    }

    /// Returns the accelerator the decoder was opened with, if any.
    pub fn accelerator(&self) -> (r: Option<Accelerator>)
        ensures
            r == self.accelerator,
    {
        self.accelerator
    }
}

/// Whether a status code reports a resource or availability problem — a
/// driver, device or facility that simply is not there. During accelerator
/// fallback these are soft failures: the next affinity entry is tried.
pub open spec fn spec_availability_errno(errno: i32) -> bool {
    errno == AVERROR_ENOENT || errno == AVERROR_ENODEV || errno == AVERROR_ENOSYS
}

/// Returns whether a status code reports a resource/availability problem.
pub fn is_availability_errno(errno: i32) -> (r: bool)
    ensures
        r == spec_availability_errno(errno),
{
    errno == AVERROR_ENOENT || errno == AVERROR_ENODEV || errno == AVERROR_ENOSYS
}

/// The name of the codec variant bound to an accelerator: the base codec
/// name suffixed with an underscore and the accelerator's short name.
pub fn format_codec_name_with_accelerator(codec_name: &str, accelerator: Accelerator) -> (r:
    String)
    ensures
        r@ == codec_name@ + "_"@ + accelerator.spec_name(),
{
    let mut name = codec_name.to_owned();
    name.append("_");
    name.append(accelerator.to_name());
    name
}

#[derive(Debug, Copy, Clone, Eq, PartialEq, Structural)]
/// What happened when one accelerator affinity entry was tried.
pub enum AttemptOutcome {
    /// A decoder bound to this accelerator was opened successfully.
    Opened,
    /// The codec neither advertises hardware-config support for this
    /// accelerator nor has a named codec variant for it: nothing to try.
    NoDecoder,
    /// Creating the hardware device context failed with the given code.
    DeviceError { errno: i32 },
    /// Opening the configured decoder failed with the given code.
    OpenError { errno: i32 },
}

#[derive(Debug, Copy, Clone, Eq, PartialEq, Structural)]
/// What the fallback chain asks for next.
pub enum FallbackStep {
    /// Try to build and open a decoder bound to this accelerator.
    TryAccelerator(Accelerator),
    /// Every affinity entry is spent: build and open a plain software
    /// decoder from the original codec.
    OpenSoftware,
    /// A decoder has been opened; nothing is left to do.
    Done,
}

#[derive(Debug)]
/// The hardware-fallback construction chain for a video decoder.
///
/// Entries of the affinity list are tried in order. An entry is skipped —
/// and the chain moves to the next — when the accelerator has nothing to
/// offer for this codec, when its device is unavailable, or when it rejects
/// the stream's data at open time. Any other failure is fatal and aborts
/// construction. When the list is exhausted, a plain software decoder is
/// opened; only if that too fails does construction fail overall.
pub struct FallbackChain {
    /// The affinity-ordered accelerators to try.
    pub affinity: Vec<Accelerator>,
    /// The next affinity entry to try.
    pub pos: usize,
    /// The accelerator a decoder was opened with, once one succeeded.
    pub selected: Option<Accelerator>,
    /// Whether a decoder — hardware or software — has been opened.
    pub finished: bool,
}

impl FallbackChain {
    /// The chain invariant.
    pub open spec fn wf(self) -> bool {
        &&& self.pos <= self.affinity@.len()
        &&& (self.selected is Some ==> self.finished)
        &&& (match self.selected {
            Some(a) => self.pos < self.affinity@.len() && self.affinity@[self.pos as int] == a,
            None => true,
        })
    }

    /// Starts a fallback chain over the given affinity list.
    pub fn new(affinity: Vec<Accelerator>) -> (r: Self)
        ensures
            r.wf(),
            r.affinity == affinity,
            r.pos == 0,
            r.selected is None,
            !r.finished,
    {
        FallbackChain { affinity, pos: 0, selected: None, finished: false }
    }

    /// What to try next: the current affinity entry, then — once the list
    /// is exhausted — the software decoder, then nothing.
    pub fn next_step(&self) -> (r: FallbackStep)
        requires
            self.wf(),
        ensures
            self.finished ==> r is Done,
            !self.finished && self.pos < self.affinity@.len() ==> r
                == FallbackStep::TryAccelerator(self.affinity@[self.pos as int]),
            !self.finished && self.pos >= self.affinity@.len() ==> r is OpenSoftware,
    {
        if self.finished {
            FallbackStep::Done
        } else if self.pos < self.affinity.len() {
            FallbackStep::TryAccelerator(self.affinity[self.pos])
        } else {
            FallbackStep::OpenSoftware
        }
    }

    /// Records the outcome of trying the current affinity entry.
    ///
    /// A missing decoder, an unavailable device, or stream data the variant
    /// rejects at open time are soft failures: the chain moves on. Any
    /// other failure aborts construction with that error.
    pub fn report_attempt(&mut self, outcome: AttemptOutcome) -> (r: Result<(), FFmpegError>)
        requires
            old(self).wf(),
            !old(self).finished,
            old(self).pos < old(self).affinity@.len(),
        ensures
            final(self).wf(),
            final(self).affinity == old(self).affinity,
            (match outcome {
                AttemptOutcome::Opened => r is Ok && final(self).finished && final(self).selected
                    == Some(old(self).affinity@[old(self).pos as int]) && final(self).pos == old(self).pos,
                AttemptOutcome::NoDecoder => r is Ok && !final(self).finished && final(self).selected is None && final(self).pos == old(self).pos + 1,
                AttemptOutcome::DeviceError { errno } => if spec_availability_errno(errno) {
                    r is Ok && !final(self).finished && final(self).selected is None && final(self).pos == old(self).pos + 1
                } else {
                    (r matches Err(e) && e.errno == errno) && *final(self) == *old(self)
                },
                AttemptOutcome::OpenError { errno } => if errno == AVERROR_INVALIDDATA {
                    r is Ok && !final(self).finished && final(self).selected is None && final(self).pos == old(self).pos + 1
                } else {
                    (r matches Err(e) && e.errno == errno) && *final(self) == *old(self)
                },
            }),
    {
        proof {
            vstd::std_specs::vec::axiom_spec_len(&self.affinity);
        }
        match outcome {
            AttemptOutcome::Opened => {
                self.selected = Some(self.affinity[self.pos]);
                self.finished = true;
                Ok(())
            },
            AttemptOutcome::NoDecoder => {
                self.pos += 1;
                Ok(())
            },
            AttemptOutcome::DeviceError { errno } => {
                if is_availability_errno(errno) {
                    self.pos += 1;
                    Ok(())
                } else {
                    Err(FFmpegError::from_errno(errno))
                }
            },
            AttemptOutcome::OpenError { errno } => {
                if errno == AVERROR_INVALIDDATA {
                    self.pos += 1;
                    Ok(())
                } else {
                    Err(FFmpegError::from_errno(errno))
                }
            },
        }
    }

    /// Records the result code of opening the plain software decoder, after
    /// every affinity entry has been spent. A failure here is always fatal:
    /// there is nothing left to fall back to.
    pub fn report_software_attempt(&mut self, result_code: i32) -> (r: Result<(), FFmpegError>)
        requires
            old(self).wf(),
            !old(self).finished,
            old(self).pos >= old(self).affinity@.len(),
        ensures
            final(self).wf(),
            final(self).affinity == old(self).affinity,
            result_code >= 0 ==> r is Ok && final(self).finished && final(self).selected is None,
            result_code < 0 ==> (r matches Err(e) && e.errno == result_code) && *final(self) == *old(self),
    {
        if result_code >= 0 {
            self.finished = true;
            Ok(())
        } else {
            Err(FFmpegError::from_errno(result_code))
        }
    }

    /// Returns the accelerator a decoder was opened with, or `None` for
    /// software decoding.
    pub fn accelerator(&self) -> (r: Option<Accelerator>)
        ensures
            r == self.selected,
    {
        self.selected
    }
}

/// Returns whether a raw pixel-format list contains the given format.
fn formats_contain(candidates: &Vec<i32>, format: i32) -> (r: bool)
    ensures
        r == candidates@.contains(format),
{
    let mut i: usize = 0;
    while i < candidates.len()
        invariant
            0 <= i <= candidates@.len(),
            forall|j: int| 0 <= j < i ==> candidates@[j] != format,
        decreases candidates@.len() - i,
    {
        if candidates[i] == format {
            return true;
        }
        i += 1;
    }
    false
}

/// Selects the target pixel format out of the formats a decoder offers:
/// returns the target exactly when the decoder's candidate list contains it,
/// and `None` — "none acceptable" — otherwise.
pub fn select_pixel_format(candidates: &Vec<i32>, target: i32) -> (r: Option<i32>)
    ensures
        candidates@.contains(target) ==> r == Some(target),
        !candidates@.contains(target) ==> r is None,
{
    if formats_contain(candidates, target) {
        Some(target)
    } else {
        None
    }
}

/// Negotiates a pixel format from a prioritized list of acceptable targets:
/// the first target the candidate list contains wins; `None` means none of
/// the targets is acceptable.
pub fn negotiate_pixel_format(candidates: &Vec<i32>, targets: &Vec<i32>) -> (r: Option<i32>)
    ensures
        (match r {
            Some(f) => exists|k: int|
                0 <= k < targets@.len() && targets@[k] == f && candidates@.contains(f)
                    && (forall|j: int| 0 <= j < k ==> !candidates@.contains(#[trigger] targets@[j])),
            None => forall|j: int|
                0 <= j < targets@.len() ==> !candidates@.contains(#[trigger] targets@[j]),
        }),
{
    let mut k: usize = 0;
    while k < targets.len()
        invariant
            0 <= k <= targets@.len(),
            forall|j: int| 0 <= j < k ==> !candidates@.contains(#[trigger] targets@[j]),
        decreases targets@.len() - k,
    {
        let target = targets[k];
        if formats_contain(candidates, target) {
            return Some(target);
        }
        k += 1;
    }
    None
}

} // verus!
