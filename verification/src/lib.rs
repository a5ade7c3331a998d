//! A pull-based media player core: the decode-scheduling state machine that
//! sits above a demuxer and a set of per-stream decoders.
//!
//! The library models the orchestration logic of a player — stream selection,
//! packet routing, per-decoder readiness tracking, presentation-order merging,
//! flush sequencing and the hardware-accelerator fallback chain — as verified
//! state machines over plain values. The native demuxing and codec work itself
//! is driven by an unverified shell around the library, which feeds the
//! outcomes of those calls back in as events.

use vstd::prelude::*;

pub mod accelerator;
pub mod codec;
pub mod error;
pub mod frame;
pub mod player;
pub mod stream;

verus! {

#[derive(Debug, Copy, Clone, Eq, PartialEq, Structural)]
/// The kind of media data a stream, packet or frame carries.
pub enum MediaType {
    /// Video data.
    Video,
    /// Audio data.
    Audio,
    /// Subtitle data.
    Subtitle,
    /// Opaque data information usually continuous.
    Data,
    /// Opaque data information usually sparse.
    Attachment,
    /// Anything the container could not classify.
    Unknown,
}

impl MediaType {
    /// Whether the player can decode and deliver frames of this kind.
    pub fn is_output_kind(&self) -> (r: bool)
        ensures
            r == (*self is Video || *self is Audio || *self is Subtitle),
    {
        match self {
            MediaType::Video => true,
            MediaType::Audio => true,
            MediaType::Subtitle => true,
            _ => false,
        }
    }
}

#[derive(Debug, Clone, Copy, Default, Eq, PartialEq, Structural)]
/// The pixel format describes how image data is organized and represented.
///
/// This is used as a _target_ for rendering output; [`OutputPixelFormat::Nv12`]
/// is the least bandwidth- and compute-intensive choice and the default.
pub enum OutputPixelFormat {
    #[default]
    /// The most common output format for video output and rendering.
    Nv12,
    /// A common output format for rendering UIs; roughly twice the bandwidth
    /// of NV12.
    Rgba,
    /// The common output format for high-dynamic-range output; the most
    /// bandwidth-intensive of the three.
    P010le,
}

impl OutputPixelFormat {
    /// The name of this format in the native filter registry.
    pub open spec fn spec_filter_name(self) -> Seq<char> {
        match self {
            OutputPixelFormat::Nv12 => "nv12"@,
            OutputPixelFormat::Rgba => "rgba"@,
            OutputPixelFormat::P010le => "p010le"@,
        }
    }

    /// Returns the name of this format in the native filter registry.
    pub fn to_filter_name(&self) -> (r: &'static str)
        ensures
            r@ == self.spec_filter_name(),
    {
        match self {
            OutputPixelFormat::Nv12 => "nv12",
            OutputPixelFormat::Rgba => "rgba",
            OutputPixelFormat::P010le => "p010le",
        }
    }

    /// The base-two logarithm of the horizontal chroma subsampling factor
    /// of this format: the chroma planes of NV12 and P010LE cover two
    /// image columns per sample, RGBA has no chroma planes at all.
    pub open spec fn spec_log2_chroma_w(self) -> u32 {
        match self {
            OutputPixelFormat::Nv12 => 1u32,
            OutputPixelFormat::Rgba => 0u32,
            OutputPixelFormat::P010le => 1u32,
        }
    }

    /// Returns the base-two logarithm of the horizontal chroma subsampling
    /// factor.
    pub fn log2_chroma_w(&self) -> (r: u32)
        ensures
            r == self.spec_log2_chroma_w(),
    {
        match self {
            OutputPixelFormat::Nv12 => 1,
            OutputPixelFormat::Rgba => 0,
            OutputPixelFormat::P010le => 1,
        }
    }

    /// The base-two logarithm of the vertical chroma subsampling factor:
    /// the chroma planes of NV12 and P010LE cover two image rows per
    /// sample.
    pub open spec fn spec_log2_chroma_h(self) -> u32 {
        match self {
            OutputPixelFormat::Nv12 => 1u32,
            OutputPixelFormat::Rgba => 0u32,
            OutputPixelFormat::P010le => 1u32,
        }
    }

    /// Returns the base-two logarithm of the vertical chroma subsampling
    /// factor.
    pub fn log2_chroma_h(&self) -> (r: u32)
        ensures
            r == self.spec_log2_chroma_h(),
    {
        match self {
            OutputPixelFormat::Nv12 => 1,
            OutputPixelFormat::Rgba => 0,
            OutputPixelFormat::P010le => 1,
        }
    }
}

#[derive(Debug, Clone, Copy, Eq, PartialEq, Structural)]
/// The audio sample format.
pub enum SampleFormat {
    /// Unsigned 8 bit.
    U8,
    /// Signed 16 bit.
    S16,
    /// Signed 32 bit.
    S32,
    /// Single precision float.
    FLT,
    /// Double precision float.
    DBL,
    /// Unsigned 8 bit, planar.
    U8P,
    /// Signed 16 bit, planar.
    S16P,
    /// Signed 32 bit, planar.
    S32P,
    /// Single precision float, planar.
    FLTP,
    /// Double precision float, planar.
    DBLP,
    /// Signed 64 bit.
    S64,
    /// Signed 64 bit, planar.
    S64P,
}

impl SampleFormat {
    /// Whether samples of this format are planar: each channel stored in a
    /// plane of its own rather than interleaved.
    pub open spec fn spec_is_planar(self) -> bool {
        match self {
            SampleFormat::U8P => true,
            SampleFormat::S16P => true,
            SampleFormat::S32P => true,
            SampleFormat::FLTP => true,
            SampleFormat::DBLP => true,
            SampleFormat::S64P => true,
            _ => false,
        }
    }

    /// Returns whether the samples are planar.
    pub fn is_planar(&self) -> (r: bool)
        ensures
            r == self.spec_is_planar(),
    {
        match self {
            SampleFormat::U8P => true,
            SampleFormat::S16P => true,
            SampleFormat::S32P => true,
            SampleFormat::FLTP => true,
            SampleFormat::DBLP => true,
            SampleFormat::S64P => true,
            _ => false,
        }
    }

    /// Returns whether the samples are interleaved/packed.
    pub fn is_packed(&self) -> (r: bool)
        ensures
            r == !self.spec_is_planar(),
    {
        !self.is_planar()
    }
}

#[derive(Debug, Clone, Copy, Eq, PartialEq, Structural)]
/// The representation of a decoded subtitle.
pub enum SubtitleFormat {
    /// A bitmap to be blended over the video.
    Bitmap,
    /// Plain text.
    Text,
    /// Text in the Advanced SubStation Alpha dialogue format.
    Ass,
}

/// Converts a presentation timestamp expressed in a stream time base into
/// microseconds: `pts * tb_num * 1_000_000 / tb_den`, rounded towards zero.
/// Returns `None` when the result does not fit in a `u64`.
pub fn pts_to_micros(pts: u64, tb_num: u32, tb_den: u32) -> (r: Option<u64>)
    requires
        tb_den > 0,
    ensures
        (match r {
            Some(v) => v == pts as int * tb_num as int * 1_000_000 / tb_den as int,
            None => pts as int * tb_num as int * 1_000_000 / tb_den as int > u64::MAX,
        }),
{
    proof {
        assert(pts as int * tb_num as int * 1_000_000 <= u64::MAX as int * u32::MAX as int * 1_000_000)
            by (nonlinear_arith)
            requires
                pts <= u64::MAX,
                tb_num <= u32::MAX,
        ;
    }
    let product: u128 = (pts as u128) * (tb_num as u128) * 1_000_000u128;
    let quotient: u128 = product / (tb_den as u128);
    proof {
        assert(product / (tb_den as u128) <= product) by (nonlinear_arith)
            requires
                tb_den > 0,
        ;
    }
    if quotient <= u64::MAX as u128 {
        Some(quotient as u64)
    } else {
        None
    }
}

} // verus!
