//! Decoded frames, modeled as plain values.
//!
//! A decoded frame carries its presentation timestamp in the owning stream's
//! time base, the layout of its data planes, and the plane bytes themselves,
//! already transferred to host memory. The plane-geometry arithmetic — how
//! many planes a frame has, how wide and tall each plane is under chroma
//! subsampling — is verified here.

use vstd::prelude::*;

use crate::{MediaType, OutputPixelFormat, SampleFormat, SubtitleFormat};

verus! {

/// The index of the first zero entry of a stride table at or after
/// position `i`, or the table length when every entry from `i` on is
/// non-zero. Plane counting stops at the first zero stride.
pub open spec fn spec_first_zero(s: Seq<usize>, i: int) -> int
    decreases s.len() - i,
{
    if i < 0 || i >= s.len() {
        i
    } else if s[i] == 0 {
        i
    } else {
        spec_first_zero(s, i + 1)
    }
}

proof fn lemma_first_zero_bounds(s: Seq<usize>, i: int)
    requires
        0 <= i <= s.len(),
    ensures
        i <= spec_first_zero(s, i) <= s.len(),
        forall|j: int| i <= j < spec_first_zero(s, i) ==> s[j] != 0,
        spec_first_zero(s, i) < s.len() ==> s[spec_first_zero(s, i)] == 0,
    decreases s.len() - i,
{
    if i < s.len() && s[i] != 0 {
        lemma_first_zero_bounds(s, i + 1);
    }
}

/// The length of an image dimension in a subsampled plane: each plane
/// sample covers `2^log2_factor` image columns or rows, with the last,
/// partially covered position rounded up.
pub open spec fn spec_chroma_dim(dim: int, log2_factor: u32) -> int {
    if log2_factor == 0 {
        dim
    } else {
        (dim + 1) / 2
    }
}

/// An upper bound on frame dimensions and strides, matching the native
/// libraries' use of 32-bit signed integers for them.
pub const MAX_FRAME_DIM: usize = 0x7fff_ffff;

#[derive(Debug)]
/// A decoded video frame, in one of the configured target pixel formats.
pub struct VideoFrame {
    /// The pixel format of the frame.
    pub format: OutputPixelFormat,
    /// The width of the frame in pixels.
    pub width: usize,
    /// The height of the frame in pixels.
    pub height: usize,
    /// The stride, in bytes, of each data plane; zero entries follow the
    /// last used plane.
    pub linesize: [usize; 8],
    /// The presentation timestamp, in the owning stream's time base.
    pub pts: i64,
    /// The numerator of the owning stream's time base.
    pub time_base_num: u32,
    /// The denominator of the owning stream's time base.
    pub time_base_den: u32,
    /// Whether the frame was decoded into device (GPU) memory before its
    /// planes were transferred to the host.
    pub hw_backed: bool,
    /// The raw bytes of each data plane, one entry per plane.
    pub planes: Vec<Vec<u8>>,
}

impl VideoFrame {
    /// How many data planes the frame has: the strides of used planes are
    /// non-zero, and the first zero stride ends the table.
    pub open spec fn spec_num_planes(self) -> int {
        spec_first_zero(self.linesize@, 0)
    }

    /// The width in pixels of the plane at `index`: the chroma planes
    /// (indices 1 and 2) of a subsampled format cover several image
    /// columns per sample.
    pub open spec fn spec_plane_width(self, index: int) -> int {
        if index == 1 || index == 2 {
            spec_chroma_dim(self.width as int, self.format.spec_log2_chroma_w())
        } else {
            self.width as int
        }
    }

    /// The height in pixels of the plane at `index`.
    pub open spec fn spec_plane_height(self, index: int) -> int {
        if index == 1 || index == 2 {
            spec_chroma_dim(self.height as int, self.format.spec_log2_chroma_h())
        } else {
            self.height as int
        }
    }

    /// The frame invariant: dimensions and strides fit the native ranges,
    /// and there is one plane byte buffer per used plane, each spanning
    /// `stride × plane height` bytes.
    pub open spec fn wf(self) -> bool {
        &&& self.width <= MAX_FRAME_DIM
        &&& self.height <= MAX_FRAME_DIM
        &&& (forall|i: int| 0 <= i < 8 ==> #[trigger] self.linesize@[i] <= MAX_FRAME_DIM)
        &&& self.planes@.len() == self.spec_num_planes()
        &&& (forall|i: int|
            0 <= i < self.spec_num_planes() ==> #[trigger] self.planes@[i]@.len()
                == self.linesize@[i] * self.spec_plane_height(i))
    }

    /// Returns the pixel format of the video frame.
    pub fn pixel_format(&self) -> (r: OutputPixelFormat)
        ensures
            r == self.format,
    {
        self.format
    }

    /// Returns the width of the frame in pixels.
    pub fn width(&self) -> (r: usize)
        ensures
            r == self.width,
    {
        self.width
    }

    /// Returns the height of the frame in pixels.
    pub fn height(&self) -> (r: usize)
        ensures
            r == self.height,
    {
        self.height
    }

    /// Returns the number of data planes within the frame.
    pub fn num_planes(&self) -> (r: usize)
        ensures
            r == self.spec_num_planes(),
    {
        proof {
            lemma_first_zero_bounds(self.linesize@, 0);
        }
        let mut total: usize = 0;
        while total < 8
            invariant
                0 <= total <= 8,
                spec_first_zero(self.linesize@, 0) == spec_first_zero(self.linesize@, total as int),
            decreases 8 - total,
        {
            if self.linesize[total] == 0 {
                return total;
            }
            total += 1;
        }
        total
    }

    /// Returns the stride in bytes of the given plane.
    pub fn stride(&self, index: usize) -> (r: usize)
        requires
            index < self.spec_num_planes(),
        ensures
            r == self.linesize@[index as int],
    {
        proof {
            lemma_first_zero_bounds(self.linesize@, 0);
        }
        self.linesize[index]
    }

    /// Returns the width of the given plane in pixels.
    pub fn plane_width(&self, index: usize) -> (r: usize)
        requires
            self.wf(),
            index < self.spec_num_planes(),
        ensures
            r == self.spec_plane_width(index as int),
    {
        if index != 1 && index != 2 {
            return self.width;
        }
        let s = self.format.log2_chroma_w();
        if s == 0 {
            self.width
        } else {
            (self.width + 1) / 2
        }
    }

    /// Returns the height of the given plane in pixels.
    pub fn plane_height(&self, index: usize) -> (r: usize)
        requires
            self.wf(),
            index < self.spec_num_planes(),
        ensures
            r == self.spec_plane_height(index as int),
    {
        if index != 1 && index != 2 {
            return self.height;
        }
        let s = self.format.log2_chroma_h();
        if s == 0 {
            self.height
        } else {
            (self.height + 1) / 2
        }
    }

    /// Returns the raw bytes of the given plane: `stride × plane height`
    /// bytes of pixel data.
    pub fn plane_data(&self, index: usize) -> (r: &Vec<u8>)
        requires
            self.wf(),
            index < self.spec_num_planes(),
        ensures
            r@ == self.planes@[index as int]@,
            r@.len() == self.linesize@[index as int] * self.spec_plane_height(index as int),
    {
        proof {
            lemma_first_zero_bounds(self.linesize@, 0);
        }
        &self.planes[index]
    }
}

#[derive(Debug)]
/// A decoded audio frame.
pub struct AudioFrame {
    /// The sample format of the audio data.
    pub sample_format: SampleFormat,
    /// The number of audio channels.
    pub nb_channels: usize,
    /// The number of samples per channel.
    pub nb_samples: usize,
    /// The size in bytes of each data plane; zero when the frame carries
    /// no data.
    pub plane_size: usize,
    /// The presentation timestamp, in the owning stream's time base.
    pub pts: i64,
    /// The numerator of the owning stream's time base.
    pub time_base_num: u32,
    /// The denominator of the owning stream's time base.
    pub time_base_den: u32,
    /// Whether the frame was decoded into device memory before its planes
    /// were transferred to the host.
    pub hw_backed: bool,
    /// The raw bytes of each data plane, one entry per plane.
    pub planes: Vec<Vec<u8>>,
}

impl AudioFrame {
    /// How many data planes the frame has: none without data, one when
    /// the samples are packed, one per channel when they are planar.
    pub open spec fn spec_num_planes(self) -> int {
        if self.plane_size == 0 {
            0
        } else if !self.sample_format.spec_is_planar() {
            1
        } else {
            self.nb_channels as int
        }
    }

    /// The frame invariant: one plane byte buffer per plane, each spanning
    /// `plane_size` bytes.
    pub open spec fn wf(self) -> bool {
        &&& self.planes@.len() == self.spec_num_planes()
        &&& (forall|i: int|
            0 <= i < self.spec_num_planes() ==> #[trigger] self.planes@[i]@.len()
                == self.plane_size)
    }

    /// Returns the number of audio channels.
    pub fn num_channels(&self) -> (r: usize)
        ensures
            r == self.nb_channels,
    {
        self.nb_channels
    }

    /// Returns the number of audio samples per channel.
    pub fn num_samples(&self) -> (r: usize)
        ensures
            r == self.nb_samples,
    {
        self.nb_samples
    }

    /// Returns whether the audio samples are planar.
    pub fn is_planar(&self) -> (r: bool)
        ensures
            r == self.sample_format.spec_is_planar(),
    {
        self.sample_format.is_planar()
    }

    /// Returns whether the audio samples are interleaved/packed.
    pub fn is_packed(&self) -> (r: bool)
        ensures
            r == !self.sample_format.spec_is_planar(),
    {
        self.sample_format.is_packed()
    }

    /// Returns the sample format of the audio data.
    pub fn sample_format(&self) -> (r: SampleFormat)
        ensures
            r == self.sample_format,
    {
        self.sample_format
    }

    /// Returns the number of audio planes within the frame.
    pub fn num_planes(&self) -> (r: usize)
        ensures
            r == self.spec_num_planes(),
    {
        if self.plane_size == 0 {
            0
        } else if self.sample_format.is_packed() {
            1
        } else {
            self.nb_channels
        }
    }

    /// Returns the raw bytes of the given plane.
    pub fn plane_data(&self, index: usize) -> (r: &Vec<u8>)
        requires
            self.wf(),
            index < self.spec_num_planes(),
        ensures
            r@ == self.planes@[index as int]@,
            r@.len() == self.plane_size,
    {
        &self.planes[index]
    }
}

#[derive(Debug)]
/// A decoded subtitle frame: either rendered text or a bitmap.
pub struct SubtitleFrame {
    /// The representation of the subtitle.
    pub format: SubtitleFormat,
    /// The rendered text, when the subtitle is in a text format.
    pub text: Option<String>,
    /// The presentation timestamp, in the owning stream's time base.
    pub pts: i64,
    /// The numerator of the owning stream's time base.
    pub time_base_num: u32,
    /// The denominator of the owning stream's time base.
    pub time_base_den: u32,
}

impl SubtitleFrame {
    /// Returns the representation of the subtitle.
    pub fn format(&self) -> (r: SubtitleFormat)
        ensures
            r == self.format,
    {
        self.format
    }

    /// Returns the subtitle text content, if it is in a text format.
    pub fn text(&self) -> (r: Option<&String>)
        ensures
            (match r {
                Some(t) => self.text matches Some(own) && t@ == own@,
                None => self.text is None,
            }),
    {
        self.text.as_ref()
    }
}

/// The components every decoded frame exposes, whatever its kind.
pub trait Frame {
    /// The presentation timestamp of the frame, in the owning stream's
    /// time base.
    spec fn spec_pts(&self) -> i64;

    /// Whether the frame data was decoded into device (GPU) memory.
    spec fn spec_hw_backed(&self) -> bool;

    /// Returns the presentation timestamp of the frame, in the owning
    /// stream's time base.
    fn pts(&self) -> (r: i64)
        ensures
            r == self.spec_pts(),
    ;

    /// Returns whether the frame data was decoded into device memory.
    fn is_hw_backed(&self) -> (r: bool)
        ensures
            r == self.spec_hw_backed(),
    ;
}

impl Frame for VideoFrame {
    open spec fn spec_pts(&self) -> i64 {
        self.pts
    }

    open spec fn spec_hw_backed(&self) -> bool {
        self.hw_backed
    }

    fn pts(&self) -> (r: i64) {
        self.pts
    }

    fn is_hw_backed(&self) -> (r: bool) {
        self.hw_backed
    }
}

impl Frame for AudioFrame {
    open spec fn spec_pts(&self) -> i64 {
        self.pts
    }

    open spec fn spec_hw_backed(&self) -> bool {
        self.hw_backed
    }

    fn pts(&self) -> (r: i64) {
        self.pts
    }

    fn is_hw_backed(&self) -> (r: bool) {
        self.hw_backed
    }
}

impl Frame for SubtitleFrame {
    open spec fn spec_pts(&self) -> i64 {
        self.pts
    }

    open spec fn spec_hw_backed(&self) -> bool {
        false
    }

    fn pts(&self) -> (r: i64) {
        self.pts
    }

    fn is_hw_backed(&self) -> (r: bool) {
        false
    }
}

#[derive(Debug)]
/// A frame which has been decoded from a media source, tagged by kind.
pub enum DecodedFrame {
    /// A decoded video frame.
    Video(VideoFrame),
    /// A decoded audio frame.
    Audio(AudioFrame),
    /// A decoded subtitle frame.
    Subtitle(SubtitleFrame),
}

impl DecodedFrame {
    /// Returns the media kind of the frame.
    pub fn kind(&self) -> (r: MediaType)
        ensures
            *self is Video ==> r == MediaType::Video,
            *self is Audio ==> r == MediaType::Audio,
            *self is Subtitle ==> r == MediaType::Subtitle,
    {
        match self {
            DecodedFrame::Video(_) => MediaType::Video,
            DecodedFrame::Audio(_) => MediaType::Audio,
            DecodedFrame::Subtitle(_) => MediaType::Subtitle,
        }
    }
}

impl Frame for DecodedFrame {
    open spec fn spec_pts(&self) -> i64 {
        match self {
            DecodedFrame::Video(frame) => frame.pts,
            DecodedFrame::Audio(frame) => frame.pts,
            DecodedFrame::Subtitle(frame) => frame.pts,
        }
    }

    open spec fn spec_hw_backed(&self) -> bool {
        match self {
            DecodedFrame::Video(frame) => frame.hw_backed,
            DecodedFrame::Audio(frame) => frame.hw_backed,
            DecodedFrame::Subtitle(_) => false,
        }
    }

    fn pts(&self) -> (r: i64) {
        match self {
            DecodedFrame::Video(frame) => frame.pts(),
            DecodedFrame::Audio(frame) => frame.pts(),
            DecodedFrame::Subtitle(frame) => frame.pts(),
        }
    }

    fn is_hw_backed(&self) -> (r: bool) {
        match self {
            DecodedFrame::Video(frame) => frame.is_hw_backed(),
            DecodedFrame::Audio(frame) => frame.is_hw_backed(),
            DecodedFrame::Subtitle(_) => false,
        }
    }
}

} // verus!
