//! Stream descriptors and the stream inventory.
//!
//! A [`StreamInfo`] is an immutable description of one container stream as
//! plain values: kind, index, frame rate, resolution, duration and codec
//! identity. The [`StreamInventory`] holds the descriptors of every stream a
//! source exposes and selects the best stream per media kind, optionally
//! steered by a preferred index.

use vstd::prelude::*;

use crate::MediaType;

verus! {

#[derive(Debug, Copy, Clone, Eq, PartialEq, Structural)]
/// The frame rate of a stream, as a numerator/denominator fraction.
pub struct FrameRate {
    /// The numerator part of the fraction.
    pub numerator: usize,
    /// The denominator part of the fraction.
    pub denominator: usize,
}

impl FrameRate {
    /// Creates a new frame rate from the given fractional components.
    pub fn new(numerator: usize, denominator: usize) -> (r: Self)
        ensures
            r.numerator == numerator,
            r.denominator == denominator,
    {
        FrameRate { numerator, denominator }
    }

    /// Returns the numerator part of the fraction.
    pub fn numerator(&self) -> (r: usize)
        ensures
            r == self.numerator,
    {
        self.numerator
    }

    /// Returns the denominator part of the fraction.
    pub fn denominator(&self) -> (r: usize)
        ensures
            r == self.denominator,
    {
        self.denominator
    }
}

#[derive(Debug, Copy, Clone, Eq, PartialEq, Structural, Default)]
/// The resolution of a video stream.
pub struct Resolution {
    /// The width of the video resolution in pixels.
    pub width: usize,
    /// The height of the video resolution in pixels.
    pub height: usize,
}

#[derive(Debug)]
/// A single immutable audio, video or subtitle stream descriptor from a
/// media source.
pub struct StreamInfo {
    /// The media kind of the stream.
    pub media_type: MediaType,
    /// The index position of the stream inside its container.
    pub index: usize,
    /// The average frame rate of the stream.
    pub framerate: FrameRate,
    /// The resolution of the stream, if it is a video stream.
    pub resolution: Option<Resolution>,
    /// The total number of frames in the stream, where the container
    /// records it; zero otherwise.
    pub num_frames: usize,
    /// The estimated duration of the stream, in microseconds.
    pub duration_micros: u64,
    /// The bitrate of the stream in bits per second, if available. Some
    /// containers do not make this available without probing the stream.
    pub bitrate: Option<usize>,
    /// The name of the media codec this stream uses, or `"unknown"` when
    /// no decoder for it is known.
    pub codec_name: String,
    /// The container's numeric codec identifier, used to look the decoder
    /// up in the native codec registry.
    pub codec_id: u32,
}

/// The index of the earliest stream of the given kind at or after
/// position `i`, if any.
pub open spec fn spec_first_of_kind(streams: Seq<StreamInfo>, kind: MediaType, i: int) -> Option<
    int,
>
    decreases streams.len() - i,
{
    if i < 0 || i >= streams.len() {
        None
    } else if streams[i].media_type == kind {
        Some(i)
    } else {
        spec_first_of_kind(streams, kind, i + 1)
    }
}

/// Which stream the inventory selects as best for a media kind: the
/// preferred stream when one is named and it is of the right kind, the
/// earliest stream of the kind otherwise, and nothing when the kind is
/// absent.
pub open spec fn spec_find_best(
    streams: Seq<StreamInfo>,
    kind: MediaType,
    preferred: Option<usize>,
) -> Option<int> {
    match preferred {
        Some(p) => if p < streams.len() && streams[p as int].media_type == kind {
            Some(p as int)
        } else {
            None
        },
        None => spec_first_of_kind(streams, kind, 0),
    }
}

#[derive(Debug)]
/// The descriptors of every stream a media source exposes, in container
/// order: the descriptor at position `i` describes the stream with index `i`.
pub struct StreamInventory {
    /// The stream descriptors, indexed by stream index.
    pub streams: Vec<StreamInfo>,
}

impl StreamInventory {
    /// The inventory invariant: each descriptor sits at its own stream index.
    pub open spec fn wf(self) -> bool {
        forall|i: int| 0 <= i < self.streams@.len() ==> #[trigger] self.streams@[i].index == i
    }

    /// Builds an inventory from stream descriptors in container order.
    pub fn new(streams: Vec<StreamInfo>) -> (r: Self)
        requires
            forall|i: int| 0 <= i < streams@.len() ==> #[trigger] streams@[i].index == i,
        ensures
            r.streams == streams,
            r.wf(),
    {
        StreamInventory { streams }
    }

    /// Returns the number of streams available from the source.
    pub fn num_streams(&self) -> (r: usize)
        ensures
            r == self.streams@.len(),
    {
        self.streams.len()
    }

    /// Returns the descriptor of the stream at the given index.
    pub fn stream(&self, index: usize) -> (r: &StreamInfo)
        requires
            index < self.streams@.len(),
        ensures
            *r == self.streams@[index as int],
    {
        &self.streams[index]
    }

    /// Finds the best stream of the given media kind, returning its index.
    ///
    /// With a preferred index, only that stream is considered: the result is
    /// the preferred index exactly when the stream exists and is of the
    /// requested kind. Without one, the earliest stream of the kind wins.
    ///
    /// A kind absent from the source yields `None`: an empty result, not a
    /// failure.
    pub fn find_best_stream(
        &self,
        media_type: MediaType,
        preferred_stream_index: Option<usize>,
    ) -> (r: Option<usize>)
        ensures
            (match r {
                Some(i) => spec_find_best(self.streams@, media_type, preferred_stream_index)
                    == Some(i as int),
                None => spec_find_best(self.streams@, media_type, preferred_stream_index) is None,
            }),
            (match preferred_stream_index {
                Some(p) => (match r {
                    Some(i) => i == p && p < self.streams@.len()
                        && self.streams@[p as int].media_type == media_type,
                    None => !(p < self.streams@.len()
                        && self.streams@[p as int].media_type == media_type),
                }),
                None => (match r {
                    Some(i) => i < self.streams@.len()
                        && self.streams@[i as int].media_type == media_type
                        && forall|j: int|
                            0 <= j < i ==> #[trigger] self.streams@[j].media_type != media_type,
                    None => forall|j: int|
                        0 <= j < self.streams@.len()
                            ==> #[trigger] self.streams@[j].media_type != media_type,
                }),
            }),
    {
        match preferred_stream_index {
            Some(p) => {
                if p < self.streams.len() && self.streams[p].media_type == media_type {
                    Some(p)
                } else {
                    None
                }
            },
            None => {
                let mut i: usize = 0;
                while i < self.streams.len()
                    invariant
                        preferred_stream_index is None,
                        0 <= i <= self.streams@.len(),
                        forall|j: int|
                            0 <= j < i ==> #[trigger] self.streams@[j].media_type != media_type,
                        spec_first_of_kind(self.streams@, media_type, 0) == spec_first_of_kind(
                            self.streams@,
                            media_type,
                            i as int,
                        ),
                    decreases self.streams@.len() - i,
                {
                    if self.streams[i].media_type == media_type {
                        return Some(i);
                    }
                    i += 1;
                }
                None
            },
        }
    }
}

} // verus!
