//! The decode scheduler: the player's core state machine.
//!
//! The caller repeatedly asks for the next frame. The scheduler first
//! delivers any frame already decoded and waiting; otherwise it polls each
//! active decoder once; otherwise it reads one packet from the source and
//! routes it to the owning decoder; and at end of input it flushes every
//! decoder exactly once and keeps draining until nothing is left.
//!
//! The machine here decides every one of those steps over plain values.
//! The native calls — reading a packet, submitting it, receiving a frame —
//! happen outside the library, and their outcomes are reported back through
//! the `record_*` methods, whose contracts say exactly how the state moves.

use vstd::prelude::*;

use crate::accelerator::{Accelerator, AcceleratorConfig};
use crate::codec::{AudioDecoder, BaseDecoder, SubtitleDecoder, VideoDecoder};
use crate::error::{FFmpegError, PlayerError, AVERROR_EAGAIN, AVERROR_EOF};
use crate::stream::StreamInventory;
use crate::{MediaType, OutputPixelFormat};

verus! {

/// A counter bumped by one, capped at its maximum: statistics never
/// decrease and never wrap.
pub open spec fn spec_sat_inc(v: u64) -> u64 {
    if v < u64::MAX {
        (v + 1) as u64
    } else {
        v
    }
}

/// A duration total increased by an elapsed amount, capped at its maximum.
pub open spec fn spec_sat_add(v: u64, d: u64) -> u64 {
    if v + d <= u64::MAX {
        (v + d) as u64
    } else {
        u64::MAX
    }
}

/// Statistics never decrease: every update to a counter or duration in this
/// module goes through [`spec_sat_inc`] or [`spec_sat_add`], and neither can
/// shrink the value it updates.
pub proof fn lemma_statistics_monotone(v: u64, d: u64)
    ensures
        spec_sat_inc(v) >= v,
        spec_sat_add(v, d) >= v,
{
}

#[derive(Debug, Copy, Clone, Eq, PartialEq, Structural)]
/// Statistics collected by the player around counts and timings. Every
/// field is monotonically non-decreasing over the player's lifetime.
pub struct PlayerStatistics {
    /// The number of video frames decoded so far.
    pub num_video_frames_decoded: u64,
    /// The number of audio frames decoded so far.
    pub num_audio_frames_decoded: u64,
    /// The number of subtitle frames decoded so far.
    pub num_subtitle_frames_decoded: u64,
    /// The total number of packets read from the source.
    pub packet_read_total: u64,
    /// The total time spent reading packets, in microseconds.
    pub packet_read_time_micros: u64,
    /// The total number of frames delivered to the caller, over all streams.
    pub frames_decoded_total: u64,
    /// The total time spent polling decoders for frames, in microseconds.
    pub frames_decoded_time_micros: u64,
    /// The total time spent producing frames — reading, decoding and
    /// merging together — in microseconds.
    pub frames_total_time_micros: u64,
}

impl PlayerStatistics {
    /// Fresh statistics: every counter and duration at zero.
    pub fn new() -> (r: Self)
        ensures
            r == (PlayerStatistics {
                num_video_frames_decoded: 0,
                num_audio_frames_decoded: 0,
                num_subtitle_frames_decoded: 0,
                packet_read_total: 0,
                packet_read_time_micros: 0,
                frames_decoded_total: 0,
                frames_decoded_time_micros: 0,
                frames_total_time_micros: 0,
            }),
    {
        PlayerStatistics {
            num_video_frames_decoded: 0,
            num_audio_frames_decoded: 0,
            num_subtitle_frames_decoded: 0,
            packet_read_total: 0,
            packet_read_time_micros: 0,
            frames_decoded_total: 0,
            frames_decoded_time_micros: 0,
            frames_total_time_micros: 0,
        }
    }
}

impl Default for PlayerStatistics {
    fn default() -> (r: Self)
        ensures
            r == (PlayerStatistics {
                num_video_frames_decoded: 0,
                num_audio_frames_decoded: 0,
                num_subtitle_frames_decoded: 0,
                packet_read_total: 0,
                packet_read_time_micros: 0,
                frames_decoded_total: 0,
                frames_decoded_time_micros: 0,
                frames_total_time_micros: 0,
            }),
    {
        PlayerStatistics::new()
    }
}

#[derive(Debug, Copy, Clone, Eq, PartialEq, Structural)]
/// A decoder together with the index of the stream it decodes.
pub struct TaggedDecoder<D> {
    /// The index of the stream whose packets this decoder consumes.
    pub stream_index: usize,
    /// The decoder model.
    pub decoder: D,
}

#[derive(Debug, Copy, Clone, Eq, PartialEq, Structural)]
/// The outcome of polling a video or audio decoder for one frame.
pub enum PollOutcome {
    /// A frame with the given presentation timestamp is now available.
    Frame { pts: i64 },
    /// The decoder needs more input before it can produce a frame — the
    /// normal not-ready signal, not an error.
    NeedsData,
    /// The decoder is exhausted: it was flushed and every buffered frame
    /// has been drained.
    EndOfStream,
    /// The decoder failed with the given status code.
    Failed { errno: i32 },
}

/// Classifies the raw status code of a receive-frame call into a poll
/// outcome, with `pts` the timestamp of the received frame on success.
pub fn classify_decode_result(code: i32, pts: i64) -> (r: PollOutcome)
    ensures
        code >= 0 ==> r == (PollOutcome::Frame { pts }),
        code == AVERROR_EAGAIN ==> r is NeedsData,
        code == AVERROR_EOF ==> r is EndOfStream,
        code < 0 && code != AVERROR_EAGAIN && code != AVERROR_EOF ==> r == (PollOutcome::Failed {
            errno: code,
        }),
{
    if code >= 0 {
        PollOutcome::Frame { pts }
    } else if code == AVERROR_EAGAIN {
        PollOutcome::NeedsData
    } else if code == AVERROR_EOF {
        PollOutcome::EndOfStream
    } else {
        PollOutcome::Failed { errno: code }
    }
}

/// Turns a decode result into "did a frame arrive": the transient "needs
/// more data" outcome is swallowed as `false`, success is `true`, and every
/// other error is passed through.
pub fn ignore_out_of_data_error(result: Result<(), FFmpegError>) -> (r: Result<bool, FFmpegError>)
    ensures
        (match result {
            Ok(()) => r matches Ok(b) && b,
            Err(e) => if e.errno == AVERROR_EAGAIN {
                r matches Ok(b) && !b
            } else {
                r matches Err(e2) && e2 == e
            },
        }),
{
    match result {
        Ok(()) => Ok(true),
        Err(err) => {
            if err.needs_data() {
                Ok(false)
            } else {
                Err(err)
            }
        },
    }
}

#[derive(Debug, Copy, Clone, Eq, PartialEq, Structural)]
/// What the player state machine does next.
pub enum PlayerStep {
    /// A decoded frame of this kind is waiting and wins the
    /// presentation-order merge: deliver it.
    Deliver(MediaType),
    /// Poll the decoder of this kind for a frame.
    Poll(MediaType),
    /// Read the next packet from the source.
    ReadPacket,
    /// The source is exhausted: flush every decoder, exactly once.
    Flush,
    /// Everything is drained: report end of stream to the caller.
    EndOfStream,
}

/// The builder for creating new [`MediaPlayer`] state machines.
#[derive(Debug)]
pub struct MediaPlayerBuilder {
    /// The inventory of the source's streams.
    pub source: StreamInventory,
    /// The pixel formats the video output may use, in preference order.
    pub target_pixel_formats: Vec<OutputPixelFormat>,
    /// The hardware-accelerator configuration for video decoding.
    pub accelerator_config: AcceleratorConfig,
    /// An explicit video stream choice, if any.
    pub stream_index_video: Option<usize>,
    /// An explicit audio stream choice, if any.
    pub stream_index_audio: Option<usize>,
    /// An explicit subtitle stream choice, if any.
    pub stream_index_subtitle: Option<usize>,
}

/// The consecutive-duplicate-free form of a format list: within each run of
/// equal neighbours only the first entry is kept.
pub open spec fn dedup_adjacent(s: Seq<OutputPixelFormat>) -> Seq<OutputPixelFormat>
    decreases s.len(),
{
    if s.len() == 0 {
        Seq::empty()
    } else if s.len() == 1 {
        s
    } else if s.last() == s[s.len() - 2] {
        dedup_adjacent(s.drop_last())
    } else {
        dedup_adjacent(s.drop_last()).push(s.last())
    }
}

impl MediaPlayerBuilder {
    /// The builder invariant: the inventory is well-formed, every explicit
    /// stream choice points at a stream of the right kind, and at least one
    /// target pixel format is configured.
    pub open spec fn wf(self) -> bool {
        &&& self.source.wf()
        &&& self.target_pixel_formats@.len() > 0
        &&& (self.stream_index_video matches Some(i) ==> i < self.source.streams@.len()
            && self.source.streams@[i as int].media_type == MediaType::Video)
        &&& (self.stream_index_audio matches Some(i) ==> i < self.source.streams@.len()
            && self.source.streams@[i as int].media_type == MediaType::Audio)
        &&& (self.stream_index_subtitle matches Some(i) ==> i < self.source.streams@.len()
            && self.source.streams@[i as int].media_type == MediaType::Subtitle)
    }

    /// Creates a new builder over the given stream inventory, with safe
    /// defaults for all other options: NV12 output, the default accelerator
    /// configuration, and no explicit stream choices.
    pub fn for_source(source: StreamInventory) -> (r: Self)
        requires
            source.wf(),
        ensures
            r.wf(),
            r.source == source,
            r.target_pixel_formats@ == seq![OutputPixelFormat::Nv12],
            r.accelerator_config.wf(),
            r.accelerator_config.affinity@ == crate::accelerator::spec_default_affinity(
                crate::accelerator::Platform::Linux,
            ),
            r.accelerator_config.target_device is None,
            !r.accelerator_config.warned_no_accelerators,
            r.stream_index_video is None,
            r.stream_index_audio is None,
            r.stream_index_subtitle is None,
    {
        let target_pixel_formats = vec![OutputPixelFormat::Nv12];
        proof {
            assert(target_pixel_formats@ =~= seq![OutputPixelFormat::Nv12]);
        }
        MediaPlayerBuilder {
            source,
            target_pixel_formats,
            accelerator_config: AcceleratorConfig::default(),
            stream_index_video: None,
            stream_index_audio: None,
            stream_index_subtitle: None,
        }
    }

    /// Sets the output pixel formats to decode the video into, in
    /// preference order; adjacent duplicates are dropped. The list must
    /// not be empty.
    pub fn with_target_pixel_formats(self, formats: &[OutputPixelFormat]) -> (r: Self)
        requires
            self.wf(),
            formats@.len() > 0,
        ensures
            r.wf(),
            r.target_pixel_formats@ == dedup_adjacent(formats@),
            r.target_pixel_formats@.len() > 0,
            r.source == self.source,
            r.accelerator_config == self.accelerator_config,
            r.stream_index_video == self.stream_index_video,
            r.stream_index_audio == self.stream_index_audio,
            r.stream_index_subtitle == self.stream_index_subtitle,
    {
        let mut deduped: Vec<OutputPixelFormat> = Vec::new();
        let mut i: usize = 0;
        while i < formats.len()
            invariant
                0 <= i <= formats@.len(),
                deduped@ == dedup_adjacent(formats@.take(i as int)),
                i > 0 ==> deduped@.len() > 0,
            decreases formats@.len() - i,
        {
            proof {
                let prefix = formats@.take(i as int + 1);
                assert(prefix.drop_last() =~= formats@.take(i as int));
                assert(prefix.last() == formats@[i as int]);
                if i > 0 {
                    assert(prefix[prefix.len() - 2] == formats@[i as int - 1]);
                }
                if i == 0 {
                    assert(prefix =~= seq![formats@[0]]);
                }
            }
            if i == 0 || formats[i] != formats[i - 1] {
                deduped.push(formats[i]);
            }
            i += 1;
        }
        proof {
            assert(formats@.take(formats@.len() as int) =~= formats@);
        }
        MediaPlayerBuilder { target_pixel_formats: deduped, ..self }
    }

    /// Sets a custom accelerator configuration, which determines the
    /// priority and selection of hardware decoders for video streams.
    pub fn with_accelerator_config(self, accelerator_config: AcceleratorConfig) -> (r: Self)
        requires
            self.wf(),
        ensures
            r.wf(),
            r.accelerator_config == accelerator_config,
            r.source == self.source,
            r.target_pixel_formats == self.target_pixel_formats,
            r.stream_index_video == self.stream_index_video,
            r.stream_index_audio == self.stream_index_audio,
            r.stream_index_subtitle == self.stream_index_subtitle,
    {
        MediaPlayerBuilder { accelerator_config, ..self }
    }

    /// Selects a specific video stream to output. The index must point at
    /// a video stream of the source.
    pub fn with_video_stream(self, stream_index: Option<usize>) -> (r: Self)
        requires
            self.wf(),
            stream_index matches Some(i) ==> i < self.source.streams@.len()
                && self.source.streams@[i as int].media_type == MediaType::Video,
        ensures
            r.wf(),
            r.stream_index_video == stream_index,
            r.source == self.source,
            r.target_pixel_formats == self.target_pixel_formats,
            r.accelerator_config == self.accelerator_config,
            r.stream_index_audio == self.stream_index_audio,
            r.stream_index_subtitle == self.stream_index_subtitle,
    {
        MediaPlayerBuilder { stream_index_video: stream_index, ..self }
    }

    /// Selects a specific audio stream to output. The index must point at
    /// an audio stream of the source.
    pub fn with_audio_stream(self, stream_index: Option<usize>) -> (r: Self)
        requires
            self.wf(),
            stream_index matches Some(i) ==> i < self.source.streams@.len()
                && self.source.streams@[i as int].media_type == MediaType::Audio,
        ensures
            r.wf(),
            r.stream_index_audio == stream_index,
            r.source == self.source,
            r.target_pixel_formats == self.target_pixel_formats,
            r.accelerator_config == self.accelerator_config,
            r.stream_index_video == self.stream_index_video,
            r.stream_index_subtitle == self.stream_index_subtitle,
    {
        MediaPlayerBuilder { stream_index_audio: stream_index, ..self }
    }

    /// Selects a specific subtitle stream to output. The index must point
    /// at a subtitle stream of the source.
    pub fn with_subtitle_stream(self, stream_index: Option<usize>) -> (r: Self)
        requires
            self.wf(),
            stream_index matches Some(i) ==> i < self.source.streams@.len()
                && self.source.streams@[i as int].media_type == MediaType::Subtitle,
        ensures
            r.wf(),
            r.stream_index_subtitle == stream_index,
            r.source == self.source,
            r.target_pixel_formats == self.target_pixel_formats,
            r.accelerator_config == self.accelerator_config,
            r.stream_index_video == self.stream_index_video,
            r.stream_index_audio == self.stream_index_audio,
    {
        MediaPlayerBuilder { stream_index_subtitle: stream_index, ..self }
    }

    /// Creates the [`MediaPlayer`] from the configuration.
    ///
    /// One stream per media kind is selected — honouring explicit choices —
    /// and a decoder is set up for each selected stream and for no other:
    /// a kind with no selected stream gets no decoder and never yields a
    /// frame. When no stream of any kind can be selected, building fails
    /// with [`PlayerError::NoAvailableStreams`]; that is the only failure.
    pub fn build(self) -> (r: Result<MediaPlayer, PlayerError>)
        requires
            self.wf(),
        ensures
            (match r {
                Ok(p) => {
                    &&& p.wf()
                    &&& p.source == self.source
                    &&& p.target_pixel_formats == self.target_pixel_formats
                    &&& p.accelerator_config == self.accelerator_config
                    &&& (match crate::stream::spec_find_best(
                        self.source.streams@,
                        MediaType::Video,
                        self.stream_index_video,
                    ) {
                        Some(i) => p.decoder_video matches Some(t) && t.stream_index == i
                            && t.decoder.base.opened && !t.decoder.base.flushed
                            && !t.decoder.base.exhausted && t.decoder.accelerator is None,
                        None => p.decoder_video is None,
                    })
                    &&& (match crate::stream::spec_find_best(
                        self.source.streams@,
                        MediaType::Audio,
                        self.stream_index_audio,
                    ) {
                        Some(i) => p.decoder_audio matches Some(t) && t.stream_index == i
                            && t.decoder.base.opened && !t.decoder.base.flushed
                            && !t.decoder.base.exhausted,
                        None => p.decoder_audio is None,
                    })
                    &&& (match crate::stream::spec_find_best(
                        self.source.streams@,
                        MediaType::Subtitle,
                        self.stream_index_subtitle,
                    ) {
                        Some(i) => p.decoder_subtitle matches Some(t) && t.stream_index == i
                            && t.decoder.base.opened && !t.decoder.base.flushed
                            && !t.decoder.base.exhausted && t.decoder.ready_subtitle is None,
                        None => p.decoder_subtitle is None,
                    })
                    &&& p.frame_video_ready is None
                    &&& p.frame_audio_ready is None
                    &&& p.frame_subtitle_ready is None
                    &&& p.poll_pending_video == p.decoder_video is Some
                    &&& p.poll_pending_audio == p.decoder_audio is Some
                    &&& p.poll_pending_subtitle == p.decoder_subtitle is Some
                    &&& !p.end_of_packet_stream
                    &&& !p.flushed
                    &&& p.statistics == (PlayerStatistics {
                        num_video_frames_decoded: 0,
                        num_audio_frames_decoded: 0,
                        num_subtitle_frames_decoded: 0,
                        packet_read_total: 0,
                        packet_read_time_micros: 0,
                        frames_decoded_total: 0,
                        frames_decoded_time_micros: 0,
                        frames_total_time_micros: 0,
                    })
                },
                Err(e) => {
                    &&& e is NoAvailableStreams
                    &&& crate::stream::spec_find_best(
                        self.source.streams@,
                        MediaType::Video,
                        self.stream_index_video,
                    ) is None
                    &&& crate::stream::spec_find_best(
                        self.source.streams@,
                        MediaType::Audio,
                        self.stream_index_audio,
                    ) is None
                    &&& crate::stream::spec_find_best(
                        self.source.streams@,
                        MediaType::Subtitle,
                        self.stream_index_subtitle,
                    ) is None
                },
            }),
    {
        let video_stream = self.source.find_best_stream(MediaType::Video, self.stream_index_video);
        let audio_stream = self.source.find_best_stream(MediaType::Audio, self.stream_index_audio);
        let subtitle_stream = self.source.find_best_stream(
            MediaType::Subtitle,
            self.stream_index_subtitle,
        );

        if video_stream.is_none() && audio_stream.is_none() && subtitle_stream.is_none() {
            return Err(PlayerError::NoAvailableStreams);
        }

        let decoder_video = match video_stream {
            Some(index) => {
                let mut decoder = VideoDecoder::create();
                let opened = decoder.base.open();
                proof {
                    assert(opened is Ok);
                }
                Some(TaggedDecoder { stream_index: index, decoder })
            },
            None => None,
        };

        let decoder_audio = match audio_stream {
            Some(index) => {
                let mut decoder = AudioDecoder::create();
                let opened = decoder.base.open();
                proof {
                    assert(opened is Ok);
                }
                Some(TaggedDecoder { stream_index: index, decoder })
            },
            None => None,
        };

        let decoder_subtitle = match subtitle_stream {
            Some(index) => {
                let mut decoder = SubtitleDecoder::create();
                let opened = decoder.base.open();
                proof {
                    assert(opened is Ok);
                }
                Some(TaggedDecoder { stream_index: index, decoder })
            },
            None => None,
        };

        Ok(
            MediaPlayer {
                source: self.source,
                target_pixel_formats: self.target_pixel_formats,
                accelerator_config: self.accelerator_config,
                poll_pending_video: decoder_video.is_some(),
                poll_pending_audio: decoder_audio.is_some(),
                poll_pending_subtitle: decoder_subtitle.is_some(),
                decoder_video,
                decoder_audio,
                decoder_subtitle,
                frame_video_ready: None,
                frame_audio_ready: None,
                frame_subtitle_ready: None,
                end_of_packet_stream: false,
                flushed: false,
                statistics: PlayerStatistics::new(),
            },
        )
    }
}

/// The media player: the state machine that schedules packet reading,
/// decoder polling, presentation-order merging and end-of-stream draining
/// for the streams selected from one source.
#[derive(Debug)]
pub struct MediaPlayer {
    /// The inventory of the source's streams.
    pub source: StreamInventory,
    /// The pixel formats the video output may use, in preference order.
    pub target_pixel_formats: Vec<OutputPixelFormat>,
    /// The hardware-accelerator configuration for video decoding.
    pub accelerator_config: AcceleratorConfig,
    /// The video decoder and its stream, when a video stream is selected.
    pub decoder_video: Option<TaggedDecoder<VideoDecoder>>,
    /// The audio decoder and its stream, when an audio stream is selected.
    pub decoder_audio: Option<TaggedDecoder<AudioDecoder>>,
    /// The subtitle decoder and its stream, when a subtitle stream is
    /// selected.
    pub decoder_subtitle: Option<TaggedDecoder<SubtitleDecoder>>,
    /// The timestamp of a decoded, not yet delivered video frame, if any.
    pub frame_video_ready: Option<i64>,
    /// The timestamp of a decoded, not yet delivered audio frame, if any.
    pub frame_audio_ready: Option<i64>,
    /// The timestamp of a decoded, not yet delivered subtitle, if any.
    pub frame_subtitle_ready: Option<i64>,
    /// Whether the video decoder still has to be polled in this round.
    pub poll_pending_video: bool,
    /// Whether the audio decoder still has to be polled in this round.
    pub poll_pending_audio: bool,
    /// Whether the subtitle decoder still has to be polled in this round.
    pub poll_pending_subtitle: bool,
    /// Whether the source has reported end of input: no further packets
    /// will be read.
    pub end_of_packet_stream: bool,
    /// Whether the decoders have been flushed. Flushing happens at most
    /// once, and only after end of input.
    pub flushed: bool,
    /// Counters and timings, monotonically non-decreasing.
    pub statistics: PlayerStatistics,
}

impl MediaPlayer {
    /// Whether a decoder exists for this kind: exactly the kinds with a
    /// selected stream.
    pub open spec fn spec_active(self, kind: MediaType) -> bool {
        match kind {
            MediaType::Video => self.decoder_video is Some,
            MediaType::Audio => self.decoder_audio is Some,
            MediaType::Subtitle => self.decoder_subtitle is Some,
            _ => false,
        }
    }

    /// The timestamp of the undelivered decoded frame of this kind, if any.
    pub open spec fn spec_ready(self, kind: MediaType) -> Option<i64> {
        match kind {
            MediaType::Video => self.frame_video_ready,
            MediaType::Audio => self.frame_audio_ready,
            MediaType::Subtitle => self.frame_subtitle_ready,
            _ => None,
        }
    }

    /// Whether the decoder of this kind still has to be polled in the
    /// current round.
    pub open spec fn spec_pending(self, kind: MediaType) -> bool {
        match kind {
            MediaType::Video => self.poll_pending_video,
            MediaType::Audio => self.poll_pending_audio,
            MediaType::Subtitle => self.poll_pending_subtitle,
            _ => false,
        }
    }

    /// Whether the decoder of this kind has reported end-of-stream.
    pub open spec fn spec_exhausted(self, kind: MediaType) -> bool {
        match kind {
            MediaType::Video => self.decoder_video matches Some(t) && t.decoder.base.exhausted,
            MediaType::Audio => self.decoder_audio matches Some(t) && t.decoder.base.exhausted,
            MediaType::Subtitle => self.decoder_subtitle matches Some(t)
                && t.decoder.base.exhausted,
            _ => false,
        }
    }

    /// Whether the decoder of this kind can usefully be polled: it exists,
    /// is not exhausted, and its previous frame has been delivered.
    pub open spec fn spec_pollable(self, kind: MediaType) -> bool {
        self.spec_active(kind) && !self.spec_exhausted(kind) && self.spec_ready(kind) is None
    }

    /// The timestamp of the pending subtitle parked in the subtitle
    /// decoder's ready slot, if any.
    pub open spec fn spec_subtitle_slot(self) -> Option<i64> {
        match self.decoder_subtitle {
            Some(t) => t.decoder.ready_subtitle,
            None => None,
        }
    }

    /// The player invariant.
    pub open spec fn wf(self) -> bool {
        &&& self.source.wf()
        &&& (self.decoder_video matches Some(t) ==> t.decoder.base.opened && t.stream_index
            < self.source.streams@.len() && self.source.streams@[t.stream_index as int].media_type
            == MediaType::Video && t.decoder.base.flushed == self.flushed)
        &&& (self.decoder_audio matches Some(t) ==> t.decoder.base.opened && t.stream_index
            < self.source.streams@.len() && self.source.streams@[t.stream_index as int].media_type
            == MediaType::Audio && t.decoder.base.flushed == self.flushed)
        &&& (self.decoder_subtitle matches Some(t) ==> t.decoder.base.opened && t.stream_index
            < self.source.streams@.len() && self.source.streams@[t.stream_index as int].media_type
            == MediaType::Subtitle && t.decoder.base.flushed == self.flushed)
        &&& (self.frame_video_ready is Some ==> self.decoder_video is Some)
        &&& (self.frame_audio_ready is Some ==> self.decoder_audio is Some)
        &&& (self.frame_subtitle_ready is Some ==> self.decoder_subtitle is Some)
        &&& (self.poll_pending_video ==> self.spec_pollable(MediaType::Video))
        &&& (self.poll_pending_audio ==> self.spec_pollable(MediaType::Audio))
        &&& (self.poll_pending_subtitle ==> self.spec_pollable(MediaType::Subtitle))
        &&& (self.flushed ==> self.end_of_packet_stream)
        &&& (self.spec_subtitle_slot() is Some ==> self.poll_pending_subtitle)
    }

    /// The timestamp of the ready frame of this kind for merge comparison:
    /// a stream with no ready frame compares as infinitely late.
    pub open spec fn spec_ready_ts(self, kind: MediaType) -> int {
        match self.spec_ready(kind) {
            Some(pts) => pts as int,
            None => i64::MAX as int,
        }
    }

    /// The presentation-order merge over the ready frames: the kind with
    /// the smallest timestamp wins, and ties are broken by the fixed
    /// priority video, then audio, then subtitle.
    pub open spec fn spec_selected_ready(self) -> Option<MediaType> {
        let v = self.spec_ready_ts(MediaType::Video);
        let a = self.spec_ready_ts(MediaType::Audio);
        let s = self.spec_ready_ts(MediaType::Subtitle);
        if v <= a && v <= s && v != i64::MAX as int {
            Some(MediaType::Video)
        } else if a <= v && a <= s && a != i64::MAX as int {
            Some(MediaType::Audio)
        } else if s <= v && s <= a && s != i64::MAX as int {
            Some(MediaType::Subtitle)
        } else {
            None
        }
    }

    /// Which decoder a packet of the given stream belongs to; a packet for
    /// a stream the player was not configured to keep routes nowhere and
    /// is silently dropped.
    pub open spec fn spec_route_packet(self, stream_index: usize) -> Option<MediaType> {
        if self.decoder_video matches Some(t) && t.stream_index == stream_index {
            Some(MediaType::Video)
        } else if self.decoder_audio matches Some(t) && t.stream_index == stream_index {
            Some(MediaType::Audio)
        } else if self.decoder_subtitle matches Some(t) && t.stream_index == stream_index {
            Some(MediaType::Subtitle)
        } else {
            None
        }
    }

    /// The scheduling decision: deliver a ready frame if the merge selects
    /// one; otherwise finish the current poll round; otherwise read the
    /// next packet while input remains; at end of input flush once; and
    /// once a full poll round after the flush yields nothing, report end
    /// of stream.
    pub open spec fn spec_next_step(self) -> PlayerStep {
        match self.spec_selected_ready() {
            Some(kind) => PlayerStep::Deliver(kind),
            None => if self.poll_pending_video {
                PlayerStep::Poll(MediaType::Video)
            } else if self.poll_pending_audio {
                PlayerStep::Poll(MediaType::Audio)
            } else if self.poll_pending_subtitle {
                PlayerStep::Poll(MediaType::Subtitle)
            } else if !self.end_of_packet_stream {
                PlayerStep::ReadPacket
            } else if !self.flushed {
                PlayerStep::Flush
            } else {
                PlayerStep::EndOfStream
            },
        }
    }

    /// Returns a read-only view of the current player statistics.
    pub fn statistics(&self) -> (r: &PlayerStatistics)
        ensures
            r == self.statistics,
    {
        &self.statistics
    }

    /// Computes the next scheduling step.
    pub fn next_step(&self) -> (r: PlayerStep)
        requires
            self.wf(),
        ensures
            r == self.spec_next_step(),
    {
        let v = match self.frame_video_ready {
            Some(pts) => pts,
            None => i64::MAX,
        };
        let a = match self.frame_audio_ready {
            Some(pts) => pts,
            None => i64::MAX,
        };
        let s = match self.frame_subtitle_ready {
            Some(pts) => pts,
            None => i64::MAX,
        };
        if v <= a && v <= s && v != i64::MAX {
            PlayerStep::Deliver(MediaType::Video)
        } else if a <= v && a <= s && a != i64::MAX {
            PlayerStep::Deliver(MediaType::Audio)
        } else if s <= v && s <= a && s != i64::MAX {
            PlayerStep::Deliver(MediaType::Subtitle)
        } else if self.poll_pending_video {
            PlayerStep::Poll(MediaType::Video)
        } else if self.poll_pending_audio {
            PlayerStep::Poll(MediaType::Audio)
        } else if self.poll_pending_subtitle {
            PlayerStep::Poll(MediaType::Subtitle)
        } else if !self.end_of_packet_stream {
            PlayerStep::ReadPacket
        } else if !self.flushed {
            PlayerStep::Flush
        } else {
            PlayerStep::EndOfStream
        }
    }

    /// Takes the ready frame that wins the presentation-order merge,
    /// clearing its marker, counting the delivery, and re-arming the poll
    /// round so the freed decoder is polled again before the next packet
    /// read. Returns the frame's kind and timestamp, or `None` when no
    /// frame is ready.
    pub fn take_ready_frame(&mut self) -> (r: Option<(MediaType, i64)>)
        requires
            old(self).wf(),
        ensures
            final(self).wf(),
            (match r {
                Some((kind, pts)) => {
                    &&& old(self).spec_selected_ready() == Some(kind)
                    &&& old(self).spec_ready(kind) == Some(pts)
                    &&& final(self).spec_ready(kind) is None
                    &&& (forall|k: MediaType|
                        k != kind ==> #[trigger] final(self).spec_ready(k) == old(self).spec_ready(
                            k,
                        ))
                    &&& final(self).statistics == (PlayerStatistics {
                        frames_decoded_total: spec_sat_inc(
                            old(self).statistics.frames_decoded_total,
                        ),
                        ..old(self).statistics
                    })
                    &&& final(self).poll_pending_video == final(self).spec_pollable(
                        MediaType::Video,
                    )
                    &&& final(self).poll_pending_audio == final(self).spec_pollable(
                        MediaType::Audio,
                    )
                    &&& final(self).poll_pending_subtitle == final(self).spec_pollable(
                        MediaType::Subtitle,
                    )
                    &&& final(self).decoder_video == old(self).decoder_video
                    &&& final(self).decoder_audio == old(self).decoder_audio
                    &&& final(self).decoder_subtitle == old(self).decoder_subtitle
                    &&& final(self).end_of_packet_stream == old(self).end_of_packet_stream
                    &&& final(self).flushed == old(self).flushed
                    &&& final(self).source == old(self).source
                },
                None => old(self).spec_selected_ready() is None && *final(self) == *old(self),
            }),
    {
        let v = match self.frame_video_ready {
            Some(pts) => pts,
            None => i64::MAX,
        };
        let a = match self.frame_audio_ready {
            Some(pts) => pts,
            None => i64::MAX,
        };
        let s = match self.frame_subtitle_ready {
            Some(pts) => pts,
            None => i64::MAX,
        };
        let taken: Option<(MediaType, i64)> = if v <= a && v <= s && v != i64::MAX {
            self.frame_video_ready = None;
            Some((MediaType::Video, v))
        } else if a <= v && a <= s && a != i64::MAX {
            self.frame_audio_ready = None;
            Some((MediaType::Audio, a))
        } else if s <= v && s <= a && s != i64::MAX {
            self.frame_subtitle_ready = None;
            Some((MediaType::Subtitle, s))
        } else {
            None
        };
        if taken.is_some() {
            if self.statistics.frames_decoded_total < u64::MAX {
                self.statistics.frames_decoded_total = self.statistics.frames_decoded_total + 1;
            }
            self.rearm_polls();
        }
        taken
    }

    /// Re-arms the poll round: every decoder that can usefully be polled
    /// becomes pending.
    fn rearm_polls(&mut self)
        requires
            old(self).wf(),
        ensures
            final(self).wf(),
            *final(self) == (MediaPlayer {
                poll_pending_video: old(self).spec_pollable(MediaType::Video),
                poll_pending_audio: old(self).spec_pollable(MediaType::Audio),
                poll_pending_subtitle: old(self).spec_pollable(MediaType::Subtitle),
                ..*old(self)
            }),
    {
        self.poll_pending_video = match &self.decoder_video {
            Some(t) => !t.decoder.base.exhausted && self.frame_video_ready.is_none(),
            None => false,
        };
        self.poll_pending_audio = match &self.decoder_audio {
            Some(t) => !t.decoder.base.exhausted && self.frame_audio_ready.is_none(),
            None => false,
        };
        self.poll_pending_subtitle = match &self.decoder_subtitle {
            Some(t) => !t.decoder.base.exhausted && self.frame_subtitle_ready.is_none(),
            None => false,
        };
    }

    /// Records that one packet was read from the source, counts it, routes
    /// it to the decoder owning its stream — `None` means the packet
    /// belongs to no selected stream and is dropped — and arms a fresh
    /// poll round.
    pub fn record_packet(&mut self, stream_index: usize) -> (r: Option<MediaType>)
        requires
            old(self).wf(),
            !old(self).end_of_packet_stream,
        ensures
            final(self).wf(),
            r == old(self).spec_route_packet(stream_index),
            *final(self) == (MediaPlayer {
                poll_pending_video: old(self).spec_pollable(MediaType::Video),
                poll_pending_audio: old(self).spec_pollable(MediaType::Audio),
                poll_pending_subtitle: old(self).spec_pollable(MediaType::Subtitle),
                statistics: PlayerStatistics {
                    packet_read_total: spec_sat_inc(old(self).statistics.packet_read_total),
                    ..old(self).statistics
                },
                ..*old(self)
            }),
    {
        if self.statistics.packet_read_total < u64::MAX {
            self.statistics.packet_read_total = self.statistics.packet_read_total + 1;
        }
        self.rearm_polls();

        let route: Option<MediaType> = {
            let mut found: Option<MediaType> = None;
            if let Some(t) = &self.decoder_video {
                if t.stream_index == stream_index {
                    found = Some(MediaType::Video);
                }
            }
            if found.is_none() {
                if let Some(t) = &self.decoder_audio {
                    if t.stream_index == stream_index {
                        found = Some(MediaType::Audio);
                    }
                }
            }
            if found.is_none() {
                if let Some(t) = &self.decoder_subtitle {
                    if t.stream_index == stream_index {
                        found = Some(MediaType::Subtitle);
                    }
                }
            }
            found
        };
        route
    }

    /// Records that the source reported end of input: no further packets
    /// will be read from it, ever.
    pub fn record_end_of_input(&mut self)
        requires
            old(self).wf(),
            !old(self).end_of_packet_stream,
        ensures
            final(self).wf(),
            *final(self) == (MediaPlayer { end_of_packet_stream: true, ..*old(self) }),
    {
        self.end_of_packet_stream = true;
    }

    /// Flushes every active decoder, exactly once per player lifetime and
    /// only after the source has reported end of input, then arms a fresh
    /// poll round to drain the buffered frames.
    pub fn flush(&mut self)
        requires
            old(self).wf(),
            old(self).end_of_packet_stream,
            !old(self).flushed,
        ensures
            final(self).wf(),
            final(self).flushed,
            final(self).end_of_packet_stream,
            (match (old(self).decoder_video, final(self).decoder_video) {
                (Some(t0), Some(t)) => t.stream_index == t0.stream_index && t.decoder.accelerator
                    == t0.decoder.accelerator && t.decoder.base == (BaseDecoder {
                    flushed: true,
                    ..t0.decoder.base
                }),
                (None, None) => true,
                _ => false,
            }),
            (match (old(self).decoder_audio, final(self).decoder_audio) {
                (Some(t0), Some(t)) => t.stream_index == t0.stream_index && t.decoder.base
                    == (BaseDecoder { flushed: true, ..t0.decoder.base }),
                (None, None) => true,
                _ => false,
            }),
            (match (old(self).decoder_subtitle, final(self).decoder_subtitle) {
                (Some(t0), Some(t)) => t.stream_index == t0.stream_index
                    && t.decoder.ready_subtitle == t0.decoder.ready_subtitle && t.decoder.base
                    == (BaseDecoder { flushed: true, ..t0.decoder.base }),
                (None, None) => true,
                _ => false,
            }),
            final(self).poll_pending_video == final(self).spec_pollable(MediaType::Video),
            final(self).poll_pending_audio == final(self).spec_pollable(MediaType::Audio),
            final(self).poll_pending_subtitle == final(self).spec_pollable(MediaType::Subtitle),
            final(self).frame_video_ready == old(self).frame_video_ready,
            final(self).frame_audio_ready == old(self).frame_audio_ready,
            final(self).frame_subtitle_ready == old(self).frame_subtitle_ready,
            final(self).target_pixel_formats == old(self).target_pixel_formats,
            final(self).accelerator_config == old(self).accelerator_config,
            final(self).statistics == old(self).statistics,
            final(self).source == old(self).source,
    {
        self.flushed = true;
        if let Some(t) = &mut self.decoder_video {
            t.decoder.base.flush();
        }
        if let Some(t) = &mut self.decoder_audio {
            t.decoder.base.flush();
        }
        if let Some(t) = &mut self.decoder_subtitle {
            t.decoder.base.flush();
        }
        self.rearm_polls();
    }

    /// Records the outcome of polling the video or audio decoder once.
    /// The poll consumes the decoder's pending mark. A frame outcome
    /// parks the frame's timestamp as ready and counts it; "needs data"
    /// leaves the stream not ready; end-of-stream marks the decoder
    /// exhausted; any other failure is fatal and propagated unchanged.
    /// Returns whether a frame became ready.
    pub fn record_poll(&mut self, kind: MediaType, outcome: PollOutcome) -> (r: Result<
        bool,
        FFmpegError,
    >)
        requires
            old(self).wf(),
            kind == MediaType::Video || kind == MediaType::Audio,
            old(self).spec_pending(kind),
        ensures
            final(self).wf(),
            !final(self).spec_pending(kind),
            (forall|k: MediaType|
                k != kind ==> #[trigger] final(self).spec_pending(k) == old(self).spec_pending(k)),
            (match outcome {
                PollOutcome::Frame { pts } => {
                    &&& r matches Ok(got) && got
                    &&& final(self).spec_ready(kind) == Some(pts)
                    &&& (forall|k: MediaType|
                        k != kind ==> #[trigger] final(self).spec_ready(k) == old(self).spec_ready(
                            k,
                        ))
                    &&& final(self).spec_exhausted(kind) == old(self).spec_exhausted(kind)
                    &&& final(self).statistics == (if kind == MediaType::Video {
                        PlayerStatistics {
                            num_video_frames_decoded: spec_sat_inc(
                                old(self).statistics.num_video_frames_decoded,
                            ),
                            ..old(self).statistics
                        }
                    } else {
                        PlayerStatistics {
                            num_audio_frames_decoded: spec_sat_inc(
                                old(self).statistics.num_audio_frames_decoded,
                            ),
                            ..old(self).statistics
                        }
                    })
                },
                PollOutcome::NeedsData => {
                    &&& r matches Ok(got) && !got
                    &&& (forall|k: MediaType|
                        #[trigger] final(self).spec_ready(k) == old(self).spec_ready(k))
                    &&& final(self).spec_exhausted(kind) == old(self).spec_exhausted(kind)
                    &&& final(self).statistics == old(self).statistics
                },
                PollOutcome::EndOfStream => {
                    &&& r matches Ok(got) && !got
                    &&& (forall|k: MediaType|
                        #[trigger] final(self).spec_ready(k) == old(self).spec_ready(k))
                    &&& final(self).spec_exhausted(kind)
                    &&& (forall|k: MediaType|
                        k != kind ==> #[trigger] final(self).spec_exhausted(k) == old(
                            self,
                        ).spec_exhausted(k))
                    &&& final(self).statistics == old(self).statistics
                },
                PollOutcome::Failed { errno } => {
                    &&& r matches Err(e) && e.errno == errno
                    &&& (forall|k: MediaType|
                        #[trigger] final(self).spec_ready(k) == old(self).spec_ready(k))
                    &&& final(self).statistics == old(self).statistics
                },
            }),
            final(self).end_of_packet_stream == old(self).end_of_packet_stream,
            final(self).flushed == old(self).flushed,
            final(self).source == old(self).source,
            final(self).target_pixel_formats == old(self).target_pixel_formats,
            final(self).accelerator_config == old(self).accelerator_config,
            (match (old(self).decoder_video, final(self).decoder_video) {
                (Some(t0), Some(t)) => t.stream_index == t0.stream_index && t.decoder.accelerator
                    == t0.decoder.accelerator && t.decoder.base.opened == t0.decoder.base.opened
                    && t.decoder.base.flushed == t0.decoder.base.flushed,
                (None, None) => true,
                _ => false,
            }),
            (match (old(self).decoder_audio, final(self).decoder_audio) {
                (Some(t0), Some(t)) => t.stream_index == t0.stream_index && t.decoder.base.opened
                    == t0.decoder.base.opened && t.decoder.base.flushed
                    == t0.decoder.base.flushed,
                (None, None) => true,
                _ => false,
            }),
            kind == MediaType::Video ==> final(self).decoder_audio == old(self).decoder_audio,
            kind == MediaType::Audio ==> final(self).decoder_video == old(self).decoder_video,
            final(self).decoder_subtitle == old(self).decoder_subtitle,
    {
        if matches!(kind, MediaType::Video) {
            self.poll_pending_video = false;
        } else {
            self.poll_pending_audio = false;
        }
        match outcome {
            PollOutcome::Frame { pts } => {
                if matches!(kind, MediaType::Video) {
                    self.frame_video_ready = Some(pts);
                    if self.statistics.num_video_frames_decoded < u64::MAX {
                        self.statistics.num_video_frames_decoded =
                        self.statistics.num_video_frames_decoded + 1;
                    }
                } else {
                    self.frame_audio_ready = Some(pts);
                    if self.statistics.num_audio_frames_decoded < u64::MAX {
                        self.statistics.num_audio_frames_decoded =
                        self.statistics.num_audio_frames_decoded + 1;
                    }
                }
                Ok(true)
            },
            PollOutcome::NeedsData => Ok(false),
            PollOutcome::EndOfStream => {
                if matches!(kind, MediaType::Video) {
                    if let Some(t) = &mut self.decoder_video {
                        t.decoder.base.mark_exhausted();
                    }
                } else {
                    if let Some(t) = &mut self.decoder_audio {
                        t.decoder.base.mark_exhausted();
                    }
                }
                Ok(false)
            },
            PollOutcome::Failed { errno } => Err(FFmpegError::from_errno(errno)),
        }
    }

    /// Polls the subtitle decoder: transfers a subtitle parked in the
    /// decoder's ready slot into the player's ready marker and counts it.
    /// The poll consumes the subtitle pending mark. Returns whether a
    /// subtitle became ready.
    pub fn poll_subtitle(&mut self) -> (r: bool)
        requires
            old(self).wf(),
            old(self).spec_pending(MediaType::Subtitle),
        ensures
            final(self).wf(),
            !final(self).spec_pending(MediaType::Subtitle),
            (forall|k: MediaType|
                k != MediaType::Subtitle ==> #[trigger] final(self).spec_pending(k) == old(
                    self,
                ).spec_pending(k)),
            (match old(self).spec_subtitle_slot() {
                Some(pts) => {
                    &&& r
                    &&& final(self).frame_subtitle_ready == Some(pts)
                    &&& final(self).spec_subtitle_slot() is None
                    &&& final(self).statistics == (PlayerStatistics {
                        num_subtitle_frames_decoded: spec_sat_inc(
                            old(self).statistics.num_subtitle_frames_decoded,
                        ),
                        ..old(self).statistics
                    })
                },
                None => {
                    &&& !r
                    &&& final(self).frame_subtitle_ready == old(self).frame_subtitle_ready
                    &&& final(self).spec_subtitle_slot() is None
                    &&& final(self).statistics == old(self).statistics
                },
            }),
            final(self).frame_video_ready == old(self).frame_video_ready,
            final(self).frame_audio_ready == old(self).frame_audio_ready,
            final(self).end_of_packet_stream == old(self).end_of_packet_stream,
            final(self).flushed == old(self).flushed,
            final(self).source == old(self).source,
            final(self).decoder_video == old(self).decoder_video,
            final(self).decoder_audio == old(self).decoder_audio,
            (match (old(self).decoder_subtitle, final(self).decoder_subtitle) {
                (Some(t0), Some(t)) => t.stream_index == t0.stream_index && t.decoder.base
                    == t0.decoder.base,
                (None, None) => true,
                _ => false,
            }),
    {
        self.poll_pending_subtitle = false;
        let mut got = false;
        if let Some(t) = &mut self.decoder_subtitle {
            match t.decoder.decode() {
                Ok(pts) => {
                    self.frame_subtitle_ready = Some(pts);
                    got = true;
                },
                Err(_) => {},
            }
        }
        if got {
            if self.statistics.num_subtitle_frames_decoded < u64::MAX {
                self.statistics.num_subtitle_frames_decoded =
                self.statistics.num_subtitle_frames_decoded + 1;
            }
        }
        got
    }

    /// Records the outcome of submitting a routed packet to the subtitle
    /// decoder: `got_subtitle` carries the decoded subtitle's timestamp
    /// when the packet produced one. Overwriting an unconsumed ready slot
    /// is a fatal internal-consistency violation; driven by
    /// [`MediaPlayer::next_step`] it cannot happen, as
    /// [`lemma_read_step_slot_empty`] shows.
    pub fn record_subtitle_packet(&mut self, got_subtitle: Option<i64>) -> (r: Result<
        (),
        PlayerError,
    >)
        requires
            old(self).wf(),
            old(self).spec_pending(MediaType::Subtitle),
        ensures
            final(self).wf(),
            (match got_subtitle {
                Some(pts) => if old(self).spec_subtitle_slot() is Some {
                    (r matches Err(PlayerError::SubtitleOverwrite)) && *final(self) == *old(self)
                } else {
                    r is Ok && final(self).spec_subtitle_slot() == Some(pts) && (*final(self)
                        == (MediaPlayer {
                        decoder_subtitle: final(self).decoder_subtitle,
                        ..*old(self)
                    })) && (final(self).decoder_subtitle matches Some(t) && old(
                        self,
                    ).decoder_subtitle matches Some(t0) && t.stream_index == t0.stream_index
                        && t.decoder.base == t0.decoder.base)
                },
                None => r is Ok && *final(self) == *old(self),
            }),
    {
        match &mut self.decoder_subtitle {
            Some(t) => {
                match t.decoder.write_packet(got_subtitle) {
                    Ok(()) => Ok(()),
                    Err(e) => Err(e),
                }
            },
            None => Ok(()),
        }
    }

    /// Adds time spent reading packets to the statistics.
    pub fn add_packet_read_time(&mut self, micros: u64)
        requires
            old(self).wf(),
        ensures
            final(self).wf(),
            *final(self) == (MediaPlayer {
                statistics: PlayerStatistics {
                    packet_read_time_micros: spec_sat_add(
                        old(self).statistics.packet_read_time_micros,
                        micros,
                    ),
                    ..old(self).statistics
                },
                ..*old(self)
            }),
    {
        if self.statistics.packet_read_time_micros <= u64::MAX - micros {
            self.statistics.packet_read_time_micros =
            self.statistics.packet_read_time_micros + micros;
        } else {
            self.statistics.packet_read_time_micros = u64::MAX;
        }
    }

    /// Adds time spent polling decoders to the statistics.
    pub fn add_decode_time(&mut self, micros: u64)
        requires
            old(self).wf(),
        ensures
            final(self).wf(),
            *final(self) == (MediaPlayer {
                statistics: PlayerStatistics {
                    frames_decoded_time_micros: spec_sat_add(
                        old(self).statistics.frames_decoded_time_micros,
                        micros,
                    ),
                    ..old(self).statistics
                },
                ..*old(self)
            }),
    {
        if self.statistics.frames_decoded_time_micros <= u64::MAX - micros {
            self.statistics.frames_decoded_time_micros =
            self.statistics.frames_decoded_time_micros + micros;
        } else {
            self.statistics.frames_decoded_time_micros = u64::MAX;
        }
    }

    /// Adds time spent producing frames overall to the statistics.
    pub fn add_frame_time(&mut self, micros: u64)
        requires
            old(self).wf(),
        ensures
            final(self).wf(),
            *final(self) == (MediaPlayer {
                statistics: PlayerStatistics {
                    frames_total_time_micros: spec_sat_add(
                        old(self).statistics.frames_total_time_micros,
                        micros,
                    ),
                    ..old(self).statistics
                },
                ..*old(self)
            }),
    {
        if self.statistics.frames_total_time_micros <= u64::MAX - micros {
            self.statistics.frames_total_time_micros =
            self.statistics.frames_total_time_micros + micros;
        } else {
            self.statistics.frames_total_time_micros = u64::MAX;
        }
    }

    /// Records which accelerator the video decoder was actually opened
    /// with, once the fallback chain has finished.
    pub fn set_video_accelerator(&mut self, accelerator: Option<Accelerator>)
        requires
            old(self).wf(),
            old(self).decoder_video is Some,
        ensures
            final(self).wf(),
            final(self).decoder_video matches Some(t) && old(self).decoder_video matches Some(t0)
                && t.stream_index == t0.stream_index && t.decoder.base == t0.decoder.base
                && t.decoder.accelerator == accelerator,
            final(self).decoder_audio == old(self).decoder_audio,
            final(self).decoder_subtitle == old(self).decoder_subtitle,
            final(self).frame_video_ready == old(self).frame_video_ready,
            final(self).frame_audio_ready == old(self).frame_audio_ready,
            final(self).frame_subtitle_ready == old(self).frame_subtitle_ready,
            final(self).poll_pending_video == old(self).poll_pending_video,
            final(self).poll_pending_audio == old(self).poll_pending_audio,
            final(self).poll_pending_subtitle == old(self).poll_pending_subtitle,
            final(self).end_of_packet_stream == old(self).end_of_packet_stream,
            final(self).flushed == old(self).flushed,
            final(self).statistics == old(self).statistics,
            final(self).source == old(self).source,
    {
        if let Some(t) = &mut self.decoder_video {
            t.decoder.accelerator = accelerator;
        }
    }
}

/// The fixed cross-stream priority used to break timestamp ties: video
/// before audio before subtitle.
pub open spec fn spec_kind_priority(kind: MediaType) -> int {
    match kind {
        MediaType::Video => 0,
        MediaType::Audio => 1,
        MediaType::Subtitle => 2,
        _ => 3,
    }
}

/// The presentation-order merge delivers the earliest ready frame: when
/// the merge selects a kind, that kind has a ready frame, its timestamp is
/// no later than the timestamp of any other ready frame, and a kind tied
/// with it on timestamp comes later in the fixed priority order. When the
/// merge selects nothing, no stream holds a ready frame with a comparable
/// timestamp.
pub proof fn lemma_merge_delivers_earliest(p: MediaPlayer)
    requires
        p.wf(),
    ensures
        (match p.spec_selected_ready() {
            Some(kind) => {
                &&& p.spec_ready(kind) is Some
                &&& (forall|k: MediaType| p.spec_ready_ts(kind) <= #[trigger] p.spec_ready_ts(k))
                &&& (forall|k: MediaType|
                    k != kind && #[trigger] p.spec_ready_ts(k) == p.spec_ready_ts(kind)
                        ==> spec_kind_priority(kind) < spec_kind_priority(k))
            },
            None => forall|k: MediaType|
                #[trigger] p.spec_ready(k) matches Some(pts) ==> pts == i64::MAX,
        }),
{
    assert forall|k: MediaType| p.spec_ready_ts(k) <= i64::MAX as int by {
        match p.spec_ready(k) {
            Some(pts) => assert(pts <= i64::MAX),
            None => {},
        }
    }
}

/// A media kind with no selected stream is never polled, never holds a
/// ready frame, and is never selected for delivery: with zero selected
/// tracks of a kind, no frame of that kind is ever delivered.
pub proof fn lemma_inactive_kind_never_delivered(p: MediaPlayer, kind: MediaType)
    requires
        p.wf(),
        !p.spec_active(kind),
    ensures
        p.spec_ready(kind) is None,
        !p.spec_pending(kind),
        p.spec_selected_ready() != Some(kind),
        p.spec_next_step() != PlayerStep::Deliver(kind),
        p.spec_next_step() != PlayerStep::Poll(kind),
{
}

/// Flushing is gated: the machine asks for a flush only after the source
/// reported end of input and only while no flush has happened, so each
/// decoder is flushed at most once per player lifetime.
pub proof fn lemma_flush_once(p: MediaPlayer)
    requires
        p.wf(),
    ensures
        p.spec_next_step() == PlayerStep::Flush ==> p.end_of_packet_stream && !p.flushed,
        p.flushed ==> p.spec_next_step() != PlayerStep::Flush,
        (p.decoder_video matches Some(t) && t.decoder.base.flushed) ==> p.flushed,
        (p.decoder_audio matches Some(t) && t.decoder.base.flushed) ==> p.flushed,
        (p.decoder_subtitle matches Some(t) && t.decoder.base.flushed) ==> p.flushed,
{
}

/// After end-of-packet-stream is set the machine never reads another
/// packet: it only delivers, polls, flushes once, or reports end of
/// stream; and once the flush is done and a full poll round yields
/// nothing ready, it reports end of stream.
pub proof fn lemma_no_read_after_end_of_input(p: MediaPlayer)
    requires
        p.wf(),
        p.end_of_packet_stream,
    ensures
        p.spec_next_step() != PlayerStep::ReadPacket,
        p.flushed && p.spec_selected_ready() is None && !p.spec_pending(MediaType::Video)
            && !p.spec_pending(MediaType::Audio) && !p.spec_pending(MediaType::Subtitle)
            ==> p.spec_next_step() == PlayerStep::EndOfStream,
{
}

/// When the machine asks for a packet read, the subtitle decoder's ready
/// slot is empty: a newly decoded subtitle can never overwrite one that
/// has not been delivered, as long as packets are read only when
/// [`MediaPlayer::next_step`] asks for one.
pub proof fn lemma_read_step_slot_empty(p: MediaPlayer)
    requires
        p.wf(),
        p.spec_next_step() == PlayerStep::ReadPacket,
    ensures
        p.spec_subtitle_slot() is None,
{
}

} // verus!
