//! Scenario tests that drive the player state machine end to end with
//! simulated decoders and packet sources.

use libav_player::error::PlayerError;
use libav_player::player::{
    MediaPlayer, MediaPlayerBuilder, PlayerStep, PollOutcome,
};
use libav_player::stream::{FrameRate, Resolution, StreamInfo, StreamInventory};
use libav_player::{MediaType, OutputPixelFormat};

fn video_stream(index: usize) -> StreamInfo {
    StreamInfo {
        media_type: MediaType::Video,
        index,
        framerate: FrameRate::new(25, 1),
        resolution: Some(Resolution {
            width: 1920,
            height: 1080,
        }),
        num_frames: 50,
        duration_micros: 2_000_000,
        bitrate: Some(5160),
        codec_name: "h264".to_string(),
        codec_id: 27,
    }
}

fn audio_stream(index: usize) -> StreamInfo {
    StreamInfo {
        media_type: MediaType::Audio,
        index,
        framerate: FrameRate::new(0, 0),
        resolution: None,
        num_frames: 0,
        duration_micros: 2_000_000,
        bitrate: Some(253),
        codec_name: "aac".to_string(),
        codec_id: 86018,
    }
}

fn subtitle_stream(index: usize) -> StreamInfo {
    StreamInfo {
        media_type: MediaType::Subtitle,
        index,
        framerate: FrameRate::new(0, 0),
        resolution: None,
        num_frames: 0,
        duration_micros: 2_000_000,
        bitrate: None,
        codec_name: "mov_text".to_string(),
        codec_id: 94213,
    }
}

/// A simulated video or audio decoder: packets in, one frame per packet
/// out, end-of-stream after a flush once everything is drained.
struct SimDecoder {
    frames: Vec<i64>,
    next: usize,
    flushed: bool,
}

impl SimDecoder {
    fn new() -> Self {
        SimDecoder {
            frames: Vec::new(),
            next: 0,
            flushed: false,
        }
    }

    fn push_packet(&mut self, pts: i64) {
        self.frames.push(pts);
    }

    fn poll(&mut self) -> PollOutcome {
        if self.next < self.frames.len() {
            let pts = self.frames[self.next];
            self.next += 1;
            PollOutcome::Frame { pts }
        } else if self.flushed {
            PollOutcome::EndOfStream
        } else {
            PollOutcome::NeedsData
        }
    }
}

/// A packet as the simulated source hands it out: the owning stream's
/// index, the timestamp, and — for subtitle packets — whether the packet
/// decodes to a subtitle at all.
#[derive(Clone, Copy)]
struct SimPacket {
    stream_index: usize,
    pts: i64,
    empty: bool,
}

/// Drives the player over the given packet list until it reports end of
/// stream, returning the delivered frames in order and the number of
/// flush steps taken.
fn drive(player: &mut MediaPlayer, packets: &[SimPacket]) -> (Vec<(MediaType, i64)>, usize) {
    let mut video_sim = SimDecoder::new();
    let mut audio_sim = SimDecoder::new();
    let mut delivered: Vec<(MediaType, i64)> = Vec::new();
    let mut next_packet: usize = 0;
    let mut flush_steps: usize = 0;
    let mut end_of_input_seen = false;

    for _guard in 0..100_000 {
        match player.next_step() {
            PlayerStep::Deliver(_) => {
                let (kind, pts) = player.take_ready_frame().expect("a frame must be ready");
                delivered.push((kind, pts));
            }
            PlayerStep::Poll(MediaType::Video) => {
                player
                    .record_poll(MediaType::Video, video_sim.poll())
                    .expect("video poll must not fail");
            }
            PlayerStep::Poll(MediaType::Audio) => {
                player
                    .record_poll(MediaType::Audio, audio_sim.poll())
                    .expect("audio poll must not fail");
            }
            PlayerStep::Poll(_) => {
                player.poll_subtitle();
            }
            PlayerStep::ReadPacket => {
                assert!(!end_of_input_seen, "no packet may be read after end of input");
                if next_packet < packets.len() {
                    let packet = packets[next_packet];
                    next_packet += 1;
                    match player.record_packet(packet.stream_index) {
                        Some(MediaType::Video) => video_sim.push_packet(packet.pts),
                        Some(MediaType::Audio) => audio_sim.push_packet(packet.pts),
                        Some(MediaType::Subtitle) => {
                            let got = if packet.empty { None } else { Some(packet.pts) };
                            player
                                .record_subtitle_packet(got)
                                .expect("the ready slot must never be overwritten");
                        }
                        Some(_) => unreachable!("packets route only to output kinds"),
                        None => {}
                    }
                } else {
                    player.record_end_of_input();
                    end_of_input_seen = true;
                }
            }
            PlayerStep::Flush => {
                assert!(end_of_input_seen, "flushing comes only after end of input");
                player.flush();
                video_sim.flushed = true;
                audio_sim.flushed = true;
                flush_steps += 1;
            }
            PlayerStep::EndOfStream => {
                return (delivered, flush_steps);
            }
        }
    }
    panic!("the player did not reach end of stream");
}

#[test]
fn video_and_audio_drain_to_end_of_stream() {
    // One video stream at 25 fps over two seconds — 50 frames — and one
    // audio stream with 86 frames, timestamps in milliseconds.
    let inventory = StreamInventory::new(vec![video_stream(0), audio_stream(1)]);
    let mut packets: Vec<SimPacket> = Vec::new();
    for i in 0..50 {
        packets.push(SimPacket {
            stream_index: 0,
            pts: i * 40,
            empty: false,
        });
    }
    for i in 0..86 {
        packets.push(SimPacket {
            stream_index: 1,
            pts: i * 23,
            empty: false,
        });
    }
    packets.sort_by_key(|p| (p.pts, p.stream_index));

    let mut player = MediaPlayerBuilder::for_source(inventory).build().unwrap();
    assert!(player.decoder_video.is_some());
    assert!(player.decoder_audio.is_some());
    assert!(player.decoder_subtitle.is_none());

    let (delivered, flush_steps) = drive(&mut player, &packets);

    let video_count = delivered
        .iter()
        .filter(|(k, _)| *k == MediaType::Video)
        .count();
    let audio_count = delivered
        .iter()
        .filter(|(k, _)| *k == MediaType::Audio)
        .count();
    // 25 fps × 2 s video frames, and the corresponding audio count.
    assert_eq!(video_count, 50);
    assert_eq!(audio_count, 86);

    let stats = player.statistics();
    assert_eq!(stats.num_video_frames_decoded, 50);
    assert_eq!(stats.num_audio_frames_decoded, 86);
    assert_eq!(stats.frames_decoded_total, (video_count + audio_count) as u64);
    assert!(stats.packet_read_total >= stats.frames_decoded_total);

    // Flushing happened exactly once, after end of input.
    assert_eq!(flush_steps, 1);

    // The merged delivery order never goes backwards in time.
    for pair in delivered.windows(2) {
        assert!(pair[0].1 <= pair[1].1, "timestamps must be non-decreasing");
    }
}

#[test]
fn merge_prefers_earliest_and_breaks_ties_by_priority() {
    let inventory = StreamInventory::new(vec![video_stream(0), audio_stream(1)]);
    let mut player = MediaPlayerBuilder::for_source(inventory).build().unwrap();

    // Hand the player one frame per stream with equal timestamps by
    // driving the poll round directly.
    assert_eq!(player.next_step(), PlayerStep::Poll(MediaType::Video));
    player
        .record_poll(MediaType::Video, PollOutcome::Frame { pts: 100 })
        .unwrap();
    assert_eq!(player.next_step(), PlayerStep::Deliver(MediaType::Video));
    player
        .record_poll(MediaType::Audio, PollOutcome::Frame { pts: 100 })
        .unwrap();

    // Both streams hold a frame with timestamp 100: video wins the tie.
    let (kind, pts) = player.take_ready_frame().unwrap();
    assert_eq!(kind, MediaType::Video);
    assert_eq!(pts, 100);
    // The audio frame is still buffered and comes out next.
    let (kind, pts) = player.take_ready_frame().unwrap();
    assert_eq!(kind, MediaType::Audio);
    assert_eq!(pts, 100);
    assert!(player.take_ready_frame().is_none());
}

#[test]
fn earlier_buffered_frame_is_delivered_first() {
    let inventory = StreamInventory::new(vec![video_stream(0), audio_stream(1)]);
    let mut player = MediaPlayerBuilder::for_source(inventory).build().unwrap();

    player
        .record_poll(MediaType::Video, PollOutcome::Frame { pts: 200 })
        .unwrap();
    player
        .record_poll(MediaType::Audio, PollOutcome::Frame { pts: 50 })
        .unwrap();

    // The audio frame is earlier, so it is delivered before the video
    // frame even though video has the higher tie-break priority.
    let (kind, pts) = player.take_ready_frame().unwrap();
    assert_eq!(kind, MediaType::Audio);
    assert_eq!(pts, 50);
    let (kind, _) = player.take_ready_frame().unwrap();
    assert_eq!(kind, MediaType::Video);
}

#[test]
fn subtitle_only_source_delivers_each_nonempty_packet() {
    let inventory = StreamInventory::new(vec![subtitle_stream(0)]);
    let packets = vec![
        SimPacket {
            stream_index: 0,
            pts: 10,
            empty: false,
        },
        // A packet that decodes to no subtitle at all.
        SimPacket {
            stream_index: 0,
            pts: 15,
            empty: true,
        },
        SimPacket {
            stream_index: 0,
            pts: 20,
            empty: false,
        },
        SimPacket {
            stream_index: 0,
            pts: 30,
            empty: false,
        },
    ];

    let mut player = MediaPlayerBuilder::for_source(inventory)
        .with_subtitle_stream(Some(0))
        .build()
        .unwrap();
    assert!(player.decoder_video.is_none());
    assert!(player.decoder_audio.is_none());

    let (delivered, flush_steps) = drive(&mut player, &packets);

    // Exactly the non-empty subtitle packets come out, in order, with no
    // overwritten-ready-slot error along the way.
    assert_eq!(
        delivered,
        vec![
            (MediaType::Subtitle, 10),
            (MediaType::Subtitle, 20),
            (MediaType::Subtitle, 30)
        ]
    );
    assert_eq!(player.statistics().num_subtitle_frames_decoded, 3);
    assert_eq!(player.statistics().num_video_frames_decoded, 0);
    assert_eq!(flush_steps, 1);
}

#[test]
fn unselected_kind_never_yields_a_frame() {
    // The source has a video stream only; packets of an unknown stream
    // index are dropped on the floor.
    let inventory = StreamInventory::new(vec![video_stream(0)]);
    let packets = vec![
        SimPacket {
            stream_index: 0,
            pts: 0,
            empty: false,
        },
        SimPacket {
            stream_index: 3,
            pts: 5,
            empty: false,
        },
        SimPacket {
            stream_index: 0,
            pts: 40,
            empty: false,
        },
    ];

    let mut player = MediaPlayerBuilder::for_source(inventory).build().unwrap();
    // No audio or subtitle stream was selected: those decoders are never
    // constructed.
    assert!(player.decoder_audio.is_none());
    assert!(player.decoder_subtitle.is_none());

    let (delivered, _) = drive(&mut player, &packets);
    assert_eq!(
        delivered,
        vec![(MediaType::Video, 0), (MediaType::Video, 40)]
    );
    assert!(delivered.iter().all(|(k, _)| *k == MediaType::Video));
    assert_eq!(player.statistics().num_audio_frames_decoded, 0);
    assert_eq!(player.statistics().num_subtitle_frames_decoded, 0);
    assert_eq!(player.statistics().packet_read_total, 3);
}

#[test]
fn build_fails_without_any_stream() {
    let inventory = StreamInventory::new(Vec::new());
    let result = MediaPlayerBuilder::for_source(inventory).build();
    assert!(matches!(result, Err(PlayerError::NoAvailableStreams)));
}

#[test]
fn builder_honours_explicit_stream_choices() {
    // Two video streams: the explicit choice overrides the default pick.
    let inventory = StreamInventory::new(vec![video_stream(0), video_stream(1)]);
    let player = MediaPlayerBuilder::for_source(inventory)
        .with_video_stream(Some(1))
        .build()
        .unwrap();
    assert_eq!(player.decoder_video.as_ref().unwrap().stream_index, 1);
}

#[test]
fn builder_dedups_adjacent_target_formats() {
    let inventory = StreamInventory::new(vec![video_stream(0)]);
    let builder = MediaPlayerBuilder::for_source(inventory).with_target_pixel_formats(&[
        OutputPixelFormat::Nv12,
        OutputPixelFormat::Nv12,
        OutputPixelFormat::Rgba,
        OutputPixelFormat::Nv12,
    ]);
    assert_eq!(
        builder.target_pixel_formats,
        vec![
            OutputPixelFormat::Nv12,
            OutputPixelFormat::Rgba,
            OutputPixelFormat::Nv12
        ]
    );
}

#[test]
fn fatal_decode_errors_propagate() {
    let inventory = StreamInventory::new(vec![video_stream(0)]);
    let mut player = MediaPlayerBuilder::for_source(inventory).build().unwrap();
    assert_eq!(player.next_step(), PlayerStep::Poll(MediaType::Video));
    let err = player
        .record_poll(MediaType::Video, PollOutcome::Failed { errno: -5 })
        .unwrap_err();
    assert_eq!(err.errno(), -5);
}

#[test]
fn statistics_timings_accumulate() {
    let inventory = StreamInventory::new(vec![video_stream(0)]);
    let mut player = MediaPlayerBuilder::for_source(inventory).build().unwrap();
    player.add_packet_read_time(150);
    player.add_packet_read_time(50);
    player.add_decode_time(75);
    player.add_frame_time(400);
    let stats = player.statistics();
    assert_eq!(stats.packet_read_time_micros, 200);
    assert_eq!(stats.frames_decoded_time_micros, 75);
    assert_eq!(stats.frames_total_time_micros, 400);
}
