//! Tests for the error model, the accelerator configuration, stream
//! selection, timestamp conversion and the frame geometry.

use libav_player::accelerator::{Accelerator, AcceleratorConfig, Platform};
use libav_player::error::{
    convert_ff_result, ignore_not_supported, FFmpegError, AVERROR_EAGAIN, AVERROR_ENOSYS,
    AVERROR_EOF, AVERROR_UNKNOWN,
};
use libav_player::frame::{AudioFrame, Frame, SubtitleFrame, VideoFrame};
use libav_player::stream::{FrameRate, Resolution, StreamInfo, StreamInventory};
use libav_player::{
    pts_to_micros, MediaType, OutputPixelFormat, SampleFormat, SubtitleFormat,
};

fn video_stream(index: usize) -> StreamInfo {
    StreamInfo {
        media_type: MediaType::Video,
        index,
        framerate: FrameRate::new(25, 1),
        resolution: Some(Resolution {
            width: 1920,
            height: 1080,
        }),
        num_frames: 50,
        duration_micros: 2_000_000,
        bitrate: Some(5160),
        codec_name: "h264".to_string(),
        codec_id: 27,
    }
}

fn audio_stream(index: usize) -> StreamInfo {
    StreamInfo {
        media_type: MediaType::Audio,
        index,
        framerate: FrameRate::new(0, 0),
        resolution: None,
        num_frames: 0,
        duration_micros: 2_000_000,
        bitrate: Some(253),
        codec_name: "aac".to_string(),
        codec_id: 86018,
    }
}

#[test]
fn convert_ff_result_splits_on_sign() {
    assert_eq!(convert_ff_result(0).unwrap(), 0);
    assert_eq!(convert_ff_result(17).unwrap(), 17);
    let err = convert_ff_result(AVERROR_EOF).unwrap_err();
    assert_eq!(err.errno(), AVERROR_EOF);
    assert!(err.is_eof());
    assert!(!err.needs_data());
    let err = convert_ff_result(AVERROR_EAGAIN).unwrap_err();
    assert!(err.needs_data());
}

#[test]
fn custom_errors_carry_unknown_code() {
    let err = FFmpegError::custom("failed to allocate frame".to_string());
    assert_eq!(err.errno(), AVERROR_UNKNOWN);
    assert_eq!(err.message(), "failed to allocate frame");
}

#[test]
fn not_supported_transport_is_a_no_op() {
    assert!(ignore_not_supported(Ok(())).is_ok());
    assert!(ignore_not_supported(Err(FFmpegError::from_errno(AVERROR_ENOSYS))).is_ok());
    let err = ignore_not_supported(Err(FFmpegError::from_errno(AVERROR_EOF))).unwrap_err();
    assert_eq!(err.errno(), AVERROR_EOF);
}

#[test]
fn set_accelerators_dedups_keeping_first() {
    let mut config = AcceleratorConfig::for_platform(Platform::Linux);
    config.set_accelerators(&[
        Accelerator::Cuda,
        Accelerator::Vaapi,
        Accelerator::Cuda,
        Accelerator::Vdpau,
        Accelerator::Vaapi,
    ]);
    assert_eq!(
        config.accelerators().as_slice(),
        &[Accelerator::Cuda, Accelerator::Vaapi, Accelerator::Vdpau]
    );
    assert!(!config.warned_no_accelerators);
}

#[test]
fn set_accelerators_warns_when_none_fits_the_platform() {
    let mut config = AcceleratorConfig::for_platform(Platform::Linux);
    config.set_accelerators(&[Accelerator::VideoToolbox, Accelerator::Dxva2]);
    assert!(config.warned_no_accelerators);
    // The list is still configured: the warning is advisory, not an error.
    assert_eq!(
        config.accelerators().as_slice(),
        &[Accelerator::VideoToolbox, Accelerator::Dxva2]
    );
}

#[test]
fn platform_without_hardware_support_never_warns() {
    let mut config = AcceleratorConfig::for_platform(Platform::Other);
    assert!(config.accelerators().is_empty());
    config.set_accelerators(&[Accelerator::Vaapi]);
    assert!(!config.warned_no_accelerators);
}

#[test]
fn set_device_pins_the_target() {
    let mut config = AcceleratorConfig::for_platform(Platform::Linux);
    assert!(config.device_target().is_none());
    config.set_device("/dev/dri/renderD129");
    assert_eq!(config.device_target().unwrap(), "/dev/dri/renderD129");
}

#[test]
fn default_affinity_is_platform_specific() {
    let linux = AcceleratorConfig::for_platform(Platform::Linux);
    assert_eq!(
        linux.accelerators().as_slice(),
        &[
            Accelerator::Vaapi,
            Accelerator::Vdpau,
            Accelerator::Cuda,
            Accelerator::Vulkan
        ]
    );
    let macos = AcceleratorConfig::for_platform(Platform::MacOs);
    assert_eq!(macos.accelerators().as_slice(), &[Accelerator::VideoToolbox]);
}

#[test]
fn find_best_stream_picks_earliest_of_kind() {
    let inventory = StreamInventory::new(vec![video_stream(0), audio_stream(1)]);
    assert_eq!(inventory.find_best_stream(MediaType::Video, None), Some(0));
    assert_eq!(inventory.find_best_stream(MediaType::Audio, None), Some(1));
}

#[test]
fn find_best_stream_absent_kind_is_empty_not_an_error() {
    let inventory = StreamInventory::new(vec![video_stream(0), audio_stream(1)]);
    // A kind with no stream yields an empty result, not a failure.
    assert_eq!(inventory.find_best_stream(MediaType::Subtitle, None), None);
    // A preferred index that holds no stream of the kind behaves the same.
    assert_eq!(
        inventory.find_best_stream(MediaType::Video, Some(2)),
        None
    );
    assert_eq!(
        inventory.find_best_stream(MediaType::Video, Some(1)),
        None
    );
    assert_eq!(
        inventory.find_best_stream(MediaType::Video, Some(0)),
        Some(0)
    );
}

#[test]
fn stream_info_accessors() {
    let inventory = StreamInventory::new(vec![video_stream(0), audio_stream(1)]);
    assert_eq!(inventory.num_streams(), 2);
    let stream = inventory.stream(0);
    assert_eq!(stream.codec_name, "h264");
    assert_eq!(stream.framerate, FrameRate::new(25, 1));
    assert_eq!(stream.framerate.numerator(), 25);
    assert_eq!(stream.framerate.denominator(), 1);
    assert_eq!(
        stream.resolution,
        Some(Resolution {
            width: 1920,
            height: 1080
        })
    );
}

#[test]
fn pts_to_micros_is_exact() {
    // 50 ticks of a 1/25-second time base: two seconds.
    assert_eq!(pts_to_micros(50, 1, 25), Some(2_000_000));
    // 90 kHz time base, one tick.
    assert_eq!(pts_to_micros(1, 1, 90_000), Some(11));
    assert_eq!(pts_to_micros(0, 1, 25), Some(0));
    // Far out of range: more microseconds than a u64 can hold.
    assert_eq!(pts_to_micros(u64::MAX, u32::MAX, 1), None);
}

#[test]
fn sample_format_planarity() {
    assert!(SampleFormat::FLTP.is_planar());
    assert!(!SampleFormat::FLTP.is_packed());
    assert!(SampleFormat::S16.is_packed());
    assert!(!SampleFormat::S16.is_planar());
}

#[test]
fn output_pixel_format_names() {
    assert_eq!(OutputPixelFormat::Nv12.to_filter_name(), "nv12");
    assert_eq!(OutputPixelFormat::Rgba.to_filter_name(), "rgba");
    assert_eq!(OutputPixelFormat::P010le.to_filter_name(), "p010le");
    assert_eq!(OutputPixelFormat::default(), OutputPixelFormat::Nv12);
}

#[test]
fn video_frame_plane_geometry() {
    let mut linesize = [0usize; 8];
    linesize[0] = 1920;
    linesize[1] = 1920;
    let frame = VideoFrame {
        format: OutputPixelFormat::Nv12,
        width: 1920,
        height: 1080,
        linesize,
        pts: 0,
        time_base_num: 1,
        time_base_den: 25,
        hw_backed: false,
        planes: vec![vec![0u8; 1920 * 1080], vec![0u8; 1920 * 540]],
    };
    assert_eq!(frame.num_planes(), 2);
    assert_eq!(frame.width(), 1920);
    assert_eq!(frame.height(), 1080);
    assert_eq!(frame.stride(0), 1920);
    assert_eq!(frame.plane_width(0), 1920);
    assert_eq!(frame.plane_height(0), 1080);
    // The NV12 chroma plane covers two image rows and columns per sample.
    assert_eq!(frame.plane_width(1), 960);
    assert_eq!(frame.plane_height(1), 540);
    assert_eq!(frame.plane_data(0).len(), 1920 * 1080);
    assert_eq!(frame.plane_data(1).len(), 1920 * 540);
    assert_eq!(frame.pixel_format(), OutputPixelFormat::Nv12);
    assert!(!frame.is_hw_backed());
    assert_eq!(frame.pts(), 0);
}

#[test]
fn video_frame_odd_dimensions_round_up() {
    let mut linesize = [0usize; 8];
    linesize[0] = 1919;
    linesize[1] = 1920;
    let frame = VideoFrame {
        format: OutputPixelFormat::Nv12,
        width: 1919,
        height: 1079,
        linesize,
        pts: 40,
        time_base_num: 1,
        time_base_den: 25,
        hw_backed: false,
        planes: vec![vec![0u8; 1919 * 1079], vec![0u8; 1920 * 540]],
    };
    assert_eq!(frame.plane_width(1), 960);
    assert_eq!(frame.plane_height(1), 540);
}

#[test]
fn rgba_frame_has_one_plane() {
    let mut linesize = [0usize; 8];
    linesize[0] = 64 * 4;
    let frame = VideoFrame {
        format: OutputPixelFormat::Rgba,
        width: 64,
        height: 48,
        linesize,
        pts: 0,
        time_base_num: 1,
        time_base_den: 25,
        hw_backed: false,
        planes: vec![vec![0u8; 64 * 4 * 48]],
    };
    assert_eq!(frame.num_planes(), 1);
    assert_eq!(frame.plane_width(0), 64);
    assert_eq!(frame.plane_height(0), 48);
}

#[test]
fn audio_frame_planes_follow_layout() {
    let planar = AudioFrame {
        sample_format: SampleFormat::FLTP,
        nb_channels: 2,
        nb_samples: 1024,
        plane_size: 4096,
        pts: 0,
        time_base_num: 1,
        time_base_den: 44_100,
        hw_backed: false,
        planes: vec![vec![0u8; 4096], vec![0u8; 4096]],
    };
    assert_eq!(planar.num_planes(), 2);
    assert!(planar.is_planar());
    assert!(!planar.is_packed());
    assert_eq!(planar.num_channels(), 2);
    assert_eq!(planar.num_samples(), 1024);
    assert_eq!(planar.sample_format(), SampleFormat::FLTP);
    assert_eq!(planar.plane_data(1).len(), 4096);

    let packed = AudioFrame {
        sample_format: SampleFormat::S16,
        nb_channels: 2,
        nb_samples: 1024,
        plane_size: 4096,
        pts: 0,
        time_base_num: 1,
        time_base_den: 44_100,
        hw_backed: false,
        planes: vec![vec![0u8; 4096]],
    };
    assert_eq!(packed.num_planes(), 1);
    assert!(packed.is_packed());
}

#[test]
fn subtitle_frame_exposes_text() {
    let frame = SubtitleFrame {
        format: SubtitleFormat::Ass,
        text: Some("Dialogue: hello".to_string()),
        pts: 100,
        time_base_num: 1,
        time_base_den: 1000,
    };
    assert_eq!(frame.format(), SubtitleFormat::Ass);
    assert_eq!(frame.text().unwrap(), "Dialogue: hello");
    assert_eq!(frame.pts(), 100);
    assert!(!frame.is_hw_backed());
}
