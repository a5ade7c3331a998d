//! Tests for the decoder lifecycle and the hardware-fallback chain.

use libav_player::accelerator::Accelerator;
use libav_player::codec::{
    format_codec_name_with_accelerator, negotiate_pixel_format, select_pixel_format,
    AttemptOutcome, BaseDecoder, FallbackChain, FallbackStep, SubtitleDecoder,
};
use libav_player::error::{PlayerError, AVERROR_EAGAIN, AVERROR_ENODEV, AVERROR_INVALIDDATA};

#[test]
fn test_format_codec_name_with_accelerator() {
    let output = format_codec_name_with_accelerator("h264", Accelerator::Vaapi);
    assert_eq!(output, "h264_vaapi");
}

#[test]
fn decoder_opens_once_and_fails_loudly_on_reopen() {
    let mut decoder = BaseDecoder::create();
    assert!(!decoder.is_open());
    decoder.open().unwrap();
    assert!(decoder.is_open());
    let second = decoder.open();
    assert!(matches!(second, Err(PlayerError::DecoderAlreadyOpen)));
    // The failed reopen corrupted nothing: the decoder is still open.
    assert!(decoder.is_open());
}

#[test]
fn fallback_selects_the_only_viable_accelerator() {
    // Affinity [A, B, C] where only B is viable for the codec and platform.
    let mut chain = FallbackChain::new(vec![
        Accelerator::Vaapi,
        Accelerator::Vdpau,
        Accelerator::Cuda,
    ]);
    assert_eq!(
        chain.next_step(),
        FallbackStep::TryAccelerator(Accelerator::Vaapi)
    );
    chain.report_attempt(AttemptOutcome::NoDecoder).unwrap();
    assert_eq!(
        chain.next_step(),
        FallbackStep::TryAccelerator(Accelerator::Vdpau)
    );
    chain.report_attempt(AttemptOutcome::Opened).unwrap();
    assert_eq!(chain.next_step(), FallbackStep::Done);
    assert_eq!(chain.accelerator(), Some(Accelerator::Vdpau));
}

#[test]
fn fallback_without_viable_accelerator_ends_in_software() {
    let mut chain = FallbackChain::new(vec![Accelerator::Vaapi, Accelerator::Vdpau]);
    chain.report_attempt(AttemptOutcome::NoDecoder).unwrap();
    chain
        .report_attempt(AttemptOutcome::DeviceError {
            errno: AVERROR_ENODEV,
        })
        .unwrap();
    assert_eq!(chain.next_step(), FallbackStep::OpenSoftware);
    chain.report_software_attempt(0).unwrap();
    assert_eq!(chain.next_step(), FallbackStep::Done);
    // No accelerator was selected: the decoder runs in software.
    assert_eq!(chain.accelerator(), None);
}

#[test]
fn fallback_empty_affinity_goes_straight_to_software() {
    let mut chain = FallbackChain::new(Vec::new());
    assert_eq!(chain.next_step(), FallbackStep::OpenSoftware);
    chain.report_software_attempt(0).unwrap();
    assert_eq!(chain.accelerator(), None);
}

#[test]
fn fallback_invalid_data_at_open_is_a_soft_failure() {
    let mut chain = FallbackChain::new(vec![Accelerator::Vaapi, Accelerator::Cuda]);
    chain
        .report_attempt(AttemptOutcome::OpenError {
            errno: AVERROR_INVALIDDATA,
        })
        .unwrap();
    assert_eq!(
        chain.next_step(),
        FallbackStep::TryAccelerator(Accelerator::Cuda)
    );
}

#[test]
fn fallback_other_errors_are_fatal() {
    let mut chain = FallbackChain::new(vec![Accelerator::Vaapi]);
    let err = chain
        .report_attempt(AttemptOutcome::OpenError {
            errno: AVERROR_EAGAIN,
        })
        .unwrap_err();
    assert_eq!(err.errno(), AVERROR_EAGAIN);

    let mut chain = FallbackChain::new(Vec::new());
    let err = chain.report_software_attempt(AVERROR_INVALIDDATA).unwrap_err();
    assert_eq!(err.errno(), AVERROR_INVALIDDATA);
}

#[test]
fn subtitle_slot_must_not_be_overwritten() {
    let mut decoder = SubtitleDecoder::create();
    decoder.base.open().unwrap();
    decoder.write_packet(Some(10)).unwrap();
    // A packet that decoded to nothing leaves the slot alone.
    decoder.write_packet(None).unwrap();
    // A second decoded subtitle before the first is consumed is a fatal
    // internal-consistency violation.
    let overwrite = decoder.write_packet(Some(20));
    assert!(matches!(overwrite, Err(PlayerError::SubtitleOverwrite)));
    // The slot still holds the first subtitle.
    assert_eq!(decoder.decode().unwrap(), 10);
    // With the slot consumed, decoding reports "needs more input".
    let empty = decoder.decode().unwrap_err();
    assert_eq!(empty.errno(), AVERROR_EAGAIN);
    // And writing is possible again.
    decoder.write_packet(Some(20)).unwrap();
    assert_eq!(decoder.decode().unwrap(), 20);
}

#[test]
fn pixel_format_selection_finds_target() {
    let candidates = vec![53, 23, 161];
    assert_eq!(select_pixel_format(&candidates, 23), Some(23));
    assert_eq!(select_pixel_format(&candidates, 26), None);
}

#[test]
fn pixel_format_negotiation_respects_priority() {
    let candidates = vec![53, 23, 161];
    // The first acceptable target wins, in target order.
    assert_eq!(negotiate_pixel_format(&candidates, &vec![26, 161, 23]), Some(161));
    assert_eq!(negotiate_pixel_format(&candidates, &vec![23, 161]), Some(23));
    // None acceptable is signalled distinctly.
    assert_eq!(negotiate_pixel_format(&candidates, &vec![26, 27]), None);
}
