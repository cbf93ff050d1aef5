use vidpipe::params::{
    compression_factor, compute_audio_bitrate, compute_video_params, tile_columns,
    uncompressed_bitrate,
};
use vidpipe::types::{Quality, VCodec};

#[test]
fn uncompressed_bitrate_720p30() {
    assert_eq!(uncompressed_bitrate((30, 1), 1280, 720), 663_552_000);
}

#[test]
fn uncompressed_bitrate_fractional_fps() {
    // 30000/1001 fps, rounded down.
    let expected = 24u64 * 1280 * 720 * 30000 / 1001;
    assert_eq!(uncompressed_bitrate((30000, 1001), 1280, 720), expected);
}

#[test]
fn compression_factor_table_vp9() {
    assert_eq!(compression_factor(VCodec::Vp9, Quality::VeryLow), 4600);
    assert_eq!(compression_factor(VCodec::Vp9, Quality::Low), 3200);
    assert_eq!(compression_factor(VCodec::Vp9, Quality::Medium), 1500);
    assert_eq!(compression_factor(VCodec::Vp9, Quality::High), 640);
    assert_eq!(compression_factor(VCodec::Vp9, Quality::VeryHigh), 280);
}

#[test]
fn compression_factor_av1_scales_by_100_over_70() {
    for q in [
        Quality::VeryLow,
        Quality::Low,
        Quality::Medium,
        Quality::High,
        Quality::VeryHigh,
    ] {
        assert_eq!(
            compression_factor(VCodec::Av1, q),
            compression_factor(VCodec::Vp9, q) * 100 / 70
        );
    }
    assert_eq!(compression_factor(VCodec::Av1, Quality::VeryHigh), 400);
    assert_eq!(compression_factor(VCodec::Av1, Quality::High), 914);
}

#[test]
fn tile_columns_boundaries() {
    assert_eq!(tile_columns(639), 0);
    assert_eq!(tile_columns(640), 1);
    assert_eq!(tile_columns(1023), 1);
    assert_eq!(tile_columns(1024), 2);
    assert_eq!(tile_columns(2559), 2);
    assert_eq!(tile_columns(2560), 3);
}

#[test]
fn audio_bitrate_table() {
    assert_eq!(compute_audio_bitrate(Quality::VeryLow), 16);
    assert_eq!(compute_audio_bitrate(Quality::Low), 24);
    assert_eq!(compute_audio_bitrate(Quality::Medium), 32);
    assert_eq!(compute_audio_bitrate(Quality::High), 64);
    assert_eq!(compute_audio_bitrate(Quality::VeryHigh), 96);
}

#[test]
fn video_params_high_vp9_720p30() {
    let p = compute_video_params(VCodec::Vp9, Quality::High, 1280, 720, 30, 1);
    assert_eq!(p.bitrate, 1_036_800);
    assert_eq!(p.minrate, 518_400);
    assert_eq!(p.maxrate, 1_503_360);
    assert_eq!(p.tile_columns, 2);
    assert_eq!(p.threads, 16);
    assert_eq!(p.crf, 31);
}

#[test]
fn bitrate_strictly_decreasing_with_tier() {
    for codec in [VCodec::Vp9, VCodec::Av1] {
        let b = |q| compute_video_params(codec, q, 1280, 720, 30, 1).bitrate;
        assert!(b(Quality::VeryHigh) > b(Quality::High));
        assert!(b(Quality::High) > b(Quality::Medium));
        assert!(b(Quality::Medium) > b(Quality::Low));
        assert!(b(Quality::Low) > b(Quality::VeryLow));
    }
}

#[test]
fn av1_bitrate_below_vp9() {
    let vp9 = compute_video_params(VCodec::Vp9, Quality::High, 1280, 720, 30, 1);
    let av1 = compute_video_params(VCodec::Av1, Quality::High, 1280, 720, 30, 1);
    // 663_552_000 / 914
    assert_eq!(av1.bitrate, 725_986);
    assert!(av1.bitrate <= vp9.bitrate);
    assert!(av1.bitrate >= vp9.bitrate * 70 / 100);
}
