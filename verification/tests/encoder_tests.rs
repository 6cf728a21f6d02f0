use scap::capturer::CapturerBuildError;
use scap::encoder::{copy_nv12, libx264, InputConfig};

#[test]
fn libx264_is_configured_for_low_latency() {
    let config = libx264();
    assert_eq!(config.encoder, "libx264");
    assert_eq!(config.pixel_format, "nv12");
    assert_eq!(config.encoding, "video/H264");
    assert!(!config.force_idr);
    let options: Vec<(String, String)> = config.options;
    assert_eq!(options.len(), 3);
    assert_eq!(options[0], ("profile".into(), "baseline".into()));
    assert_eq!(options[1], ("preset".into(), "ultrafast".into()));
    assert_eq!(options[2], ("tune".into(), "zerolatency".into()));
}

#[test]
fn input_config_holds_dimensions() {
    let input = InputConfig {
        width: 1280,
        height: 720,
    };
    assert_eq!(input.width, 1280);
    assert_eq!(input.height, 720);
}

#[test]
fn equal_strides_copy_the_plane_whole() {
    let source: Vec<u8> = (0..12).collect();
    let mut destination = vec![0u8; 12];
    copy_nv12(&source, 4, 4, 4, &mut destination);
    assert_eq!(destination, source);
}

#[test]
fn wider_encoder_lines_keep_row_prefixes() {
    // Two source rows of 3 bytes land at the start of two 5-byte
    // destination rows; the padding bytes are untouched.
    let source: Vec<u8> = vec![1, 2, 3, 4, 5, 6];
    let mut destination = vec![9u8; 10];
    copy_nv12(&source, 3, 5, 3, &mut destination);
    assert_eq!(destination, vec![1, 2, 3, 9, 9, 4, 5, 6, 9, 9]);
}

#[test]
fn source_stride_padding_is_dropped() {
    // Source rows are 4 bytes with 2 valid; destination rows are 2 bytes.
    let source: Vec<u8> = vec![1, 2, 0, 0, 3, 4, 0, 0];
    let mut destination = vec![7u8; 4];
    copy_nv12(&source, 4, 2, 2, &mut destination);
    assert_eq!(destination, vec![1, 2, 3, 4]);
}

#[test]
fn build_errors_describe_themselves() {
    assert_eq!(
        CapturerBuildError::NotSupported.message(),
        "Screen capturing is not supported"
    );
    assert_eq!(
        CapturerBuildError::PermissionNotGranted.message(),
        "Permission to capture the screen is not granted"
    );
}
