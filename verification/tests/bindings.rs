use jpegxl_sys::common::JxlColorProfileTarget;
use jpegxl_sys::common::JxlColorSpace;
use jpegxl_sys::common::JxlDataType;
use jpegxl_sys::common::JxlEndianness;
use jpegxl_sys::common::JxlExtraChannelType;
use jpegxl_sys::common::JxlOrientation;
use jpegxl_sys::common::JxlPixelFormat;
use jpegxl_sys::common::JxlPrimaries;
use jpegxl_sys::common::JxlRenderingIntent;
use jpegxl_sys::common::JxlSignature;
use jpegxl_sys::common::JxlTransferFunction;
use jpegxl_sys::common::JxlWhitePoint;
use jpegxl_sys::decoder::decoder_version;
use jpegxl_sys::decoder::JxlDecoderStatus;
use jpegxl_sys::encoder::encoder_version;
use jpegxl_sys::encoder::JxlEncoderStatus;

#[test]
fn test_bindings_version() {
    assert_eq!(decoder_version(), 2000);
}

#[test]
fn encoder_version_matches_decoder_version() {
    assert_eq!(encoder_version(), decoder_version());
}

#[test]
fn data_type_codes() {
    assert_eq!(JxlDataType::Float.code(), 0);
    assert_eq!(JxlDataType::Boolean.code(), 1);
    assert_eq!(JxlDataType::Uint8.code(), 2);
    assert_eq!(JxlDataType::Uint16.code(), 3);
    assert_eq!(JxlDataType::Uint32.code(), 4);
}

#[test]
fn data_type_round_trip() {
    let all = [
        JxlDataType::Float,
        JxlDataType::Boolean,
        JxlDataType::Uint8,
        JxlDataType::Uint16,
        JxlDataType::Uint32,
    ];
    for v in all {
        assert_eq!(JxlDataType::from_code(v.code()), Some(v));
    }
    assert_eq!(JxlDataType::from_code(5), None);
}

#[test]
fn endianness_codes() {
    assert_eq!(JxlEndianness::Native.code(), 0);
    assert_eq!(JxlEndianness::Little.code(), 1);
    assert_eq!(JxlEndianness::Big.code(), 2);
    assert_eq!(JxlEndianness::from_code(2), Some(JxlEndianness::Big));
    assert_eq!(JxlEndianness::from_code(3), None);
}

#[test]
fn color_space_codes() {
    assert_eq!(JxlColorSpace::Rgb.code(), 0);
    assert_eq!(JxlColorSpace::Gray.code(), 1);
    assert_eq!(JxlColorSpace::Xyb.code(), 2);
    assert_eq!(JxlColorSpace::Unknown.code(), 3);
    assert_eq!(JxlColorSpace::from_code(1), Some(JxlColorSpace::Gray));
    assert_eq!(JxlColorSpace::from_code(4), None);
}

#[test]
fn white_point_codes_are_sparse() {
    assert_eq!(JxlWhitePoint::D65.code(), 1);
    assert_eq!(JxlWhitePoint::Custom.code(), 2);
    assert_eq!(JxlWhitePoint::E.code(), 10);
    assert_eq!(JxlWhitePoint::Dci.code(), 11);
    assert_eq!(JxlWhitePoint::from_code(0), None);
    assert_eq!(JxlWhitePoint::from_code(3), None);
    assert_eq!(JxlWhitePoint::from_code(10), Some(JxlWhitePoint::E));
}

#[test]
fn primaries_codes_are_sparse() {
    assert_eq!(JxlPrimaries::SRgb.code(), 1);
    assert_eq!(JxlPrimaries::Custom.code(), 2);
    assert_eq!(JxlPrimaries::Rec2100.code(), 9);
    assert_eq!(JxlPrimaries::P3.code(), 11);
    assert_eq!(JxlPrimaries::from_code(0), None);
    assert_eq!(JxlPrimaries::from_code(10), None);
    assert_eq!(JxlPrimaries::from_code(9), Some(JxlPrimaries::Rec2100));
}

#[test]
fn transfer_function_codes() {
    assert_eq!(JxlTransferFunction::Rec709.code(), 1);
    assert_eq!(JxlTransferFunction::Unknown.code(), 2);
    assert_eq!(JxlTransferFunction::Linear.code(), 8);
    assert_eq!(JxlTransferFunction::SRgb.code(), 13);
    assert_eq!(JxlTransferFunction::Pq.code(), 16);
    assert_eq!(JxlTransferFunction::Dci.code(), 17);
    assert_eq!(JxlTransferFunction::Hlg.code(), 18);
    assert_eq!(JxlTransferFunction::Gamma.code(), 65535);
    assert_eq!(
        JxlTransferFunction::from_code(65535),
        Some(JxlTransferFunction::Gamma)
    );
    assert_eq!(JxlTransferFunction::from_code(3), None);
}

#[test]
fn rendering_intent_codes() {
    assert_eq!(JxlRenderingIntent::Perceptual.code(), 0);
    assert_eq!(JxlRenderingIntent::Relative.code(), 1);
    assert_eq!(JxlRenderingIntent::Saturation.code(), 2);
    assert_eq!(JxlRenderingIntent::Absolute.code(), 3);
    assert_eq!(
        JxlRenderingIntent::from_code(0),
        Some(JxlRenderingIntent::Perceptual)
    );
    assert_eq!(JxlRenderingIntent::from_code(4), None);
}

#[test]
fn orientation_codes_start_at_one() {
    assert_eq!(JxlOrientation::Identity.code(), 1);
    assert_eq!(JxlOrientation::FlipHorizontal.code(), 2);
    assert_eq!(JxlOrientation::Rotate180.code(), 3);
    assert_eq!(JxlOrientation::FlipVertical.code(), 4);
    assert_eq!(JxlOrientation::Transpose.code(), 5);
    assert_eq!(JxlOrientation::Rotate90Cw.code(), 6);
    assert_eq!(JxlOrientation::AntiTranspose.code(), 7);
    assert_eq!(JxlOrientation::Rotate90Ccw.code(), 8);
    assert_eq!(JxlOrientation::from_code(0), None);
    assert_eq!(JxlOrientation::from_code(9), None);
    assert_eq!(
        JxlOrientation::from_code(6),
        Some(JxlOrientation::Rotate90Cw)
    );
}

#[test]
fn extra_channel_type_round_trip() {
    let all = [
        JxlExtraChannelType::Alpha,
        JxlExtraChannelType::Depth,
        JxlExtraChannelType::SpotColor,
        JxlExtraChannelType::SelectionMask,
        JxlExtraChannelType::Black,
        JxlExtraChannelType::Cfa,
        JxlExtraChannelType::Thermal,
        JxlExtraChannelType::Reserved0,
        JxlExtraChannelType::Reserved1,
        JxlExtraChannelType::Reserved2,
        JxlExtraChannelType::Reserved3,
        JxlExtraChannelType::Reserved4,
        JxlExtraChannelType::Reserved5,
        JxlExtraChannelType::Reserved6,
        JxlExtraChannelType::Reserved7,
        JxlExtraChannelType::Unknown,
        JxlExtraChannelType::Optional,
    ];
    for (i, v) in all.into_iter().enumerate() {
        assert_eq!(v.code() as usize, i);
        assert_eq!(JxlExtraChannelType::from_code(v.code()), Some(v));
    }
    assert_eq!(JxlExtraChannelType::from_code(17), None);
}

#[test]
fn signature_codes() {
    assert_eq!(JxlSignature::NotEnoughBytes.code(), 0);
    assert_eq!(JxlSignature::Invalid.code(), 1);
    assert_eq!(JxlSignature::Codestream.code(), 2);
    assert_eq!(JxlSignature::Container.code(), 3);
    assert_eq!(JxlSignature::from_code(2), Some(JxlSignature::Codestream));
    assert_eq!(JxlSignature::from_code(4), None);
}

#[test]
fn color_profile_target_codes() {
    assert_eq!(JxlColorProfileTarget::Original.code(), 0);
    assert_eq!(JxlColorProfileTarget::Data.code(), 1);
    assert_eq!(
        JxlColorProfileTarget::from_code(1),
        Some(JxlColorProfileTarget::Data)
    );
    assert_eq!(JxlColorProfileTarget::from_code(2), None);
}

#[test]
fn decoder_status_codes() {
    assert_eq!(JxlDecoderStatus::Success.code(), 0);
    assert_eq!(JxlDecoderStatus::Error.code(), 1);
    assert_eq!(JxlDecoderStatus::NeedMoreInput.code(), 2);
    assert_eq!(JxlDecoderStatus::NeedPreviewOutBuffer.code(), 3);
    assert_eq!(JxlDecoderStatus::NeedDcOutBuffer.code(), 4);
    assert_eq!(JxlDecoderStatus::NeedImageOutBuffer.code(), 5);
    assert_eq!(JxlDecoderStatus::JpegNeedMoreOutput.code(), 6);
    assert_eq!(JxlDecoderStatus::BasicInfo.code(), 0x40);
    assert_eq!(JxlDecoderStatus::Extensions.code(), 0x80);
    assert_eq!(JxlDecoderStatus::ColorEncoding.code(), 0x100);
    assert_eq!(JxlDecoderStatus::PreviewImage.code(), 0x200);
    assert_eq!(JxlDecoderStatus::Frame.code(), 0x400);
    assert_eq!(JxlDecoderStatus::DcImage.code(), 0x800);
    assert_eq!(JxlDecoderStatus::FullImage.code(), 0x1000);
    assert_eq!(JxlDecoderStatus::JpegReconstruction.code(), 0x2000);
}

#[test]
fn decoder_status_round_trip() {
    let all = [
        JxlDecoderStatus::Success,
        JxlDecoderStatus::Error,
        JxlDecoderStatus::NeedMoreInput,
        JxlDecoderStatus::NeedPreviewOutBuffer,
        JxlDecoderStatus::NeedDcOutBuffer,
        JxlDecoderStatus::NeedImageOutBuffer,
        JxlDecoderStatus::JpegNeedMoreOutput,
        JxlDecoderStatus::BasicInfo,
        JxlDecoderStatus::Extensions,
        JxlDecoderStatus::ColorEncoding,
        JxlDecoderStatus::PreviewImage,
        JxlDecoderStatus::Frame,
        JxlDecoderStatus::DcImage,
        JxlDecoderStatus::FullImage,
        JxlDecoderStatus::JpegReconstruction,
    ];
    for v in all {
        assert_eq!(JxlDecoderStatus::from_code(v.code()), Some(v));
    }
    assert_eq!(JxlDecoderStatus::from_code(7), None);
    assert_eq!(JxlDecoderStatus::from_code(0x20), None);
    assert_eq!(JxlDecoderStatus::from_code(0x41), None);
}

#[test]
fn decoder_status_event_mask() {
    // The mask a decoder subscribes with to stop at the basic info and at
    // the fully decoded image.
    let mask = JxlDecoderStatus::BasicInfo.bitor(JxlDecoderStatus::FullImage);
    assert_eq!(mask, 0x1040);
    // Distinct event flags keep both bits visible in the mask.
    assert_eq!(mask & 0x40, 0x40);
    assert_eq!(mask & 0x1000, 0x1000);
    let same = JxlDecoderStatus::Frame.bitor(JxlDecoderStatus::Frame);
    assert_eq!(same, 0x400);
}

#[test]
fn encoder_status_codes() {
    assert_eq!(JxlEncoderStatus::Success.code(), 0);
    assert_eq!(JxlEncoderStatus::Error.code(), 1);
    assert_eq!(JxlEncoderStatus::NeedMoreOutput.code(), 2);
    assert_eq!(JxlEncoderStatus::NotSupported.code(), 3);
    assert_eq!(
        JxlEncoderStatus::from_code(2),
        Some(JxlEncoderStatus::NeedMoreOutput)
    );
    assert_eq!(JxlEncoderStatus::from_code(4), None);
}

#[test]
fn pixel_format_holds_its_fields() {
    let format = JxlPixelFormat {
        num_channels: 3,
        data_type: JxlDataType::Uint8,
        endianness: JxlEndianness::Native,
        align: 0,
    };
    assert_eq!(format.num_channels, 3);
    assert_eq!(format.data_type.code(), 2);
    assert_eq!(format.endianness.code(), 0);
    assert_eq!(format.align, 0);
}
