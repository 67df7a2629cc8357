//! Status codes and version numbering of the decoding half of the C
//! interface.
//!
//! The decoder's status enumeration plays two roles on the C side: the small
//! values report the outcome of a processing call, and the values from
//! `0x40` upward are single-bit flags that both name an informative event and
//! select it when subscribing. `bitor` combines two statuses into the integer
//! event mask the subscription call takes.

use vstd::prelude::*;

use crate::common::spec_version_code;
use crate::common::JPEGXL_MAJOR_VERSION;
use crate::common::JPEGXL_MINOR_VERSION;
use crate::common::JPEGXL_PATCH_VERSION;

verus! {

/// Outcome of a decoder call, or an informative decoding event.
#[derive(Clone, Copy, Debug, PartialEq, Eq, Structural)]
pub enum JxlDecoderStatus {
    Success,
    Error,
    NeedMoreInput,
    NeedPreviewOutBuffer,
    NeedDcOutBuffer,
    NeedImageOutBuffer,
    JpegNeedMoreOutput,
    BasicInfo,
    Extensions,
    ColorEncoding,
    PreviewImage,
    Frame,
    DcImage,
    FullImage,
    JpegReconstruction,
}

impl JxlDecoderStatus {
    /// The numeric value this variant carries across the C interface. The
    /// event variants, `BasicInfo` and later, are distinct single bits.
    pub open spec fn spec_code(self) -> u32 {
        match self {
            JxlDecoderStatus::Success => 0,
            JxlDecoderStatus::Error => 1,
            JxlDecoderStatus::NeedMoreInput => 2,
            JxlDecoderStatus::NeedPreviewOutBuffer => 3,
            JxlDecoderStatus::NeedDcOutBuffer => 4,
            JxlDecoderStatus::NeedImageOutBuffer => 5,
            JxlDecoderStatus::JpegNeedMoreOutput => 6,
            JxlDecoderStatus::BasicInfo => 0x40,
            JxlDecoderStatus::Extensions => 0x80,
            JxlDecoderStatus::ColorEncoding => 0x100,
            JxlDecoderStatus::PreviewImage => 0x200,
            JxlDecoderStatus::Frame => 0x400,
            JxlDecoderStatus::DcImage => 0x800,
            JxlDecoderStatus::FullImage => 0x1000,
            JxlDecoderStatus::JpegReconstruction => 0x2000,
        }
    }

    /// Which variant, if any, a numeric value from the C interface denotes.
    pub open spec fn spec_from_code(c: u32) -> Option<JxlDecoderStatus> {
        if c == 0 {
            Some(JxlDecoderStatus::Success)
        } else if c == 1 {
            Some(JxlDecoderStatus::Error)
        } else if c == 2 {
            Some(JxlDecoderStatus::NeedMoreInput)
        } else if c == 3 {
            Some(JxlDecoderStatus::NeedPreviewOutBuffer)
        } else if c == 4 {
            Some(JxlDecoderStatus::NeedDcOutBuffer)
        } else if c == 5 {
            Some(JxlDecoderStatus::NeedImageOutBuffer)
        } else if c == 6 {
            Some(JxlDecoderStatus::JpegNeedMoreOutput)
        } else if c == 0x40 {
            Some(JxlDecoderStatus::BasicInfo)
        } else if c == 0x80 {
            Some(JxlDecoderStatus::Extensions)
        } else if c == 0x100 {
            Some(JxlDecoderStatus::ColorEncoding)
        } else if c == 0x200 {
            Some(JxlDecoderStatus::PreviewImage)
        } else if c == 0x400 {
            Some(JxlDecoderStatus::Frame)
        } else if c == 0x800 {
            Some(JxlDecoderStatus::DcImage)
        } else if c == 0x1000 {
            Some(JxlDecoderStatus::FullImage)
        } else if c == 0x2000 {
            Some(JxlDecoderStatus::JpegReconstruction)
        } else {
            None
        }
    }

    pub fn code(&self) -> (r: u32)
        ensures
            r == self.spec_code(),
            Self::spec_from_code(r) == Some(*self),
    {
        match self {
            JxlDecoderStatus::Success => 0,
            JxlDecoderStatus::Error => 1,
            JxlDecoderStatus::NeedMoreInput => 2,
            JxlDecoderStatus::NeedPreviewOutBuffer => 3,
            JxlDecoderStatus::NeedDcOutBuffer => 4,
            JxlDecoderStatus::NeedImageOutBuffer => 5,
            JxlDecoderStatus::JpegNeedMoreOutput => 6,
            JxlDecoderStatus::BasicInfo => 0x40,
            JxlDecoderStatus::Extensions => 0x80,
            JxlDecoderStatus::ColorEncoding => 0x100,
            JxlDecoderStatus::PreviewImage => 0x200,
            JxlDecoderStatus::Frame => 0x400,
            JxlDecoderStatus::DcImage => 0x800,
            JxlDecoderStatus::FullImage => 0x1000,
            JxlDecoderStatus::JpegReconstruction => 0x2000,
        }
    }

    pub fn from_code(c: u32) -> (r: Option<JxlDecoderStatus>)
        ensures
            r == Self::spec_from_code(c),
            r matches Some(v) ==> v.spec_code() == c,
    {
        if c == 0 {
            Some(JxlDecoderStatus::Success)
        } else if c == 1 {
            Some(JxlDecoderStatus::Error)
        } else if c == 2 {
            Some(JxlDecoderStatus::NeedMoreInput)
        } else if c == 3 {
            Some(JxlDecoderStatus::NeedPreviewOutBuffer)
        } else if c == 4 {
            Some(JxlDecoderStatus::NeedDcOutBuffer)
        } else if c == 5 {
            Some(JxlDecoderStatus::NeedImageOutBuffer)
        } else if c == 6 {
            Some(JxlDecoderStatus::JpegNeedMoreOutput)
        } else if c == 0x40 {
            Some(JxlDecoderStatus::BasicInfo)
        } else if c == 0x80 {
            Some(JxlDecoderStatus::Extensions)
        } else if c == 0x100 {
            Some(JxlDecoderStatus::ColorEncoding)
        } else if c == 0x200 {
            Some(JxlDecoderStatus::PreviewImage)
        } else if c == 0x400 {
            Some(JxlDecoderStatus::Frame)
        } else if c == 0x800 {
            Some(JxlDecoderStatus::DcImage)
        } else if c == 0x1000 {
            Some(JxlDecoderStatus::FullImage)
        } else if c == 0x2000 {
            Some(JxlDecoderStatus::JpegReconstruction)
        } else {
            None
        }
    }

    /// Combine two statuses into the integer event mask that the decoder's
    /// event-subscription call takes, by or-ing their numeric values.
    pub fn bitor(self, rhs: Self) -> (r: i32)
        ensures
            r == (self.spec_code() | rhs.spec_code()) as i32,
    {
        (self.code() | rhs.code()) as i32
    }
}

/// The packed version number the decoder half of the library reports,
/// computed from the three version components it is built from.
pub fn decoder_version() -> (r: u32)
    ensures
        r as int == spec_version_code(
            JPEGXL_MAJOR_VERSION as int,
            JPEGXL_MINOR_VERSION as int,
            JPEGXL_PATCH_VERSION as int,
        ),
{
    JPEGXL_MAJOR_VERSION * 1000000 + JPEGXL_MINOR_VERSION * 1000 + JPEGXL_PATCH_VERSION
}

} // verus!
