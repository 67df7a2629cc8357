//! Status codes and version numbering of the encoding half of the C
//! interface.

use vstd::prelude::*;

use crate::common::spec_version_code;
use crate::common::JPEGXL_MAJOR_VERSION;
use crate::common::JPEGXL_MINOR_VERSION;
use crate::common::JPEGXL_PATCH_VERSION;

verus! {

/// Outcome of an encoder call.
#[derive(Clone, Copy, Debug, PartialEq, Eq, Structural)]
pub enum JxlEncoderStatus {
    Success,
    Error,
    NeedMoreOutput,
    NotSupported,
}

impl JxlEncoderStatus {
    /// The numeric value this variant carries across the C interface.
    pub open spec fn spec_code(self) -> u32 {
        match self {
            JxlEncoderStatus::Success => 0,
            JxlEncoderStatus::Error => 1,
            JxlEncoderStatus::NeedMoreOutput => 2,
            JxlEncoderStatus::NotSupported => 3,
        }
    }

    /// Which variant, if any, a numeric value from the C interface denotes.
    pub open spec fn spec_from_code(c: u32) -> Option<JxlEncoderStatus> {
        if c == 0 {
            Some(JxlEncoderStatus::Success)
        } else if c == 1 {
            Some(JxlEncoderStatus::Error)
        } else if c == 2 {
            Some(JxlEncoderStatus::NeedMoreOutput)
        } else if c == 3 {
            Some(JxlEncoderStatus::NotSupported)
        } else {
            None
        }
    }

    pub fn code(&self) -> (r: u32)
        ensures
            r == self.spec_code(),
            Self::spec_from_code(r) == Some(*self),
    {
        match self {
            JxlEncoderStatus::Success => 0,
            JxlEncoderStatus::Error => 1,
            JxlEncoderStatus::NeedMoreOutput => 2,
            JxlEncoderStatus::NotSupported => 3,
        }
    }

    pub fn from_code(c: u32) -> (r: Option<JxlEncoderStatus>)
        ensures
            r == Self::spec_from_code(c),
            r matches Some(v) ==> v.spec_code() == c,
    {
        if c == 0 {
            Some(JxlEncoderStatus::Success)
        } else if c == 1 {
            Some(JxlEncoderStatus::Error)
        } else if c == 2 {
            Some(JxlEncoderStatus::NeedMoreOutput)
        } else if c == 3 {
            Some(JxlEncoderStatus::NotSupported)
        } else {
            None
        }
    }
}

/// The packed version number the encoder half of the library reports,
/// computed from the same three version components as the decoder's.
pub fn encoder_version() -> (r: u32)
    ensures
        r as int == spec_version_code(
            JPEGXL_MAJOR_VERSION as int,
            JPEGXL_MINOR_VERSION as int,
            JPEGXL_PATCH_VERSION as int,
        ),
{
    JPEGXL_MAJOR_VERSION * 1000000 + JPEGXL_MINOR_VERSION * 1000 + JPEGXL_PATCH_VERSION
}

} // verus!
