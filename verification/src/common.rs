//! Types shared by the decoder and encoder halves of the C interface.
//!
//! Each enumeration here mirrors one of the codec's C enums. The C side
//! identifies a variant by a numeric constant; `code` and `from_code` carry a
//! variant to that constant and back, and their contracts state that the two
//! directions invert one another exactly.

use vstd::prelude::*;

verus! {

/// Sample data type of a pixel channel.
#[derive(Clone, Copy, Debug, PartialEq, Eq, Structural)]
pub enum JxlDataType {
    Float,
    Boolean,
    Uint8,
    Uint16,
    Uint32,
}

impl JxlDataType {
    /// The numeric value this variant carries across the C interface.
    pub open spec fn spec_code(self) -> u32 {
        match self {
            JxlDataType::Float => 0,
            JxlDataType::Boolean => 1,
            JxlDataType::Uint8 => 2,
            JxlDataType::Uint16 => 3,
            JxlDataType::Uint32 => 4,
        }
    }

    /// Which variant, if any, a numeric value from the C interface denotes.
    pub open spec fn spec_from_code(c: u32) -> Option<JxlDataType> {
        if c == 0 {
            Some(JxlDataType::Float)
        } else if c == 1 {
            Some(JxlDataType::Boolean)
        } else if c == 2 {
            Some(JxlDataType::Uint8)
        } else if c == 3 {
            Some(JxlDataType::Uint16)
        } else if c == 4 {
            Some(JxlDataType::Uint32)
        } else {
            None
        }
    }

    pub fn code(&self) -> (r: u32)
        ensures
            r == self.spec_code(),
            Self::spec_from_code(r) == Some(*self),
    {
        match self {
            JxlDataType::Float => 0,
            JxlDataType::Boolean => 1,
            JxlDataType::Uint8 => 2,
            JxlDataType::Uint16 => 3,
            JxlDataType::Uint32 => 4,
        }
    }

    pub fn from_code(c: u32) -> (r: Option<JxlDataType>)
        ensures
            r == Self::spec_from_code(c),
            r matches Some(v) ==> v.spec_code() == c,
    {
        if c == 0 {
            Some(JxlDataType::Float)
        } else if c == 1 {
            Some(JxlDataType::Boolean)
        } else if c == 2 {
            Some(JxlDataType::Uint8)
        } else if c == 3 {
            Some(JxlDataType::Uint16)
        } else if c == 4 {
            Some(JxlDataType::Uint32)
        } else {
            None
        }
    }
}

/// Byte order of multi-byte pixel samples.
#[derive(Clone, Copy, Debug, PartialEq, Eq, Structural)]
pub enum JxlEndianness {
    Native,
    Little,
    Big,
}

impl JxlEndianness {
    /// The numeric value this variant carries across the C interface.
    pub open spec fn spec_code(self) -> u32 {
        match self {
            JxlEndianness::Native => 0,
            JxlEndianness::Little => 1,
            JxlEndianness::Big => 2,
        }
    }

    /// Which variant, if any, a numeric value from the C interface denotes.
    pub open spec fn spec_from_code(c: u32) -> Option<JxlEndianness> {
        if c == 0 {
            Some(JxlEndianness::Native)
        } else if c == 1 {
            Some(JxlEndianness::Little)
        } else if c == 2 {
            Some(JxlEndianness::Big)
        } else {
            None
        }
    }

    pub fn code(&self) -> (r: u32)
        ensures
            r == self.spec_code(),
            Self::spec_from_code(r) == Some(*self),
    {
        match self {
            JxlEndianness::Native => 0,
            JxlEndianness::Little => 1,
            JxlEndianness::Big => 2,
        }
    }

    pub fn from_code(c: u32) -> (r: Option<JxlEndianness>)
        ensures
            r == Self::spec_from_code(c),
            r matches Some(v) ==> v.spec_code() == c,
    {
        if c == 0 {
            Some(JxlEndianness::Native)
        } else if c == 1 {
            Some(JxlEndianness::Little)
        } else if c == 2 {
            Some(JxlEndianness::Big)
        } else {
            None
        }
    }
}

/// Layout of an interleaved pixel buffer handed to or received from the codec.
#[derive(Clone, Copy, Debug, PartialEq, Eq, Structural)]
pub struct JxlPixelFormat {
    pub num_channels: u32,
    pub data_type: JxlDataType,
    pub endianness: JxlEndianness,
    pub align: usize,
}

/// Color space of the decoded image.
#[derive(Clone, Copy, Debug, PartialEq, Eq, Structural)]
pub enum JxlColorSpace {
    Rgb,
    Gray,
    Xyb,
    Unknown,
}

impl JxlColorSpace {
    /// The numeric value this variant carries across the C interface.
    pub open spec fn spec_code(self) -> u32 {
        match self {
            JxlColorSpace::Rgb => 0,
            JxlColorSpace::Gray => 1,
            JxlColorSpace::Xyb => 2,
            JxlColorSpace::Unknown => 3,
        }
    }

    /// Which variant, if any, a numeric value from the C interface denotes.
    pub open spec fn spec_from_code(c: u32) -> Option<JxlColorSpace> {
        if c == 0 {
            Some(JxlColorSpace::Rgb)
        } else if c == 1 {
            Some(JxlColorSpace::Gray)
        } else if c == 2 {
            Some(JxlColorSpace::Xyb)
        } else if c == 3 {
            Some(JxlColorSpace::Unknown)
        } else {
            None
        }
    }

    pub fn code(&self) -> (r: u32)
        ensures
            r == self.spec_code(),
            Self::spec_from_code(r) == Some(*self),
    {
        match self {
            JxlColorSpace::Rgb => 0,
            JxlColorSpace::Gray => 1,
            JxlColorSpace::Xyb => 2,
            JxlColorSpace::Unknown => 3,
        }
    }

    pub fn from_code(c: u32) -> (r: Option<JxlColorSpace>)
        ensures
            r == Self::spec_from_code(c),
            r matches Some(v) ==> v.spec_code() == c,
    {
        if c == 0 {
            Some(JxlColorSpace::Rgb)
        } else if c == 1 {
            Some(JxlColorSpace::Gray)
        } else if c == 2 {
            Some(JxlColorSpace::Xyb)
        } else if c == 3 {
            Some(JxlColorSpace::Unknown)
        } else {
            None
        }
    }
}

/// Reference white point of a color encoding.
#[derive(Clone, Copy, Debug, PartialEq, Eq, Structural)]
pub enum JxlWhitePoint {
    D65,
    Custom,
    E,
    Dci,
}

impl JxlWhitePoint {
    /// The numeric value this variant carries across the C interface.
    pub open spec fn spec_code(self) -> u32 {
        match self {
            JxlWhitePoint::D65 => 1,
            JxlWhitePoint::Custom => 2,
            JxlWhitePoint::E => 10,
            JxlWhitePoint::Dci => 11,
        }
    }

    /// Which variant, if any, a numeric value from the C interface denotes.
    pub open spec fn spec_from_code(c: u32) -> Option<JxlWhitePoint> {
        if c == 1 {
            Some(JxlWhitePoint::D65)
        } else if c == 2 {
            Some(JxlWhitePoint::Custom)
        } else if c == 10 {
            Some(JxlWhitePoint::E)
        } else if c == 11 {
            Some(JxlWhitePoint::Dci)
        } else {
            None
        }
    }

    pub fn code(&self) -> (r: u32)
        ensures
            r == self.spec_code(),
            Self::spec_from_code(r) == Some(*self),
    {
        match self {
            JxlWhitePoint::D65 => 1,
            JxlWhitePoint::Custom => 2,
            JxlWhitePoint::E => 10,
            JxlWhitePoint::Dci => 11,
        }
    }

    pub fn from_code(c: u32) -> (r: Option<JxlWhitePoint>)
        ensures
            r == Self::spec_from_code(c),
            r matches Some(v) ==> v.spec_code() == c,
    {
        if c == 1 {
            Some(JxlWhitePoint::D65)
        } else if c == 2 {
            Some(JxlWhitePoint::Custom)
        } else if c == 10 {
            Some(JxlWhitePoint::E)
        } else if c == 11 {
            Some(JxlWhitePoint::Dci)
        } else {
            None
        }
    }
}

/// Primary chromaticities of a color encoding.
#[derive(Clone, Copy, Debug, PartialEq, Eq, Structural)]
pub enum JxlPrimaries {
    SRgb,
    Custom,
    Rec2100,
    P3,
}

impl JxlPrimaries {
    /// The numeric value this variant carries across the C interface.
    pub open spec fn spec_code(self) -> u32 {
        match self {
            JxlPrimaries::SRgb => 1,
            JxlPrimaries::Custom => 2,
            JxlPrimaries::Rec2100 => 9,
            JxlPrimaries::P3 => 11,
        }
    }

    /// Which variant, if any, a numeric value from the C interface denotes.
    pub open spec fn spec_from_code(c: u32) -> Option<JxlPrimaries> {
        if c == 1 {
            Some(JxlPrimaries::SRgb)
        } else if c == 2 {
            Some(JxlPrimaries::Custom)
        } else if c == 9 {
            Some(JxlPrimaries::Rec2100)
        } else if c == 11 {
            Some(JxlPrimaries::P3)
        } else {
            None
        }
    }

    pub fn code(&self) -> (r: u32)
        ensures
            r == self.spec_code(),
            Self::spec_from_code(r) == Some(*self),
    {
        match self {
            JxlPrimaries::SRgb => 1,
            JxlPrimaries::Custom => 2,
            JxlPrimaries::Rec2100 => 9,
            JxlPrimaries::P3 => 11,
        }
    }

    pub fn from_code(c: u32) -> (r: Option<JxlPrimaries>)
        ensures
            r == Self::spec_from_code(c),
            r matches Some(v) ==> v.spec_code() == c,
    {
        if c == 1 {
            Some(JxlPrimaries::SRgb)
        } else if c == 2 {
            Some(JxlPrimaries::Custom)
        } else if c == 9 {
            Some(JxlPrimaries::Rec2100)
        } else if c == 11 {
            Some(JxlPrimaries::P3)
        } else {
            None
        }
    }
}

/// Transfer function of a color encoding.
#[derive(Clone, Copy, Debug, PartialEq, Eq, Structural)]
pub enum JxlTransferFunction {
    Rec709,
    Unknown,
    Linear,
    SRgb,
    Pq,
    Dci,
    Hlg,
    Gamma,
}

impl JxlTransferFunction {
    /// The numeric value this variant carries across the C interface.
    pub open spec fn spec_code(self) -> u32 {
        match self {
            JxlTransferFunction::Rec709 => 1,
            JxlTransferFunction::Unknown => 2,
            JxlTransferFunction::Linear => 8,
            JxlTransferFunction::SRgb => 13,
            JxlTransferFunction::Pq => 16,
            JxlTransferFunction::Dci => 17,
            JxlTransferFunction::Hlg => 18,
            JxlTransferFunction::Gamma => 65535,
        }
    }

    /// Which variant, if any, a numeric value from the C interface denotes.
    pub open spec fn spec_from_code(c: u32) -> Option<JxlTransferFunction> {
        if c == 1 {
            Some(JxlTransferFunction::Rec709)
        } else if c == 2 {
            Some(JxlTransferFunction::Unknown)
        } else if c == 8 {
            Some(JxlTransferFunction::Linear)
        } else if c == 13 {
            Some(JxlTransferFunction::SRgb)
        } else if c == 16 {
            Some(JxlTransferFunction::Pq)
        } else if c == 17 {
            Some(JxlTransferFunction::Dci)
        } else if c == 18 {
            Some(JxlTransferFunction::Hlg)
        } else if c == 65535 {
            Some(JxlTransferFunction::Gamma)
        } else {
            None
        }
    }

    pub fn code(&self) -> (r: u32)
        ensures
            r == self.spec_code(),
            Self::spec_from_code(r) == Some(*self),
    {
        match self {
            JxlTransferFunction::Rec709 => 1,
            JxlTransferFunction::Unknown => 2,
            JxlTransferFunction::Linear => 8,
            JxlTransferFunction::SRgb => 13,
            JxlTransferFunction::Pq => 16,
            JxlTransferFunction::Dci => 17,
            JxlTransferFunction::Hlg => 18,
            JxlTransferFunction::Gamma => 65535,
        }
    }

    pub fn from_code(c: u32) -> (r: Option<JxlTransferFunction>)
        ensures
            r == Self::spec_from_code(c),
            r matches Some(v) ==> v.spec_code() == c,
    {
        if c == 1 {
            Some(JxlTransferFunction::Rec709)
        } else if c == 2 {
            Some(JxlTransferFunction::Unknown)
        } else if c == 8 {
            Some(JxlTransferFunction::Linear)
        } else if c == 13 {
            Some(JxlTransferFunction::SRgb)
        } else if c == 16 {
            Some(JxlTransferFunction::Pq)
        } else if c == 17 {
            Some(JxlTransferFunction::Dci)
        } else if c == 18 {
            Some(JxlTransferFunction::Hlg)
        } else if c == 65535 {
            Some(JxlTransferFunction::Gamma)
        } else {
            None
        }
    }
}

/// Rendering intent of a color encoding.
#[derive(Clone, Copy, Debug, PartialEq, Eq, Structural)]
pub enum JxlRenderingIntent {
    Perceptual,
    Relative,
    Saturation,
    Absolute,
}

impl JxlRenderingIntent {
    /// The numeric value this variant carries across the C interface.
    pub open spec fn spec_code(self) -> u32 {
        match self {
            JxlRenderingIntent::Perceptual => 0,
            JxlRenderingIntent::Relative => 1,
            JxlRenderingIntent::Saturation => 2,
            JxlRenderingIntent::Absolute => 3,
        }
    }

    /// Which variant, if any, a numeric value from the C interface denotes.
    pub open spec fn spec_from_code(c: u32) -> Option<JxlRenderingIntent> {
        if c == 0 {
            Some(JxlRenderingIntent::Perceptual)
        } else if c == 1 {
            Some(JxlRenderingIntent::Relative)
        } else if c == 2 {
            Some(JxlRenderingIntent::Saturation)
        } else if c == 3 {
            Some(JxlRenderingIntent::Absolute)
        } else {
            None
        }
    }

    pub fn code(&self) -> (r: u32)
        ensures
            r == self.spec_code(),
            Self::spec_from_code(r) == Some(*self),
    {
        match self {
            JxlRenderingIntent::Perceptual => 0,
            JxlRenderingIntent::Relative => 1,
            JxlRenderingIntent::Saturation => 2,
            JxlRenderingIntent::Absolute => 3,
        }
    }

    pub fn from_code(c: u32) -> (r: Option<JxlRenderingIntent>)
        ensures
            r == Self::spec_from_code(c),
            r matches Some(v) ==> v.spec_code() == c,
    {
        if c == 0 {
            Some(JxlRenderingIntent::Perceptual)
        } else if c == 1 {
            Some(JxlRenderingIntent::Relative)
        } else if c == 2 {
            Some(JxlRenderingIntent::Saturation)
        } else if c == 3 {
            Some(JxlRenderingIntent::Absolute)
        } else {
            None
        }
    }
}

/// Transformation to apply to decoded pixels before display.
#[derive(Clone, Copy, Debug, PartialEq, Eq, Structural)]
pub enum JxlOrientation {
    Identity,
    FlipHorizontal,
    Rotate180,
    FlipVertical,
    Transpose,
    Rotate90Cw,
    AntiTranspose,
    Rotate90Ccw,
}

impl JxlOrientation {
    /// The numeric value this variant carries across the C interface.
    pub open spec fn spec_code(self) -> u32 {
        match self {
            JxlOrientation::Identity => 1,
            JxlOrientation::FlipHorizontal => 2,
            JxlOrientation::Rotate180 => 3,
            JxlOrientation::FlipVertical => 4,
            JxlOrientation::Transpose => 5,
            JxlOrientation::Rotate90Cw => 6,
            JxlOrientation::AntiTranspose => 7,
            JxlOrientation::Rotate90Ccw => 8,
        }
    }

    /// Which variant, if any, a numeric value from the C interface denotes.
    pub open spec fn spec_from_code(c: u32) -> Option<JxlOrientation> {
        if c == 1 {
            Some(JxlOrientation::Identity)
        } else if c == 2 {
            Some(JxlOrientation::FlipHorizontal)
        } else if c == 3 {
            Some(JxlOrientation::Rotate180)
        } else if c == 4 {
            Some(JxlOrientation::FlipVertical)
        } else if c == 5 {
            Some(JxlOrientation::Transpose)
        } else if c == 6 {
            Some(JxlOrientation::Rotate90Cw)
        } else if c == 7 {
            Some(JxlOrientation::AntiTranspose)
        } else if c == 8 {
            Some(JxlOrientation::Rotate90Ccw)
        } else {
            None
        }
    }

    pub fn code(&self) -> (r: u32)
        ensures
            r == self.spec_code(),
            Self::spec_from_code(r) == Some(*self),
    {
        match self {
            JxlOrientation::Identity => 1,
            JxlOrientation::FlipHorizontal => 2,
            JxlOrientation::Rotate180 => 3,
            JxlOrientation::FlipVertical => 4,
            JxlOrientation::Transpose => 5,
            JxlOrientation::Rotate90Cw => 6,
            JxlOrientation::AntiTranspose => 7,
            JxlOrientation::Rotate90Ccw => 8,
        }
    }

    pub fn from_code(c: u32) -> (r: Option<JxlOrientation>)
        ensures
            r == Self::spec_from_code(c),
            r matches Some(v) ==> v.spec_code() == c,
    {
        if c == 1 {
            Some(JxlOrientation::Identity)
        } else if c == 2 {
            Some(JxlOrientation::FlipHorizontal)
        } else if c == 3 {
            Some(JxlOrientation::Rotate180)
        } else if c == 4 {
            Some(JxlOrientation::FlipVertical)
        } else if c == 5 {
            Some(JxlOrientation::Transpose)
        } else if c == 6 {
            Some(JxlOrientation::Rotate90Cw)
        } else if c == 7 {
            Some(JxlOrientation::AntiTranspose)
        } else if c == 8 {
            Some(JxlOrientation::Rotate90Ccw)
        } else {
            None
        }
    }
}

/// Meaning of an extra channel beyond the color channels.
#[derive(Clone, Copy, Debug, PartialEq, Eq, Structural)]
pub enum JxlExtraChannelType {
    Alpha,
    Depth,
    SpotColor,
    SelectionMask,
    Black,
    Cfa,
    Thermal,
    Reserved0,
    Reserved1,
    Reserved2,
    Reserved3,
    Reserved4,
    Reserved5,
    Reserved6,
    Reserved7,
    Unknown,
    Optional,
}

impl JxlExtraChannelType {
    /// The numeric value this variant carries across the C interface.
    pub open spec fn spec_code(self) -> u32 {
        match self {
            JxlExtraChannelType::Alpha => 0,
            JxlExtraChannelType::Depth => 1,
            JxlExtraChannelType::SpotColor => 2,
            JxlExtraChannelType::SelectionMask => 3,
            JxlExtraChannelType::Black => 4,
            JxlExtraChannelType::Cfa => 5,
            JxlExtraChannelType::Thermal => 6,
            JxlExtraChannelType::Reserved0 => 7,
            JxlExtraChannelType::Reserved1 => 8,
            JxlExtraChannelType::Reserved2 => 9,
            JxlExtraChannelType::Reserved3 => 10,
            JxlExtraChannelType::Reserved4 => 11,
            JxlExtraChannelType::Reserved5 => 12,
            JxlExtraChannelType::Reserved6 => 13,
            JxlExtraChannelType::Reserved7 => 14,
            JxlExtraChannelType::Unknown => 15,
            JxlExtraChannelType::Optional => 16,
        }
    }

    /// Which variant, if any, a numeric value from the C interface denotes.
    pub open spec fn spec_from_code(c: u32) -> Option<JxlExtraChannelType> {
        if c == 0 {
            Some(JxlExtraChannelType::Alpha)
        } else if c == 1 {
            Some(JxlExtraChannelType::Depth)
        } else if c == 2 {
            Some(JxlExtraChannelType::SpotColor)
        } else if c == 3 {
            Some(JxlExtraChannelType::SelectionMask)
        } else if c == 4 {
            Some(JxlExtraChannelType::Black)
        } else if c == 5 {
            Some(JxlExtraChannelType::Cfa)
        } else if c == 6 {
            Some(JxlExtraChannelType::Thermal)
        } else if c == 7 {
            Some(JxlExtraChannelType::Reserved0)
        } else if c == 8 {
            Some(JxlExtraChannelType::Reserved1)
        } else if c == 9 {
            Some(JxlExtraChannelType::Reserved2)
        } else if c == 10 {
            Some(JxlExtraChannelType::Reserved3)
        } else if c == 11 {
            Some(JxlExtraChannelType::Reserved4)
        } else if c == 12 {
            Some(JxlExtraChannelType::Reserved5)
        } else if c == 13 {
            Some(JxlExtraChannelType::Reserved6)
        } else if c == 14 {
            Some(JxlExtraChannelType::Reserved7)
        } else if c == 15 {
            Some(JxlExtraChannelType::Unknown)
        } else if c == 16 {
            Some(JxlExtraChannelType::Optional)
        } else {
            None
        }
    }

    pub fn code(&self) -> (r: u32)
        ensures
            r == self.spec_code(),
            Self::spec_from_code(r) == Some(*self),
    {
        match self {
            JxlExtraChannelType::Alpha => 0,
            JxlExtraChannelType::Depth => 1,
            JxlExtraChannelType::SpotColor => 2,
            JxlExtraChannelType::SelectionMask => 3,
            JxlExtraChannelType::Black => 4,
            JxlExtraChannelType::Cfa => 5,
            JxlExtraChannelType::Thermal => 6,
            JxlExtraChannelType::Reserved0 => 7,
            JxlExtraChannelType::Reserved1 => 8,
            JxlExtraChannelType::Reserved2 => 9,
            JxlExtraChannelType::Reserved3 => 10,
            JxlExtraChannelType::Reserved4 => 11,
            JxlExtraChannelType::Reserved5 => 12,
            JxlExtraChannelType::Reserved6 => 13,
            JxlExtraChannelType::Reserved7 => 14,
            JxlExtraChannelType::Unknown => 15,
            JxlExtraChannelType::Optional => 16,
        }
    }

    pub fn from_code(c: u32) -> (r: Option<JxlExtraChannelType>)
        ensures
            r == Self::spec_from_code(c),
            r matches Some(v) ==> v.spec_code() == c,
    {
        if c == 0 {
            Some(JxlExtraChannelType::Alpha)
        } else if c == 1 {
            Some(JxlExtraChannelType::Depth)
        } else if c == 2 {
            Some(JxlExtraChannelType::SpotColor)
        } else if c == 3 {
            Some(JxlExtraChannelType::SelectionMask)
        } else if c == 4 {
            Some(JxlExtraChannelType::Black)
        } else if c == 5 {
            Some(JxlExtraChannelType::Cfa)
        } else if c == 6 {
            Some(JxlExtraChannelType::Thermal)
        } else if c == 7 {
            Some(JxlExtraChannelType::Reserved0)
        } else if c == 8 {
            Some(JxlExtraChannelType::Reserved1)
        } else if c == 9 {
            Some(JxlExtraChannelType::Reserved2)
        } else if c == 10 {
            Some(JxlExtraChannelType::Reserved3)
        } else if c == 11 {
            Some(JxlExtraChannelType::Reserved4)
        } else if c == 12 {
            Some(JxlExtraChannelType::Reserved5)
        } else if c == 13 {
            Some(JxlExtraChannelType::Reserved6)
        } else if c == 14 {
            Some(JxlExtraChannelType::Reserved7)
        } else if c == 15 {
            Some(JxlExtraChannelType::Unknown)
        } else if c == 16 {
            Some(JxlExtraChannelType::Optional)
        } else {
            None
        }
    }
}

/// Result of probing the first bytes of an input for a recognizable stream.
#[derive(Clone, Copy, Debug, PartialEq, Eq, Structural)]
pub enum JxlSignature {
    NotEnoughBytes,
    Invalid,
    Codestream,
    Container,
}

impl JxlSignature {
    /// The numeric value this variant carries across the C interface.
    pub open spec fn spec_code(self) -> u32 {
        match self {
            JxlSignature::NotEnoughBytes => 0,
            JxlSignature::Invalid => 1,
            JxlSignature::Codestream => 2,
            JxlSignature::Container => 3,
        }
    }

    /// Which variant, if any, a numeric value from the C interface denotes.
    pub open spec fn spec_from_code(c: u32) -> Option<JxlSignature> {
        if c == 0 {
            Some(JxlSignature::NotEnoughBytes)
        } else if c == 1 {
            Some(JxlSignature::Invalid)
        } else if c == 2 {
            Some(JxlSignature::Codestream)
        } else if c == 3 {
            Some(JxlSignature::Container)
        } else {
            None
        }
    }

    pub fn code(&self) -> (r: u32)
        ensures
            r == self.spec_code(),
            Self::spec_from_code(r) == Some(*self),
    {
        match self {
            JxlSignature::NotEnoughBytes => 0,
            JxlSignature::Invalid => 1,
            JxlSignature::Codestream => 2,
            JxlSignature::Container => 3,
        }
    }

    pub fn from_code(c: u32) -> (r: Option<JxlSignature>)
        ensures
            r == Self::spec_from_code(c),
            r matches Some(v) ==> v.spec_code() == c,
    {
        if c == 0 {
            Some(JxlSignature::NotEnoughBytes)
        } else if c == 1 {
            Some(JxlSignature::Invalid)
        } else if c == 2 {
            Some(JxlSignature::Codestream)
        } else if c == 3 {
            Some(JxlSignature::Container)
        } else {
            None
        }
    }
}

/// Which of the image's color profiles a query addresses.
#[derive(Clone, Copy, Debug, PartialEq, Eq, Structural)]
pub enum JxlColorProfileTarget {
    Original,
    Data,
}

impl JxlColorProfileTarget {
    /// The numeric value this variant carries across the C interface.
    pub open spec fn spec_code(self) -> u32 {
        match self {
            JxlColorProfileTarget::Original => 0,
            JxlColorProfileTarget::Data => 1,
        }
    }

    /// Which variant, if any, a numeric value from the C interface denotes.
    pub open spec fn spec_from_code(c: u32) -> Option<JxlColorProfileTarget> {
        if c == 0 {
            Some(JxlColorProfileTarget::Original)
        } else if c == 1 {
            Some(JxlColorProfileTarget::Data)
        } else {
            None
        }
    }

    pub fn code(&self) -> (r: u32)
        ensures
            r == self.spec_code(),
            Self::spec_from_code(r) == Some(*self),
    {
        match self {
            JxlColorProfileTarget::Original => 0,
            JxlColorProfileTarget::Data => 1,
        }
    }

    pub fn from_code(c: u32) -> (r: Option<JxlColorProfileTarget>)
        ensures
            r == Self::spec_from_code(c),
            r matches Some(v) ==> v.spec_code() == c,
    {
        if c == 0 {
            Some(JxlColorProfileTarget::Original)
        } else if c == 1 {
            Some(JxlColorProfileTarget::Data)
        } else {
            None
        }
    }
}

/// Size of the embedded preview image.
#[derive(Clone, Copy, Debug, PartialEq, Eq, Structural)]
pub struct JxlPreviewHeader {
    pub xsize: u32,
    pub ysize: u32,
}

/// Timing parameters of an animated image.
#[derive(Clone, Copy, Debug, PartialEq, Eq, Structural)]
pub struct JxlAnimationHeader {
    pub tps_numerator: u32,
    pub tps_denominator: u32,
    pub num_loops: u32,
    pub have_timecodes: bool,
}

/// Bit field of extensions present in the stream's headers.
#[derive(Clone, Copy, Debug, PartialEq, Eq, Structural)]
pub struct JxlHeaderExtensions {
    pub extensions: u64,
}

/// Per-frame metadata of an animated or multi-frame image.
#[derive(Clone, Copy, Debug, PartialEq, Eq, Structural)]
pub struct JxlFrameHeader {
    pub duration: u32,
    pub timecode: u32,
    pub name_length: u32,
    pub is_last: bool,
}

/// Major version of the codec library this interface describes.
pub const JPEGXL_MAJOR_VERSION: u32 = 0;

/// Minor version of the codec library this interface describes.
pub const JPEGXL_MINOR_VERSION: u32 = 2;

/// Patch level of the codec library this interface describes.
pub const JPEGXL_PATCH_VERSION: u32 = 0;

/// How the codec packs a three-part version into the single integer its
/// version calls return: one million times the major version, plus one
/// thousand times the minor version, plus the patch level.
pub open spec fn spec_version_code(major: int, minor: int, patch: int) -> int {
    major * 1000000 + minor * 1000 + patch
}

} // verus!
