//! The integer tags of the native library and the enums that stand for them.

use vstd::prelude::*;
use crate::error::NDIError;

verus! {

/// The integer that packs the codes of four characters, one byte each, the
/// first character lowest.
pub open spec fn four_cc(a: char, b: char, c: char, d: char) -> int {
    a as int + 0x100 * (b as int) + 0x1_0000 * (c as int) + 0x100_0000 * (d as int)
}

/// What a capture call produced.
#[derive(Debug, Clone, Copy, PartialEq, Eq, Structural)]
pub enum FrameType {
    /// Nothing arrived, usually because the time ran out.
    Nothing,
    /// A video frame arrived.
    Video,
    /// An audio frame arrived.
    Audio,
    /// A metadata frame arrived.
    Metadata,
    /// The settings of the input changed.
    StatusChange,
    /// The connection was lost.
    ErrorFrame,
}

impl FrameType {
    /// The native tag of each variant.
    pub open spec fn spec_raw(self) -> int {
        match self {
            FrameType::Nothing => 0,
            FrameType::Video => 1,
            FrameType::Audio => 2,
            FrameType::Metadata => 3,
            FrameType::ErrorFrame => 4,
            FrameType::StatusChange => 100,
        }
    }

    /// The variant whose native tag is `value`, where there is one.
    pub open spec fn spec_from_raw(value: i32) -> Option<FrameType> {
        if value == 0 {
            Some(FrameType::Nothing)
        } else if value == 1 {
            Some(FrameType::Video)
        } else if value == 2 {
            Some(FrameType::Audio)
        } else if value == 3 {
            Some(FrameType::Metadata)
        } else if value == 4 {
            Some(FrameType::ErrorFrame)
        } else if value == 100 {
            Some(FrameType::StatusChange)
        } else {
            None
        }
    }

    /// The native tag of this variant.
    pub fn raw(self) -> (r: i32)
        ensures
            r == self.spec_raw(),
            FrameType::spec_from_raw(r) == Some(self),
    {
        match self {
            FrameType::Nothing => 0,
            FrameType::Video => 1,
            FrameType::Audio => 2,
            FrameType::Metadata => 3,
            FrameType::ErrorFrame => 4,
            FrameType::StatusChange => 100,
        }
    }

    /// Reads a native tag: the variant it stands for, or `InvalidEnum` with
    /// the tag and the enum's name where it stands for none.
    pub fn try_from(value: i32) -> (r: Result<FrameType, NDIError>)
        ensures
            match FrameType::spec_from_raw(value) {
                Some(t) => r == Ok::<FrameType, NDIError>(t) && t.spec_raw() == value,
                None => r == Err::<FrameType, NDIError>(NDIError::InvalidEnum(value, "FrameType")),
            },
    {
        match value {
            0 => Ok(FrameType::Nothing),
            1 => Ok(FrameType::Video),
            2 => Ok(FrameType::Audio),
            3 => Ok(FrameType::Metadata),
            4 => Ok(FrameType::ErrorFrame),
            100 => Ok(FrameType::StatusChange),
            x => Err(NDIError::InvalidEnum(x, "FrameType")),
        }
    }
}

/// How the lines of a video frame are laid out in time.
#[derive(Debug, Clone, Copy, PartialEq, Eq, Structural)]
pub enum FrameFormatType {
    /// A progressive frame.
    Progressive,
    /// A frame of two fields, the upper field first.
    Interleaved,
    /// The first, upper field of a fielded frame.
    Field0,
    /// The second, lower field of a fielded frame.
    Field1,
}

impl FrameFormatType {
    /// The native tag of each variant.
    pub open spec fn spec_raw(self) -> int {
        match self {
            FrameFormatType::Progressive => 1,
            FrameFormatType::Interleaved => 0,
            FrameFormatType::Field0 => 2,
            FrameFormatType::Field1 => 3,
        }
    }

    /// The variant whose native tag is `value`, where there is one.
    pub open spec fn spec_from_raw(value: i32) -> Option<FrameFormatType> {
        if value == FrameFormatType::Progressive.spec_raw() {
            Some(FrameFormatType::Progressive)
        } else if value == FrameFormatType::Interleaved.spec_raw() {
            Some(FrameFormatType::Interleaved)
        } else if value == FrameFormatType::Field0.spec_raw() {
            Some(FrameFormatType::Field0)
        } else if value == FrameFormatType::Field1.spec_raw() {
            Some(FrameFormatType::Field1)
        } else {
            None
        }
    }

    /// The native tag of this variant.
    pub fn raw(self) -> (r: i32)
        ensures
            r == self.spec_raw(),
            FrameFormatType::spec_from_raw(r) == Some(self),
    {
        match self {
            FrameFormatType::Progressive => 1,
            FrameFormatType::Interleaved => 0,
            FrameFormatType::Field0 => 2,
            FrameFormatType::Field1 => 3,
        }
    }

    /// Reads a native tag: the variant it stands for, or `InvalidEnum` with
    /// the tag and the enum's name where it stands for none.
    pub fn try_from(value: i32) -> (r: Result<FrameFormatType, NDIError>)
        ensures
            match FrameFormatType::spec_from_raw(value) {
                Some(t) => r == Ok::<FrameFormatType, NDIError>(t) && t.spec_raw() == value,
                None => r == Err::<FrameFormatType, NDIError>(NDIError::InvalidEnum(value, "FrameFormatType")),
            },
    {
        match value {
            1 => Ok(FrameFormatType::Progressive),
            0 => Ok(FrameFormatType::Interleaved),
            2 => Ok(FrameFormatType::Field0),
            3 => Ok(FrameFormatType::Field1),
            x => Err(NDIError::InvalidEnum(x, "FrameFormatType")),
        }
    }
}

/// The pixel format of a video frame. The native tag packs the four characters
/// of the format's name.
#[derive(Debug, Clone, Copy, PartialEq, Eq, Structural)]
pub enum FourCCVideoType {
    /// 4:2:2 in YUV, two pixels in the four bytes U0 Y0 V0 Y1.
    UYVY,
    /// 4:2:2:4 in YUV: a UYVY plane followed by an alpha plane.
    UYVA,
    /// 4:2:2 semi-planar with 16 bits per component.
    P216,
    /// 4:2:2:4 semi-planar with 16 bits per component and alpha.
    PA16,
    /// Planar 4:2:0 in the planes Y, V, U.
    YV12,
    /// Planar 4:2:0 in the planes Y, U, V.
    I420,
    /// Semi-planar 4:2:0 in the planes Y, UV.
    NV12,
    /// 8 bits each of blue, green, red and alpha.
    BGRA,
    /// 8 bits each of blue, green and red, the fourth byte 255.
    BGRX,
    /// 8 bits each of red, green, blue and alpha.
    RGBA,
    /// 8 bits each of red, green and blue, the fourth byte 255.
    RGBX,
}

impl FourCCVideoType {
    /// The native tag of each variant.
    pub open spec fn spec_raw(self) -> int {
        match self {
            FourCCVideoType::UYVY => four_cc('U', 'Y', 'V', 'Y'),
            FourCCVideoType::UYVA => four_cc('U', 'Y', 'V', 'A'),
            FourCCVideoType::P216 => four_cc('P', '2', '1', '6'),
            FourCCVideoType::PA16 => four_cc('P', 'A', '1', '6'),
            FourCCVideoType::YV12 => four_cc('Y', 'V', '1', '2'),
            FourCCVideoType::I420 => four_cc('I', '4', '2', '0'),
            FourCCVideoType::NV12 => four_cc('N', 'V', '1', '2'),
            FourCCVideoType::BGRA => four_cc('B', 'G', 'R', 'A'),
            FourCCVideoType::BGRX => four_cc('B', 'G', 'R', 'X'),
            FourCCVideoType::RGBA => four_cc('R', 'G', 'B', 'A'),
            FourCCVideoType::RGBX => four_cc('R', 'G', 'B', 'X'),
        }
    }

    /// The variant whose native tag is `value`, where there is one.
    pub open spec fn spec_from_raw(value: i32) -> Option<FourCCVideoType> {
        if value == FourCCVideoType::UYVY.spec_raw() {
            Some(FourCCVideoType::UYVY)
        } else if value == FourCCVideoType::UYVA.spec_raw() {
            Some(FourCCVideoType::UYVA)
        } else if value == FourCCVideoType::P216.spec_raw() {
            Some(FourCCVideoType::P216)
        } else if value == FourCCVideoType::PA16.spec_raw() {
            Some(FourCCVideoType::PA16)
        } else if value == FourCCVideoType::YV12.spec_raw() {
            Some(FourCCVideoType::YV12)
        } else if value == FourCCVideoType::I420.spec_raw() {
            Some(FourCCVideoType::I420)
        } else if value == FourCCVideoType::NV12.spec_raw() {
            Some(FourCCVideoType::NV12)
        } else if value == FourCCVideoType::BGRA.spec_raw() {
            Some(FourCCVideoType::BGRA)
        } else if value == FourCCVideoType::BGRX.spec_raw() {
            Some(FourCCVideoType::BGRX)
        } else if value == FourCCVideoType::RGBA.spec_raw() {
            Some(FourCCVideoType::RGBA)
        } else if value == FourCCVideoType::RGBX.spec_raw() {
            Some(FourCCVideoType::RGBX)
        } else {
            None
        }
    }

    /// The native tag of this variant.
    pub fn raw(self) -> (r: i32)
        ensures
            r == self.spec_raw(),
            FourCCVideoType::spec_from_raw(r) == Some(self),
    {
        match self {
            FourCCVideoType::UYVY => 0x59565955,
            FourCCVideoType::UYVA => 0x41565955,
            FourCCVideoType::P216 => 0x36313250,
            FourCCVideoType::PA16 => 0x36314150,
            FourCCVideoType::YV12 => 0x32315659,
            FourCCVideoType::I420 => 0x30323449,
            FourCCVideoType::NV12 => 0x3231564e,
            FourCCVideoType::BGRA => 0x41524742,
            FourCCVideoType::BGRX => 0x58524742,
            FourCCVideoType::RGBA => 0x41424752,
            FourCCVideoType::RGBX => 0x58424752,
        }
    }

    /// Reads a native tag: the variant it stands for, or `InvalidEnum` with
    /// the tag and the enum's name where it stands for none.
    pub fn try_from(value: i32) -> (r: Result<FourCCVideoType, NDIError>)
        ensures
            match FourCCVideoType::spec_from_raw(value) {
                Some(t) => r == Ok::<FourCCVideoType, NDIError>(t) && t.spec_raw() == value,
                None => r == Err::<FourCCVideoType, NDIError>(NDIError::InvalidEnum(value, "FourCCVideoType")),
            },
    {
        match value {
            0x59565955 => Ok(FourCCVideoType::UYVY),
            0x41565955 => Ok(FourCCVideoType::UYVA),
            0x36313250 => Ok(FourCCVideoType::P216),
            0x36314150 => Ok(FourCCVideoType::PA16),
            0x32315659 => Ok(FourCCVideoType::YV12),
            0x30323449 => Ok(FourCCVideoType::I420),
            0x3231564e => Ok(FourCCVideoType::NV12),
            0x41524742 => Ok(FourCCVideoType::BGRA),
            0x58524742 => Ok(FourCCVideoType::BGRX),
            0x41424752 => Ok(FourCCVideoType::RGBA),
            0x58424752 => Ok(FourCCVideoType::RGBX),
            x => Err(NDIError::InvalidEnum(x, "FourCCVideoType")),
        }
    }
}

/// The sample format of an audio frame. The native tag packs the four
/// characters of the format's name.
#[derive(Debug, Clone, Copy, PartialEq, Eq, Structural)]
pub enum FourCCAudioType {
    /// Planar single-precision samples.
    FLTP,
}

impl FourCCAudioType {
    /// The native tag of each variant.
    pub open spec fn spec_raw(self) -> int {
        match self {
            FourCCAudioType::FLTP => four_cc('F', 'L', 'T', 'p'),
        }
    }

    /// The variant whose native tag is `value`, where there is one.
    pub open spec fn spec_from_raw(value: i32) -> Option<FourCCAudioType> {
        if value == FourCCAudioType::FLTP.spec_raw() {
            Some(FourCCAudioType::FLTP)
        } else {
            None
        }
    }

    /// The native tag of this variant.
    pub fn raw(self) -> (r: i32)
        ensures
            r == self.spec_raw(),
            FourCCAudioType::spec_from_raw(r) == Some(self),
    {
        match self {
            FourCCAudioType::FLTP => 0x70544c46,
        }
    }

    /// Reads a native tag: the variant it stands for, or `InvalidEnum` with
    /// the tag and the enum's name where it stands for none.
    pub fn try_from(value: i32) -> (r: Result<FourCCAudioType, NDIError>)
        ensures
            match FourCCAudioType::spec_from_raw(value) {
                Some(t) => r == Ok::<FourCCAudioType, NDIError>(t) && t.spec_raw() == value,
                None => r == Err::<FourCCAudioType, NDIError>(NDIError::InvalidEnum(value, "FourCCAudioType")),
            },
    {
        match value {
            0x70544c46 => Ok(FourCCAudioType::FLTP),
            x => Err(NDIError::InvalidEnum(x, "FourCCAudioType")),
        }
    }
}

} // verus!
