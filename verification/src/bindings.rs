//! The descriptors of the native library as plain values. A driver fills them
//! from the native structures and rebuilds the native structures from them.
//! Addresses are carried as integers and never dereferenced here; text is
//! carried by value, copied out of native memory.

use vstd::prelude::*;

verus! {

/// The descriptor of a video frame.
#[derive(Debug, Clone, PartialEq, Eq)]
pub struct VideoFrameV2 {
    /// The width in pixels.
    pub xres: i32,
    /// The height in pixels.
    pub yres: i32,
    /// The tag of the pixel format.
    pub four_cc: i32,
    /// The numerator of the frame rate.
    pub frame_rate_n: i32,
    /// The denominator of the frame rate.
    pub frame_rate_d: i32,
    /// The picture aspect ratio, as the bits of a single-precision number.
    pub picture_aspect_ratio: u32,
    /// The tag of the frame format.
    pub frame_format_type: i32,
    /// The timecode in units of 100 ns.
    pub timecode: i64,
    /// The address of the pixel data, 0 for none.
    pub p_data: usize,
    /// The stride between lines in bytes or, for a compressed format, the
    /// size of the data in bytes.
    pub line_stride_in_bytes: i32,
    /// The metadata text that travels with the frame, if any.
    pub p_metadata: Option<Vec<u8>>,
    /// The time of submission in units of 100 ns, or `TIMESTAMP_UNDEFINED`.
    pub timestamp: i64,
}

/// The descriptor of an audio frame.
#[derive(Debug, Clone, PartialEq, Eq)]
pub struct AudioFrameV3 {
    /// The sample rate.
    pub sample_rate: i32,
    /// The number of channels.
    pub no_channels: i32,
    /// The number of samples per channel.
    pub no_samples: i32,
    /// The timecode in units of 100 ns.
    pub timecode: i64,
    /// The tag of the sample format.
    pub four_cc: i32,
    /// The address of the sample data, 0 for none.
    pub p_data: usize,
    /// The stride between channels in bytes.
    pub channel_stride_in_bytes: i32,
    /// The metadata text that travels with the frame, if any.
    pub p_metadata: Option<Vec<u8>>,
    /// The time of submission in units of 100 ns, or `TIMESTAMP_UNDEFINED`.
    pub timestamp: i64,
}

/// The descriptor of a metadata frame.
#[derive(Debug, Clone, PartialEq, Eq)]
pub struct MetadataFrame {
    /// The length of the text in bytes with its terminator, or 0 where the
    /// terminator alone ends it.
    pub length: i32,
    /// The timecode in units of 100 ns.
    pub timecode: i64,
    /// The address of the text in native memory, 0 where it is held by value
    /// only.
    pub p_data: usize,
    /// The text, without its terminator.
    pub data: Vec<u8>,
}

/// The descriptor of a source.
#[derive(Debug, Clone, PartialEq, Eq)]
pub struct SourceT {
    /// The name of the source, if any.
    pub p_ndi_name: Option<Vec<u8>>,
    /// The network address of the source, if any.
    pub p_url_address: Option<Vec<u8>>,
}

/// Frame counts as the native library reports them.
#[derive(Debug, Clone, Copy, PartialEq, Eq, Structural)]
pub struct RecvPerformanceT {
    /// The number of video frames.
    pub video_frames: i64,
    /// The number of audio frames.
    pub audio_frames: i64,
    /// The number of metadata frames.
    pub metadata_frames: i64,
}

/// Queue depths as the native library reports them.
#[derive(Debug, Clone, Copy, PartialEq, Eq, Structural)]
pub struct RecvQueueT {
    /// The number of video frames.
    pub video_frames: i32,
    /// The number of audio frames.
    pub audio_frames: i32,
    /// The number of metadata frames.
    pub metadata_frames: i32,
}

/// Tally flags as the native library holds them.
#[derive(Debug, Clone, Copy, PartialEq, Eq, Structural)]
pub struct TallyT {
    /// Whether the source is on program output.
    pub on_program: bool,
    /// Whether the source is on preview output.
    pub on_preview: bool,
}

/// The settings with which a finder is created.
#[derive(Debug, Clone, PartialEq, Eq)]
pub struct FindCreateT {
    /// Whether sources on the local machine are reported.
    pub show_local_sources: bool,
    /// The groups to look in, separated by commas; the default groups where
    /// there is none.
    pub p_groups: Option<String>,
    /// Further addresses to ask for sources, separated by commas.
    pub p_extra_ips: Option<String>,
}

/// The settings with which a receiver is created.
#[derive(Debug, Clone, PartialEq, Eq)]
pub struct RecvCreateV3T {
    /// The source to connect to at once; the source without name for none.
    pub source_to_connect_to: SourceT,
    /// The tag of the preferred color format.
    pub color_format: i32,
    /// The tag of the bandwidth tier.
    pub bandwidth: i32,
    /// Whether fielded video is passed on as it is.
    pub allow_video_fields: bool,
    /// The name of the receiver, if any.
    pub p_ndi_recv_name: Option<String>,
}

/// The settings with which a sender is created.
#[derive(Debug, Clone, PartialEq, Eq)]
pub struct SendCreateT {
    /// The name of the source to create, if any.
    pub p_ndi_name: Option<String>,
    /// The groups to join, separated by commas.
    pub p_groups: Option<String>,
    /// Whether video is held back to its frame rate.
    pub clock_video: bool,
    /// Whether audio is held back to its sample rate.
    pub clock_audio: bool,
}

/// The timestamp that stands for "not available".
pub const TIMESTAMP_UNDEFINED: i64 = 0x7fff_ffff_ffff_ffff;

} // verus!
