//! Video, audio and metadata frames, and the release of their buffers.
//!
//! The buffer of a captured frame belongs to the native library. The frame
//! records which handle has to release it, and giving the frame up produces
//! that release, once. A frame that was made by the caller has no owner and
//! produces no release.

use vstd::prelude::*;
use vstd::utf8::encode_utf8;
use crate::bindings::AudioFrameV3;
use crate::bindings::MetadataFrame;
use crate::bindings::VideoFrameV2;
use crate::bindings::TIMESTAMP_UNDEFINED;
use crate::error::NDIError;
use crate::internal::HandleKind;
use crate::internal::Media;
use crate::internal::NativeCall;
use crate::internal::Registry;
use crate::internal::RegistryState;
use crate::internal::Ticket;
use crate::tags::FourCCAudioType;
use crate::tags::FourCCVideoType;
use crate::tags::FrameFormatType;
use crate::text::bytes_view;
use crate::text::contains_nul;
use crate::text::decode;
use crate::text::decode_bytes;
use crate::text::encode;
use crate::text::has_nul;
use crate::text::is_decoded;
use crate::text::spec_strict_bytes;
use crate::text::spec_strict_text;

verus! {

/// Who has to release the buffer of a frame.
#[derive(Debug, Clone, Copy, PartialEq, Eq, Structural)]
pub enum Owner {
    /// Nobody: the caller made the frame and answers for its buffer.
    NoOwner,
    /// The receiver that captured the frame.
    OwnedByReceiver(Ticket),
    /// The sender that captured the frame.
    OwnedBySender(Ticket),
}

impl Owner {
    /// The ticket of an owned frame.
    pub open spec fn spec_ticket(self) -> Option<Ticket> {
        match self {
            Owner::NoOwner => None,
            Owner::OwnedByReceiver(t) => Some(t),
            Owner::OwnedBySender(t) => Some(t),
        }
    }

    /// The kind of instance that releases the buffer of an owned frame.
    pub open spec fn spec_kind(self) -> HandleKind {
        match self {
            Owner::OwnedBySender(_) => HandleKind::Send,
            _ => HandleKind::Recv,
        }
    }

    /// Whether giving up a frame of this owner succeeds in the registry `s`:
    /// a frame without owner always, an owned frame while it is outstanding.
    pub open spec fn can_release(self, s: RegistryState) -> bool {
        match self.spec_ticket() {
            None => true,
            Some(t) => s.is_outstanding(t),
        }
    }

    /// The native calls that giving up a frame of this owner requires, in
    /// order: none for a frame without owner; else the release of the buffer,
    /// followed by the destruction of the owner where the frame was the last
    /// reference to it.
    pub open spec fn release_calls(self, media: Media, p_data: usize, s: RegistryState) -> Seq<
        NativeCall,
    > {
        match self.spec_ticket() {
            None => Seq::empty(),
            Some(t) => {
                let free = NativeCall::Free {
                    kind: self.spec_kind(),
                    instance: t.owner,
                    media,
                    p_data,
                };
                if s.is_last_frame(t) {
                    seq![
                        free,
                        NativeCall::Destroy { kind: s.handles[t.owner].kind, instance: t.owner },
                    ]
                } else {
                    seq![free]
                }
            },
        }
    }

    /// The registry after a frame of this owner was given up.
    pub open spec fn release_state(self, s: RegistryState) -> RegistryState {
        match self.spec_ticket() {
            None => s,
            Some(t) => s.redeem(t),
        }
    }

    /// Gives up a frame of this owner whose buffer of kind `media` lies at
    /// `p_data`. An owned frame that is not outstanding in `registry` was
    /// released before and is refused.
    pub fn release(self, media: Media, p_data: usize, registry: &mut Registry) -> (r: Result<
        Vec<NativeCall>,
        NDIError,
    >)
        requires
            old(registry).wf(),
        ensures
            final(registry).wf(),
            r is Ok == self.can_release(old(registry)@),
            r matches Ok(calls) ==> {
                &&& calls@ == self.release_calls(media, p_data, old(registry)@)
                &&& final(registry)@ == self.release_state(old(registry)@)
            },
            r matches Err(e) ==> e == NDIError::AlreadyReleased && final(registry)@ == old(
                registry,
            )@,
            self == Owner::NoOwner ==> (r matches Ok(calls) && calls@.len() == 0)
                && final(registry)@ == old(registry)@,
    {
        let (kind, t) = match self {
            Owner::NoOwner => {
                return Ok(Vec::new());
            },
            Owner::OwnedByReceiver(t) => (HandleKind::Recv, t),
            Owner::OwnedBySender(t) => (HandleKind::Send, t),
        };
        match registry.redeem(t) {
            Err(e) => Err(e),
            Ok(last) => {
                let mut calls: Vec<NativeCall> = Vec::new();
                calls.push(NativeCall::Free { kind, instance: t.owner, media, p_data });
                match last {
                    Some(handle) => {
                        calls.push(handle.release());
                    },
                    None => {},
                }
                assert(calls@ =~= self.release_calls(media, p_data, old(registry)@));
                Ok(calls)
            },
        }
    }
}

/// The number of buffer releases among `calls`.
pub open spec fn releases(calls: Seq<NativeCall>) -> nat
    decreases calls.len(),
{
    if calls.len() == 0 {
        0
    } else {
        releases(calls.drop_last()) + (if calls.last() is Free {
            1nat
        } else {
            0nat
        })
    }
}

/// Giving up an owned frame releases its buffer exactly once, through the
/// handle that owns it, and cannot be repeated: afterwards the frame is not
/// outstanding, so that a second attempt is refused.
pub proof fn law_owned_frame_released_once(
    owner: Owner,
    media: Media,
    p_data: usize,
    s: RegistryState,
)
    requires
        owner != Owner::NoOwner,
        owner.can_release(s),
    ensures
        releases(owner.release_calls(media, p_data, s)) == 1,
        owner.release_calls(media, p_data, s)[0] == (NativeCall::Free {
            kind: owner.spec_kind(),
            instance: owner.spec_ticket().unwrap().owner,
            media,
            p_data,
        }),
        !owner.can_release(owner.release_state(s)),
{
    let calls = owner.release_calls(media, p_data, s);
    if calls.len() == 2 {
        let head = calls.drop_last();
        assert(head.len() == 1);
        assert(head.drop_last().len() == 0);
        assert(releases(head.drop_last()) == 0);
        assert(releases(head) == 1);
    } else {
        assert(calls.len() == 1);
        assert(calls.drop_last().len() == 0);
        assert(releases(calls.drop_last()) == 0);
    }
}

/// Giving up a frame without owner releases nothing, however often and in
/// whatever registry, and leaves the registry as it is.
pub proof fn law_unowned_frame_never_released(media: Media, p_data: usize, s: RegistryState)
    ensures
        Owner::NoOwner.can_release(s),
        releases(Owner::NoOwner.release_calls(media, p_data, s)) == 0,
        Owner::NoOwner.release_calls(media, p_data, s).len() == 0,
        Owner::NoOwner.release_state(s) == s,
{
}

/// The value of a 32-bit two's complement integer read as unsigned.
pub open spec fn as_unsigned(x: i32) -> int {
    if x >= 0 {
        x as int
    } else {
        x + 0x1_0000_0000
    }
}

/// Reads a 32-bit integer of the native library as unsigned.
pub fn to_unsigned(x: i32) -> (r: u32)
    ensures
        r == as_unsigned(x),
{
    if x >= 0 {
        x as u32
    } else {
        let low: u32 = (x - i32::MIN) as u32;
        low + 0x8000_0000u32
    }
}

/// The timestamp of a descriptor, where it has one.
pub open spec fn spec_timestamp(raw: i64) -> Option<i64> {
    if raw == TIMESTAMP_UNDEFINED {
        None
    } else {
        Some(raw)
    }
}

/// A video frame.
#[derive(Debug)]
pub struct VideoData {
    p_instance: VideoFrameV2,
    parent: Owner,
}

impl VideoData {
    /// The descriptor of the frame.
    pub closed spec fn spec_binding(&self) -> VideoFrameV2 {
        self.p_instance
    }

    /// Who has to release the buffer of the frame.
    pub closed spec fn spec_owner(&self) -> Owner {
        self.parent
    }

    /// The frame that the receiver captured under the ticket `recv`.
    pub fn from_binding_recv(recv: Ticket, p_instance: VideoFrameV2) -> (r: VideoData)
        ensures
            r.spec_binding() == p_instance,
            r.spec_owner() == Owner::OwnedByReceiver(recv),
    {
        VideoData { p_instance, parent: Owner::OwnedByReceiver(recv) }
    }

    /// The frame with the descriptor `p_instance` and without owner.
    pub fn from_binding(p_instance: VideoFrameV2) -> (r: VideoData)
        ensures
            r.spec_binding() == p_instance,
            r.spec_owner() == Owner::NoOwner,
    {
        VideoData { p_instance, parent: Owner::NoOwner }
    }

    /// The empty frame: no pixels, format UYVY, progressive, rate 60 over 0.
    pub fn new() -> (r: VideoData)
        ensures
            r.spec_owner() == Owner::NoOwner,
            r.spec_binding() == (VideoFrameV2 {
                xres: 0,
                yres: 0,
                four_cc: FourCCVideoType::UYVY.spec_raw() as i32,
                frame_rate_n: 60,
                frame_rate_d: 0,
                picture_aspect_ratio: 0,
                frame_format_type: FrameFormatType::Progressive.spec_raw() as i32,
                timecode: 0,
                p_data: 0,
                line_stride_in_bytes: 0,
                p_metadata: None,
                timestamp: 0,
            }),
    {
        VideoData {
            p_instance: VideoFrameV2 {
                xres: 0,
                yres: 0,
                four_cc: FourCCVideoType::UYVY.raw(),
                frame_rate_n: 60,
                frame_rate_d: 0,
                picture_aspect_ratio: 0,
                frame_format_type: FrameFormatType::Progressive.raw(),
                timecode: 0,
                p_data: 0,
                line_stride_in_bytes: 0,
                p_metadata: None,
                timestamp: 0,
            },
            parent: Owner::NoOwner,
        }
    }

    /// The descriptor, to hand to the native library.
    pub fn as_binding(&self) -> (r: &VideoFrameV2)
        ensures
            *r == self.spec_binding(),
    {
        &self.p_instance
    }

    /// Who has to release the buffer of the frame.
    pub fn owner(&self) -> (r: Owner)
        ensures
            r == self.spec_owner(),
    {
        self.parent
    }

    /// The width in pixels.
    pub fn xres(&self) -> (r: u32)
        ensures
            r == as_unsigned(self.spec_binding().xres),
    {
        to_unsigned(self.p_instance.xres)
    }

    /// The height in pixels.
    pub fn yres(&self) -> (r: u32)
        ensures
            r == as_unsigned(self.spec_binding().yres),
    {
        to_unsigned(self.p_instance.yres)
    }

    /// The pixel format, or `InvalidEnum` where the tag is unknown.
    pub fn four_cc(&self) -> (r: Result<FourCCVideoType, NDIError>)
        ensures
            match FourCCVideoType::spec_from_raw(self.spec_binding().four_cc) {
                Some(t) => r == Ok::<FourCCVideoType, NDIError>(t),
                None => r == Err::<FourCCVideoType, NDIError>(
                    NDIError::InvalidEnum(self.spec_binding().four_cc, "FourCCVideoType"),
                ),
            },
    {
        FourCCVideoType::try_from(self.p_instance.four_cc)
    }

    /// The numerator of the frame rate.
    pub fn frame_rate_n(&self) -> (r: u32)
        ensures
            r == as_unsigned(self.spec_binding().frame_rate_n),
    {
        to_unsigned(self.p_instance.frame_rate_n)
    }

    /// The denominator of the frame rate.
    pub fn frame_rate_d(&self) -> (r: u32)
        ensures
            r == as_unsigned(self.spec_binding().frame_rate_d),
    {
        to_unsigned(self.p_instance.frame_rate_d)
    }

    /// The picture aspect ratio, as the bits of a single-precision number.
    pub fn picture_aspect_ratio_bits(&self) -> (r: u32)
        ensures
            r == self.spec_binding().picture_aspect_ratio,
    {
        self.p_instance.picture_aspect_ratio
    }

    /// The frame format, or `InvalidEnum` where the tag is unknown.
    pub fn frame_format_type(&self) -> (r: Result<FrameFormatType, NDIError>)
        ensures
            match FrameFormatType::spec_from_raw(self.spec_binding().frame_format_type) {
                Some(t) => r == Ok::<FrameFormatType, NDIError>(t),
                None => r == Err::<FrameFormatType, NDIError>(
                    NDIError::InvalidEnum(
                        self.spec_binding().frame_format_type,
                        "FrameFormatType",
                    ),
                ),
            },
    {
        FrameFormatType::try_from(self.p_instance.frame_format_type)
    }

    /// The timecode in units of 100 ns.
    pub fn timecode(&self) -> (r: i64)
        ensures
            r == self.spec_binding().timecode,
    {
        self.p_instance.timecode
    }

    /// The address of the pixel data. It is valid until the frame is given
    /// up, and no longer than the handle that owns it.
    pub fn p_data(&self) -> (r: usize)
        ensures
            r == self.spec_binding().p_data,
    {
        self.p_instance.p_data
    }

    /// The stride between lines in bytes.
    pub fn line_stride_in_bytes(&self) -> (r: Option<u32>)
        ensures
            r == Some(as_unsigned(self.spec_binding().line_stride_in_bytes) as u32),
    {
        Some(to_unsigned(self.p_instance.line_stride_in_bytes))
    }

    /// The size of the data in bytes.
    pub fn data_size_in_bytes(&self) -> (r: Option<u32>)
        ensures
            r == Some(as_unsigned(self.spec_binding().line_stride_in_bytes) as u32),
    {
        Some(to_unsigned(self.p_instance.line_stride_in_bytes))
    }

    /// The number of bytes that the lines of the frame take up: the height
    /// times the stride.
    pub open spec fn spec_size_in_bytes(&self) -> int {
        as_unsigned(self.spec_binding().yres) * as_unsigned(
            self.spec_binding().line_stride_in_bytes,
        )
    }

    /// The number of bytes that the lines of the frame take up, where the
    /// machine can address that many.
    pub fn size_in_bytes(&self) -> (r: Option<usize>)
        ensures
            r == (if self.spec_size_in_bytes() <= usize::MAX {
                Some(self.spec_size_in_bytes() as usize)
            } else {
                None
            }),
    {
        let yres: u64 = to_unsigned(self.p_instance.yres) as u64;
        let stride: u64 = to_unsigned(self.p_instance.line_stride_in_bytes) as u64;
        assert(yres * stride <= 0xffff_ffff * 0xffff_ffff) by (nonlinear_arith)
            requires
                yres <= 0xffff_ffff,
                stride <= 0xffff_ffff,
        ;
        let size: u64 = yres * stride;
        if size <= usize::MAX as u64 {
            Some(size as usize)
        } else {
            None
        }
    }

    /// The metadata text of the frame: empty where the frame has none, and
    /// `InvalidUtf8` where its bytes are not valid UTF-8.
    pub fn metadata(&self) -> (r: Result<String, NDIError>)
        ensures
            is_decoded(r, spec_strict_text(bytes_view(self.spec_binding().p_metadata))),
    {
        decode(&self.p_instance.p_metadata)
    }

    /// The time at which the frame was submitted, where it is known.
    pub fn timestamp(&self) -> (r: Option<i64>)
        ensures
            r == spec_timestamp(self.spec_binding().timestamp),
    {
        let timestamp = self.p_instance.timestamp;
        if timestamp == TIMESTAMP_UNDEFINED {
            None
        } else {
            Some(timestamp)
        }
    }

    /// Gives the frame up. See [`Owner::release`].
    pub fn release(self, registry: &mut Registry) -> (r: Result<Vec<NativeCall>, NDIError>)
        requires
            old(registry).wf(),
        ensures
            final(registry).wf(),
            r is Ok == self.spec_owner().can_release(old(registry)@),
            r matches Ok(calls) ==> {
                &&& calls@ == self.spec_owner().release_calls(
                    Media::Video,
                    self.spec_binding().p_data,
                    old(registry)@,
                )
                &&& final(registry)@ == self.spec_owner().release_state(old(registry)@)
            },
            r matches Err(e) ==> e == NDIError::AlreadyReleased && final(registry)@ == old(
                registry,
            )@,
    {
        self.parent.release(Media::Video, self.p_instance.p_data, registry)
    }
}

/// The value of a 32-bit unsigned integer read as two's complement.
pub open spec fn as_signed(x: u32) -> int {
    if x < 0x8000_0000 {
        x as int
    } else {
        x - 0x1_0000_0000
    }
}

/// Reads a 32-bit unsigned integer as two's complement.
pub fn to_signed(x: u32) -> (r: i32)
    ensures
        r == as_signed(x),
        as_unsigned(r) == x,
{
    if x < 0x8000_0000 {
        x as i32
    } else {
        let low: i32 = (x - 0x8000_0000u32) as i32;
        low + i32::MIN
    }
}

/// An audio frame.
#[derive(Debug)]
pub struct AudioData {
    p_instance: AudioFrameV3,
    parent: Owner,
}

impl AudioData {
    /// The descriptor of the frame.
    pub closed spec fn spec_binding(&self) -> AudioFrameV3 {
        self.p_instance
    }

    /// Who has to release the buffer of the frame.
    pub closed spec fn spec_owner(&self) -> Owner {
        self.parent
    }

    /// The frame that the receiver captured under the ticket `recv`.
    pub fn from_binding_recv(recv: Ticket, p_instance: AudioFrameV3) -> (r: AudioData)
        ensures
            r.spec_binding() == p_instance,
            r.spec_owner() == Owner::OwnedByReceiver(recv),
    {
        AudioData { p_instance, parent: Owner::OwnedByReceiver(recv) }
    }

    /// The frame with the descriptor `p_instance` and without owner.
    pub fn from_binding(p_instance: AudioFrameV3) -> (r: AudioData)
        ensures
            r.spec_binding() == p_instance,
            r.spec_owner() == Owner::NoOwner,
    {
        AudioData { p_instance, parent: Owner::NoOwner }
    }

    /// The empty frame: no samples, format FLTP, empty metadata.
    pub fn new() -> (r: AudioData)
        ensures
            r.spec_owner() == Owner::NoOwner,
            r.spec_binding().sample_rate == 0,
            r.spec_binding().no_channels == 0,
            r.spec_binding().no_samples == 0,
            r.spec_binding().timecode == 0,
            r.spec_binding().four_cc == FourCCAudioType::FLTP.spec_raw(),
            r.spec_binding().p_data == 0,
            r.spec_binding().channel_stride_in_bytes == 0,
            bytes_view(r.spec_binding().p_metadata) == Some(Seq::<u8>::empty()),
            r.spec_binding().timestamp == 0,
    {
        AudioData {
            p_instance: AudioFrameV3 {
                sample_rate: 0,
                no_channels: 0,
                no_samples: 0,
                timecode: 0,
                four_cc: FourCCAudioType::FLTP.raw(),
                p_data: 0,
                channel_stride_in_bytes: 0,
                p_metadata: Some(Vec::new()),
                timestamp: 0,
            },
            parent: Owner::NoOwner,
        }
    }

    /// The descriptor, to hand to the native library.
    pub fn as_binding(&self) -> (r: &AudioFrameV3)
        ensures
            *r == self.spec_binding(),
    {
        &self.p_instance
    }

    /// Who has to release the buffer of the frame.
    pub fn owner(&self) -> (r: Owner)
        ensures
            r == self.spec_owner(),
    {
        self.parent
    }

    /// The sample rate.
    pub fn sample_rate(&self) -> (r: u32)
        ensures
            r == as_unsigned(self.spec_binding().sample_rate),
    {
        to_unsigned(self.p_instance.sample_rate)
    }

    /// The number of channels.
    pub fn no_channels(&self) -> (r: u32)
        ensures
            r == as_unsigned(self.spec_binding().no_channels),
    {
        to_unsigned(self.p_instance.no_channels)
    }

    /// The number of samples per channel.
    pub fn no_samples(&self) -> (r: u32)
        ensures
            r == as_unsigned(self.spec_binding().no_samples),
    {
        to_unsigned(self.p_instance.no_samples)
    }

    /// The timecode in units of 100 ns.
    pub fn timecode(&self) -> (r: i64)
        ensures
            r == self.spec_binding().timecode,
    {
        self.p_instance.timecode
    }

    /// The time at which the frame was submitted, where it is known.
    pub fn timestamp(&self) -> (r: Option<i64>)
        ensures
            r == spec_timestamp(self.spec_binding().timestamp),
    {
        let timestamp = self.p_instance.timestamp;
        if timestamp == TIMESTAMP_UNDEFINED {
            None
        } else {
            Some(timestamp)
        }
    }

    /// The address of the sample data. It is valid until the frame is given
    /// up, and no longer than the handle that owns it.
    pub fn p_data(&self) -> (r: usize)
        ensures
            r == self.spec_binding().p_data,
    {
        self.p_instance.p_data
    }

    /// The sample format, or `InvalidEnum` where the tag is unknown.
    pub fn four_cc(&self) -> (r: Result<FourCCAudioType, NDIError>)
        ensures
            match FourCCAudioType::spec_from_raw(self.spec_binding().four_cc) {
                Some(t) => r == Ok::<FourCCAudioType, NDIError>(t),
                None => r == Err::<FourCCAudioType, NDIError>(
                    NDIError::InvalidEnum(self.spec_binding().four_cc, "FourCCAudioType"),
                ),
            },
    {
        FourCCAudioType::try_from(self.p_instance.four_cc)
    }

    /// The stride between channels in bytes, or `InvalidEnum` where the tag
    /// of the sample format is unknown.
    pub fn channel_stride_in_bytes(&self) -> (r: Result<u32, NDIError>)
        ensures
            match FourCCAudioType::spec_from_raw(self.spec_binding().four_cc) {
                Some(t) => r == Ok::<u32, NDIError>(
                    as_unsigned(self.spec_binding().channel_stride_in_bytes) as u32,
                ),
                None => r == Err::<u32, NDIError>(
                    NDIError::InvalidEnum(self.spec_binding().four_cc, "FourCCAudioType"),
                ),
            },
    {
        match self.four_cc() {
            Ok(FourCCAudioType::FLTP) => Ok(to_unsigned(self.p_instance.channel_stride_in_bytes)),
            Err(e) => Err(e),
        }
    }

    /// The metadata text of the frame: empty where the frame has none, and
    /// `InvalidUtf8` where its bytes are not valid UTF-8.
    pub fn metadata(&self) -> (r: Result<String, NDIError>)
        ensures
            is_decoded(r, spec_strict_text(bytes_view(self.spec_binding().p_metadata))),
    {
        decode(&self.p_instance.p_metadata)
    }

    /// Gives the frame up. See [`Owner::release`].
    pub fn release(self, registry: &mut Registry) -> (r: Result<Vec<NativeCall>, NDIError>)
        requires
            old(registry).wf(),
        ensures
            final(registry).wf(),
            r is Ok == self.spec_owner().can_release(old(registry)@),
            r matches Ok(calls) ==> {
                &&& calls@ == self.spec_owner().release_calls(
                    Media::Audio,
                    self.spec_binding().p_data,
                    old(registry)@,
                )
                &&& final(registry)@ == self.spec_owner().release_state(old(registry)@)
            },
            r matches Err(e) ==> e == NDIError::AlreadyReleased && final(registry)@ == old(
                registry,
            )@,
    {
        self.parent.release(Media::Audio, self.p_instance.p_data, registry)
    }
}

/// A metadata frame.
#[derive(Debug)]
pub struct MetaData {
    p_instance: MetadataFrame,
    parent: Owner,
}

impl MetaData {
    /// The descriptor of the frame.
    pub closed spec fn spec_binding(&self) -> MetadataFrame {
        self.p_instance
    }

    /// Who has to release the buffer of the frame.
    pub closed spec fn spec_owner(&self) -> Owner {
        self.parent
    }

    /// The frame that the receiver captured under the ticket `recv`.
    pub fn from_binding_recv(recv: Ticket, p_instance: MetadataFrame) -> (r: MetaData)
        ensures
            r.spec_binding() == p_instance,
            r.spec_owner() == Owner::OwnedByReceiver(recv),
    {
        MetaData { p_instance, parent: Owner::OwnedByReceiver(recv) }
    }

    /// The frame that the sender captured under the ticket `send`.
    pub fn from_binding_send(send: Ticket, p_instance: MetadataFrame) -> (r: MetaData)
        ensures
            r.spec_binding() == p_instance,
            r.spec_owner() == Owner::OwnedBySender(send),
    {
        MetaData { p_instance, parent: Owner::OwnedBySender(send) }
    }

    /// The frame with the descriptor `p_instance` and without owner.
    pub fn from_binding(p_instance: MetadataFrame) -> (r: MetaData)
        ensures
            r.spec_binding() == p_instance,
            r.spec_owner() == Owner::NoOwner,
    {
        MetaData { p_instance, parent: Owner::NoOwner }
    }

    /// The frame without owner that carries the text `data`. A text with a
    /// zero byte is refused, since the native library would cut it short.
    pub fn new(length: u32, timecode: i64, data: String) -> (r: Result<MetaData, NDIError>)
        ensures
            match r {
                Ok(m) => {
                    &&& !has_nul(encode_utf8(data@))
                    &&& m.spec_owner() == Owner::NoOwner
                    &&& m.spec_binding().length == as_signed(length)
                    &&& m.spec_binding().timecode == timecode
                    &&& m.spec_binding().p_data == 0
                    &&& m.spec_binding().data@ == encode_utf8(data@)
                },
                Err(e) => {
                    &&& has_nul(encode_utf8(data@))
                    &&& e == NDIError::InteriorNul
                },
            },
    {
        if contains_nul(&data) {
            return Err(NDIError::InteriorNul);
        }
        let p_instance = MetadataFrame {
            length: to_signed(length),
            timecode,
            p_data: 0,
            data: encode(&data),
        };
        Ok(MetaData { p_instance, parent: Owner::NoOwner })
    }

    /// The descriptor, to hand to the native library.
    pub fn as_binding(&self) -> (r: &MetadataFrame)
        ensures
            *r == self.spec_binding(),
    {
        &self.p_instance
    }

    /// Who has to release the buffer of the frame.
    pub fn owner(&self) -> (r: Owner)
        ensures
            r == self.spec_owner(),
    {
        self.parent
    }

    /// The length of the text in bytes with its terminator, or 0 where the
    /// terminator alone ends it.
    pub fn length(&self) -> (r: u32)
        ensures
            r == as_unsigned(self.spec_binding().length),
    {
        to_unsigned(self.p_instance.length)
    }

    /// The timecode in units of 100 ns.
    pub fn timecode(&self) -> (r: i64)
        ensures
            r == self.spec_binding().timecode,
    {
        self.p_instance.timecode
    }

    /// The text of the frame, or `InvalidUtf8` where its bytes are not valid
    /// UTF-8.
    pub fn data(&self) -> (r: Result<String, NDIError>)
        ensures
            is_decoded(r, spec_strict_bytes(self.spec_binding().data@)),
    {
        decode_bytes(&self.p_instance.data)
    }

    /// Gives the frame up. See [`Owner::release`].
    pub fn release(self, registry: &mut Registry) -> (r: Result<Vec<NativeCall>, NDIError>)
        requires
            old(registry).wf(),
        ensures
            final(registry).wf(),
            r is Ok == self.spec_owner().can_release(old(registry)@),
            r matches Ok(calls) ==> {
                &&& calls@ == self.spec_owner().release_calls(
                    Media::Metadata,
                    self.spec_binding().p_data,
                    old(registry)@,
                )
                &&& final(registry)@ == self.spec_owner().release_state(old(registry)@)
            },
            r matches Err(e) ==> e == NDIError::AlreadyReleased && final(registry)@ == old(
                registry,
            )@,
    {
        self.parent.release(Media::Metadata, self.p_instance.p_data, registry)
    }
}

} // verus!
