//! The receiver: its configuration, its connection state, and what becomes of
//! the frames that it captures.

use vstd::prelude::*;
use crate::bindings::AudioFrameV3;
use crate::bindings::MetadataFrame;
use crate::bindings::RecvCreateV3T;
use crate::bindings::RecvPerformanceT;
use crate::bindings::RecvQueueT;
use crate::bindings::SourceT;
use crate::bindings::VideoFrameV2;
use crate::error::NDIError;
use crate::frame::as_unsigned;
use crate::frame::to_unsigned;
use crate::frame::AudioData;
use crate::frame::MetaData;
use crate::frame::Owner;
use crate::frame::VideoData;
use crate::internal::close_calls;
use crate::internal::close_handle;
use crate::internal::HandleKind;
use crate::internal::Media;
use crate::internal::NativeCall;
use crate::internal::Registry;
use crate::internal::RegistryState;
use crate::source::source_view;
use crate::source::SourceView;
use crate::source::Source;
use crate::source::Tally;
use crate::tags::FrameType;
use crate::text::copy_text;
use crate::text::spec_text_has_nul;
use crate::text::text_has_nul;

verus! {

/// Frame counts of a receiver, in total or dropped.
#[derive(Debug, Clone, Copy, Hash, PartialEq, Eq, Structural)]
pub struct RecvPerformance {
    /// The number of video frames.
    pub video_frames: i64,
    /// The number of audio frames.
    pub audio_frames: i64,
    /// The number of metadata frames.
    pub metadata_frames: i64,
}

impl RecvPerformance {
    /// The counts that the native counts `perf` stand for.
    pub open spec fn spec_from_binding(perf: RecvPerformanceT) -> RecvPerformance {
        RecvPerformance {
            video_frames: perf.video_frames,
            audio_frames: perf.audio_frames,
            metadata_frames: perf.metadata_frames,
        }
    }

    /// The counts that the native counts `perf` stand for.
    pub fn from_binding(perf: RecvPerformanceT) -> (r: RecvPerformance)
        ensures
            r == RecvPerformance::spec_from_binding(perf),
    {
        RecvPerformance {
            video_frames: perf.video_frames,
            audio_frames: perf.audio_frames,
            metadata_frames: perf.metadata_frames,
        }
    }
}

impl Default for RecvPerformance {
    fn default() -> (r: RecvPerformance)
        ensures
            r == (RecvPerformance { video_frames: 0, audio_frames: 0, metadata_frames: 0 }),
    {
        RecvPerformance { video_frames: 0, audio_frames: 0, metadata_frames: 0 }
    }
}

/// The color formats in which a receiver hands out video: the first where the
/// source has no alpha channel, the second where it has one.
#[derive(Debug, Clone, Copy, PartialEq, Eq, Structural)]
#[allow(non_camel_case_types)]
pub enum RecvColorFormat {
    /// BGRX or BGRA.
    BGRX_BGRA,
    /// UYVY or BGRA.
    UYVY_BGRA,
    /// RGBX or RGBA.
    RGBX_RGBA,
    /// UYVY or RGBA.
    UYVY_RGBA,
    /// The format that the native library works in, without conversion.
    Fastest,
    /// The format closest to the precision of the codec.
    Best,
}

impl RecvColorFormat {
    /// The native tag of each variant.
    pub open spec fn spec_raw(self) -> int {
        match self {
            RecvColorFormat::BGRX_BGRA => 0,
            RecvColorFormat::UYVY_BGRA => 1,
            RecvColorFormat::RGBX_RGBA => 2,
            RecvColorFormat::UYVY_RGBA => 3,
            RecvColorFormat::Fastest => 100,
            RecvColorFormat::Best => 101,
        }
    }

    /// The native tag of this variant.
    pub fn raw(self) -> (r: i32)
        ensures
            r == self.spec_raw(),
    {
        match self {
            RecvColorFormat::BGRX_BGRA => 0,
            RecvColorFormat::UYVY_BGRA => 1,
            RecvColorFormat::RGBX_RGBA => 2,
            RecvColorFormat::UYVY_RGBA => 3,
            RecvColorFormat::Fastest => 100,
            RecvColorFormat::Best => 101,
        }
    }
}

/// How much of a stream a receiver asks for.
#[derive(Debug, Clone, Copy, PartialEq, Eq, Structural)]
pub enum RecvBandwidth {
    /// Metadata only.
    MetadataOnly,
    /// Metadata and audio.
    AudioOnly,
    /// Metadata, audio and video at reduced bandwidth and resolution.
    Lowest,
    /// Metadata, audio and video at full resolution.
    Highest,
}

impl RecvBandwidth {
    /// The native tag of each variant.
    pub open spec fn spec_raw(self) -> int {
        match self {
            RecvBandwidth::MetadataOnly => -10,
            RecvBandwidth::AudioOnly => 10,
            RecvBandwidth::Lowest => 0,
            RecvBandwidth::Highest => 100,
        }
    }

    /// The native tag of this variant.
    pub fn raw(self) -> (r: i32)
        ensures
            r == self.spec_raw(),
    {
        match self {
            RecvBandwidth::MetadataOnly => -10,
            RecvBandwidth::AudioOnly => 10,
            RecvBandwidth::Lowest => 0,
            RecvBandwidth::Highest => 100,
        }
    }
}

/// The configuration of a receiver. What is left open takes its default.
#[derive(Debug, Clone)]
pub struct RecvBuilder {
    source_to_connect_to: Option<Source>,
    color_format: Option<RecvColorFormat>,
    bandwidth: Option<RecvBandwidth>,
    allow_video_fields: Option<bool>,
    ndi_recv_name: Option<String>,
}

impl RecvBuilder {
    /// The source chosen, if any.
    pub closed spec fn spec_source(&self) -> Option<SourceView> {
        match self.source_to_connect_to {
            Some(source) => Some(source@),
            None => None,
        }
    }

    /// The color format chosen, if any.
    pub closed spec fn spec_color_format(&self) -> Option<RecvColorFormat> {
        self.color_format
    }

    /// The bandwidth chosen, if any.
    pub closed spec fn spec_bandwidth(&self) -> Option<RecvBandwidth> {
        self.bandwidth
    }

    /// The choice on fielded video, if any.
    pub closed spec fn spec_allow_video_fields(&self) -> Option<bool> {
        self.allow_video_fields
    }

    /// The name chosen, if any.
    pub closed spec fn spec_name(&self) -> Option<String> {
        self.ndi_recv_name
    }

    /// The tag of the color format that creation gets: the one chosen, else
    /// that of `UYVY_BGRA`.
    pub open spec fn spec_color_format_raw(&self) -> int {
        match self.spec_color_format() {
            Some(c) => c.spec_raw(),
            None => RecvColorFormat::UYVY_BGRA.spec_raw(),
        }
    }

    /// The tag of the bandwidth that creation gets: the one chosen, else
    /// that of `Highest`.
    pub open spec fn spec_bandwidth_raw(&self) -> int {
        match self.spec_bandwidth() {
            Some(b) => b.spec_raw(),
            None => RecvBandwidth::Highest.spec_raw(),
        }
    }

    /// Whether the configuration is refused: the name, or the name or the
    /// address of the source, holds a zero byte, so that the native library
    /// cannot take it.
    pub open spec fn spec_refused(&self) -> bool {
        spec_text_has_nul(self.spec_name()) || match self.spec_source() {
            Some(source) => source.has_nul(),
            None => false,
        }
    }

    /// Whether nothing is chosen.
    pub open spec fn spec_is_default(&self) -> bool {
        &&& self.spec_source().is_none()
        &&& self.spec_color_format().is_none()
        &&& self.spec_bandwidth().is_none()
        &&& self.spec_allow_video_fields().is_none()
        &&& self.spec_name().is_none()
    }

    /// The configuration with nothing chosen is never refused: it builds a
    /// disconnected receiver from every handle that is not null and not live
    /// already. Creation gets the color format `UYVY_BGRA` and the bandwidth
    /// `Highest`.
    pub proof fn law_default_builds(
        self,
        r: Result<Recv, NDIError>,
        before: RegistryState,
        after: RegistryState,
        instance: usize,
    )
        requires
            self.spec_is_default(),
            before.wf(),
            instance != 0,
            !before.is_live(instance),
            !self.spec_refused() ==> Recv::spec_created(r, before, after, instance),
        ensures
            !self.spec_refused(),
            self.spec_color_format_raw() == RecvColorFormat::UYVY_BGRA.spec_raw(),
            self.spec_bandwidth_raw() == RecvBandwidth::Highest.spec_raw(),
            r matches Ok(recv) && recv.spec_instance() == instance && !recv.spec_connected(),
            after.is_held(instance),
    {
        Recv::law_fresh_handle_is_created(r, before, after, instance);
    }

    /// The configuration with nothing chosen.
    pub fn new() -> (r: RecvBuilder)
        ensures
            r.spec_source().is_none(),
            r.spec_color_format().is_none(),
            r.spec_bandwidth().is_none(),
            r.spec_allow_video_fields().is_none(),
            r.spec_name().is_none(),
    {
        RecvBuilder {
            source_to_connect_to: None,
            color_format: None,
            bandwidth: None,
            allow_video_fields: None,
            ndi_recv_name: None,
        }
    }

    /// Chooses the source to connect to at once.
    pub fn source_to_connect_to(self, source: Source) -> (r: RecvBuilder)
        ensures
            r.spec_source() == Some(source@),
            r.spec_color_format() == self.spec_color_format(),
            r.spec_bandwidth() == self.spec_bandwidth(),
            r.spec_allow_video_fields() == self.spec_allow_video_fields(),
            r.spec_name() == self.spec_name(),
    {
        let mut this = self;
        this.source_to_connect_to = Some(source);
        this
    }

    /// Chooses the color format.
    pub fn color_format(self, color_format: RecvColorFormat) -> (r: RecvBuilder)
        ensures
            r.spec_color_format() == Some(color_format),
            r.spec_source() == self.spec_source(),
            r.spec_bandwidth() == self.spec_bandwidth(),
            r.spec_allow_video_fields() == self.spec_allow_video_fields(),
            r.spec_name() == self.spec_name(),
    {
        let mut this = self;
        this.color_format = Some(color_format);
        this
    }

    /// Chooses the bandwidth.
    pub fn bandwidth(self, bandwidth: RecvBandwidth) -> (r: RecvBuilder)
        ensures
            r.spec_bandwidth() == Some(bandwidth),
            r.spec_source() == self.spec_source(),
            r.spec_color_format() == self.spec_color_format(),
            r.spec_allow_video_fields() == self.spec_allow_video_fields(),
            r.spec_name() == self.spec_name(),
    {
        let mut this = self;
        this.bandwidth = Some(bandwidth);
        this
    }

    /// Chooses whether fielded video is passed on as it is (`true`) or
    /// de-interlaced first (`false`).
    pub fn allow_video_fields(self, allow_video_fields: bool) -> (r: RecvBuilder)
        ensures
            r.spec_allow_video_fields() == Some(allow_video_fields),
            r.spec_source() == self.spec_source(),
            r.spec_color_format() == self.spec_color_format(),
            r.spec_bandwidth() == self.spec_bandwidth(),
            r.spec_name() == self.spec_name(),
    {
        let mut this = self;
        this.allow_video_fields = Some(allow_video_fields);
        this
    }

    /// Chooses the name of the receiver.
    pub fn ndi_recv_name(self, ndi_recv_name: String) -> (r: RecvBuilder)
        ensures
            r.spec_name() == Some(ndi_recv_name),
            r.spec_source() == self.spec_source(),
            r.spec_color_format() == self.spec_color_format(),
            r.spec_bandwidth() == self.spec_bandwidth(),
            r.spec_allow_video_fields() == self.spec_allow_video_fields(),
    {
        let mut this = self;
        this.ndi_recv_name = Some(ndi_recv_name);
        this
    }

    /// The settings that creation gets: each choice, or its default. A name
    /// or a source with a zero byte is refused.
    pub fn settings(&self) -> (r: Result<RecvCreateV3T, NDIError>)
        ensures
            r is Err == self.spec_refused(),
            r matches Err(e) ==> e == NDIError::InteriorNul,
            r matches Ok(s) ==> {
                &&& source_view(s.source_to_connect_to) == match self.spec_source() {
                    Some(src) => src,
                    None => SourceView { name: None, address: None },
                }
                &&& s.color_format == self.spec_color_format_raw()
                &&& s.bandwidth == self.spec_bandwidth_raw()
                &&& s.allow_video_fields == match self.spec_allow_video_fields() {
                    Some(a) => a,
                    None => true,
                }
                &&& s.p_ndi_recv_name == self.spec_name()
            },
    {
        if self.refused() {
            return Err(NDIError::InteriorNul);
        }
        let source_to_connect_to = match &self.source_to_connect_to {
            Some(src) => src.to_binding(),
            None => SourceT { p_ndi_name: None, p_url_address: None },
        };
        let color_format = match self.color_format {
            Some(c) => c.raw(),
            None => RecvColorFormat::UYVY_BGRA.raw(),
        };
        let bandwidth = match self.bandwidth {
            Some(b) => b.raw(),
            None => RecvBandwidth::Highest.raw(),
        };
        let allow_video_fields = match self.allow_video_fields {
            Some(a) => a,
            None => true,
        };
        Ok(
            RecvCreateV3T {
                source_to_connect_to,
                color_format,
                bandwidth,
                allow_video_fields,
                p_ndi_recv_name: copy_text(&self.ndi_recv_name),
            },
        )
    }

    /// Whether the configuration is refused.
    fn refused(&self) -> (r: bool)
        ensures
            r == self.spec_refused(),
    {
        if text_has_nul(&self.ndi_recv_name) {
            return true;
        }
        match &self.source_to_connect_to {
            Some(source) => source.holds_nul(),
            None => false,
        }
    }

    /// Makes the receiver of the instance that the native library created
    /// from these settings. A configuration that `settings` refuses builds
    /// nothing: the error is `InteriorNul` and the registry stays as it is.
    /// Otherwise as [`Recv::new`].
    pub fn build(self, registry: &mut Registry, instance: usize) -> (r: Result<Recv, NDIError>)
        requires
            old(registry).wf(),
        ensures
            final(registry).wf(),
            self.spec_refused() ==> r == Err::<Recv, NDIError>(NDIError::InteriorNul)
                && final(registry)@ == old(registry)@,
            !self.spec_refused() ==> Recv::spec_created(
                r,
                old(registry)@,
                final(registry)@,
                instance,
            ),
    {
        if self.refused() {
            return Err(NDIError::InteriorNul);
        }
        Recv::new(registry, instance)
    }
}

/// The depths of the queues of a receiver.
#[derive(Debug, Clone, Copy, PartialEq, Eq, Structural)]
pub struct RecvQueueSize {
    /// The number of video frames.
    pub video_frames: u32,
    /// The number of audio frames.
    pub audio_frames: u32,
    /// The number of metadata frames.
    pub metadata_frames: u32,
}

impl RecvQueueSize {
    /// The empty queues.
    pub fn new() -> (r: RecvQueueSize)
        ensures
            r == (RecvQueueSize { video_frames: 0, audio_frames: 0, metadata_frames: 0 }),
    {
        RecvQueueSize { video_frames: 0, audio_frames: 0, metadata_frames: 0 }
    }

    /// The depths that the native depths `queue` stand for.
    pub open spec fn spec_from_binding(queue: RecvQueueT) -> RecvQueueSize {
        RecvQueueSize {
            video_frames: as_unsigned(queue.video_frames) as u32,
            audio_frames: as_unsigned(queue.audio_frames) as u32,
            metadata_frames: as_unsigned(queue.metadata_frames) as u32,
        }
    }

    /// The depths that the native depths `queue` stand for.
    pub fn from_binding(queue: RecvQueueT) -> (r: RecvQueueSize)
        ensures
            r == RecvQueueSize::spec_from_binding(queue),
    {
        RecvQueueSize {
            video_frames: to_unsigned(queue.video_frames),
            audio_frames: to_unsigned(queue.audio_frames),
            metadata_frames: to_unsigned(queue.metadata_frames),
        }
    }
}

/// What one capture call produced: the kind of frame, and the frame of that
/// kind alone.
#[derive(Debug)]
pub struct Capture {
    /// What arrived.
    pub frame_type: FrameType,
    /// The video frame, where one arrived.
    pub video: Option<VideoData>,
    /// The audio frame, where one arrived.
    pub audio: Option<AudioData>,
    /// The metadata frame, where one arrived.
    pub metadata: Option<MetaData>,
}

/// A receiver.
#[derive(Debug)]
pub struct Recv {
    p_instance: usize,
    connection: Option<Source>,
    tally: Tally,
}

impl Recv {
    /// The native handle of the receiver.
    pub closed spec fn spec_instance(&self) -> usize {
        self.p_instance
    }

    /// The source that the receiver was told to connect to last, unless it
    /// was told to disconnect since.
    pub closed spec fn spec_connection(&self) -> Option<SourceView> {
        match self.connection {
            Some(source) => Some(source@),
            None => None,
        }
    }

    /// Whether the receiver was told to connect and not to disconnect since.
    pub open spec fn spec_connected(&self) -> bool {
        self.spec_connection().is_some()
    }

    /// The tally flags that the receiver was told last.
    pub closed spec fn spec_tally(&self) -> Tally {
        self.tally
    }

    /// What creation from the handle `instance` yields: no receiver where the
    /// handle is null or live already; else a disconnected receiver with both
    /// tally flags off, whose handle entered the registry.
    pub open spec fn spec_created(
        r: Result<Recv, NDIError>,
        before: RegistryState,
        after: RegistryState,
        instance: usize,
    ) -> bool {
        if before.can_adopt(instance) {
            &&& r matches Ok(recv)
            &&& recv.spec_instance() == instance
            &&& !recv.spec_connected()
            &&& recv.spec_tally() == (Tally { on_program: false, on_preview: false })
            &&& after == before.adopt(instance, HandleKind::Recv)
        } else {
            &&& r matches Err(e)
            &&& e == NDIError::RecvCreateError
            &&& after == before
        }
    }

    /// Creation succeeds for every handle that is not null and not live
    /// already, whatever else the registry holds: the receiver comes back
    /// disconnected, and its handle is live with one reference, that of the
    /// receiver.
    pub proof fn law_fresh_handle_is_created(
        r: Result<Recv, NDIError>,
        before: RegistryState,
        after: RegistryState,
        instance: usize,
    )
        requires
            before.wf(),
            instance != 0,
            !before.is_live(instance),
            Recv::spec_created(r, before, after, instance),
        ensures
            r matches Ok(recv) && !recv.spec_connected(),
            after.wf(),
            after.is_held(instance),
            after.references(instance) == 1,
    {
        before.lemma_adopt(instance, HandleKind::Recv);
    }

    /// Makes the receiver of the instance that the native library created.
    /// A null handle means that creation failed.
    pub fn new(registry: &mut Registry, instance: usize) -> (r: Result<Recv, NDIError>)
        requires
            old(registry).wf(),
        ensures
            final(registry).wf(),
            Recv::spec_created(r, old(registry)@, final(registry)@, instance),
    {
        if registry.adopt(instance, HandleKind::Recv) {
            Ok(Recv { p_instance: instance, connection: None, tally: Tally::new() })
        } else {
            Err(NDIError::RecvCreateError)
        }
    }

    /// The native handle, for the calls that only read it.
    pub fn instance(&self) -> (r: usize)
        ensures
            r == self.spec_instance(),
    {
        self.p_instance
    }

    /// Whether the receiver was told to connect and not to disconnect since.
    pub fn connected(&self) -> (r: bool)
        ensures
            r == self.spec_connected(),
    {
        self.connection.is_some()
    }

    /// The source that the receiver is connected to, if any.
    pub fn connection(&self) -> (r: &Option<Source>)
        ensures
            match *r {
                Some(source) => self.spec_connection() == Some(source@),
                None => self.spec_connection().is_none(),
            },
    {
        &self.connection
    }

    /// The tally flags that the receiver was told last.
    pub fn tally(&self) -> (r: Tally)
        ensures
            r == self.spec_tally(),
    {
        self.tally
    }

    /// Connects to `source`, from whatever state: a connected receiver
    /// switches over. Returns the call to make with the descriptor of the
    /// connection.
    pub fn connect(&mut self, source: &Source) -> (r: NativeCall)
        ensures
            r == (NativeCall::RecvConnect { instance: old(self).spec_instance() }),
            final(self).spec_connection() == Some(source@),
            final(self).spec_instance() == old(self).spec_instance(),
            final(self).spec_tally() == old(self).spec_tally(),
    {
        self.connection = Some(Source::copy_of(source.as_binding()));
        NativeCall::RecvConnect { instance: self.p_instance }
    }

    /// Disconnects from every source. Returns the call to make.
    pub fn disconnect(&mut self) -> (r: NativeCall)
        ensures
            r == (NativeCall::RecvDisconnect { instance: old(self).spec_instance() }),
            final(self).spec_connection().is_none(),
            final(self).spec_instance() == old(self).spec_instance(),
            final(self).spec_tally() == old(self).spec_tally(),
    {
        self.connection = None;
        NativeCall::RecvDisconnect { instance: self.p_instance }
    }

    /// The call that waits up to `timeout_ms` for a frame of any kind.
    pub fn request_all(&self, timeout_ms: u32) -> (r: NativeCall)
        ensures
            r == (NativeCall::RecvCapture {
                instance: self.spec_instance(),
                video: true,
                audio: true,
                metadata: true,
                timeout_in_ms: timeout_ms,
            }),
    {
        NativeCall::RecvCapture {
            instance: self.p_instance,
            video: true,
            audio: true,
            metadata: true,
            timeout_in_ms: timeout_ms,
        }
    }

    /// The call that waits up to `timeout_ms` for a frame of the kind
    /// `media` alone. Calls for different kinds may run at the same time.
    pub fn request(&self, media: Media, timeout_ms: u32) -> (r: NativeCall)
        ensures
            r == (NativeCall::RecvCapture {
                instance: self.spec_instance(),
                video: media == Media::Video,
                audio: media == Media::Audio,
                metadata: media == Media::Metadata,
                timeout_in_ms: timeout_ms,
            }),
    {
        NativeCall::RecvCapture {
            instance: self.p_instance,
            video: media == Media::Video,
            audio: media == Media::Audio,
            metadata: media == Media::Metadata,
            timeout_in_ms: timeout_ms,
        }
    }

    /// Whether `v` is the frame that a capture on this receiver makes of the
    /// descriptor `raw` in the registry `before`.
    pub open spec fn captured_video(
        &self,
        v: Option<VideoData>,
        raw: VideoFrameV2,
        before: RegistryState,
    ) -> bool {
        &&& v matches Some(f)
        &&& f.spec_binding() == raw
        &&& f.spec_owner() == Owner::OwnedByReceiver(before.next_ticket(self.spec_instance()))
    }

    /// Whether `a` is the frame that a capture on this receiver makes of the
    /// descriptor `raw` in the registry `before`.
    pub open spec fn captured_audio(
        &self,
        a: Option<AudioData>,
        raw: AudioFrameV3,
        before: RegistryState,
    ) -> bool {
        &&& a matches Some(f)
        &&& f.spec_binding() == raw
        &&& f.spec_owner() == Owner::OwnedByReceiver(before.next_ticket(self.spec_instance()))
    }

    /// Whether `m` is the frame that a capture on this receiver makes of the
    /// descriptor `raw` in the registry `before`.
    pub open spec fn captured_metadata(
        &self,
        m: Option<MetaData>,
        raw: MetadataFrame,
        before: RegistryState,
    ) -> bool {
        &&& m matches Some(f)
        &&& f.spec_binding() == raw
        &&& f.spec_owner() == Owner::OwnedByReceiver(before.next_ticket(self.spec_instance()))
    }

    /// The registry after a capture that produced `t`: a frame is one more
    /// reference to the receiver's handle, anything else changes nothing.
    pub open spec fn registry_after(&self, t: FrameType, before: RegistryState) -> RegistryState {
        if t == FrameType::Video || t == FrameType::Audio || t == FrameType::Metadata {
            before.issue(self.spec_instance())
        } else {
            before
        }
    }

    /// Takes in what a capture of every kind returned: the tag `frame_type`
    /// and the three descriptors, of which the native library filled the one
    /// that the tag names. The frame of that kind is handed out, owned by
    /// this receiver; the other two stay absent. `Nothing` means that the
    /// time ran out and is no error. An unknown tag is `InvalidEnum`, and a
    /// receiver whose handle is not in `registry` is `AlreadyReleased`.
    pub fn capture_all(
        &self,
        registry: &mut Registry,
        frame_type: i32,
        video: VideoFrameV2,
        audio: AudioFrameV3,
        metadata: MetadataFrame,
    ) -> (r: Result<Capture, NDIError>)
        requires
            old(registry).wf(),
            old(registry).spec_has_room(),
        ensures
            final(registry).wf(),
            !old(registry)@.is_live(self.spec_instance()) ==> r == Err::<Capture, NDIError>(
                NDIError::AlreadyReleased,
            ) && final(registry)@ == old(registry)@,
            old(registry)@.is_live(self.spec_instance()) ==> match FrameType::spec_from_raw(
                frame_type,
            ) {
                None => r == Err::<Capture, NDIError>(
                    NDIError::InvalidEnum(frame_type, "FrameType"),
                ) && final(registry)@ == old(registry)@,
                Some(t) => {
                    &&& r matches Ok(c)
                    &&& c.frame_type == t
                    &&& final(registry)@ == self.registry_after(t, old(registry)@)
                    &&& if t == FrameType::Video {
                        self.captured_video(c.video, video, old(registry)@)
                    } else {
                        c.video.is_none()
                    }
                    &&& if t == FrameType::Audio {
                        self.captured_audio(c.audio, audio, old(registry)@)
                    } else {
                        c.audio.is_none()
                    }
                    &&& if t == FrameType::Metadata {
                        self.captured_metadata(c.metadata, metadata, old(registry)@)
                    } else {
                        c.metadata.is_none()
                    }
                },
            },
    {
        if !registry.is_live(self.p_instance) {
            return Err(NDIError::AlreadyReleased);
        }
        let t = match FrameType::try_from(frame_type) {
            Ok(t) => t,
            Err(e) => {
                return Err(e);
            },
        };
        let mut out = Capture { frame_type: t, video: None, audio: None, metadata: None };
        match t {
            FrameType::Video => {
                let ticket = registry.issue(self.p_instance).unwrap();
                out.video = Some(VideoData::from_binding_recv(ticket, video));
            },
            FrameType::Audio => {
                let ticket = registry.issue(self.p_instance).unwrap();
                out.audio = Some(AudioData::from_binding_recv(ticket, audio));
            },
            FrameType::Metadata => {
                let ticket = registry.issue(self.p_instance).unwrap();
                out.metadata = Some(MetaData::from_binding_recv(ticket, metadata));
            },
            _ => {},
        }
        Ok(out)
    }

    /// Takes in what a capture of video alone returned: the tag and the
    /// descriptor. The frame is handed out, owned by this receiver, exactly
    /// where the tag says that video arrived. Errors as in
    /// [`Recv::capture_all`].
    pub fn capture_video(&self, registry: &mut Registry, frame_type: i32, video: VideoFrameV2) -> (r:
        Result<(FrameType, Option<VideoData>), NDIError>)
        requires
            old(registry).wf(),
            old(registry).spec_has_room(),
        ensures
            final(registry).wf(),
            !old(registry)@.is_live(self.spec_instance()) ==> r == Err::<
                (FrameType, Option<VideoData>),
                NDIError,
            >(NDIError::AlreadyReleased) && final(registry)@ == old(registry)@,
            old(registry)@.is_live(self.spec_instance()) ==> match FrameType::spec_from_raw(
                frame_type,
            ) {
                None => r == Err::<(FrameType, Option<VideoData>), NDIError>(
                    NDIError::InvalidEnum(frame_type, "FrameType"),
                ) && final(registry)@ == old(registry)@,
                Some(t) => {
                    &&& r matches Ok(c)
                    &&& c.0 == t
                    &&& if t == FrameType::Video {
                        &&& self.captured_video(c.1, video, old(registry)@)
                        &&& final(registry)@ == old(registry)@.issue(self.spec_instance())
                    } else {
                        &&& c.1.is_none()
                        &&& final(registry)@ == old(registry)@
                    }
                },
            },
    {
        if !registry.is_live(self.p_instance) {
            return Err(NDIError::AlreadyReleased);
        }
        let t = match FrameType::try_from(frame_type) {
            Ok(t) => t,
            Err(e) => {
                return Err(e);
            },
        };
        match t {
            FrameType::Video => {
                let ticket = registry.issue(self.p_instance).unwrap();
                Ok((t, Some(VideoData::from_binding_recv(ticket, video))))
            },
            _ => Ok((t, None)),
        }
    }

    /// Takes in what a capture of audio alone returned: the tag and the
    /// descriptor. The frame is handed out, owned by this receiver, exactly
    /// where the tag says that audio arrived. Errors as in
    /// [`Recv::capture_all`].
    pub fn capture_audio(&self, registry: &mut Registry, frame_type: i32, audio: AudioFrameV3) -> (r:
        Result<(FrameType, Option<AudioData>), NDIError>)
        requires
            old(registry).wf(),
            old(registry).spec_has_room(),
        ensures
            final(registry).wf(),
            !old(registry)@.is_live(self.spec_instance()) ==> r == Err::<
                (FrameType, Option<AudioData>),
                NDIError,
            >(NDIError::AlreadyReleased) && final(registry)@ == old(registry)@,
            old(registry)@.is_live(self.spec_instance()) ==> match FrameType::spec_from_raw(
                frame_type,
            ) {
                None => r == Err::<(FrameType, Option<AudioData>), NDIError>(
                    NDIError::InvalidEnum(frame_type, "FrameType"),
                ) && final(registry)@ == old(registry)@,
                Some(t) => {
                    &&& r matches Ok(c)
                    &&& c.0 == t
                    &&& if t == FrameType::Audio {
                        &&& self.captured_audio(c.1, audio, old(registry)@)
                        &&& final(registry)@ == old(registry)@.issue(self.spec_instance())
                    } else {
                        &&& c.1.is_none()
                        &&& final(registry)@ == old(registry)@
                    }
                },
            },
    {
        if !registry.is_live(self.p_instance) {
            return Err(NDIError::AlreadyReleased);
        }
        let t = match FrameType::try_from(frame_type) {
            Ok(t) => t,
            Err(e) => {
                return Err(e);
            },
        };
        match t {
            FrameType::Audio => {
                let ticket = registry.issue(self.p_instance).unwrap();
                Ok((t, Some(AudioData::from_binding_recv(ticket, audio))))
            },
            _ => Ok((t, None)),
        }
    }

    /// Takes in what a capture of metadata alone returned: the tag and the
    /// descriptor. The frame is handed out, owned by this receiver, exactly
    /// where the tag says that metadata arrived. Errors as in
    /// [`Recv::capture_all`].
    pub fn capture_metadata(&self, registry: &mut Registry, frame_type: i32, metadata: MetadataFrame) -> (r:
        Result<(FrameType, Option<MetaData>), NDIError>)
        requires
            old(registry).wf(),
            old(registry).spec_has_room(),
        ensures
            final(registry).wf(),
            !old(registry)@.is_live(self.spec_instance()) ==> r == Err::<
                (FrameType, Option<MetaData>),
                NDIError,
            >(NDIError::AlreadyReleased) && final(registry)@ == old(registry)@,
            old(registry)@.is_live(self.spec_instance()) ==> match FrameType::spec_from_raw(
                frame_type,
            ) {
                None => r == Err::<(FrameType, Option<MetaData>), NDIError>(
                    NDIError::InvalidEnum(frame_type, "FrameType"),
                ) && final(registry)@ == old(registry)@,
                Some(t) => {
                    &&& r matches Ok(c)
                    &&& c.0 == t
                    &&& if t == FrameType::Metadata {
                        &&& self.captured_metadata(c.1, metadata, old(registry)@)
                        &&& final(registry)@ == old(registry)@.issue(self.spec_instance())
                    } else {
                        &&& c.1.is_none()
                        &&& final(registry)@ == old(registry)@
                    }
                },
            },
    {
        if !registry.is_live(self.p_instance) {
            return Err(NDIError::AlreadyReleased);
        }
        let t = match FrameType::try_from(frame_type) {
            Ok(t) => t,
            Err(e) => {
                return Err(e);
            },
        };
        match t {
            FrameType::Metadata => {
                let ticket = registry.issue(self.p_instance).unwrap();
                Ok((t, Some(MetaData::from_binding_recv(ticket, metadata))))
            },
            _ => Ok((t, None)),
        }
    }

    /// The counts of frames, in total and dropped, that the native counts
    /// stand for.
    pub fn get_performance(&self, total: RecvPerformanceT, dropped: RecvPerformanceT) -> (r: (
        RecvPerformance,
        RecvPerformance,
    ))
        ensures
            r.0 == RecvPerformance::spec_from_binding(total),
            r.1 == RecvPerformance::spec_from_binding(dropped),
    {
        (RecvPerformance::from_binding(total), RecvPerformance::from_binding(dropped))
    }

    /// The queue depths that the native depths stand for.
    pub fn get_queue(&self, queue: RecvQueueT) -> (r: RecvQueueSize)
        ensures
            r == RecvQueueSize::spec_from_binding(queue),
    {
        RecvQueueSize::from_binding(queue)
    }

    /// The number of sources that feed the receiver, from the native count.
    pub fn get_no_connections(&self, count: i32) -> (r: u32)
        ensures
            r == as_unsigned(count),
    {
        to_unsigned(count)
    }

    /// Records the tally flags and returns the call that tells them to the
    /// source.
    pub fn set_tally(&mut self, tally: Tally) -> (r: NativeCall)
        ensures
            r == (NativeCall::RecvSetTally {
                instance: old(self).spec_instance(),
                on_program: tally.on_program,
                on_preview: tally.on_preview,
            }),
            final(self).spec_tally() == tally,
            final(self).spec_instance() == old(self).spec_instance(),
            final(self).spec_connection() == old(self).spec_connection(),
    {
        self.tally = tally;
        NativeCall::RecvSetTally {
            instance: self.p_instance,
            on_program: tally.on_program,
            on_preview: tally.on_preview,
        }
    }

    /// The call that adds `metadata` to what is sent on each new connection.
    pub fn add_connection_metadata(&self, metadata: &MetaData) -> (r: NativeCall)
        ensures
            r == (NativeCall::RecvAddConnectionMetadata { instance: self.spec_instance() }),
    {
        NativeCall::RecvAddConnectionMetadata { instance: self.p_instance }
    }

    /// The call that sends `metadata` upstream.
    pub fn send_metadata(&self, metadata: &MetaData) -> (r: NativeCall)
        ensures
            r == (NativeCall::RecvSendMetadata { instance: self.spec_instance() }),
    {
        NativeCall::RecvSendMetadata { instance: self.p_instance }
    }

    /// The call that clears the connection metadata.
    pub fn recv_clear_connection_metadata(&self) -> (r: NativeCall)
        ensures
            r == (NativeCall::RecvClearConnectionMetadata { instance: self.spec_instance() }),
    {
        NativeCall::RecvClearConnectionMetadata { instance: self.p_instance }
    }

    /// Gives the frame `metadata` up: the release of its buffer, and the
    /// destruction of the handle that owned it where the frame was the last
    /// reference. A frame without owner yields no call. The frame is
    /// consumed, so it cannot be given up twice; one that `registry` does not
    /// know as outstanding is `AlreadyReleased`.
    pub fn free_metadata(&self, registry: &mut Registry, metadata: MetaData) -> (r: Result<
        Vec<NativeCall>,
        NDIError,
    >)
        requires
            old(registry).wf(),
        ensures
            final(registry).wf(),
            r is Ok == metadata.spec_owner().can_release(old(registry)@),
            r matches Ok(calls) ==> {
                &&& calls@ == metadata.spec_owner().release_calls(
                    Media::Metadata,
                    metadata.spec_binding().p_data,
                    old(registry)@,
                )
                &&& final(registry)@ == metadata.spec_owner().release_state(old(registry)@)
            },
            r matches Err(e) ==> e == NDIError::AlreadyReleased && final(registry)@ == old(
                registry,
            )@,
    {
        metadata.release(registry)
    }

    /// Gives the frame `video_data` up: the release of its buffer, and the
    /// destruction of the handle that owned it where the frame was the last
    /// reference. A frame without owner yields no call. The frame is
    /// consumed, so it cannot be given up twice; one that `registry` does not
    /// know as outstanding is `AlreadyReleased`.
    pub fn free_video_data(&self, registry: &mut Registry, video_data: VideoData) -> (r: Result<
        Vec<NativeCall>,
        NDIError,
    >)
        requires
            old(registry).wf(),
        ensures
            final(registry).wf(),
            r is Ok == video_data.spec_owner().can_release(old(registry)@),
            r matches Ok(calls) ==> {
                &&& calls@ == video_data.spec_owner().release_calls(
                    Media::Video,
                    video_data.spec_binding().p_data,
                    old(registry)@,
                )
                &&& final(registry)@ == video_data.spec_owner().release_state(old(registry)@)
            },
            r matches Err(e) ==> e == NDIError::AlreadyReleased && final(registry)@ == old(
                registry,
            )@,
    {
        video_data.release(registry)
    }

    /// Gives the frame `audio_data` up: the release of its buffer, and the
    /// destruction of the handle that owned it where the frame was the last
    /// reference. A frame without owner yields no call. The frame is
    /// consumed, so it cannot be given up twice; one that `registry` does not
    /// know as outstanding is `AlreadyReleased`.
    pub fn free_audio_data(&self, registry: &mut Registry, audio_data: AudioData) -> (r: Result<
        Vec<NativeCall>,
        NDIError,
    >)
        requires
            old(registry).wf(),
        ensures
            final(registry).wf(),
            r is Ok == audio_data.spec_owner().can_release(old(registry)@),
            r matches Ok(calls) ==> {
                &&& calls@ == audio_data.spec_owner().release_calls(
                    Media::Audio,
                    audio_data.spec_binding().p_data,
                    old(registry)@,
                )
                &&& final(registry)@ == audio_data.spec_owner().release_state(old(registry)@)
            },
            r matches Err(e) ==> e == NDIError::AlreadyReleased && final(registry)@ == old(
                registry,
            )@,
    {
        audio_data.release(registry)
    }

    /// Lets go of the receiver. Its handle is destroyed at once where no
    /// frame of it is outstanding, and else when the last such frame is given
    /// up.
    pub fn close(self, registry: &mut Registry) -> (r: Result<Vec<NativeCall>, NDIError>)
        requires
            old(registry).wf(),
        ensures
            final(registry).wf(),
            r is Ok == old(registry)@.is_held(self.spec_instance()),
            r matches Ok(calls) ==> {
                &&& calls@ == close_calls(old(registry)@, self.spec_instance())
                &&& final(registry)@ == old(registry)@.relinquish(self.spec_instance())
            },
            r matches Err(e) ==> e == NDIError::AlreadyReleased && final(registry)@ == old(
                registry,
            )@,
    {
        close_handle(registry, self.p_instance)
    }
}

} // verus!
