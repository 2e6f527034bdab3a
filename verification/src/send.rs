//! The sender: its configuration, what it sends, and which buffer the native
//! library may still read after an asynchronous send.

use vstd::prelude::*;
use crate::bindings::MetadataFrame;
use crate::bindings::SendCreateT;
use crate::bindings::SourceT;
use crate::bindings::TallyT;
use crate::error::NDIError;
use crate::frame::as_unsigned;
use crate::frame::to_unsigned;
use crate::frame::AudioData;
use crate::frame::MetaData;
use crate::frame::Owner;
use crate::frame::VideoData;
use crate::internal::close_calls;
use crate::internal::close_handle;
use crate::internal::HandleKind;
use crate::internal::Media;
use crate::internal::NativeCall;
use crate::internal::Registry;
use crate::internal::RegistryState;
use crate::source::source_view;
use crate::source::Source;
use crate::source::Tally;
use crate::tags::FrameType;
use crate::text::copy_text;
use crate::text::spec_text_has_nul;
use crate::text::text_has_nul;

verus! {

/// The configuration of a sender. What is left open takes its default.
#[derive(Debug, Clone)]
pub struct SendBuilder {
    ndi_name: Option<String>,
    groups: Option<String>,
    clock_video: Option<bool>,
    clock_audio: Option<bool>,
}

impl SendBuilder {
    /// The name chosen, if any.
    pub closed spec fn spec_ndi_name(&self) -> Option<String> {
        self.ndi_name
    }

    /// The groups chosen, if any.
    pub closed spec fn spec_groups(&self) -> Option<String> {
        self.groups
    }

    /// The choice on clocking video, if any.
    pub closed spec fn spec_clock_video(&self) -> Option<bool> {
        self.clock_video
    }

    /// The choice on clocking audio, if any.
    pub closed spec fn spec_clock_audio(&self) -> Option<bool> {
        self.clock_audio
    }

    /// Whether video will be clocked: as chosen, else yes.
    pub open spec fn spec_clocks_video(&self) -> bool {
        match self.spec_clock_video() {
            Some(b) => b,
            None => true,
        }
    }

    /// Whether audio will be clocked: as chosen, else yes.
    pub open spec fn spec_clocks_audio(&self) -> bool {
        match self.spec_clock_audio() {
            Some(b) => b,
            None => true,
        }
    }

    /// Whether the configuration is refused: a text in it holds a zero byte,
    /// so that the native library cannot take it.
    pub open spec fn spec_refused(&self) -> bool {
        spec_text_has_nul(self.spec_ndi_name()) || spec_text_has_nul(self.spec_groups())
    }

    /// The configuration with nothing chosen.
    pub fn new() -> (r: SendBuilder)
        ensures
            r.spec_ndi_name().is_none(),
            r.spec_groups().is_none(),
            r.spec_clock_video().is_none(),
            r.spec_clock_audio().is_none(),
    {
        SendBuilder { ndi_name: None, groups: None, clock_video: None, clock_audio: None }
    }

    /// Chooses the name under which the sender appears on the network.
    pub fn ndi_name(self, ndi_name: String) -> (r: SendBuilder)
        ensures
            r.spec_ndi_name() == Some(ndi_name),
            r.spec_groups() == self.spec_groups(),
            r.spec_clock_video() == self.spec_clock_video(),
            r.spec_clock_audio() == self.spec_clock_audio(),
    {
        let mut this = self;
        this.ndi_name = Some(ndi_name);
        this
    }

    /// Chooses the groups that the sender joins, separated by commas.
    pub fn groups(self, groups: String) -> (r: SendBuilder)
        ensures
            r.spec_groups() == Some(groups),
            r.spec_ndi_name() == self.spec_ndi_name(),
            r.spec_clock_video() == self.spec_clock_video(),
            r.spec_clock_audio() == self.spec_clock_audio(),
    {
        let mut this = self;
        this.groups = Some(groups);
        this
    }

    /// Chooses whether sending video waits so that frames leave at their
    /// frame rate.
    pub fn clock_video(self, clock_video: bool) -> (r: SendBuilder)
        ensures
            r.spec_clock_video() == Some(clock_video),
            r.spec_ndi_name() == self.spec_ndi_name(),
            r.spec_groups() == self.spec_groups(),
            r.spec_clock_audio() == self.spec_clock_audio(),
    {
        let mut this = self;
        this.clock_video = Some(clock_video);
        this
    }

    /// Chooses whether sending audio waits so that samples leave at their
    /// sample rate.
    pub fn clock_audio(self, clock_audio: bool) -> (r: SendBuilder)
        ensures
            r.spec_clock_audio() == Some(clock_audio),
            r.spec_ndi_name() == self.spec_ndi_name(),
            r.spec_groups() == self.spec_groups(),
            r.spec_clock_video() == self.spec_clock_video(),
    {
        let mut this = self;
        this.clock_audio = Some(clock_audio);
        this
    }

    /// The settings that creation gets: each choice, or its default. Video
    /// and audio are clocked unless chosen otherwise. Text with a zero byte
    /// is refused.
    pub fn settings(&self) -> (r: Result<SendCreateT, NDIError>)
        ensures
            r is Err == self.spec_refused(),
            r matches Err(e) ==> e == NDIError::InteriorNul,
            r matches Ok(s) ==> {
                &&& s.p_ndi_name == self.spec_ndi_name()
                &&& s.p_groups == self.spec_groups()
                &&& s.clock_video == self.spec_clocks_video()
                &&& s.clock_audio == self.spec_clocks_audio()
            },
    {
        if text_has_nul(&self.ndi_name) || text_has_nul(&self.groups) {
            return Err(NDIError::InteriorNul);
        }
        let clock_video = match self.clock_video {
            Some(b) => b,
            None => true,
        };
        let clock_audio = match self.clock_audio {
            Some(b) => b,
            None => true,
        };
        Ok(
            SendCreateT {
                p_ndi_name: copy_text(&self.ndi_name),
                p_groups: copy_text(&self.groups),
                clock_video,
                clock_audio,
            },
        )
    }

    /// Makes the sender of the instance that the native library created from
    /// these settings. A configuration that `settings` refuses builds
    /// nothing: the error is `InteriorNul` and the registry stays as it is.
    /// Otherwise there is no sender where the handle is null or live already,
    /// and else a sender that clocks as configured and retains no buffer,
    /// whose handle entered the registry.
    pub fn build(self, registry: &mut Registry, instance: usize) -> (r: Result<Send, NDIError>)
        requires
            old(registry).wf(),
        ensures
            final(registry).wf(),
            self.spec_refused() ==> r == Err::<Send, NDIError>(NDIError::InteriorNul)
                && final(registry)@ == old(registry)@,
            !self.spec_refused() ==> Send::spec_created(
                r,
                old(registry)@,
                final(registry)@,
                instance,
                self.spec_clocks_video(),
                self.spec_clocks_audio(),
            ),
    {
        if text_has_nul(&self.ndi_name) || text_has_nul(&self.groups) {
            return Err(NDIError::InteriorNul);
        }
        let clock_video = match self.clock_video {
            Some(b) => b,
            None => true,
        };
        let clock_audio = match self.clock_audio {
            Some(b) => b,
            None => true,
        };
        Send::create(registry, instance, clock_video, clock_audio)
    }
}

/// A sender.
#[derive(Debug)]
pub struct Send {
    p_instance: usize,
    clock_video: bool,
    clock_audio: bool,
    retained: Option<usize>,
}

impl Send {
    /// The native handle of the sender.
    pub closed spec fn spec_instance(&self) -> usize {
        self.p_instance
    }

    /// Whether sending video waits for the frame interval.
    pub closed spec fn spec_clock_video(&self) -> bool {
        self.clock_video
    }

    /// Whether sending audio waits for the sample interval.
    pub closed spec fn spec_clock_audio(&self) -> bool {
        self.clock_audio
    }

    /// The address of the buffer that the native library may still read
    /// because it was sent asynchronously and no synchronizing call followed.
    pub closed spec fn spec_retained(&self) -> Option<usize> {
        self.retained
    }

    /// Whether `other` is this sender but for the retained buffer.
    pub open spec fn same_but_retained(&self, other: Send) -> bool {
        &&& other.spec_instance() == self.spec_instance()
        &&& other.spec_clock_video() == self.spec_clock_video()
        &&& other.spec_clock_audio() == self.spec_clock_audio()
    }

    /// What creation from the handle `instance` yields.
    pub open spec fn spec_created(
        r: Result<Send, NDIError>,
        before: RegistryState,
        after: RegistryState,
        instance: usize,
        clock_video: bool,
        clock_audio: bool,
    ) -> bool {
        if before.can_adopt(instance) {
            &&& r matches Ok(send)
            &&& send.spec_instance() == instance
            &&& send.spec_clock_video() == clock_video
            &&& send.spec_clock_audio() == clock_audio
            &&& send.spec_retained().is_none()
            &&& after == before.adopt(instance, HandleKind::Send)
        } else {
            &&& r matches Err(e)
            &&& e == NDIError::SendCreateError
            &&& after == before
        }
    }

    /// Makes the sender of the instance that the native library created with
    /// its default settings, which clock video and audio. A null handle means
    /// that creation failed.
    pub fn new(registry: &mut Registry, instance: usize) -> (r: Result<Send, NDIError>)
        requires
            old(registry).wf(),
        ensures
            final(registry).wf(),
            Send::spec_created(r, old(registry)@, final(registry)@, instance, true, true),
    {
        Send::create(registry, instance, true, true)
    }

    /// Makes the sender of the instance that the native library created from
    /// `settings`, whose clocking it keeps.
    pub fn with_settings(settings: &SendCreateT, registry: &mut Registry, instance: usize) -> (r:
        Result<Send, NDIError>)
        requires
            old(registry).wf(),
        ensures
            final(registry).wf(),
            Send::spec_created(
                r,
                old(registry)@,
                final(registry)@,
                instance,
                settings.clock_video,
                settings.clock_audio,
            ),
    {
        Send::create(registry, instance, settings.clock_video, settings.clock_audio)
    }

    fn create(registry: &mut Registry, instance: usize, clock_video: bool, clock_audio: bool) -> (r:
        Result<Send, NDIError>)
        requires
            old(registry).wf(),
        ensures
            final(registry).wf(),
            Send::spec_created(
                r,
                old(registry)@,
                final(registry)@,
                instance,
                clock_video,
                clock_audio,
            ),
    {
        if registry.adopt(instance, HandleKind::Send) {
            Ok(Send { p_instance: instance, clock_video, clock_audio, retained: None })
        } else {
            Err(NDIError::SendCreateError)
        }
    }

    /// The native handle, for the calls that only read it.
    pub fn instance(&self) -> (r: usize)
        ensures
            r == self.spec_instance(),
    {
        self.p_instance
    }

    /// Whether sending video waits for the frame interval.
    pub fn clocks_video(&self) -> (r: bool)
        ensures
            r == self.spec_clock_video(),
    {
        self.clock_video
    }

    /// Whether sending audio waits for the sample interval.
    pub fn clocks_audio(&self) -> (r: bool)
        ensures
            r == self.spec_clock_audio(),
    {
        self.clock_audio
    }

    /// The address of the buffer that must not be changed or freed yet.
    pub fn retained(&self) -> (r: Option<usize>)
        ensures
            r == self.spec_retained(),
    {
        self.retained
    }

    /// Takes in what asking for the tally returned: the flags and whether
    /// they were updated within the time. `tally` changes only where they
    /// were. Returns whether they were.
    pub fn get_tally(&self, tally: &mut Tally, reply: TallyT, updated: bool) -> (r: bool)
        ensures
            r == updated,
            *final(tally) == (if updated {
                Tally::spec_from_binding(reply)
            } else {
                *old(tally)
            }),
    {
        if updated {
            *tally = Tally::from_binding(reply);
        }
        updated
    }

    /// The call that waits up to `timeout_ms` for metadata from a receiver.
    pub fn request(&self, timeout_ms: u32) -> (r: NativeCall)
        ensures
            r == (NativeCall::SendCapture {
                instance: self.spec_instance(),
                timeout_in_ms: timeout_ms,
            }),
    {
        NativeCall::SendCapture { instance: self.p_instance, timeout_in_ms: timeout_ms }
    }

    /// Takes in what a capture returned: the tag and the descriptor. The
    /// metadata frame is handed out, owned by this sender, exactly where the
    /// tag says that metadata arrived. `Nothing` means that the time ran out
    /// and is no error. An unknown tag is `InvalidEnum`, and a sender whose
    /// handle is not in `registry` is `AlreadyReleased`.
    pub fn capture(&self, registry: &mut Registry, frame_type: i32, metadata: MetadataFrame) -> (r:
        Result<(FrameType, Option<MetaData>), NDIError>)
        requires
            old(registry).wf(),
            old(registry).spec_has_room(),
        ensures
            final(registry).wf(),
            !old(registry)@.is_live(self.spec_instance()) ==> r == Err::<
                (FrameType, Option<MetaData>),
                NDIError,
            >(NDIError::AlreadyReleased) && final(registry)@ == old(registry)@,
            old(registry)@.is_live(self.spec_instance()) ==> match FrameType::spec_from_raw(
                frame_type,
            ) {
                None => r == Err::<(FrameType, Option<MetaData>), NDIError>(
                    NDIError::InvalidEnum(frame_type, "FrameType"),
                ) && final(registry)@ == old(registry)@,
                Some(t) => {
                    &&& r matches Ok(c)
                    &&& c.0 == t
                    &&& if t == FrameType::Metadata {
                        &&& c.1 matches Some(f)
                        &&& f.spec_binding() == metadata
                        &&& f.spec_owner() == Owner::OwnedBySender(
                            old(registry)@.next_ticket(self.spec_instance()),
                        )
                        &&& final(registry)@ == old(registry)@.issue(self.spec_instance())
                    } else {
                        &&& c.1.is_none()
                        &&& final(registry)@ == old(registry)@
                    }
                },
            },
    {
        if !registry.is_live(self.p_instance) {
            return Err(NDIError::AlreadyReleased);
        }
        let t = match FrameType::try_from(frame_type) {
            Ok(t) => t,
            Err(e) => {
                return Err(e);
            },
        };
        match t {
            FrameType::Metadata => {
                let ticket = registry.issue(self.p_instance).unwrap();
                Ok((t, Some(MetaData::from_binding_send(ticket, metadata))))
            },
            _ => Ok((t, None)),
        }
    }

    /// The source under which the sender appears, from the descriptor that
    /// the native library reported.
    pub fn get_source(&self, source: SourceT) -> (r: Source)
        ensures
            r@ == source_view(source),
    {
        Source::from_binding(source)
    }

    /// The call that sends `metadata`.
    pub fn send_metadata(&self, metadata: &MetaData) -> (r: NativeCall)
        ensures
            r == (NativeCall::SendMetadata { instance: self.spec_instance() }),
    {
        NativeCall::SendMetadata { instance: self.p_instance }
    }

    /// The call that sends `audio_data`. Where audio is clocked the call
    /// waits inside the native library.
    pub fn send_audio(&self, audio_data: &AudioData) -> (r: NativeCall)
        ensures
            r == (NativeCall::SendAudio {
                instance: self.spec_instance(),
                p_data: audio_data.spec_binding().p_data,
            }),
    {
        NativeCall::SendAudio { instance: self.p_instance, p_data: audio_data.p_data() }
    }

    /// The call that sends `video_data` and returns when its buffer is free
    /// again. Where video is clocked the call waits inside the native
    /// library. It synchronizes: once it was made, no buffer is retained.
    pub fn send_video(&mut self, video_data: &VideoData) -> (r: NativeCall)
        ensures
            r == (NativeCall::SendVideo {
                instance: old(self).spec_instance(),
                p_data: video_data.spec_binding().p_data,
            }),
            final(self).spec_retained().is_none(),
            old(self).same_but_retained(*final(self)),
    {
        self.retained = None;
        NativeCall::SendVideo { instance: self.p_instance, p_data: video_data.p_data() }
    }

    /// The call that schedules `video_data` and returns at once. From then
    /// on the buffer of `video_data` is retained: the caller must not change
    /// or free it before the next `send_video` or `send_video_async`, or
    /// before the sender is let go of. A buffer retained before is free.
    pub fn send_video_async(&mut self, video_data: &VideoData) -> (r: NativeCall)
        ensures
            r == (NativeCall::SendVideoAsync {
                instance: old(self).spec_instance(),
                p_data: video_data.spec_binding().p_data,
            }),
            final(self).spec_retained() == Some(video_data.spec_binding().p_data),
            old(self).same_but_retained(*final(self)),
    {
        self.retained = Some(video_data.p_data());
        NativeCall::SendVideoAsync { instance: self.p_instance, p_data: video_data.p_data() }
    }

    /// The number of receivers connected to the sender, from the native
    /// count.
    pub fn get_no_connections(&self, count: i32) -> (r: u32)
        ensures
            r == as_unsigned(count),
    {
        to_unsigned(count)
    }

    /// Gives the captured frame `metadata` up. See [`MetaData::release`].
    pub fn free_metadata(&self, registry: &mut Registry, metadata: MetaData) -> (r: Result<
        Vec<NativeCall>,
        NDIError,
    >)
        requires
            old(registry).wf(),
        ensures
            final(registry).wf(),
            r is Ok == metadata.spec_owner().can_release(old(registry)@),
            r matches Ok(calls) ==> {
                &&& calls@ == metadata.spec_owner().release_calls(
                    Media::Metadata,
                    metadata.spec_binding().p_data,
                    old(registry)@,
                )
                &&& final(registry)@ == metadata.spec_owner().release_state(old(registry)@)
            },
            r matches Err(e) ==> e == NDIError::AlreadyReleased && final(registry)@ == old(
                registry,
            )@,
    {
        metadata.release(registry)
    }

    /// Lets go of the sender. Its handle is destroyed at once where no frame
    /// of it is outstanding, and else when the last such frame is given up.
    pub fn close(self, registry: &mut Registry) -> (r: Result<Vec<NativeCall>, NDIError>)
        requires
            old(registry).wf(),
        ensures
            final(registry).wf(),
            r is Ok == old(registry)@.is_held(self.spec_instance()),
            r matches Ok(calls) ==> {
                &&& calls@ == close_calls(old(registry)@, self.spec_instance())
                &&& final(registry)@ == old(registry)@.relinquish(self.spec_instance())
            },
            r matches Err(e) ==> e == NDIError::AlreadyReleased && final(registry)@ == old(
                registry,
            )@,
    {
        close_handle(registry, self.p_instance)
    }
}

} // verus!
