//! Owned native handles and the registry that counts who still refers to them.
//!
//! A native handle is destroyed when its last reference disappears. References
//! are the wrapper that created the handle and every frame that the handle
//! still has to release. The registry keeps that account explicitly, so that
//! the order of destruction and release is a matter of proof.

use vstd::prelude::*;
use std::collections::HashMap;
use std::collections::HashSet;
use crate::error::NDIError;

verus! {

broadcast use vstd::std_specs::hash::group_hash_axioms;

/// Which kind of native instance a handle names, and so which native
/// function destroys it.
#[derive(Debug, Clone, Copy, PartialEq, Eq, Structural)]
pub enum HandleKind {
    /// A finder instance.
    Find,
    /// A receiver instance.
    Recv,
    /// A sender instance.
    Send,
}

/// Which kind of buffer a release gives back.
#[derive(Debug, Clone, Copy, PartialEq, Eq, Structural)]
pub enum Media {
    /// A video buffer.
    Video,
    /// An audio buffer.
    Audio,
    /// A metadata buffer.
    Metadata,
}

/// A call that only the native library can perform, as plain data. Whoever
/// drives the library carries it out.
#[derive(Debug, Clone, Copy, PartialEq, Eq, Structural)]
pub enum NativeCall {
    /// Destroy the instance `instance` of kind `kind`.
    Destroy { kind: HandleKind, instance: usize },
    /// Let the instance `instance` of kind `kind` release the buffer at
    /// `p_data`, which holds `media`.
    Free { kind: HandleKind, instance: usize, media: Media, p_data: usize },
    /// Tear down the native library as a whole.
    LibraryDestroy,
    /// Connect the receiver `instance` to the source that the caller named.
    RecvConnect { instance: usize },
    /// Disconnect the receiver `instance` from every source.
    RecvDisconnect { instance: usize },
    /// Let the receiver `instance` wait up to `timeout_in_ms` for a frame of
    /// one of the kinds asked for.
    RecvCapture { instance: usize, video: bool, audio: bool, metadata: bool, timeout_in_ms: u32 },
    /// Tell the source of the receiver `instance` the tally flags.
    RecvSetTally { instance: usize, on_program: bool, on_preview: bool },
    /// Add the caller's metadata to what the receiver `instance` sends on
    /// each new connection.
    RecvAddConnectionMetadata { instance: usize },
    /// Send the caller's metadata from the receiver `instance` upstream.
    RecvSendMetadata { instance: usize },
    /// Clear the connection metadata of the receiver `instance`.
    RecvClearConnectionMetadata { instance: usize },
    /// Let the sender `instance` wait up to `timeout_in_ms` for metadata.
    SendCapture { instance: usize, timeout_in_ms: u32 },
    /// Send the caller's metadata from the sender `instance`.
    SendMetadata { instance: usize },
    /// Send the audio frame whose samples lie at `p_data` from the sender
    /// `instance`.
    SendAudio { instance: usize, p_data: usize },
    /// Send the video frame whose pixels lie at `p_data` from the sender
    /// `instance`, and return when the buffer is free again.
    SendVideo { instance: usize, p_data: usize },
    /// Schedule the video frame whose pixels lie at `p_data` on the sender
    /// `instance`, and return at once.
    SendVideoAsync { instance: usize, p_data: usize },
}

/// A native handle together with its destructor. The destructor is reached by
/// giving the value up, so it runs at most once.
#[derive(Debug, PartialEq, Eq, Structural)]
pub struct OnDrop {
    inner: usize,
    destroy: HandleKind,
}

impl OnDrop {
    /// The handle value.
    pub closed spec fn spec_value(&self) -> usize {
        self.inner
    }

    /// The kind of instance, which selects the destructor.
    pub closed spec fn spec_kind(&self) -> HandleKind {
        self.destroy
    }

    /// Pairs the handle `inner` with the destructor for `destroy`.
    pub fn new(inner: usize, destroy: HandleKind) -> (r: OnDrop)
        ensures
            r.spec_value() == inner,
            r.spec_kind() == destroy,
    {
        OnDrop { inner, destroy }
    }

    /// The handle value, for calls that only read it.
    pub fn value(&self) -> (r: usize)
        ensures
            r == self.spec_value(),
    {
        self.inner
    }

    /// The kind of instance behind the handle.
    pub fn kind(&self) -> (r: HandleKind)
        ensures
            r == self.spec_kind(),
    {
        self.destroy
    }

    /// Gives the handle up: the one call that destroys it.
    pub fn release(self) -> (r: NativeCall)
        ensures
            r == (NativeCall::Destroy { kind: self.spec_kind(), instance: self.spec_value() }),
    {
        NativeCall::Destroy { kind: self.destroy, instance: self.inner }
    }
}

/// Names one captured frame: the handle that must release it and the number
/// under which the registry issued it.
#[derive(Debug, Clone, Copy, PartialEq, Eq, Structural)]
pub struct Ticket {
    /// The handle that owns the frame's buffer.
    pub owner: usize,
    /// The number of the frame, unique within a registry.
    pub serial: u64,
}

/// What the registry knows of one live handle.
pub struct HandleState {
    /// The kind of instance.
    pub kind: HandleKind,
    /// Whether the wrapper that created the handle still holds it.
    pub held: bool,
    /// The serial numbers of the frames that the handle has yet to release.
    pub frames: Set<u64>,
}

/// The registry as a mathematical value.
pub struct RegistryState {
    /// The live handles.
    pub handles: Map<usize, HandleState>,
    /// How many tickets were issued so far.
    pub issued: nat,
}

impl RegistryState {
    /// The registry without any handle.
    pub open spec fn empty() -> RegistryState {
        RegistryState { handles: Map::empty(), issued: 0 }
    }

    /// Whether no handle is live.
    pub open spec fn is_idle(self) -> bool {
        forall|h: usize| !self.is_live(h)
    }

    /// Whether `h` is a live handle: created and not destroyed.
    pub open spec fn is_live(self, h: usize) -> bool {
        self.handles.contains_key(h)
    }

    /// Whether the wrapper of `h` still holds its reference.
    pub open spec fn is_held(self, h: usize) -> bool {
        self.is_live(h) && self.handles[h].held
    }

    /// Whether the frame named by `t` was captured and not released.
    pub open spec fn is_outstanding(self, t: Ticket) -> bool {
        self.is_live(t.owner) && self.handles[t.owner].frames.contains(t.serial)
    }

    /// The number of references to `h`: one for the wrapper while it holds
    /// the handle, and one for each frame not yet released.
    pub open spec fn references(self, h: usize) -> nat {
        if self.is_live(h) {
            (if self.handles[h].held { 1nat } else { 0nat }) + self.handles[h].frames.len()
        } else {
            0
        }
    }

    /// The invariant: no live handle is null, each has at least one
    /// reference, and every frame number was issued.
    pub open spec fn wf(self) -> bool {
        forall|h: usize| #[trigger]
            self.handles.contains_key(h) ==> {
                &&& h != 0
                &&& self.handles[h].frames.finite()
                &&& (self.handles[h].held || !self.handles[h].frames.is_empty())
                &&& forall|s: u64| #[trigger] self.handles[h].frames.contains(s) ==> s < self.issued
            }
    }

    /// Whether `h` can be taken in: it is not null and not live already.
    pub open spec fn can_adopt(self, h: usize) -> bool {
        h != 0 && !self.is_live(h)
    }

    /// The registry after `h` was taken in, held by its wrapper.
    pub open spec fn adopt(self, h: usize, kind: HandleKind) -> RegistryState {
        RegistryState {
            handles: self.handles.insert(
                h,
                HandleState { kind, held: true, frames: Set::empty() },
            ),
            issued: self.issued,
        }
    }

    /// The ticket that the next capture on `owner` gets.
    pub open spec fn next_ticket(self, owner: usize) -> Ticket {
        Ticket { owner, serial: self.issued as u64 }
    }

    /// The registry after a frame was captured on the live handle `owner`.
    pub open spec fn issue(self, owner: usize) -> RegistryState {
        RegistryState {
            handles: self.handles.insert(
                owner,
                HandleState {
                    kind: self.handles[owner].kind,
                    held: self.handles[owner].held,
                    frames: self.handles[owner].frames.insert(self.issued as u64),
                },
            ),
            issued: self.issued + 1,
        }
    }

    /// Whether the frame named by `t` is the last reference to its owner.
    pub open spec fn is_last_frame(self, t: Ticket) -> bool {
        &&& self.is_outstanding(t)
        &&& !self.handles[t.owner].held
        &&& self.handles[t.owner].frames.remove(t.serial).is_empty()
    }

    /// The registry after the outstanding frame named by `t` was released.
    pub open spec fn redeem(self, t: Ticket) -> RegistryState {
        if self.is_last_frame(t) {
            RegistryState { handles: self.handles.remove(t.owner), issued: self.issued }
        } else {
            RegistryState {
                handles: self.handles.insert(
                    t.owner,
                    HandleState {
                        kind: self.handles[t.owner].kind,
                        held: self.handles[t.owner].held,
                        frames: self.handles[t.owner].frames.remove(t.serial),
                    },
                ),
                issued: self.issued,
            }
        }
    }

    /// Whether the wrapper's reference is the last one to `h`.
    pub open spec fn is_last_holder(self, h: usize) -> bool {
        self.is_held(h) && self.handles[h].frames.is_empty()
    }

    /// The registry after the wrapper of the held handle `h` let go of it.
    pub open spec fn relinquish(self, h: usize) -> RegistryState {
        if self.is_last_holder(h) {
            RegistryState { handles: self.handles.remove(h), issued: self.issued }
        } else {
            RegistryState {
                handles: self.handles.insert(
                    h,
                    HandleState {
                        kind: self.handles[h].kind,
                        held: false,
                        frames: self.handles[h].frames,
                    },
                ),
                issued: self.issued,
            }
        }
    }

    /// Taking in a handle keeps the invariant, and the handle starts with
    /// one reference, that of its wrapper.
    pub proof fn lemma_adopt(self, h: usize, kind: HandleKind)
        requires
            self.wf(),
            self.can_adopt(h),
        ensures
            self.adopt(h, kind).wf(),
            self.adopt(h, kind).is_held(h),
            self.adopt(h, kind).references(h) == 1,
    {
    }

    /// Capturing a frame keeps the invariant. The ticket is new, it is
    /// outstanding afterwards, and its owner has one more reference.
    pub proof fn lemma_issue(self, owner: usize)
        requires
            self.wf(),
            self.is_live(owner),
            self.issued < u64::MAX,
        ensures
            self.issue(owner).wf(),
            !self.is_outstanding(self.next_ticket(owner)),
            self.issue(owner).is_outstanding(self.next_ticket(owner)),
            self.issue(owner).references(owner) == self.references(owner) + 1,
    {
        let t = self.next_ticket(owner);
        assert(!self.handles[owner].frames.contains(t.serial));
    }

    /// Releasing a frame keeps the invariant and takes one reference from
    /// its owner.
    pub proof fn lemma_redeem(self, t: Ticket)
        requires
            self.wf(),
            self.is_outstanding(t),
        ensures
            self.redeem(t).wf(),
            self.redeem(t).references(t.owner) == self.references(t.owner) - 1,
    {
        let rest = self.handles[t.owner].frames.remove(t.serial);
        if rest.len() == 0 {
            rest.lemma_len0_is_empty();
        }
    }

    /// Letting go of a wrapper keeps the invariant and takes one reference
    /// from its handle.
    pub proof fn lemma_relinquish(self, h: usize)
        requires
            self.wf(),
            self.is_held(h),
        ensures
            self.relinquish(h).wf(),
            self.relinquish(h).references(h) == self.references(h) - 1,
    {
        let frames = self.handles[h].frames;
        if frames.len() == 0 {
            frames.lemma_len0_is_empty();
        }
    }

    /// A handle is live exactly while something refers to it.
    pub proof fn law_live_while_referenced(self, h: usize)
        requires
            self.wf(),
        ensures
            self.is_live(h) <==> self.references(h) > 0,
    {
        if self.is_live(h) && !self.handles[h].held {
            let frames = self.handles[h].frames;
            if frames.len() == 0 {
                frames.lemma_len0_is_empty();
            }
        }
    }

    /// The handle that owns an outstanding frame is live: its reference count
    /// is not zero while the frame refers to it.
    pub proof fn law_owner_outlives_frame(self, t: Ticket)
        requires
            self.wf(),
            self.is_outstanding(t),
        ensures
            self.is_live(t.owner),
            self.references(t.owner) > 0,
    {
        self.law_live_while_referenced(t.owner);
    }

    /// Letting go of the wrapper does not destroy a handle that still owns a
    /// frame. The handle goes with the release of its last frame.
    pub proof fn law_destroyed_with_last_frame(self, t: Ticket)
        requires
            self.wf(),
            self.is_outstanding(t),
            self.is_held(t.owner),
        ensures
            !self.is_last_holder(t.owner),
            self.relinquish(t.owner).is_live(t.owner),
            self.relinquish(t.owner).is_outstanding(t),
            self.relinquish(t.owner).is_last_frame(t) <==> self.references(t.owner) == 2,
            self.relinquish(t.owner).is_last_frame(t) ==> !self.relinquish(t.owner).redeem(
                t,
            ).is_live(t.owner),
    {
        let frames = self.handles[t.owner].frames;
        let rest = frames.remove(t.serial);
        if rest.len() == 0 {
            rest.lemma_len0_is_empty();
        }
    }

    /// A frame is released at most once: once released, its ticket is not
    /// outstanding, so a second release is refused.
    pub proof fn law_released_once(self, t: Ticket)
        requires
            self.wf(),
            self.is_outstanding(t),
        ensures
            !self.redeem(t).is_outstanding(t),
    {
    }

    /// Nothing but its own release ends a frame: it stays outstanding when
    /// another frame is released, when a wrapper lets go, when a frame is
    /// captured and when a handle is taken in.
    pub proof fn law_outstanding_until_released(
        self,
        t: Ticket,
        other: Ticket,
        h: usize,
        kind: HandleKind,
    )
        requires
            self.wf(),
            self.is_outstanding(t),
        ensures
            self.is_outstanding(other) && other != t ==> self.redeem(other).is_outstanding(t),
            self.is_held(h) ==> self.relinquish(h).is_outstanding(t),
            self.is_live(h) ==> self.issue(h).is_outstanding(t),
            self.can_adopt(h) ==> self.adopt(h, kind).is_outstanding(t),
    {
    }
}

/// One step in the life of a registry.
pub enum RegistryOp {
    /// A handle is taken in.
    Adopt { h: usize, kind: HandleKind },
    /// A frame is captured on a handle.
    Issue { owner: usize },
    /// A frame is released.
    Redeem { t: Ticket },
    /// A wrapper lets go of its handle.
    Relinquish { h: usize },
}

impl RegistryState {
    /// Whether the registry carries out `op`. It refuses what the operations
    /// of [`Registry`] refuse.
    pub open spec fn accepts(self, op: RegistryOp) -> bool {
        match op {
            RegistryOp::Adopt { h, kind } => self.can_adopt(h),
            RegistryOp::Issue { owner } => self.is_live(owner) && self.issued < u64::MAX,
            RegistryOp::Redeem { t } => self.is_outstanding(t),
            RegistryOp::Relinquish { h } => self.is_held(h),
        }
    }

    /// The registry after `op`: changed where it accepts `op`, as it was
    /// where it refuses.
    pub open spec fn apply(self, op: RegistryOp) -> RegistryState {
        if self.accepts(op) {
            match op {
                RegistryOp::Adopt { h, kind } => self.adopt(h, kind),
                RegistryOp::Issue { owner } => self.issue(owner),
                RegistryOp::Redeem { t } => self.redeem(t),
                RegistryOp::Relinquish { h } => self.relinquish(h),
            }
        } else {
            self
        }
    }

    /// The registry after the steps `ops`, one after the other.
    pub open spec fn run(self, ops: Seq<RegistryOp>) -> RegistryState
        decreases ops.len(),
    {
        if ops.len() == 0 {
            self
        } else {
            self.run(ops.drop_last()).apply(ops.last())
        }
    }

    /// How often the steps `ops`, begun in this registry, release the frame
    /// named by `t`.
    pub open spec fn releases_of(self, ops: Seq<RegistryOp>, t: Ticket) -> nat
        decreases ops.len(),
    {
        if ops.len() == 0 {
            0
        } else {
            let before = self.run(ops.drop_last());
            self.releases_of(ops.drop_last(), t) + (if ops.last() == (RegistryOp::Redeem { t })
                && before.accepts(ops.last()) {
                1nat
            } else {
                0nat
            })
        }
    }

    /// One step keeps the invariant and never takes back a ticket number.
    pub proof fn lemma_apply(self, op: RegistryOp)
        requires
            self.wf(),
        ensures
            self.apply(op).wf(),
            self.issued <= self.apply(op).issued,
    {
        if self.accepts(op) {
            match op {
                RegistryOp::Adopt { h, kind } => self.lemma_adopt(h, kind),
                RegistryOp::Issue { owner } => self.lemma_issue(owner),
                RegistryOp::Redeem { t } => self.lemma_redeem(t),
                RegistryOp::Relinquish { h } => self.lemma_relinquish(h),
            }
        }
    }

    /// The invariant holds in every state that a registry reaches.
    pub proof fn law_invariant_always(self, ops: Seq<RegistryOp>)
        requires
            self.wf(),
        ensures
            self.run(ops).wf(),
            self.issued <= self.run(ops).issued,
        decreases ops.len(),
    {
        if ops.len() > 0 {
            self.law_invariant_always(ops.drop_last());
            self.run(ops.drop_last()).lemma_apply(ops.last());
        }
    }

    /// In every state that a registry reaches, the reference count of a
    /// handle is not zero while a frame refers to the handle as its owner:
    /// the handle is live.
    pub proof fn law_references_never_zero_while_owned(self, ops: Seq<RegistryOp>, t: Ticket)
        requires
            self.wf(),
            self.run(ops).is_outstanding(t),
        ensures
            self.run(ops).is_live(t.owner),
            self.run(ops).references(t.owner) > 0,
    {
        self.law_invariant_always(ops);
        self.run(ops).law_owner_outlives_frame(t);
    }

    /// Over the whole life of a registry a frame is released at most once,
    /// and once it was released it is never outstanding again.
    pub proof fn law_released_at_most_once(self, ops: Seq<RegistryOp>, t: Ticket)
        requires
            self.wf(),
            self.is_outstanding(t) || t.serial >= self.issued,
        ensures
            self.releases_of(ops, t) <= 1,
            self.releases_of(ops, t) == 1 ==> !self.run(ops).is_outstanding(t) && t.serial
                < self.run(ops).issued,
            self.run(ops).is_outstanding(t) ==> self.releases_of(ops, t) == 0,
        decreases ops.len(),
    {
        if ops.len() > 0 {
            let head = ops.drop_last();
            let before = self.run(head);
            self.law_released_at_most_once(head, t);
            self.law_invariant_always(head);
            before.lemma_apply(ops.last());
        }
    }
}

/// One live handle as the registry stores it.
struct HandleEntry {
    handle: OnDrop,
    held: bool,
    frames: HashSet<u64>,
}

impl HandleEntry {
    spec fn state(self) -> HandleState {
        HandleState { kind: self.handle.spec_kind(), held: self.held, frames: self.frames@ }
    }
}

/// The account of live native handles and of the frames that they still have
/// to release.
pub struct Registry {
    handles: HashMap<usize, HandleEntry>,
    issued: u64,
}

impl View for Registry {
    type V = RegistryState;

    closed spec fn view(&self) -> RegistryState {
        RegistryState {
            handles: Map::new(
                |h: usize| self.handles@.contains_key(h),
                |h: usize| self.handles@[h].state(),
            ),
            issued: self.issued as nat,
        }
    }
}

impl Registry {
    /// The invariant of the registry: each handle is stored under its own
    /// value, and the account is well formed.
    pub closed spec fn wf(&self) -> bool {
        &&& self@.wf()
        &&& forall|h: usize| #[trigger]
            self.handles@.contains_key(h) ==> self.handles@[h].handle.spec_value() == h
    }

    /// The view of a registry that keeps its invariant keeps the invariant of
    /// views, so that the laws of [`RegistryState`] hold of it.
    pub proof fn lemma_view_wf(&self)
        requires
            self.wf(),
        ensures
            self@.wf(),
    {
    }

    /// Whether one more ticket can be issued.
    pub open spec fn spec_has_room(&self) -> bool {
        self@.issued < u64::MAX
    }

    /// A registry without any handle.
    pub fn new() -> (r: Registry)
        ensures
            r.wf(),
            r@ == RegistryState::empty(),
    {
        let r = Registry { handles: HashMap::new(), issued: 0 };
        assert(r@.handles =~= Map::<usize, HandleState>::empty());
        r
    }

    /// Whether `h` is live.
    pub fn is_live(&self, h: usize) -> (r: bool)
        ensures
            r == self@.is_live(h),
    {
        self.handles.contains_key(&h)
    }

    /// Whether the wrapper of `h` still holds it.
    pub fn is_held(&self, h: usize) -> (r: bool)
        ensures
            r == self@.is_held(h),
    {
        match self.handles.get(&h) {
            Some(e) => e.held,
            None => false,
        }
    }

    /// The kind of the live handle `h`.
    pub fn kind_of(&self, h: usize) -> (r: Option<HandleKind>)
        ensures
            r == (if self@.is_live(h) {
                Some(self@.handles[h].kind)
            } else {
                None
            }),
    {
        match self.handles.get(&h) {
            Some(e) => Some(e.handle.kind()),
            None => None,
        }
    }

    /// Whether the frame named by `t` is still to be released.
    pub fn is_outstanding(&self, t: Ticket) -> (r: bool)
        ensures
            r == self@.is_outstanding(t),
    {
        match self.handles.get(&t.owner) {
            Some(e) => e.frames.contains(&t.serial),
            None => false,
        }
    }

    /// The number of frames that `h` has yet to release.
    pub fn frames_of(&self, h: usize) -> (r: usize)
        ensures
            r == (if self@.is_live(h) {
                self@.handles[h].frames.len()
            } else {
                0
            }),
    {
        match self.handles.get(&h) {
            Some(e) => e.frames.len(),
            None => 0,
        }
    }

    /// The number of references to `h`: one for its wrapper while that holds
    /// it, and one for each frame that `h` has yet to release.
    pub fn references(&self, h: usize) -> (r: u128)
        ensures
            r == self@.references(h),
    {
        match self.handles.get(&h) {
            Some(e) => {
                let frames: u128 = e.frames.len() as u128;
                if e.held {
                    frames + 1
                } else {
                    frames
                }
            },
            None => 0,
        }
    }

    /// Whether no handle is live.
    pub fn is_idle(&self) -> (r: bool)
        ensures
            r == self@.is_idle(),
    {
        let r = self.handles.is_empty();
        assert(r == self@.is_idle()) by {
            if r {
                assert forall|h: usize| !self@.is_live(h) by {
                    assert(!self.handles@.dom().contains(h));
                }
            } else {
                let h = choose|h: usize| self.handles@.dom().contains(h);
                assert(self@.is_live(h));
            }
        }
        r
    }

    /// Whether one more ticket can be issued.
    pub fn has_room(&self) -> (r: bool)
        ensures
            r == self.spec_has_room(),
    {
        self.issued < u64::MAX
    }

    /// Takes in the handle `h` that a native create call returned, held by
    /// its wrapper. Refuses a null handle and one that is live already.
    pub fn adopt(&mut self, h: usize, kind: HandleKind) -> (r: bool)
        requires
            old(self).wf(),
        ensures
            final(self).wf(),
            r == old(self)@.can_adopt(h),
            r ==> final(self)@ == old(self)@.adopt(h, kind),
            !r ==> final(self)@ == old(self)@,
    {
        if h == 0 || self.handles.contains_key(&h) {
            return false;
        }
        let entry = HandleEntry { handle: OnDrop::new(h, kind), held: true, frames: HashSet::new() };
        self.handles.insert(h, entry);
        assert(self@.handles =~= old(self)@.adopt(h, kind).handles);
        true
    }

    /// Issues the ticket of a frame captured on `owner`, which becomes one
    /// more reference to that handle. Nothing is issued for a handle that is
    /// not live.
    pub fn issue(&mut self, owner: usize) -> (r: Option<Ticket>)
        requires
            old(self).wf(),
            old(self).spec_has_room(),
        ensures
            final(self).wf(),
            old(self)@.is_live(owner) ==> r == Some(old(self)@.next_ticket(owner)) && final(self)@
                == old(self)@.issue(owner),
            !old(self)@.is_live(owner) ==> r.is_none() && final(self)@ == old(self)@,
    {
        match self.handles.remove(&owner) {
            None => {
                assert(self@.handles =~= old(self)@.handles);
                None
            },
            Some(mut e) => {
                let serial = self.issued;
                e.frames.insert(serial);
                self.handles.insert(owner, e);
                self.issued = serial + 1;
                assert(self@.handles =~= old(self)@.issue(owner).handles);
                Some(Ticket { owner, serial })
            },
        }
    }

    /// Releases the frame named by `t`. Where that was the last reference to
    /// the owner, the owner leaves the registry and is handed back to be
    /// destroyed. A ticket that is not outstanding is refused.
    pub fn redeem(&mut self, t: Ticket) -> (r: Result<Option<OnDrop>, NDIError>)
        requires
            old(self).wf(),
        ensures
            final(self).wf(),
            match r {
                Ok(last) => {
                    &&& old(self)@.is_outstanding(t)
                    &&& final(self)@ == old(self)@.redeem(t)
                    &&& last.is_some() == old(self)@.is_last_frame(t)
                    &&& last matches Some(d) ==> d.spec_value() == t.owner && d.spec_kind()
                        == old(self)@.handles[t.owner].kind
                },
                Err(e) => {
                    &&& !old(self)@.is_outstanding(t)
                    &&& e == NDIError::AlreadyReleased
                    &&& final(self)@ == old(self)@
                },
            },
    {
        match self.handles.remove(&t.owner) {
            None => {
                assert(self@.handles =~= old(self)@.handles);
                Err(NDIError::AlreadyReleased)
            },
            Some(mut e) => {
                let had = e.frames.remove(&t.serial);
                if !had {
                    assert(e.frames@ =~= old(self).handles@[t.owner].frames@);
                    self.handles.insert(t.owner, e);
                    assert(self@.handles =~= old(self)@.handles);
                    Err(NDIError::AlreadyReleased)
                } else if !e.held && e.frames.is_empty() {
                    assert(self@.handles =~= old(self)@.redeem(t).handles);
                    Ok(Some(e.handle))
                } else {
                    self.handles.insert(t.owner, e);
                    assert(self@.handles =~= old(self)@.redeem(t).handles);
                    Ok(None)
                }
            },
        }
    }

    /// Lets go of the wrapper's reference to `h`. Where no frame of `h` is
    /// outstanding, `h` leaves the registry and is handed back to be
    /// destroyed. A handle that is not held is refused.
    pub fn relinquish(&mut self, h: usize) -> (r: Result<Option<OnDrop>, NDIError>)
        requires
            old(self).wf(),
        ensures
            final(self).wf(),
            match r {
                Ok(last) => {
                    &&& old(self)@.is_held(h)
                    &&& final(self)@ == old(self)@.relinquish(h)
                    &&& last.is_some() == old(self)@.is_last_holder(h)
                    &&& last matches Some(d) ==> d.spec_value() == h && d.spec_kind()
                        == old(self)@.handles[h].kind
                },
                Err(e) => {
                    &&& !old(self)@.is_held(h)
                    &&& e == NDIError::AlreadyReleased
                    &&& final(self)@ == old(self)@
                },
            },
    {
        match self.handles.remove(&h) {
            None => {
                assert(self@.handles =~= old(self)@.handles);
                Err(NDIError::AlreadyReleased)
            },
            Some(mut e) => {
                if !e.held {
                    self.handles.insert(h, e);
                    assert(self@.handles =~= old(self)@.handles);
                    Err(NDIError::AlreadyReleased)
                } else if e.frames.is_empty() {
                    assert(self@.handles =~= old(self)@.relinquish(h).handles);
                    Ok(Some(e.handle))
                } else {
                    e.held = false;
                    self.handles.insert(h, e);
                    assert(self@.handles =~= old(self)@.relinquish(h).handles);
                    Ok(None)
                }
            },
        }
    }
}

/// The native calls that letting go of the held handle `h` requires: its
/// destruction where the wrapper held the last reference, else none.
pub open spec fn close_calls(before: RegistryState, h: usize) -> Seq<NativeCall> {
    if before.is_last_holder(h) {
        seq![NativeCall::Destroy { kind: before.handles[h].kind, instance: h }]
    } else {
        Seq::empty()
    }
}

/// Lets go of the wrapper's reference to the handle `h`.
pub fn close_handle(registry: &mut Registry, h: usize) -> (r: Result<Vec<NativeCall>, NDIError>)
    requires
        old(registry).wf(),
    ensures
        final(registry).wf(),
        r is Ok == old(registry)@.is_held(h),
        r matches Ok(calls) ==> {
            &&& calls@ == close_calls(old(registry)@, h)
            &&& final(registry)@ == old(registry)@.relinquish(h)
        },
        r matches Err(e) ==> e == NDIError::AlreadyReleased && final(registry)@ == old(registry)@,
{
    match registry.relinquish(h) {
        Err(e) => Err(e),
        Ok(last) => {
            let mut calls: Vec<NativeCall> = Vec::new();
            match last {
                Some(handle) => {
                    calls.push(handle.release());
                },
                None => {},
            }
            assert(calls@ =~= close_calls(old(registry)@, h));
            Ok(calls)
        },
    }
}

} // verus!
