//! Ownership and lifetime protocol for frames and handles of a native media
//! transport library, with the tags and descriptors that cross its boundary.
//!
//! Nothing here calls the native library. Each operation says which native
//! call to make, as a [`NativeCall`], or takes in what a native call
//! returned, as plain values. A driver stands between the two.

use vstd::prelude::*;

pub mod bindings;
pub mod error;
pub mod find;
pub mod frame;
pub mod internal;
pub mod recv;
pub mod send;
pub mod source;
pub mod tags;
pub mod text;

pub use error::NDIError;
pub use find::Find;
pub use find::FindBuilder;
pub use find::SearchAction;
pub use find::SearchState;
pub use find::SourceSearch;
pub use frame::AudioData;
pub use frame::MetaData;
pub use frame::Owner;
pub use frame::VideoData;
pub use internal::HandleKind;
pub use internal::Media;
pub use internal::NativeCall;
pub use internal::OnDrop;
pub use internal::Registry;
pub use internal::Ticket;
pub use recv::Capture;
pub use recv::Recv;
pub use recv::RecvBandwidth;
pub use recv::RecvBuilder;
pub use recv::RecvColorFormat;
pub use recv::RecvPerformance;
pub use recv::RecvQueueSize;
pub use send::Send;
pub use send::SendBuilder;
pub use source::Source;
pub use source::Tally;
pub use tags::FourCCAudioType;
pub use tags::FourCCVideoType;
pub use tags::FrameFormatType;
pub use tags::FrameType;

verus! {

/// Takes in what starting the native library returned. The library refuses
/// to start on a machine that cannot run it.
pub fn initialize(started: bool) -> (r: Result<(), NDIError>)
    ensures
        r == (if started {
            Ok::<(), NDIError>(())
        } else {
            Err::<(), NDIError>(NDIError::NotSupported)
        }),
{
    if !started {
        return Err(NDIError::NotSupported);
    }
    Ok(())
}

/// The call that tears the native library down, which invalidates every
/// handle: it is granted only while no handle is live.
pub fn cleanup(registry: &Registry) -> (r: Option<NativeCall>)
    ensures
        r == (if registry@.is_idle() {
            Some(NativeCall::LibraryDestroy)
        } else {
            None
        }),
{
    if registry.is_idle() {
        Some(NativeCall::LibraryDestroy)
    } else {
        None
    }
}

} // verus!
