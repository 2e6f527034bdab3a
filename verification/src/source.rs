//! Sources on the network and the tally flags exchanged with them.

use vstd::prelude::*;
use vstd::utf8::encode_utf8;
use crate::bindings::SourceT;
use crate::bindings::TallyT;
use crate::error::NDIError;
use crate::text::bytes_view;
use crate::text::copy_bytes;
use crate::text::decode;
use crate::text::encode;
use crate::text::is_decoded;
use crate::text::optional_bytes_have_nul;
use crate::text::spec_optional_has_nul;
use crate::text::spec_strict_text;

verus! {

/// A source as a mathematical value.
pub struct SourceView {
    /// The bytes of the name, if the source has one.
    pub name: Option<Seq<u8>>,
    /// The bytes of the address, if the source has one.
    pub address: Option<Seq<u8>>,
}

impl SourceView {
    /// Whether the name or the address holds a zero byte, so that the native
    /// library cannot take the source as it is.
    pub open spec fn has_nul(self) -> bool {
        spec_optional_has_nul(self.name) || spec_optional_has_nul(self.address)
    }
}

/// The source that a descriptor describes.
pub open spec fn source_view(raw: SourceT) -> SourceView {
    SourceView { name: bytes_view(raw.p_ndi_name), address: bytes_view(raw.p_url_address) }
}

/// The sources that a list of descriptors describes, in its order.
pub open spec fn source_views(raw: Seq<SourceT>) -> Seq<SourceView> {
    raw.map_values(|r: SourceT| source_view(r))
}

/// A source on the network: its name and its address, both copied out of
/// native memory when the value is made, so that nothing in it dangles when
/// the finder that reported it goes away.
#[derive(Debug, Clone, PartialEq, Eq)]
pub struct Source {
    p_instance: SourceT,
}

impl View for Source {
    type V = SourceView;

    closed spec fn view(&self) -> SourceView {
        source_view(self.p_instance)
    }
}

impl Source {
    /// Takes over a descriptor that was copied out of native memory.
    pub fn from_binding(source: SourceT) -> (r: Source)
        ensures
            r@ == source_view(source),
    {
        Source { p_instance: source }
    }

    /// The source that `source` describes, with name and address copied.
    pub fn copy_of(source: &SourceT) -> (r: Source)
        ensures
            r@ == source_view(*source),
    {
        Source {
            p_instance: SourceT {
                p_ndi_name: copy_bytes(&source.p_ndi_name),
                p_url_address: copy_bytes(&source.p_url_address),
            },
        }
    }

    /// The source without name and address.
    pub fn new() -> (r: Source)
        ensures
            r@ == (SourceView { name: None, address: None }),
    {
        Source { p_instance: SourceT { p_ndi_name: None, p_url_address: None } }
    }

    /// The source with the name `name` and without address.
    pub fn with_name(name: &String) -> (r: Source)
        ensures
            r@ == (SourceView { name: Some(encode_utf8(name@)), address: None }),
            spec_strict_text(r@.name) == Some(name@),
    {
        broadcast use vstd::utf8::group_utf8_lib;

        Source { p_instance: SourceT { p_ndi_name: Some(encode(name)), p_url_address: None } }
    }

    /// The name of the source. A source without name has the empty name; a
    /// name that is not valid UTF-8 is reported as `InvalidUtf8`.
    pub fn get_name(&self) -> (r: Result<String, NDIError>)
        ensures
            is_decoded(r, spec_strict_text(self@.name)),
    {
        decode(&self.p_instance.p_ndi_name)
    }

    /// Whether the name or the address holds a zero byte. The native library
    /// cannot take such a source as it is.
    pub fn holds_nul(&self) -> (r: bool)
        ensures
            r == self@.has_nul(),
    {
        optional_bytes_have_nul(&self.p_instance.p_ndi_name) || optional_bytes_have_nul(
            &self.p_instance.p_url_address,
        )
    }

    /// A copy of the descriptor.
    pub fn to_binding(&self) -> (r: SourceT)
        ensures
            source_view(r) == self@,
    {
        SourceT {
            p_ndi_name: copy_bytes(&self.p_instance.p_ndi_name),
            p_url_address: copy_bytes(&self.p_instance.p_url_address),
        }
    }

    /// The descriptor, to hand to the native library.
    pub fn as_binding(&self) -> (r: &SourceT)
        ensures
            source_view(*r) == self@,
    {
        &self.p_instance
    }
}

/// A name survives being stored in a source: reading the name of the source
/// made from `name` gives `name` back.
pub proof fn law_name_round_trip(name: Seq<char>)
    ensures
        spec_strict_text(Some(encode_utf8(name))) == Some(name),
{
    broadcast use vstd::utf8::group_utf8_lib;

}

/// Whether a source is on program or preview output.
#[derive(Debug, Clone, Copy, PartialEq, Eq, Structural)]
pub struct Tally {
    /// Whether the source is on program output.
    pub on_program: bool,
    /// Whether the source is on preview output.
    pub on_preview: bool,
}

impl Tally {
    /// The tally with both flags off.
    pub fn new() -> (r: Tally)
        ensures
            r == (Tally { on_program: false, on_preview: false }),
    {
        Tally { on_program: false, on_preview: false }
    }

    /// The tally that the native flags `x` stand for.
    pub fn from_binding(x: TallyT) -> (r: Tally)
        ensures
            r == (Tally { on_program: x.on_program, on_preview: x.on_preview }),
    {
        Tally { on_preview: x.on_preview, on_program: x.on_program }
    }

    /// The native flags that stand for this tally.
    pub fn into_binding(self) -> (r: TallyT)
        ensures
            r == (TallyT { on_program: self.on_program, on_preview: self.on_preview }),
            Tally::spec_from_binding(r) == self,
    {
        TallyT { on_preview: self.on_preview, on_program: self.on_program }
    }

    /// The tally that the native flags `x` stand for.
    pub open spec fn spec_from_binding(x: TallyT) -> Tally {
        Tally { on_program: x.on_program, on_preview: x.on_preview }
    }
}

impl Default for Tally {
    fn default() -> (r: Tally)
        ensures
            r == (Tally { on_program: false, on_preview: false }),
    {
        Tally::new()
    }
}

} // verus!
