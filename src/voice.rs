use vstd::prelude::*;
use vstd::utf8::*;

use crate::text::{decode_lossy, lossy_text};

verus! {

/// One synthesis voice as the dispatcher describes it: a read-only snapshot of
/// its name, language and variant.
#[derive(Clone, Debug)]
pub struct Voice {
    name: String,
    language: String,
    variant: String,
}

impl Voice {
    pub closed spec fn spec_name(&self) -> Seq<char> {
        self.name@
    }

    pub closed spec fn spec_language(&self) -> Seq<char> {
        self.language@
    }

    pub closed spec fn spec_variant(&self) -> Seq<char> {
        self.variant@
    }

    /// Builds a voice record from the three native byte strings of a voice
    /// descriptor, each decoded on its own, lossily.
    pub fn from_bytes(name: &[u8], language: &[u8], variant: &[u8]) -> (r: Voice)
        ensures
            r.spec_name() == lossy_text(name@),
            r.spec_language() == lossy_text(language@),
            r.spec_variant() == lossy_text(variant@),
            valid_utf8(name@) ==> r.spec_name() == decode_utf8(name@),
            valid_utf8(language@) ==> r.spec_language() == decode_utf8(language@),
            valid_utf8(variant@) ==> r.spec_variant() == decode_utf8(variant@),
    {
        Voice {
            name: decode_lossy(name),
            language: decode_lossy(language),
            variant: decode_lossy(variant),
        }
    }

    pub fn name(&self) -> (r: &str)
        ensures
            r@ == self.spec_name(),
    {
        self.name.as_str()
    }

    pub fn language(&self) -> (r: &str)
        ensures
            r@ == self.spec_language(),
    {
        self.language.as_str()
    }

    pub fn variant(&self) -> (r: &str)
        ensures
            r@ == self.spec_variant(),
    {
        self.variant.as_str()
    }
}

} // verus!
