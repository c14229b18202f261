//! The bundled monospace font.
use vstd::prelude::*;

verus! {

/// Relies on `epaint_default_fonts::HACK_REGULAR`: the bytes of the Hack
/// Regular TrueType font file embedded in that crate, which starts with the
/// TrueType tag `00 01 00 00`.
#[verifier::external_body]
pub fn load_font() -> (font: &'static [u8])
    ensures
        font@.len() >= 4,
        font@.subrange(0, 4) == seq![0x00u8, 0x01u8, 0x00u8, 0x00u8],
{
    epaint_default_fonts::HACK_REGULAR
}

} // verus!
