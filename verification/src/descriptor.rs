//! The font descriptor: the document-side metadata that governs resolution.
//!
//! The descriptor carries, as plain values, everything the resolver reads of
//! a font's dictionary: the CID flag, the declared base encoding with its
//! per-code overrides, the optional CID-to-glyph-index array, the optional
//! code-to-Unicode strings, and the display name. The width table that the
//! document carries beside this metadata stays an opaque value: the resolver
//! never reads it, only passes it through.

use vstd::prelude::*;

use crate::encodings::BaseEncoding;

verus! {

#[verifier::external_type_specification]
#[verifier::external_body]
pub struct ExWidths(pdf::font::Widths);

/// The metadata of one font, as the document declares it.
pub struct FontDescriptor {
    /// Whether the font is CID-keyed.
    pub is_cid: bool,
    /// The declared base encoding, absent where the font dictionary names
    /// none.
    pub base_encoding: Option<BaseEncoding>,
    /// The per-code overrides: pairs of a code and a glyph name, the name as
    /// its UTF-8 bytes, applied in order.
    pub differences: Vec<(u32, Vec<u8>)>,
    /// The explicit CID-to-glyph-index array, if the font carries one.
    pub cid_to_gid: Option<Vec<u16>>,
    /// The code-to-Unicode strings, if the font carries them: pairs of a code
    /// and the characters it extracts to, the first pair with a code winning.
    pub to_unicode: Option<Vec<(u16, Vec<char>)>>,
    /// The display name, whose absence is the one fatal construction error.
    pub name: Option<String>,
}

/// Why no resolved font could be constructed.
#[derive(Clone, Copy, Debug, PartialEq, Eq, Structural)]
pub enum FontError {
    /// The descriptor carries no display name.
    NoName,
}

impl FontError {
    /// The error's wording.
    pub fn message(&self) -> (r: String)
        ensures
            *self == FontError::NoName ==> r@ == "font has no name"@,
    {
        "font has no name".to_owned()
    }
}

} // verus!
