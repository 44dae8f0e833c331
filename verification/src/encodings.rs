//! Named byte encodings and the trusted boundary to the transcoding library.
//!
//! The transcoding library carries the tables of the standard named byte
//! encodings, conversions between them, and the glyph-name-to-Unicode list.
//! Each call into it stands behind a wrapper whose contract names the result;
//! the resolver's own logic is verified against those names.

use vstd::prelude::*;

verus! {

/// The named byte encodings known to the transcoding library.
#[derive(Clone, Copy, Debug, PartialEq, Eq, Structural)]
pub enum NamedEncoding {
    Unicode,
    AdobeStandard,
    AdobeExpert,
    AdobeSymbol,
    AdobeZdingbat,
    WinAnsiEncoding,
    MacRomanEncoding,
}

/// The base encoding a font descriptor may declare for its simple byte codes.
#[derive(Clone, Copy, Debug, PartialEq, Eq, Structural)]
pub enum BaseEncoding {
    StandardEncoding,
    SymbolEncoding,
    WinAnsiEncoding,
    MacRomanEncoding,
    MacExpertEncoding,
    IdentityH,
    Other,
}

#[verifier::external_type_specification]
#[verifier::external_body]
pub struct ExEncoding(pdf_encoding::Encoding);

/// Relies on the variants of pdf_encoding::Encoding: turns this crate's tag
/// for a named encoding into the transcoding library's, one variant for one.
#[verifier::external_body]
fn ext_of(e: &NamedEncoding) -> pdf_encoding::Encoding {
    match e {
        NamedEncoding::Unicode => pdf_encoding::Encoding::Unicode,
        NamedEncoding::AdobeStandard => pdf_encoding::Encoding::AdobeStandard,
        NamedEncoding::AdobeExpert => pdf_encoding::Encoding::AdobeExpert,
        NamedEncoding::AdobeSymbol => pdf_encoding::Encoding::AdobeSymbol,
        NamedEncoding::AdobeZdingbat => pdf_encoding::Encoding::AdobeZdingbat,
        NamedEncoding::WinAnsiEncoding => pdf_encoding::Encoding::WinAnsiEncoding,
        NamedEncoding::MacRomanEncoding => pdf_encoding::Encoding::MacRomanEncoding,
    }
}

/// Whether the transcoding library offers a transcoder from `src` to `dst`.
pub uninterp spec fn spec_has_transcoder(src: NamedEncoding, dst: NamedEncoding) -> bool;

/// What the transcoder from `src` to `dst` turns the codepoint `cp` into,
/// `None` where no transcoder exists or `cp` has no image.
pub uninterp spec fn spec_transcode(src: NamedEncoding, dst: NamedEncoding, cp: u32) -> Option<u32>;

/// The Unicode character that the byte-to-Unicode table of the named
/// encoding `src` assigns to the byte `b`.
pub uninterp spec fn spec_forward(src: NamedEncoding, b: u8) -> Option<char>;

/// The Unicode string that the standard glyph list assigns to a glyph name,
/// the name given as its UTF-8 bytes; `None` for bytes that are not UTF-8 or
/// for a name not in the list.
pub uninterp spec fn spec_glyph_unicode(name: Seq<u8>) -> Option<Seq<char>>;

/// The first character of a string, if any.
pub open spec fn first_char(s: Seq<char>) -> Option<char> {
    if s.len() > 0 {
        Some(s[0])
    } else {
        None
    }
}

/// Relies on pdf_encoding::Encoding::to: whether a transcoder between the two
/// named encodings exists.
#[verifier::external_body]
pub(crate) fn has_transcoder(src: &NamedEncoding, dst: &NamedEncoding) -> (r: bool)
    ensures
        r == spec_has_transcoder(*src, *dst),
{
    ext_of(src).to(ext_of(dst)).is_some()
}

/// Relies on pdf_encoding::Encoding::to and Transcoder::translate: the
/// transcoder between two named encodings, applied to one codepoint. Equal
/// encodings give the identity transcoder, which the second clause states.
#[verifier::external_body]
pub(crate) fn transcode(src: &NamedEncoding, dst: &NamedEncoding, cp: u32) -> (r: Option<u32>)
    ensures
        r == spec_transcode(*src, *dst, cp),
        *src == *dst ==> r == Some(cp),
{
    ext_of(src).to(ext_of(dst)).and_then(|t| t.translate(cp))
}

/// Relies on pdf_encoding::Encoding::forward_map and ForwardMap::get: the
/// byte-to-Unicode table of a named encoding, read at one byte.
#[verifier::external_body]
pub(crate) fn forward_char(src: &NamedEncoding, b: u8) -> (r: Option<char>)
    ensures
        r == spec_forward(*src, b),
{
    ext_of(src).forward_map().and_then(|m| m.get(b))
}

/// Relies on pdf_encoding::glyphname_to_unicode (with str::from_utf8 to read
/// the name's bytes): looks a glyph name up in the standard glyph list. The
/// outer option says whether the name is in the list; the inner option is the
/// first character of the listed string.
#[verifier::external_body]
pub(crate) fn glyph_unicode_first(name: &[u8]) -> (r: Option<Option<char>>)
    ensures
        r is Some <==> spec_glyph_unicode(name@) is Some,
        r is Some ==> r->Some_0 == first_char(spec_glyph_unicode(name@)->Some_0),
{
    core::str::from_utf8(name).ok().and_then(pdf_encoding::glyphname_to_unicode).map(
        |u| u.chars().next(),
    )
}

/// The characters that `char::from_u32` accepts: every codepoint but the
/// surrogates and those above the Unicode maximum.
pub open spec fn spec_char_from_u32(n: u32) -> Option<char> {
    if n < 0xD800 || (0xE000 <= n && n <= 0x10FFFF) {
        Some(n as char)
    } else {
        None
    }
}

/// Relies on char::from_u32: documented to return the scalar value exactly
/// when it is no surrogate and at most the Unicode maximum.
#[verifier::external_body]
pub(crate) fn char_from_u32(n: u32) -> (r: Option<char>)
    ensures
        r == spec_char_from_u32(n),
{
    char::from_u32(n)
}

} // verus!
