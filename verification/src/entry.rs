//! The encoding resolver: from a glyph source and a descriptor to a resolved
//! font.
//!
//! The decision tree is evaluated in fixed precedence order: an explicit
//! CID-to-glyph-index array wins outright; an identity CID base encoding
//! selects passthrough; otherwise a byte table is built by transcoding, with
//! the per-code overrides laid over it, and an empty table degrades to
//! passthrough. The spec functions here state the whole construction, and
//! `FontEntry::build` is proved to return exactly it.

use std::collections::HashMap;
use vstd::prelude::*;

use crate::descriptor::{FontDescriptor, FontError};
use crate::encodings::{
    first_char, spec_char_from_u32, spec_forward, spec_glyph_unicode, spec_has_transcoder,
    spec_transcode, BaseEncoding, NamedEncoding,
};
use crate::encodings::{char_from_u32, forward_char, glyph_unicode_first, has_transcoder, transcode};
use crate::glyph_source::{GlyphId, GlyphSource};

verus! {

broadcast use vstd::std_specs::hash::group_hash_axioms;

/// A resolved text encoding: either codes pass through as CIDs, or an
/// explicit table maps each code to a glyph and an optional Unicode
/// character.
pub enum TextEncoding {
    /// Character codes are used directly as glyph identifiers.
    CID,
    /// An explicit code-to-(glyph, character) table.
    Cmap(HashMap<u16, (GlyphId, Option<char>)>),
}

/// The mathematical shape of a resolved text encoding.
pub enum EncodingModel {
    Cid,
    Cmap(Map<u16, (GlyphId, Option<char>)>),
}

impl View for TextEncoding {
    type V = EncodingModel;

    open spec fn view(&self) -> EncodingModel {
        match self {
            TextEncoding::CID => EncodingModel::Cid,
            TextEncoding::Cmap(m) => EncodingModel::Cmap(m@),
        }
    }
}

/// The string that the first code-to-Unicode entry with code `code` carries.
pub open spec fn unicode_lookup(entries: Seq<(u16, Vec<char>)>, code: u16) -> Option<Seq<char>>
    decreases entries.len(),
{
    if entries.len() == 0 {
        None
    } else if entries[0].0 == code {
        Some(entries[0].1@)
    } else {
        unicode_lookup(entries.drop_first(), code)
    }
}

/// The Unicode character associated with a CID: the first character of the
/// descriptor's code-to-Unicode string for it, if present.
pub open spec fn cid_char(d: &FontDescriptor, code: u16) -> Option<char> {
    match d.to_unicode {
        Some(tu) => match unicode_lookup(tu@, code) {
            Some(s) => first_char(s),
            None => None,
        },
        None => None,
    }
}

/// The table built from the first `n` entries of a CID-to-glyph-index array:
/// the code is the array index, the glyph the stored index.
pub open spec fn cid_map_upto(gids: Seq<u16>, d: &FontDescriptor, n: int) -> Map<
    u16,
    (GlyphId, Option<char>),
>
    decreases n,
{
    if n <= 0 {
        Map::empty()
    } else {
        let i = n - 1;
        cid_map_upto(gids, d, i).insert(
            ((i % 0x10000) as u16),
            (GlyphId(gids[i] as u32), cid_char(d, (i % 0x10000) as u16)),
        )
    }
}

/// The table built from the first `n` byte values when both a source and a
/// destination encoding are known: each byte is transcoded and the glyph
/// source queried by the destination codepoint; the associated character is
/// the source encoding's own character for the byte.
pub open spec fn pair_map_upto<F: GlyphSource>(
    font: &F,
    src: NamedEncoding,
    dst: NamedEncoding,
    n: int,
) -> Map<u16, (GlyphId, Option<char>)>
    decreases n,
{
    if n <= 0 {
        Map::empty()
    } else {
        let m = pair_map_upto(font, src, dst, n - 1);
        let b = n - 1;
        match spec_transcode(src, dst, b as u32) {
            Some(cp) => match font.gid_for_codepoint_spec(cp) {
                Some(gid) => m.insert(b as u16, (gid, spec_forward(src, b as u8))),
                None => m,
            },
            None => m,
        }
    }
}

/// The table built from the first `n` byte values when only a source
/// encoding is known: each byte is transcoded to Unicode and the glyph source
/// queried by Unicode codepoint, which is also the associated character.
pub open spec fn unicode_map_upto<F: GlyphSource>(font: &F, src: NamedEncoding, n: int) -> Map<
    u16,
    (GlyphId, Option<char>),
>
    decreases n,
{
    if n <= 0 {
        Map::empty()
    } else {
        let m = unicode_map_upto(font, src, n - 1);
        let b = n - 1;
        match spec_transcode(src, NamedEncoding::Unicode, b as u32) {
            Some(cp) => match font.gid_for_unicode_spec(cp) {
                Some(gid) => m.insert(b as u16, (gid, spec_char_from_u32(cp))),
                None => m,
            },
            None => m,
        }
    }
}

/// The identity fallback table over the first `n` byte values: codes are
/// assumed to be the font's own codepoints, and a mapped byte carries the
/// Private-Use-Area character 0xF000 plus the byte.
pub open spec fn fallback_map_upto<F: GlyphSource>(font: &F, n: int) -> Map<
    u16,
    (GlyphId, Option<char>),
>
    decreases n,
{
    if n <= 0 {
        Map::empty()
    } else {
        let m = fallback_map_upto(font, n - 1);
        let b = n - 1;
        match font.gid_for_codepoint_spec(b as u32) {
            Some(gid) => m.insert(b as u16, (gid, spec_char_from_u32((0xf000 + b) as u32))),
            None => m,
        }
    }
}

/// The position of the first `.` in a glyph name's bytes, from `i` on.
pub open spec fn find_dot(name: Seq<u8>, i: int) -> Option<int>
    decreases name.len() - i,
{
    if i < 0 || i >= name.len() {
        None
    } else if name[i] == 46 {
        Some(i)
    } else {
        find_dot(name, i + 1)
    }
}

/// The Unicode character associated with a glyph name in an override: the
/// first character of the standard glyph list's string for the name, retried
/// with the portion before the first `.` where the full name is not listed.
pub open spec fn diff_char(name: Seq<u8>) -> Option<char> {
    match spec_glyph_unicode(name) {
        Some(s) => first_char(s),
        None => match find_dot(name, 0) {
            Some(i) => match spec_glyph_unicode(name.subrange(0, i)) {
                Some(s) => first_char(s),
                None => None,
            },
            None => None,
        },
    }
}

/// The table `base` with the first `n` per-code overrides laid over it, in
/// order: an override whose glyph name the font resolves replaces the entry
/// for its code; one it does not resolve is skipped.
pub open spec fn diffs_map_upto<F: GlyphSource>(
    font: &F,
    base: Map<u16, (GlyphId, Option<char>)>,
    diffs: Seq<(u32, Vec<u8>)>,
    n: int,
) -> Map<u16, (GlyphId, Option<char>)>
    decreases n,
{
    if n <= 0 {
        base
    } else {
        let m = diffs_map_upto(font, base, diffs, n - 1);
        let cp = diffs[n - 1].0;
        let name = diffs[n - 1].1;
        match font.gid_for_name_spec(name@) {
            Some(gid) => m.insert(((cp % 0x10000) as u16), (gid, diff_char(name@))),
            None => m,
        }
    }
}

/// The source named encoding a declared base encoding resolves to; absent or
/// unrecognized base encodings resolve to none.
pub open spec fn source_of(base: Option<BaseEncoding>) -> Option<NamedEncoding> {
    match base {
        Some(BaseEncoding::StandardEncoding) => Some(NamedEncoding::AdobeStandard),
        Some(BaseEncoding::SymbolEncoding) => Some(NamedEncoding::AdobeSymbol),
        Some(BaseEncoding::WinAnsiEncoding) => Some(NamedEncoding::WinAnsiEncoding),
        Some(BaseEncoding::MacRomanEncoding) => Some(NamedEncoding::MacRomanEncoding),
        Some(BaseEncoding::MacExpertEncoding) => Some(NamedEncoding::AdobeExpert),
        _ => None,
    }
}

/// The byte table before overrides: transcoding between source and
/// destination where both are known and a transcoder exists, transcoding to
/// Unicode where only the source is known, and the identity fallback where
/// the source is undefined or no transcoder exists for the chosen pair.
pub open spec fn stage_map<F: GlyphSource>(font: &F, d: &FontDescriptor) -> Map<
    u16,
    (GlyphId, Option<char>),
> {
    match (source_of(d.base_encoding), font.native_encoding_spec()) {
        (Some(src), Some(dst)) => if spec_has_transcoder(src, dst) {
            pair_map_upto(font, src, dst, 256)
        } else {
            fallback_map_upto(font, 256)
        },
        (Some(src), None) => if spec_has_transcoder(src, NamedEncoding::Unicode) {
            unicode_map_upto(font, src, 256)
        } else {
            fallback_map_upto(font, 256)
        },
        (None, _) => fallback_map_upto(font, 256),
    }
}

/// The finished byte table: the staged table with every override applied.
pub open spec fn simple_map<F: GlyphSource>(font: &F, d: &FontDescriptor) -> Map<
    u16,
    (GlyphId, Option<char>),
> {
    diffs_map_upto(font, stage_map(font, d), d.differences@, d.differences@.len() as int)
}

/// The resolved text encoding for a glyph source and a descriptor, branch by
/// branch in precedence order.
pub open spec fn spec_resolve<F: GlyphSource>(font: &F, d: &FontDescriptor) -> EncodingModel {
    match d.cid_to_gid {
        Some(gids) => EncodingModel::Cmap(cid_map_upto(gids@, d, gids@.len() as int)),
        None => if d.base_encoding == Some(BaseEncoding::IdentityH) {
            EncodingModel::Cid
        } else {
            let m = simple_map(font, d);
            if m.is_empty() {
                EncodingModel::Cid
            } else {
                EncodingModel::Cmap(m)
            }
        },
    }
}

/// Whether the resolved font is marked CID-keyed.
pub open spec fn spec_is_cid(d: &FontDescriptor) -> bool {
    d.is_cid || d.cid_to_gid is Some || d.base_encoding == Some(BaseEncoding::IdentityH)
}

/// A resolved font: the glyph source, the originating descriptor, the chosen
/// text encoding, the optional width table, the CID flag and the display
/// name; immutable once constructed.
pub struct FontEntry<F: GlyphSource> {
    /// The glyph source the encoding was resolved against.
    pub font: F,
    /// The descriptor the encoding was resolved from.
    pub pdf_font: FontDescriptor,
    /// The resolved text encoding.
    pub encoding: TextEncoding,
    /// The per-glyph width table, where the document carries one.
    pub widths: Option<pdf::font::Widths>,
    /// Whether codes are CIDs rather than simple bytes.
    pub is_cid: bool,
    /// The display name.
    pub name: String,
}

proof fn lemma_unicode_lookup_skip(entries: Seq<(u16, Vec<char>)>, code: u16, i: int)
    requires
        0 <= i <= entries.len(),
        forall|j: int| 0 <= j < i ==> (#[trigger] entries[j]).0 != code,
    ensures
        unicode_lookup(entries, code) == unicode_lookup(
            entries.subrange(i, entries.len() as int),
            code,
        ),
    decreases i,
{
    if i > 0 {
        lemma_unicode_lookup_skip(entries, code, i - 1);
        let tail = entries.subrange(i - 1, entries.len() as int);
        assert(tail[0] == entries[i - 1]);
        assert(tail.drop_first() =~= entries.subrange(i, entries.len() as int));
    } else {
        assert(entries.subrange(0, entries.len() as int) =~= entries);
    }
}

/// The Unicode character associated with a CID, read from the descriptor.
fn cid_char_exec(d: &FontDescriptor, code: u16) -> (r: Option<char>)
    ensures
        r == cid_char(d, code),
{
    match &d.to_unicode {
        None => None,
        Some(tu) => {
            let mut i: usize = 0;
            while i < tu.len()
                invariant
                    i <= tu@.len(),
                    d.to_unicode == Some(*tu),
                    forall|j: int| 0 <= j < i ==> (#[trigger] tu@[j]).0 != code,
                decreases tu@.len() - i,
            {
                let e = &tu[i];
                if e.0 == code {
                    proof {
                        lemma_unicode_lookup_skip(tu@, code, i as int);
                        let tail = tu@.subrange(i as int, tu@.len() as int);
                        assert(tail[0] == tu@[i as int]);
                        assert(unicode_lookup(tu@, code) == Some(tu@[i as int].1@));
                    }
                    if e.1.len() > 0 {
                        return Some(e.1[0]);
                    } else {
                        return None;
                    }
                }
                i += 1;
            }
            proof {
                lemma_unicode_lookup_skip(tu@, code, tu@.len() as int);
            }
            None
        },
    }
}

/// The source named encoding for a declared base encoding.
fn source_encoding(base: &Option<BaseEncoding>) -> (r: Option<NamedEncoding>)
    ensures
        r == source_of(*base),
{
    match base {
        Some(BaseEncoding::StandardEncoding) => Some(NamedEncoding::AdobeStandard),
        Some(BaseEncoding::SymbolEncoding) => Some(NamedEncoding::AdobeSymbol),
        Some(BaseEncoding::WinAnsiEncoding) => Some(NamedEncoding::WinAnsiEncoding),
        Some(BaseEncoding::MacRomanEncoding) => Some(NamedEncoding::MacRomanEncoding),
        Some(BaseEncoding::MacExpertEncoding) => Some(NamedEncoding::AdobeExpert),
        _ => None,
    }
}

/// Fills an empty table with the identity fallback entries.
fn fill_fallback<F: GlyphSource>(font: &F, cmap: &mut HashMap<u16, (GlyphId, Option<char>)>)
    requires
        old(cmap)@ == Map::<u16, (GlyphId, Option<char>)>::empty(),
    ensures
        final(cmap)@ == fallback_map_upto(font, 256),
{
    let mut cp: u32 = 0;
    while cp < 256
        invariant
            cp <= 256,
            cmap@ == fallback_map_upto(font, cp as int),
        decreases 256 - cp,
    {
        match font.gid_for_codepoint(cp) {
            Some(gid) => {
                let ch = char_from_u32(0xf000 + cp);
                cmap.insert(cp as u16, (gid, ch));
            },
            None => {},
        }
        cp += 1;
    }
}

proof fn lemma_find_dot_skip(name: Seq<u8>, i: int)
    requires
        0 <= i <= name.len(),
        forall|j: int| 0 <= j < i ==> name[j] != 46,
    ensures
        find_dot(name, 0) == find_dot(name, i),
    decreases i,
{
    if i > 0 {
        lemma_find_dot_skip(name, i - 1);
    }
}

/// The position of the first `.` in a glyph name's bytes.
fn find_dot_exec(name: &[u8]) -> (r: Option<usize>)
    ensures
        match r {
            Some(i) => find_dot(name@, 0) == Some(i as int) && i < name@.len(),
            None => find_dot(name@, 0) is None,
        },
{
    let mut i: usize = 0;
    while i < name.len()
        invariant
            i <= name@.len(),
            forall|j: int| 0 <= j < i ==> name@[j] != 46,
        decreases name@.len() - i,
    {
        if name[i] == 46 {
            proof {
                lemma_find_dot_skip(name@, i as int);
            }
            return Some(i);
        }
        i += 1;
    }
    proof {
        lemma_find_dot_skip(name@, name@.len() as int);
    }
    None
}

/// The Unicode character associated with a glyph name in an override.
fn diff_char_exec(name: &[u8]) -> (r: Option<char>)
    ensures
        r == diff_char(name@),
{
    match glyph_unicode_first(name) {
        Some(first) => first,
        None => {
            match find_dot_exec(name) {
                Some(i) => {
                    let prefix = vstd::slice::slice_subrange(name, 0, i);
                    match glyph_unicode_first(prefix) {
                        Some(first) => first,
                        None => None,
                    }
                },
                None => None,
            }
        },
    }
}

impl<F: GlyphSource> FontEntry<F> {
    /// Resolves the encoding for a glyph source and a descriptor and
    /// assembles the resolved font. A descriptor with no display name is the
    /// one fatal condition; everything else degrades to a documented
    /// fallback.
    pub fn build(font: F, pdf_font: FontDescriptor, widths: Option<pdf::font::Widths>) -> (r:
        Result<FontEntry<F>, FontError>)
        ensures
            pdf_font.name is None <==> r is Err,
            r is Err ==> r->Err_0 == FontError::NoName,
            r is Ok ==> {
                let e = r->Ok_0;
                &&& e.encoding@ == spec_resolve(&font, &pdf_font)
                &&& e.is_cid == spec_is_cid(&pdf_font)
                &&& e.name@ == pdf_font.name->Some_0@
                &&& e.font == font
                &&& e.pdf_font == pdf_font
                &&& e.widths == widths
            },
    {
        let name: String = match &pdf_font.name {
            Some(n) => n.clone(),
            None => {
                return Err(FontError::NoName);
            },
        };
        let mut is_cid = pdf_font.is_cid;
        let encoding: TextEncoding;
        match &pdf_font.cid_to_gid {
            Some(gids) => {
                is_cid = true;
                let mut cmap: HashMap<u16, (GlyphId, Option<char>)> = HashMap::new();
                let mut i: usize = 0;
                while i < gids.len()
                    invariant
                        i <= gids@.len(),
                        cmap@ == cid_map_upto(gids@, &pdf_font, i as int),
                    decreases gids@.len() - i,
                {
                    let code: u16 = (i % 0x10000) as u16;
                    let gid = GlyphId(gids[i] as u32);
                    let uni = cid_char_exec(&pdf_font, code);
                    cmap.insert(code, (gid, uni));
                    i += 1;
                }
                encoding = TextEncoding::Cmap(cmap);
            },
            None => {
                let base_is_identity = match &pdf_font.base_encoding {
                    Some(BaseEncoding::IdentityH) => true,
                    _ => false,
                };
                if base_is_identity {
                    is_cid = true;
                    encoding = TextEncoding::CID;
                } else {
                    let mut cmap: HashMap<u16, (GlyphId, Option<char>)> = HashMap::new();
                    let src_opt = source_encoding(&pdf_font.base_encoding);
                    let dst_opt = font.native_encoding();
                    match (src_opt, dst_opt) {
                        (Some(src), Some(dst)) => {
                            if has_transcoder(&src, &dst) {
                                let mut b: u32 = 0;
                                while b < 256
                                    invariant
                                        b <= 256,
                                        cmap@ == pair_map_upto(&font, src, dst, b as int),
                                    decreases 256 - b,
                                {
                                    match transcode(&src, &dst, b) {
                                        Some(cp) => {
                                            match font.gid_for_codepoint(cp) {
                                                Some(gid) => {
                                                    let ch = forward_char(&src, b as u8);
                                                    cmap.insert(b as u16, (gid, ch));
                                                },
                                                None => {},
                                            }
                                        },
                                        None => {},
                                    }
                                    b += 1;
                                }
                            } else {
                                fill_fallback(&font, &mut cmap);
                            }
                            assert(cmap@ == stage_map(&font, &pdf_font));
                        },
                        (Some(src), None) => {
                            let uni = NamedEncoding::Unicode;
                            if has_transcoder(&src, &uni) {
                                let mut b: u32 = 0;
                                while b < 256
                                    invariant
                                        b <= 256,
                                        cmap@ == unicode_map_upto(&font, src, b as int),
                                    decreases 256 - b,
                                {
                                    match transcode(&src, &NamedEncoding::Unicode, b) {
                                        Some(cp) => {
                                            match font.gid_for_unicode_codepoint(cp) {
                                                Some(gid) => {
                                                    let ch = char_from_u32(cp);
                                                    cmap.insert(b as u16, (gid, ch));
                                                },
                                                None => {},
                                            }
                                        },
                                        None => {},
                                    }
                                    b += 1;
                                }
                            } else {
                                fill_fallback(&font, &mut cmap);
                            }
                            assert(cmap@ == stage_map(&font, &pdf_font));
                        },
                        (None, _) => {
                            fill_fallback(&font, &mut cmap);
                            assert(cmap@ == stage_map(&font, &pdf_font));
                        },
                    }
                    let mut k: usize = 0;
                    while k < pdf_font.differences.len()
                        invariant
                            k <= pdf_font.differences@.len(),
                            cmap@ == diffs_map_upto(
                                &font,
                                stage_map(&font, &pdf_font),
                                pdf_font.differences@,
                                k as int,
                            ),
                        decreases pdf_font.differences@.len() - k,
                    {
                        let entry = &pdf_font.differences[k];
                        let cpv: u32 = entry.0;
                        match font.gid_for_name(entry.1.as_slice()) {
                            Some(gid) => {
                                let ch = diff_char_exec(entry.1.as_slice());
                                let code: u16 = (cpv % 0x10000) as u16;
                                cmap.insert(code, (gid, ch));
                            },
                            None => {},
                        }
                        k += 1;
                    }
                    if cmap.is_empty() {
                        encoding = TextEncoding::CID;
                    } else {
                        encoding = TextEncoding::Cmap(cmap);
                    }
                }
            },
        }
        Ok(FontEntry { font, pdf_font, encoding, widths, is_cid, name })
    }
}

} // verus!
