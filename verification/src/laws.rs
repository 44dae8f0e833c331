//! Laws of the resolver, each proved from the spec functions that
//! `FontEntry::build`'s contract is stated over.

use vstd::prelude::*;

use crate::descriptor::FontDescriptor;
use crate::encodings::{spec_char_from_u32, BaseEncoding};
use crate::entry::{
    cid_char, cid_map_upto, diff_char, diffs_map_upto, fallback_map_upto, simple_map, spec_is_cid,
    spec_resolve, stage_map, EncodingModel,
};
use crate::glyph_source::{GlyphId, GlyphSource};

verus! {

proof fn lemma_cid_map_upto(gids: Seq<u16>, d: &FontDescriptor, n: int, j: u16)
    requires
        0 <= n <= 0x10000,
        n <= gids.len(),
        j < n,
    ensures
        cid_map_upto(gids, d, n).contains_key(j),
        cid_map_upto(gids, d, n)[j] == (GlyphId(gids[j as int] as u32), cid_char(d, j)),
    decreases n,
{
    assert((n - 1) % 0x10000 == n - 1);
    if (j as int) < n - 1 {
        lemma_cid_map_upto(gids, d, n - 1, j);
        assert(j != ((n - 1) % 0x10000) as u16);
    } else {
        assert(j as int == n - 1);
    }
}

/// CID array precedence: for a font with an explicit CID-to-glyph-index
/// array, the resolved encoding is the table built from the array verbatim:
/// the entry for each index carries the array's stored glyph index, whatever
/// base encoding the descriptor declares. (An array longer than the code
/// space wraps: index 0x10000 would land on code 0 again, so the statement
/// asks for an array that fits.)
pub proof fn lemma_cid_array_precedence<F: GlyphSource>(font: &F, d: &FontDescriptor, j: u16)
    requires
        d.cid_to_gid is Some,
        d.cid_to_gid->Some_0@.len() <= 0x10000,
        j < d.cid_to_gid->Some_0@.len(),
    ensures
        spec_resolve(font, d) is Cmap,
        (spec_resolve(font, d)->Cmap_0).contains_key(j),
        (spec_resolve(font, d)->Cmap_0)[j] == (
            GlyphId(d.cid_to_gid->Some_0@[j as int] as u32),
            cid_char(d, j),
        ),
{
    let gids = d.cid_to_gid->Some_0@;
    lemma_cid_map_upto(gids, d, gids.len() as int, j);
}

/// Identity passthrough: a font declaring the identity CID base encoding and
/// carrying no CID array resolves to CID passthrough, with the CID flag set.
pub proof fn lemma_identity_passthrough<F: GlyphSource>(font: &F, d: &FontDescriptor)
    requires
        d.cid_to_gid is None,
        d.base_encoding == Some(BaseEncoding::IdentityH),
    ensures
        spec_resolve(font, d) == EncodingModel::Cid,
        spec_is_cid(d),
{
}

proof fn lemma_diffs_map_upto_last<F: GlyphSource>(
    font: &F,
    base: Map<u16, (GlyphId, Option<char>)>,
    diffs: Seq<(u32, Vec<u8>)>,
    k: int,
    n: int,
)
    requires
        0 <= k < n <= diffs.len(),
        font.gid_for_name_spec(diffs[k].1@) is Some,
        forall|j: int|
            k < j < n ==> (#[trigger] diffs[j]).0 % 0x10000 != diffs[k].0 % 0x10000
                || font.gid_for_name_spec(diffs[j].1@) is None,
    ensures
        diffs_map_upto(font, base, diffs, n).contains_key((diffs[k].0 % 0x10000) as u16),
        diffs_map_upto(font, base, diffs, n)[(diffs[k].0 % 0x10000) as u16] == (
            font.gid_for_name_spec(diffs[k].1@)->Some_0,
            diff_char(diffs[k].1@),
        ),
    decreases n,
{
    if n - 1 > k {
        lemma_diffs_map_upto_last(font, base, diffs, k, n - 1);
        if font.gid_for_name_spec(diffs[n - 1].1@) is Some {
            assert((diffs[n - 1].0 % 0x10000) as u16 != (diffs[k].0 % 0x10000) as u16);
        }
    }
}

/// Differences override: an override whose glyph name the font resolves
/// decides the final entry for its code, regardless of what the transcoding
/// stage produced there, provided no later override for the same code also
/// resolves (a later one would overwrite in turn). The entry carries that
/// glyph and the glyph name's character.
pub proof fn lemma_differences_override<F: GlyphSource>(font: &F, d: &FontDescriptor, k: int)
    requires
        d.cid_to_gid is None,
        d.base_encoding != Some(BaseEncoding::IdentityH),
        0 <= k < d.differences@.len(),
        font.gid_for_name_spec(d.differences@[k].1@) is Some,
        forall|j: int|
            k < j < d.differences@.len() ==> (#[trigger] d.differences@[j]).0 % 0x10000
                != d.differences@[k].0 % 0x10000 || font.gid_for_name_spec(
                d.differences@[j].1@,
            ) is None,
    ensures
        spec_resolve(font, d) matches EncodingModel::Cmap(m) && m.contains_key(
            (d.differences@[k].0 % 0x10000) as u16,
        ) && m[(d.differences@[k].0 % 0x10000) as u16] == (
            font.gid_for_name_spec(d.differences@[k].1@)->Some_0,
            diff_char(d.differences@[k].1@),
        ),
{
    let diffs = d.differences@;
    let stage = stage_map(font, d);
    lemma_diffs_map_upto_last(font, stage, diffs, k, diffs.len() as int);
    let m = simple_map(font, d);
    assert(m.dom().contains((diffs[k].0 % 0x10000) as u16));
    assert(!m.is_empty());
}

/// Empty-map degradation: where no CID array is given, the resolver never
/// returns a vacuous explicit table; if nothing resolved, the encoding is CID
/// passthrough instead.
pub proof fn lemma_no_vacuous_map<F: GlyphSource>(font: &F, d: &FontDescriptor)
    requires
        d.cid_to_gid is None,
    ensures
        spec_resolve(font, d) matches EncodingModel::Cmap(m) ==> !m.is_empty(),
{
}

/// Fallback PUA mapping: an entry of the identity fallback table maps a byte
/// to the font's glyph for that very codepoint, and carries the synthetic
/// Private-Use-Area character 0xF000 plus the byte.
pub proof fn lemma_fallback_pua<F: GlyphSource>(font: &F, n: int, b: u16)
    requires
        0 <= n <= 256,
    ensures
        fallback_map_upto(font, n).contains_key(b) <==> b < n && font.gid_for_codepoint_spec(
            b as u32,
        ) is Some,
        fallback_map_upto(font, n).contains_key(b) ==> fallback_map_upto(font, n)[b] == (
            font.gid_for_codepoint_spec(b as u32)->Some_0,
            spec_char_from_u32((0xf000 + b) as u32),
        ),
    decreases n,
{
    if n > 0 {
        lemma_fallback_pua(font, n - 1, b);
        assert((n - 1) as u16 == b <==> n - 1 == b);
    }
}

} // verus!
