//! The glyph source: the capability set a font offers for glyph lookup.
//!
//! A glyph source reports its own native encoding, if any, and looks glyphs up
//! by numeric codepoint, by Unicode codepoint, and by glyph name. Each exec
//! method is pinned to a spec counterpart, so the resolver's contract can
//! speak of what any implementation returned. `MapGlyphSource` is a verified
//! table-backed implementation.

use vstd::prelude::*;

use crate::encodings::NamedEncoding;

verus! {

/// An index into a specific font's internal glyph table.
#[derive(Clone, Copy, Debug, PartialEq, Eq, Structural)]
pub struct GlyphId(pub u32);

/// The lookup capabilities of a font, each exec method returning exactly what
/// its spec counterpart says.
pub trait GlyphSource {
    /// The font's self-reported native encoding, if any.
    spec fn native_encoding_spec(&self) -> Option<NamedEncoding>;

    /// The glyph found for a numeric codepoint of the font's own code space.
    spec fn gid_for_codepoint_spec(&self, cp: u32) -> Option<GlyphId>;

    /// The glyph found for a Unicode codepoint.
    spec fn gid_for_unicode_spec(&self, cp: u32) -> Option<GlyphId>;

    /// The glyph found for a glyph name, given as its UTF-8 bytes.
    spec fn gid_for_name_spec(&self, name: Seq<u8>) -> Option<GlyphId>;

    fn native_encoding(&self) -> (r: Option<NamedEncoding>)
        ensures
            r == self.native_encoding_spec(),
    ;

    fn gid_for_codepoint(&self, cp: u32) -> (r: Option<GlyphId>)
        ensures
            r == self.gid_for_codepoint_spec(cp),
    ;

    fn gid_for_unicode_codepoint(&self, cp: u32) -> (r: Option<GlyphId>)
        ensures
            r == self.gid_for_unicode_spec(cp),
    ;

    fn gid_for_name(&self, name: &[u8]) -> (r: Option<GlyphId>)
        ensures
            r == self.gid_for_name_spec(name@),
    ;
}

/// The glyph that the first entry of `entries` with key `key` carries.
pub open spec fn find_u32(entries: Seq<(u32, GlyphId)>, key: u32) -> Option<GlyphId>
    decreases entries.len(),
{
    if entries.len() == 0 {
        None
    } else if entries[0].0 == key {
        Some(entries[0].1)
    } else {
        find_u32(entries.drop_first(), key)
    }
}

/// The glyph that the first entry of `entries` whose name equals `key`
/// carries.
pub open spec fn find_name(entries: Seq<(Vec<u8>, GlyphId)>, key: Seq<u8>) -> Option<GlyphId>
    decreases entries.len(),
{
    if entries.len() == 0 {
        None
    } else if entries[0].0@ == key {
        Some(entries[0].1)
    } else {
        find_name(entries.drop_first(), key)
    }
}

proof fn lemma_find_u32_skip(entries: Seq<(u32, GlyphId)>, key: u32, i: int)
    requires
        0 <= i <= entries.len(),
        forall|j: int| 0 <= j < i ==> (#[trigger] entries[j]).0 != key,
    ensures
        find_u32(entries, key) == find_u32(entries.subrange(i, entries.len() as int), key),
    decreases i,
{
    if i > 0 {
        lemma_find_u32_skip(entries, key, i - 1);
        let tail = entries.subrange(i - 1, entries.len() as int);
        assert(tail[0] == entries[i - 1]);
        assert(tail.drop_first() =~= entries.subrange(i, entries.len() as int));
    } else {
        assert(entries.subrange(0, entries.len() as int) =~= entries);
    }
}

proof fn lemma_find_name_skip(entries: Seq<(Vec<u8>, GlyphId)>, key: Seq<u8>, i: int)
    requires
        0 <= i <= entries.len(),
        forall|j: int| 0 <= j < i ==> (#[trigger] entries[j]).0@ != key,
    ensures
        find_name(entries, key) == find_name(entries.subrange(i, entries.len() as int), key),
    decreases i,
{
    if i > 0 {
        lemma_find_name_skip(entries, key, i - 1);
        let tail = entries.subrange(i - 1, entries.len() as int);
        assert(tail[0] == entries[i - 1]);
        assert(tail.drop_first() =~= entries.subrange(i, entries.len() as int));
    } else {
        assert(entries.subrange(0, entries.len() as int) =~= entries);
    }
}

/// Whether two byte strings are equal.
fn eq_bytes(a: &[u8], b: &[u8]) -> (r: bool)
    ensures
        r == (a@ == b@),
{
    if a.len() != b.len() {
        assert(a@ != b@);
        return false;
    }
    let mut i: usize = 0;
    while i < a.len()
        invariant
            i <= a.len(),
            a@.len() == b@.len(),
            forall|j: int| 0 <= j < i ==> a@[j] == b@[j],
        decreases a.len() - i,
    {
        if a[i] != b[i] {
            assert(a@ != b@);
            return false;
        }
        i += 1;
    }
    assert(a@ =~= b@);
    true
}

/// A glyph source given by finite lookup tables, first entry with a key
/// winning. It serves fonts whose lookups are known outright, and it is the
/// verified witness that the trait's contracts can be met.
pub struct MapGlyphSource {
    /// The font's self-reported native encoding.
    pub native: Option<NamedEncoding>,
    /// Codepoint-to-glyph entries.
    pub by_codepoint: Vec<(u32, GlyphId)>,
    /// Unicode-codepoint-to-glyph entries.
    pub by_unicode: Vec<(u32, GlyphId)>,
    /// Glyph-name-to-glyph entries, names as UTF-8 bytes.
    pub by_name: Vec<(Vec<u8>, GlyphId)>,
}

fn find_u32_exec(entries: &Vec<(u32, GlyphId)>, key: u32) -> (r: Option<GlyphId>)
    ensures
        r == find_u32(entries@, key),
{
    let mut i: usize = 0;
    while i < entries.len()
        invariant
            i <= entries.len(),
            forall|j: int| 0 <= j < i ==> (#[trigger] entries@[j]).0 != key,
        decreases entries.len() - i,
    {
        let e = &entries[i];
        if e.0 == key {
            proof {
                lemma_find_u32_skip(entries@, key, i as int);
            }
            return Some(e.1);
        }
        i += 1;
    }
    proof {
        lemma_find_u32_skip(entries@, key, entries@.len() as int);
    }
    None
}

impl GlyphSource for MapGlyphSource {
    open spec fn native_encoding_spec(&self) -> Option<NamedEncoding> {
        self.native
    }

    open spec fn gid_for_codepoint_spec(&self, cp: u32) -> Option<GlyphId> {
        find_u32(self.by_codepoint@, cp)
    }

    open spec fn gid_for_unicode_spec(&self, cp: u32) -> Option<GlyphId> {
        find_u32(self.by_unicode@, cp)
    }

    open spec fn gid_for_name_spec(&self, name: Seq<u8>) -> Option<GlyphId> {
        find_name(self.by_name@, name)
    }

    fn native_encoding(&self) -> (r: Option<NamedEncoding>) {
        self.native
    }

    fn gid_for_codepoint(&self, cp: u32) -> (r: Option<GlyphId>) {
        find_u32_exec(&self.by_codepoint, cp)
    }

    fn gid_for_unicode_codepoint(&self, cp: u32) -> (r: Option<GlyphId>) {
        find_u32_exec(&self.by_unicode, cp)
    }

    fn gid_for_name(&self, name: &[u8]) -> (r: Option<GlyphId>) {
        let mut i: usize = 0;
        while i < self.by_name.len()
            invariant
                i <= self.by_name.len(),
                forall|j: int| 0 <= j < i ==> (#[trigger] self.by_name@[j]).0@ != name@,
            decreases self.by_name.len() - i,
        {
            let e = &self.by_name[i];
            if eq_bytes(e.0.as_slice(), name) {
                proof {
                    lemma_find_name_skip(self.by_name@, name@, i as int);
                }
                return Some(e.1);
            }
            i += 1;
        }
        proof {
            lemma_find_name_skip(self.by_name@, name@, self.by_name@.len() as int);
        }
        None
    }
}

} // verus!
