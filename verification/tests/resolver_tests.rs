use font_entry::{
    BaseEncoding, FontDescriptor, FontEntry, FontError, GlyphId, GlyphSource, MapGlyphSource,
    NamedEncoding, TextEncoding,
};

fn empty_source() -> MapGlyphSource {
    MapGlyphSource { native: None, by_codepoint: vec![], by_unicode: vec![], by_name: vec![] }
}

fn descriptor() -> FontDescriptor {
    FontDescriptor {
        is_cid: false,
        base_encoding: None,
        differences: vec![],
        cid_to_gid: None,
        to_unicode: None,
        name: Some("TestFont".to_string()),
    }
}

fn built(source: MapGlyphSource, desc: FontDescriptor) -> FontEntry<MapGlyphSource> {
    FontEntry::build(source, desc, None).expect("construction should succeed")
}

fn cmap_entry(entry: &FontEntry<MapGlyphSource>, code: u16) -> Option<(GlyphId, Option<char>)> {
    match &entry.encoding {
        TextEncoding::Cmap(m) => m.get(&code).copied(),
        TextEncoding::CID => panic!("expected an explicit map"),
    }
}

#[test]
fn cid_array_takes_precedence_over_base_encoding() {
    let mut source = empty_source();
    source.native = Some(NamedEncoding::WinAnsiEncoding);
    source.by_codepoint = vec![(0, GlyphId(1)), (1, GlyphId(2))];
    let mut desc = descriptor();
    desc.base_encoding = Some(BaseEncoding::WinAnsiEncoding);
    desc.cid_to_gid = Some(vec![7, 8, 9]);
    desc.to_unicode = Some(vec![(1, vec!['B', 'x']), (2, vec![])]);
    let entry = built(source, desc);
    assert!(entry.is_cid);
    assert_eq!(cmap_entry(&entry, 0), Some((GlyphId(7), None)));
    assert_eq!(cmap_entry(&entry, 1), Some((GlyphId(8), Some('B'))));
    // An empty code-to-Unicode string carries no character.
    assert_eq!(cmap_entry(&entry, 2), Some((GlyphId(9), None)));
    assert_eq!(cmap_entry(&entry, 3), None);
}

#[test]
fn identity_h_yields_cid_passthrough() {
    let mut desc = descriptor();
    desc.base_encoding = Some(BaseEncoding::IdentityH);
    let entry = built(empty_source(), desc);
    assert!(entry.is_cid);
    assert!(matches!(entry.encoding, TextEncoding::CID));
}

#[test]
fn win_ansi_to_matching_native_encoding_resolves_byte_65_as_letter_a() {
    let mut source = empty_source();
    source.native = Some(NamedEncoding::WinAnsiEncoding);
    source.by_codepoint = vec![(65, GlyphId(7))];
    source.by_unicode = vec![(65, GlyphId(7))];
    let mut desc = descriptor();
    desc.base_encoding = Some(BaseEncoding::WinAnsiEncoding);
    let entry = built(source, desc);
    let (gid, uni) = cmap_entry(&entry, 65).expect("byte 65 should resolve");
    // The same glyph as looking up Unicode 'A' directly, and the character 'A'.
    assert_eq!(Some(gid), entry.font.gid_for_unicode_codepoint('A' as u32));
    assert_eq!(uni, Some('A'));
}

#[test]
fn transcoding_between_distinct_encodings_follows_the_tables() {
    // WinAnsi byte 0xE9 is 'é', which MacRoman stores at 0x8E. The font only
    // answers for codepoint 0x8E, so an entry at byte 0xE9 shows the
    // transcoder at work; its character comes from the WinAnsi table.
    let mut source = empty_source();
    source.native = Some(NamedEncoding::MacRomanEncoding);
    source.by_codepoint = vec![(0x8E, GlyphId(11))];
    let mut desc = descriptor();
    desc.base_encoding = Some(BaseEncoding::WinAnsiEncoding);
    let entry = built(source, desc);
    assert_eq!(cmap_entry(&entry, 0xE9), Some((GlyphId(11), Some('\u{E9}'))));
    assert_eq!(cmap_entry(&entry, 0x8E), None);
}

#[test]
fn source_encoding_without_native_encoding_goes_through_unicode() {
    let mut source = empty_source();
    source.by_unicode = vec![(0xE9, GlyphId(9))];
    let mut desc = descriptor();
    desc.base_encoding = Some(BaseEncoding::WinAnsiEncoding);
    let entry = built(source, desc);
    assert_eq!(cmap_entry(&entry, 0xE9), Some((GlyphId(9), Some('\u{E9}'))));
}

#[test]
fn differences_override_the_transcoder_entry() {
    let mut source = empty_source();
    source.native = Some(NamedEncoding::WinAnsiEncoding);
    source.by_codepoint = vec![(1, GlyphId(10))];
    source.by_name = vec![(b"alpha".to_vec(), GlyphId(42))];
    let mut desc = descriptor();
    desc.base_encoding = Some(BaseEncoding::WinAnsiEncoding);
    desc.differences = vec![(1, b"alpha".to_vec())];
    let entry = built(source, desc);
    assert_eq!(cmap_entry(&entry, 1), Some((GlyphId(42), Some('\u{3B1}'))));
}

#[test]
fn difference_name_with_suffix_falls_back_to_the_stem() {
    let mut source = empty_source();
    source.by_name = vec![(b"alpha.alt".to_vec(), GlyphId(13))];
    let mut desc = descriptor();
    desc.differences = vec![(2, b"alpha.alt".to_vec())];
    let entry = built(source, desc);
    assert_eq!(cmap_entry(&entry, 2), Some((GlyphId(13), Some('\u{3B1}'))));
}

#[test]
fn difference_name_unknown_to_the_font_is_skipped() {
    let mut source = empty_source();
    source.by_codepoint = vec![(4, GlyphId(3))];
    let mut desc = descriptor();
    desc.differences = vec![(4, b"nosuchglyphname".to_vec()), (5, b"alsonothere".to_vec())];
    let entry = built(source, desc);
    // The fallback entry for code 4 stays; code 5 never appears.
    assert_eq!(cmap_entry(&entry, 4), Some((GlyphId(3), Some('\u{F004}'))));
    assert_eq!(cmap_entry(&entry, 5), None);
}

#[test]
fn difference_name_without_unicode_keeps_the_glyph() {
    let mut source = empty_source();
    source.by_name = vec![(b"nosuchglyphname".to_vec(), GlyphId(21))];
    let mut desc = descriptor();
    desc.differences = vec![(6, b"nosuchglyphname".to_vec())];
    let entry = built(source, desc);
    assert_eq!(cmap_entry(&entry, 6), Some((GlyphId(21), None)));
}

#[test]
fn empty_map_degrades_to_cid_passthrough() {
    let entry = built(empty_source(), descriptor());
    assert!(matches!(entry.encoding, TextEncoding::CID));
    assert!(!entry.is_cid);
}

#[test]
fn fallback_maps_bytes_to_private_use_area_characters() {
    let mut source = empty_source();
    source.by_codepoint = vec![(3, GlyphId(5)), (200, GlyphId(6))];
    let entry = built(source, descriptor());
    assert_eq!(cmap_entry(&entry, 3), Some((GlyphId(5), Some('\u{F003}'))));
    assert_eq!(cmap_entry(&entry, 200), Some((GlyphId(6), Some('\u{F0C8}'))));
    assert_eq!(cmap_entry(&entry, 4), None);
}

#[test]
fn unrecognized_base_encoding_uses_the_fallback() {
    let mut source = empty_source();
    source.native = Some(NamedEncoding::WinAnsiEncoding);
    source.by_codepoint = vec![(9, GlyphId(4))];
    let mut desc = descriptor();
    desc.base_encoding = Some(BaseEncoding::Other);
    let entry = built(source, desc);
    assert_eq!(cmap_entry(&entry, 9), Some((GlyphId(4), Some('\u{F009}'))));
}

#[test]
fn missing_name_is_fatal() {
    let mut desc = descriptor();
    desc.name = None;
    let r = FontEntry::build(empty_source(), desc, None);
    match r {
        Err(e) => {
            assert_eq!(e, FontError::NoName);
            assert_eq!(e.message(), "font has no name");
        },
        Ok(_) => panic!("construction should fail without a name"),
    }
}

#[test]
fn name_and_cid_flag_carry_over() {
    let mut desc = descriptor();
    desc.is_cid = true;
    let entry = built(empty_source(), desc);
    assert_eq!(entry.name, "TestFont");
    assert!(entry.is_cid);
    assert!(entry.widths.is_none());
}

#[test]
fn cid_array_longer_than_the_code_space_wraps_onto_low_codes() {
    let mut gids: Vec<u16> = (0..=u16::MAX).collect();
    gids.push(4242);
    let mut desc = descriptor();
    desc.cid_to_gid = Some(gids);
    let entry = built(empty_source(), desc);
    // Index 0x10000 wraps onto code 0 and overwrites its entry.
    assert_eq!(cmap_entry(&entry, 0), Some((GlyphId(4242), None)));
    assert_eq!(cmap_entry(&entry, 1), Some((GlyphId(1), None)));
    assert_eq!(cmap_entry(&entry, u16::MAX), Some((GlyphId(u16::MAX as u32), None)));
}

#[test]
fn later_override_for_the_same_truncated_code_wins() {
    let mut source = empty_source();
    source.by_name = vec![(b"a".to_vec(), GlyphId(30)), (b"b".to_vec(), GlyphId(31))];
    let mut desc = descriptor();
    // 0x10001 truncates to code 1, so the second override lands on the same
    // code as the first and overwrites it.
    desc.differences = vec![(1, b"a".to_vec()), (0x10001, b"b".to_vec())];
    let entry = built(source, desc);
    assert_eq!(cmap_entry(&entry, 1), Some((GlyphId(31), Some('b'))));
}
