use circles_sketch::glyphs::{place_lookups, Lookup, PlacedGlyph};
use ttf_parser::{Face, GlyphId};

fn be16(out: &mut Vec<u8>, v: u16) {
    out.extend_from_slice(&v.to_be_bytes());
}

fn be32(out: &mut Vec<u8>, v: u32) {
    out.extend_from_slice(&v.to_be_bytes());
}

// A font with four glyphs and no outlines: `A`, `B`, `C` are drawn by the
// glyphs 1, 2, 3, and `D` by a glyph that the font does not have. The
// advances are 500, 600, 250, and 250 again for the last glyph.
fn tiny_font() -> Vec<u8> {
    let mut cmap = Vec::new();
    be16(&mut cmap, 0); // version
    be16(&mut cmap, 1); // one encoding record
    be16(&mut cmap, 0); // platform: Unicode
    be16(&mut cmap, 3); // encoding
    be32(&mut cmap, 12); // offset of the subtable
    be16(&mut cmap, 0); // format 0
    be16(&mut cmap, 262); // length
    be16(&mut cmap, 0); // language
    let mut ids = vec![0u8; 256];
    ids['A' as usize] = 1;
    ids['B' as usize] = 2;
    ids['C' as usize] = 3;
    ids['D' as usize] = 9;
    cmap.extend_from_slice(&ids);

    let mut head = vec![0u8; 54];
    head[18..20].copy_from_slice(&1000u16.to_be_bytes()); // units per em

    let mut hhea = vec![0u8; 36];
    hhea[34..36].copy_from_slice(&3u16.to_be_bytes()); // number of metrics

    let mut hmtx = Vec::new();
    for advance in [500u16, 600, 250] {
        be16(&mut hmtx, advance);
        be16(&mut hmtx, 0);
    }
    be16(&mut hmtx, 0); // side bearing of the last glyph

    let mut maxp = Vec::new();
    be32(&mut maxp, 0x00005000);
    be16(&mut maxp, 4); // number of glyphs

    let tables: Vec<(&[u8; 4], Vec<u8>)> =
        vec![(b"cmap", cmap), (b"head", head), (b"hhea", hhea), (b"hmtx", hmtx), (b"maxp", maxp)];
    let mut font = Vec::new();
    be32(&mut font, 0x00010000);
    be16(&mut font, tables.len() as u16);
    be16(&mut font, 0);
    be16(&mut font, 0);
    be16(&mut font, 0);
    let mut offset = 12 + 16 * tables.len();
    for (tag, data) in &tables {
        font.extend_from_slice(&tag[..]);
        be32(&mut font, 0);
        be32(&mut font, offset as u32);
        be32(&mut font, data.len() as u32);
        offset += data.len();
    }
    for (_, data) in &tables {
        font.extend_from_slice(data);
    }
    font
}

fn lookup(glyph: u16, advance: Option<u16>) -> Option<Lookup> {
    Some(Lookup { glyph, advance })
}

// Asks the font about each character, as a caller of the library does.
fn look_up(face: &Face, text: &str) -> Vec<Option<Lookup>> {
    text.chars()
        .map(|c| face.glyph_index(c).map(|id| Lookup { glyph: id.0, advance: face.glyph_hor_advance(id) }))
        .collect()
}

fn seen(placed: &[PlacedGlyph]) -> Vec<(u16, u128)> {
    placed.iter().map(|p| (p.glyph, p.x_offset)).collect()
}

#[test]
fn looked_up_glyphs_are_placed_behind_each_other() {
    assert_eq!(place_lookups(&vec![]).len(), 0);
    assert_eq!(place_lookups(&vec![None, None]).len(), 0);
    let placed = place_lookups(&vec![
        lookup(5, Some(600)),
        None,
        lookup(6, Some(250)),
        lookup(7, None),
        lookup(5, Some(1)),
        lookup(8, Some(65535)),
        lookup(9, Some(65535)),
        lookup(10, None),
    ]);
    assert_eq!(
        seen(&placed),
        vec![(5, 0), (6, 600), (7, 850), (5, 850), (8, 851), (9, 66386), (10, 131921)]
    );
    assert_eq!(place_lookups(&vec![lookup(3, Some(9))]), vec![PlacedGlyph { glyph: 3, x_offset: 0 }]);
}

#[test]
fn glyphs_of_a_font_are_set_side_by_side() {
    let data = tiny_font();
    let face = Face::parse(&data, 0).unwrap();
    assert_eq!(face.glyph_index('B'), Some(GlyphId(2)));
    let lookups = look_up(&face, "AB?CDA");
    assert_eq!(
        lookups,
        vec![lookup(1, Some(600)), lookup(2, Some(250)), None, lookup(3, Some(250)), lookup(9, None), lookup(1, Some(600))]
    );
    // `?` has no glyph; the glyph of `D` has no advance.
    assert_eq!(
        seen(&place_lookups(&lookups)),
        vec![(1, 0), (2, 600), (3, 850), (9, 1100), (1, 1100)]
    );
    assert_eq!(place_lookups(&look_up(&face, "")).len(), 0);
    assert_eq!(place_lookups(&look_up(&face, "xyz é")).len(), 0);
    assert_eq!(seen(&place_lookups(&look_up(&face, " C C"))), vec![(3, 0), (3, 250)]);
}
