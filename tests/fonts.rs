use lumina::typesetting::font_manager::{FontError, FontManager};

#[test]
fn invalid_font_data_is_a_parse_error() {
    let mut manager = FontManager::new();
    let err = manager.load_from_bytes("bad.ttf", b"not-a-font".to_vec());
    assert!(matches!(err, Err(FontError::Parse(_))));
    assert_eq!(manager.cache_len(), 0);
    assert!(manager.cached("bad.ttf").is_none());
}

#[test]
fn empty_manager_has_nothing_cached() {
    let manager = FontManager::new();
    assert_eq!(manager.cache_len(), 0);
    assert!(manager.cached("any.ttf").is_none());
}

fn be16(v: &mut Vec<u8>, x: u16) {
    v.extend_from_slice(&x.to_be_bytes());
}

fn be32(v: &mut Vec<u8>, x: u32) {
    v.extend_from_slice(&x.to_be_bytes());
}

/// A minimal TrueType file: `head`, `hhea` and `maxp` tables only.
fn tiny_font(units_per_em: u16, ascent: i16, descent: i16, line_gap: i16) -> Vec<u8> {
    let mut f = Vec::new();
    be32(&mut f, 0x0001_0000);
    be16(&mut f, 3);
    be16(&mut f, 32);
    be16(&mut f, 1);
    be16(&mut f, 16);
    let tables: [(&[u8; 4], u32, u32); 3] = [(b"head", 60, 54), (b"hhea", 114, 36), (b"maxp", 150, 6)];
    for (tag, offset, len) in tables.iter() {
        f.extend_from_slice(&tag[..]);
        be32(&mut f, 0);
        be32(&mut f, *offset);
        be32(&mut f, *len);
    }
    // head
    be32(&mut f, 0x0001_0000);
    be32(&mut f, 0);
    be32(&mut f, 0);
    be32(&mut f, 0x5F0F_3CF5);
    be16(&mut f, 0);
    be16(&mut f, units_per_em);
    f.extend_from_slice(&[0u8; 16]);
    f.extend_from_slice(&[0u8; 8]);
    be16(&mut f, 0);
    be16(&mut f, 8);
    be16(&mut f, 2);
    be16(&mut f, 0);
    be16(&mut f, 0);
    // hhea
    be32(&mut f, 0x0001_0000);
    be16(&mut f, ascent as u16);
    be16(&mut f, descent as u16);
    be16(&mut f, line_gap as u16);
    f.extend_from_slice(&[0u8; 24]);
    be16(&mut f, 1);
    // maxp
    be32(&mut f, 0x0000_5000);
    be16(&mut f, 1);
    f
}

#[test]
fn load_from_bytes_caches_bytes_and_metrics() {
    let mut manager = FontManager::new();
    let bytes = tiny_font(1000, 800, -200, 90);
    let first = manager.load_from_bytes("fonts/tiny.ttf", bytes.clone()).expect("expected valid font load");
    let m = *first.metrics();
    assert_eq!((m.units_per_em, m.ascent, m.descent, m.line_gap), (1000, 800, -200, 90));
    assert_eq!(first.bytes(), &bytes[..]);
    // a second load does not parse again, even given other bytes
    let second = manager.load_from_bytes("fonts/tiny.ttf", b"junk".to_vec()).expect("expected cached font load");
    assert_eq!(manager.cache_len(), 1);
    assert!(std::sync::Arc::ptr_eq(&first.bytes_handle(), &second.bytes_handle()));
    assert_eq!(first.metrics(), second.metrics());
    assert!(manager.cached("fonts/tiny.ttf").is_some());
}

#[test]
fn units_per_em_out_of_range_is_refused() {
    let mut manager = FontManager::new();
    let r = manager.load_from_bytes("bad.ttf", tiny_font(8, 800, -200, 0));
    assert!(matches!(r, Err(FontError::Parse(_))));
}
