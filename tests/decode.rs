use kitty_graphics::{
    decode, parse_magnitude, parse_number, Kitty, KittyAction, KittyCompression, KittyDelete,
    KittyErrorKind, KittyMedium,
};

fn error_kind(tokens: &[(char, &str)]) -> KittyErrorKind {
    match decode(tokens) {
        Ok(k) => panic!("expected an error, got {:?}", k),
        Err(e) => e.kind,
    }
}

#[test]
fn empty_tokens_give_default() {
    assert_eq!(decode(&[]), Ok(Kitty()));
    assert_eq!(Kitty::default(), Kitty());
}

#[test]
fn default_values() {
    let k = Kitty();
    assert_eq!(k.action, KittyAction::Immediate);
    assert_eq!(k.format, 32);
    assert_eq!(k.medium, KittyMedium::Direct);
    assert_eq!(k.id, 0);
    assert_eq!(k.compression, KittyCompression::Uncompressed);
    assert!(!k.chunked);
    assert_eq!(k.delete, KittyDelete::All);
    assert!(!k.free);
}

#[test]
fn absent_fields_stay_default() {
    let k = decode(&[('s', "640"), ('v', "480")]).unwrap();
    assert_eq!(k.width, 640);
    assert_eq!(k.height, 480);
    let mut expected = Kitty();
    expected.width = 640;
    expected.height = 480;
    assert_eq!(k, expected);
}

#[test]
fn id_bounds() {
    let e = decode(&[('i', "0")]).unwrap_err();
    assert_eq!(e.kind, KittyErrorKind::OutOfRange);
    assert_eq!(e.key, 'i');
    assert_eq!(e.value, "0");
    assert!(decode(&[('i', "4294967296")]).is_err());
    assert_eq!(decode(&[('i', "4294967295")]).unwrap().id, 4294967295);
    assert_eq!(decode(&[('i', "1")]).unwrap().id, 1);
    assert_eq!(error_kind(&[('i', "abc")]), KittyErrorKind::InvalidValue);
}

#[test]
fn format_values() {
    assert_eq!(error_kind(&[('f', "16")]), KittyErrorKind::OutOfRange);
    assert_eq!(decode(&[('f', "24")]).unwrap().format, 24);
    assert_eq!(decode(&[('f', "32")]).unwrap().format, 32);
    assert_eq!(decode(&[('f', "100")]).unwrap().format, 100);
    assert_eq!(error_kind(&[('f', "x")]), KittyErrorKind::InvalidValue);
}

#[test]
fn chunked_flag() {
    assert!(!decode(&[('m', "0")]).unwrap().chunked);
    assert!(decode(&[('m', "1")]).unwrap().chunked);
    assert_eq!(error_kind(&[('m', "2")]), KittyErrorKind::InvalidValue);
    assert_eq!(error_kind(&[('m', "01")]), KittyErrorKind::InvalidValue);
}

#[test]
fn delete_letters() {
    let k = decode(&[('d', "i")]).unwrap();
    assert_eq!(k.delete, KittyDelete::ById);
    assert!(!k.free);
    let k = decode(&[('d', "I")]).unwrap();
    assert_eq!(k.delete, KittyDelete::ById);
    assert!(k.free);
    let k = decode(&[('d', "q")]).unwrap();
    assert_eq!(k.delete, KittyDelete::IntersectCell3D);
    assert!(!k.free);
    assert_eq!(error_kind(&[('d', "k")]), KittyErrorKind::InvalidValue);
    assert_eq!(error_kind(&[('d', "K")]), KittyErrorKind::InvalidValue);
}

#[test]
fn all_delete_scopes() {
    let table = [
        ('a', KittyDelete::All),
        ('c', KittyDelete::IntersectCursor),
        ('i', KittyDelete::ById),
        ('p', KittyDelete::IntersectCell2D),
        ('q', KittyDelete::IntersectCell3D),
        ('x', KittyDelete::IntersectColumn),
        ('y', KittyDelete::IntersectRow),
        ('z', KittyDelete::ByZIndex),
    ];
    for (letter, scope) in table {
        let lower = letter.to_string();
        let upper = letter.to_ascii_uppercase().to_string();
        assert_eq!(KittyDelete::from_code(letter), Some((scope, false)));
        let k = decode(&[('d', lower.as_str())]).unwrap();
        assert_eq!((k.delete, k.free), (scope, false));
        let k = decode(&[('d', upper.as_str())]).unwrap();
        assert_eq!((k.delete, k.free), (scope, true));
    }
}

#[test]
fn unknown_key() {
    let e = decode(&[('Z', "1")]).unwrap_err();
    assert_eq!(e.kind, KittyErrorKind::UnknownKey);
    assert_eq!(e.key, 'Z');
    assert_eq!(e.value, "1");
}

#[test]
fn first_rejected_pair_decides() {
    let e = decode(&[('f', "24"), ('m', "7"), ('Z', "1")]).unwrap_err();
    assert_eq!(e.kind, KittyErrorKind::InvalidValue);
    assert_eq!(e.key, 'm');
    assert_eq!(e.value, "7");
}

#[test]
fn round_trip_sanity() {
    let k = decode(&[('a', "t"), ('f', "24"), ('i', "5"), ('x', "10"), ('y', "20")]).unwrap();
    let mut expected = Kitty();
    expected.action = KittyAction::Immediate;
    expected.format = 24;
    expected.id = 5;
    expected.x_pos = 10;
    expected.y_pos = 20;
    assert_eq!(k, expected);
    let text = k.to_display_string();
    assert!(text.contains("action: Immediate"));
    assert!(text.contains("format: 24"));
    assert!(text.contains("id: 5"));
    assert!(text.contains("x_pos: 10"));
    assert!(text.contains("y_pos: 20"));
}

#[test]
fn display_of_default() {
    assert_eq!(
        Kitty().to_display_string(),
        "action: Immediate, format: 32, medium: Direct, width: 0, height: 0, size: 0, \
         offset: 0, id: 0, compression: None, chunked: false, x_pos: 0, y_pos: 0, \
         x_size: 0, y_size: 0, x_offset: 0, y_offset: 0, columns: 0, rows: 0, z_index: 0, \
         delete: All, free: false"
    );
}

#[test]
fn display_of_every_field() {
    let k = decode(&[
        ('a', "d"),
        ('f', "100"),
        ('t', "s"),
        ('s', "1"),
        ('v', "2"),
        ('S', "3"),
        ('O', "4"),
        ('i', "4294967295"),
        ('o', "z"),
        ('m', "1"),
        ('x', "5"),
        ('y', "6"),
        ('w', "7"),
        ('h', "8"),
        ('X', "9"),
        ('Y', "10"),
        ('c', "11"),
        ('r', "12"),
        ('z', "-13"),
        ('d', "Q"),
    ])
    .unwrap();
    assert_eq!(
        k.to_display_string(),
        "action: Delete, format: 100, medium: Shared Memory, width: 1, height: 2, size: 3, \
         offset: 4, id: 4294967295, compression: ZLib, chunked: true, x_pos: 5, y_pos: 6, \
         x_size: 7, y_size: 8, x_offset: 9, y_offset: 10, columns: 11, rows: 12, z_index: 13, \
         delete: Intersect Cell and Z-Index, free: true"
    );
}

#[test]
fn later_value_wins() {
    assert_eq!(decode(&[('i', "1"), ('i', "2")]).unwrap().id, 2);
    assert_eq!(decode(&[('t', "f"), ('t', "t")]).unwrap().medium, KittyMedium::Temporary);
}

#[test]
fn enum_codes() {
    assert_eq!(decode(&[('a', "T")]).unwrap().action, KittyAction::Store);
    assert_eq!(decode(&[('a', "p")]).unwrap().action, KittyAction::Load);
    assert_eq!(decode(&[('a', "q")]).unwrap().action, KittyAction::Query);
    assert_eq!(decode(&[('t', "f")]).unwrap().medium, KittyMedium::File);
    assert_eq!(decode(&[('o', "z")]).unwrap().compression, KittyCompression::ZLib);
    assert_eq!(error_kind(&[('a', "x")]), KittyErrorKind::InvalidValue);
    assert_eq!(error_kind(&[('a', "tt")]), KittyErrorKind::InvalidValue);
    assert_eq!(error_kind(&[('t', "")]), KittyErrorKind::InvalidValue);
    assert_eq!(error_kind(&[('o', "Z")]), KittyErrorKind::InvalidValue);
}

#[test]
fn numbers() {
    assert_eq!(parse_number("0"), Ok(0));
    assert_eq!(parse_number("007"), Ok(7));
    assert_eq!(parse_number("18446744073709551615"), Ok(usize::MAX));
    assert_eq!(parse_number("18446744073709551616"), Err(KittyErrorKind::OutOfRange));
    assert_eq!(parse_number("99999999999999999999x"), Err(KittyErrorKind::InvalidValue));
    assert_eq!(parse_number(""), Err(KittyErrorKind::InvalidValue));
    assert_eq!(parse_number("-1"), Err(KittyErrorKind::InvalidValue));
    assert_eq!(parse_number("+1"), Err(KittyErrorKind::InvalidValue));
    assert_eq!(parse_magnitude("-42"), Ok(42));
    assert_eq!(parse_magnitude("42"), Ok(42));
    assert_eq!(parse_magnitude("-"), Err(KittyErrorKind::InvalidValue));
    assert_eq!(error_kind(&[('w', "")]), KittyErrorKind::InvalidValue);
    assert_eq!(error_kind(&[('c', "18446744073709551616")]), KittyErrorKind::OutOfRange);
}

#[test]
fn apply_leaves_command_unchanged_on_error() {
    let mut k = Kitty();
    assert_eq!(k.apply('s', "12"), Ok(()));
    assert_eq!(k.width, 12);
    let before = k;
    assert_eq!(k.apply('s', "x"), Err(KittyErrorKind::InvalidValue));
    assert_eq!(k, before);
}
