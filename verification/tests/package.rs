use uasset_parse::package::{Export, Package};
use uasset_parse::properties::FPropertyTagType;

fn i32s(out: &mut Vec<u8>, v: i32) {
    out.extend_from_slice(&v.to_le_bytes());
}

fn u32s(out: &mut Vec<u8>, v: u32) {
    out.extend_from_slice(&v.to_le_bytes());
}

fn i64s(out: &mut Vec<u8>, v: i64) {
    out.extend_from_slice(&v.to_le_bytes());
}

fn fstring(out: &mut Vec<u8>, s: &str) {
    if s.is_empty() {
        i32s(out, 0);
    } else {
        i32s(out, s.len() as i32 + 1);
        out.extend_from_slice(s.as_bytes());
        out.push(0);
    }
}

fn fname(out: &mut Vec<u8>, index: i32) {
    i32s(out, index);
    i32s(out, 0);
}

fn guid(out: &mut Vec<u8>) {
    for _ in 0..4 {
        u32s(out, 0);
    }
}

fn engine_version(out: &mut Vec<u8>) {
    out.extend_from_slice(&4u16.to_le_bytes());
    out.extend_from_slice(&20u16.to_le_bytes());
    out.extend_from_slice(&0u16.to_le_bytes());
    u32s(out, 0);
    fstring(out, "");
}

const NAMES: [&str; 6] = ["None", "IntProperty", "Health", "/Script/Game", "Class", "Pawn"];

/// A summary whose tables follow it: names, then imports, then exports.
fn summary(names_at: i32, imports_at: i32, exports_at: i32, export_count: i32, header_size: i32) -> Vec<u8> {
    let mut s = Vec::new();
    i32s(&mut s, -1641380927);
    for _ in 0..4 {
        i32s(&mut s, 0);
    }
    u32s(&mut s, 0);
    i32s(&mut s, header_size);
    fstring(&mut s, "None");
    u32s(&mut s, 0);
    i32s(&mut s, NAMES.len() as i32);
    i32s(&mut s, names_at);
    i32s(&mut s, 0);
    i32s(&mut s, 0);
    i32s(&mut s, export_count);
    i32s(&mut s, exports_at);
    i32s(&mut s, 1);
    i32s(&mut s, imports_at);
    for _ in 0..5 {
        i32s(&mut s, 0);
    }
    guid(&mut s);
    u32s(&mut s, 0);
    engine_version(&mut s);
    engine_version(&mut s);
    u32s(&mut s, 0);
    u32s(&mut s, 0);
    u32s(&mut s, 0);
    u32s(&mut s, 0);
    for _ in 0..3 {
        i32s(&mut s, 0);
    }
    u32s(&mut s, 0);
    i32s(&mut s, 0);
    i32s(&mut s, 0);
    s
}

fn tables(exports: &[(i64, i64)]) -> (Vec<u8>, Vec<u8>, Vec<u8>) {
    let mut names = Vec::new();
    for n in NAMES.iter() {
        fstring(&mut names, n);
        names.extend_from_slice(&[0, 0, 0, 0]);
    }
    let mut imports = Vec::new();
    fname(&mut imports, 3);
    fname(&mut imports, 4);
    i32s(&mut imports, 0);
    fname(&mut imports, 5);
    let mut records = Vec::new();
    for (size, offset) in exports {
        i32s(&mut records, -1);
        i32s(&mut records, 0);
        i32s(&mut records, 0);
        i32s(&mut records, 0);
        fname(&mut records, 5);
        u32s(&mut records, 0);
        i64s(&mut records, *size);
        i64s(&mut records, *offset);
        for _ in 0..3 {
            i32s(&mut records, 0);
        }
        guid(&mut records);
        u32s(&mut records, 0);
        for _ in 0..7 {
            i32s(&mut records, 0);
        }
    }
    (names, imports, records)
}

/// An object with one IntProperty "Health" and no GUID.
fn object(value: i32) -> Vec<u8> {
    let mut o = Vec::new();
    fname(&mut o, 2);
    fname(&mut o, 1);
    i32s(&mut o, 4);
    i32s(&mut o, 0);
    o.push(0);
    i32s(&mut o, value);
    fname(&mut o, 0);
    u32s(&mut o, 0);
    o
}

/// A package of `values.len()` objects, one after another in the `.uexp`.
fn package_files(values: &[i32]) -> (Vec<u8>, Vec<u8>) {
    let header_size = 1000;
    let mut uexp = Vec::new();
    let mut placed = Vec::new();
    for v in values {
        let o = object(*v);
        placed.push((o.len() as i64, header_size as i64 + uexp.len() as i64));
        uexp.extend_from_slice(&o);
    }
    let (names, imports, records) = tables(&placed);
    let head = summary(0, 0, 0, values.len() as i32, header_size).len() as i32;
    let names_at = head;
    let imports_at = names_at + names.len() as i32;
    let exports_at = imports_at + imports.len() as i32;
    let mut uasset = summary(names_at, imports_at, exports_at, values.len() as i32, header_size);
    uasset.extend_from_slice(&names);
    uasset.extend_from_slice(&imports);
    uasset.extend_from_slice(&records);
    (uasset, uexp)
}

#[test]
fn reads_one_export_per_record() {
    let (uasset, uexp) = package_files(&[5, 9]);
    let package = Package::from_buffer(uasset, uexp, None).unwrap();
    assert_eq!(package.name_map.len(), NAMES.len());
    assert_eq!(package.import_map[0].object_name, "Pawn");
    assert_eq!(package.export_map.len(), 2);
    assert_eq!(package.export_map[0].class_index.import, "Pawn");
    match package.get_export(1).unwrap() {
        Export::Object(o) => {
            assert_eq!(o.export_type, "Pawn");
            assert!(matches!(o.get_property("Health"), Some(FPropertyTagType::IntProperty(9))));
        },
        _ => panic!("expected a plain object"),
    }
    assert_eq!(
        package.get_export(2).unwrap_err().get_properties().clone(),
        vec!["index 2 out of range".to_string()]
    );
    let exports = package.get_exports();
    assert_eq!(exports.len(), 2);
}

#[test]
fn moves_an_export_out() {
    let (uasset, uexp) = package_files(&[3]);
    let package = Package::from_buffer(uasset.clone(), uexp.clone(), None).unwrap();
    match package.get_export_move(0).unwrap() {
        Export::Object(o) => assert!(matches!(o.get_property("Health"), Some(FPropertyTagType::IntProperty(3)))),
        _ => panic!("expected a plain object"),
    }
    let package = Package::from_buffer(uasset, uexp, None).unwrap();
    assert_eq!(
        package.get_export_move(1).unwrap_err().get_properties().clone(),
        vec!["No exports found".to_string()]
    );
}

#[test]
fn truncated_export_fails_with_context() {
    let (uasset, mut uexp) = package_files(&[3]);
    uexp.truncate(27);
    let e = Package::from_buffer(uasset, uexp, None).unwrap_err();
    assert_eq!(
        e.get_properties().clone(),
        vec![
            "File Error: failed to fill whole buffer".to_string(),
            "Property Tag: Health (IntProperty)".to_string(),
            "Export type: Pawn".to_string(),
        ]
    );
}

#[test]
fn empty_asset_fails() {
    let e = Package::from_buffer(Vec::new(), Vec::new(), None).unwrap_err();
    assert_eq!(e.get_properties().clone(), vec!["File Error: failed to fill whole buffer".to_string()]);
}
