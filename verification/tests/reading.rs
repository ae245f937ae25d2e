use uasset_parse::error::ParserError;
use uasset_parse::names::{read_fname, FObjectImport, FPackageIndex, ImportMap, NameMap, NewableWithNameMap};
use uasset_parse::newable::{read_tarray, Newable};
use uasset_parse::reader::{read_string, Reader};
use uasset_parse::summary::{FGuid, FNameEntrySerialized};

fn name_map(names: &[&str]) -> NameMap {
    names
        .iter()
        .map(|n| FNameEntrySerialized { data: n.to_string(), non_case_preserving_hash: 0, case_preserving_hash: 0 })
        .collect()
}

fn messages(e: &ParserError) -> Vec<String> {
    e.get_properties().clone()
}

#[test]
fn reads_little_endian_integers() {
    let mut r = Reader::new(vec![
        0x01, 0x34, 0x12, 0x78, 0x56, 0x34, 0x12, 0xff, 0xff, 0xff, 0xff, 0x08, 0x07, 0x06, 0x05, 0x04, 0x03,
        0x02, 0x01, 0xfe, 0xff,
    ]);
    assert_eq!(r.read_u8().unwrap(), 1);
    assert_eq!(r.read_u16().unwrap(), 0x1234);
    assert_eq!(r.read_u32().unwrap(), 0x12345678);
    assert_eq!(r.read_i32().unwrap(), -1);
    assert_eq!(r.read_u64().unwrap(), 0x0102030405060708);
    assert_eq!(r.read_i16().unwrap(), -2);
    assert_eq!(r.position(), 21);
}

#[test]
fn reads_signed_values() {
    let mut r = Reader::new(vec![0x80, 0xff, 0x7f, 0x00, 0x00, 0x00, 0x00, 0x00, 0x00, 0x80]);
    assert_eq!(r.read_i8().unwrap(), -128);
    assert_eq!(r.read_i8().unwrap(), -1);
    assert_eq!(r.read_i64().unwrap(), i64::MIN + 0x7f);
}

#[test]
fn read_past_end_fails_and_moves_to_end() {
    let mut r = Reader::new(vec![1, 2, 3]);
    let e = r.read_u32().unwrap_err();
    assert_eq!(messages(&e), vec!["File Error: failed to fill whole buffer".to_string()]);
    assert_eq!(r.position(), 3);
    r.seek_to(100);
    assert!(r.read_u8().is_err());
    assert_eq!(r.position(), 3);
}

#[test]
fn reads_raw_bytes() {
    let mut r = Reader::new(vec![9, 8, 7, 6]);
    r.seek_to(1);
    assert_eq!(r.read_bytes(2).unwrap(), vec![8, 7]);
    assert_eq!(r.position(), 3);
    assert!(r.read_bytes(2).is_err());
}

#[test]
fn reads_utf8_string_without_terminator() {
    let mut r = Reader::new(vec![4, 0, 0, 0, b'a', b'b', b'c', 0]);
    assert_eq!(read_string(&mut r).unwrap(), "abc");
    assert_eq!(r.position(), 8);
}

#[test]
fn reads_empty_string() {
    let mut r = Reader::new(vec![0, 0, 0, 0, 7]);
    assert_eq!(read_string(&mut r).unwrap(), "");
    assert_eq!(r.position(), 4);
}

#[test]
fn reads_utf16_string() {
    let mut r = Reader::new(vec![0xfd, 0xff, 0xff, 0xff, b'h', 0, 0xe9, 0, 0, 0]);
    assert_eq!(read_string(&mut r).unwrap(), "h\u{e9}");
    assert_eq!(r.position(), 10);
}

#[test]
fn rejects_huge_string_length() {
    let mut r = Reader::new(vec![0x70, 0x11, 0x01, 0x00]);
    let e = read_string(&mut r).unwrap_err();
    assert_eq!(messages(&e), vec!["String length too large (70000), likely a read error.".to_string()]);
    let mut r = Reader::new(vec![0x90, 0xee, 0xfe, 0xff]);
    let e = read_string(&mut r).unwrap_err();
    assert_eq!(messages(&e), vec!["String length too large (-70000), likely a read error.".to_string()]);
}

#[test]
fn rejects_bad_utf8_and_utf16() {
    let mut r = Reader::new(vec![2, 0, 0, 0, 0xff, 0]);
    assert_eq!(messages(&read_string(&mut r).unwrap_err()), vec!["UTF8 Error".to_string()]);
    assert_eq!(r.position(), 6);
    let mut r = Reader::new(vec![0xfe, 0xff, 0xff, 0xff, 0x00, 0xd8, 0, 0]);
    assert_eq!(messages(&read_string(&mut r).unwrap_err()), vec!["UTF16 Error".to_string()]);
}

#[test]
fn truncated_string_is_end_of_input() {
    let mut r = Reader::new(vec![5, 0, 0, 0, b'a']);
    assert_eq!(
        messages(&read_string(&mut r).unwrap_err()),
        vec!["File Error: failed to fill whole buffer".to_string()]
    );
}

#[test]
fn parser_error_collects_context() {
    let e = ParserError::new("inner".to_string());
    let e = ParserError::add(e, "middle".to_string());
    let e = ParserError::add(e, "outer".to_string());
    assert_eq!(messages(&e), vec!["inner".to_string(), "middle".to_string(), "outer".to_string()]);
}

#[test]
fn reads_fname_from_table() {
    let names = name_map(&["None", "Hello"]);
    let mut r = Reader::new(vec![1, 0, 0, 0, 9, 0, 0, 0]);
    assert_eq!(read_fname(&mut r, &names).unwrap(), "Hello");
    assert_eq!(r.position(), 8);
}

#[test]
fn fname_outside_table_is_an_error() {
    let names = name_map(&["None"]);
    let mut r = Reader::new(vec![0, 0, 0, 0, 0, 0, 0, 0, 5, 0, 0, 0, 0, 0, 0, 0]);
    r.seek_to(8);
    let e = read_fname(&mut r, &names).unwrap_err();
    assert_eq!(messages(&e), vec!["FName could not be read at 8 5".to_string()]);
    assert_eq!(r.position(), 16);
}

fn import(name: &str) -> FObjectImport {
    FObjectImport {
        class_package: "/Script/Engine".to_string(),
        class_name: "Class".to_string(),
        outer_index: FPackageIndex { index: 0, import: "0".to_string() },
        object_name: name.to_string(),
    }
}

#[test]
fn package_index_resolves_imports() {
    let imports: ImportMap = vec![import("First"), import("Second")];
    assert_eq!(FPackageIndex::get_package(-1, &imports).unwrap().object_name, "First");
    assert_eq!(FPackageIndex::get_package(-2, &imports).unwrap().object_name, "Second");
    assert_eq!(FPackageIndex::get_package(2, &imports).unwrap().object_name, "Second");
    assert!(FPackageIndex::get_package(0, &imports).is_none());
    assert!(FPackageIndex::get_package(-3, &imports).is_none());
}

#[test]
fn package_index_reads_name_or_number() {
    let names = name_map(&["None"]);
    let imports: ImportMap = vec![import("Texture2D")];
    let mut r = Reader::new(vec![0xff, 0xff, 0xff, 0xff, 7, 0, 0, 0]);
    let first = FPackageIndex::new_n(&mut r, &names, &imports).unwrap();
    assert_eq!(first.get_import(), "Texture2D");
    let second = FPackageIndex::new_n(&mut r, &names, &imports).unwrap();
    assert_eq!(second.get_import(), "7");
}

#[test]
fn reads_tarray_of_words() {
    let mut r = Reader::new(vec![2, 0, 0, 0, 1, 0, 0, 0, 2, 0, 0, 0]);
    let v: Vec<u32> = read_tarray(&mut r).unwrap();
    assert_eq!(v, vec![1, 2]);
    let mut r = Reader::new(vec![3, 0, 0, 0, 1, 0, 0, 0]);
    assert!(read_tarray::<u32>(&mut r).is_err());
}

#[test]
fn guid_prints_as_hex() {
    let g = FGuid { a: 0x0123abcd, b: 0, c: 0xffffffff, d: 0x10 };
    assert_eq!(g.to_string(), "0123abcd00000000ffffffff00000010");
    let mut r = Reader::new(vec![1, 0, 0, 0, 2, 0, 0, 0, 3, 0, 0, 0, 4, 0, 0, 0]);
    let g = FGuid::new(&mut r).unwrap();
    assert_eq!((g.a, g.b, g.c, g.d), (1, 2, 3, 4));
}
