use uasset_parse::anim::{
    align_reader, read_times, AnimationCompressionFormat, FAnimKeyHeader, FCompressedOffsetData, FTrack, TrackKey,
    UAnimSequence,
};
use uasset_parse::mesh::{FMultisizeIndexContainer, FSkinWeightInfo, FSkinWeightVertexBuffer, FStripDataFlags};
use uasset_parse::names::{ImportMap, NameMap};
use uasset_parse::newable::Newable;
use uasset_parse::objects::{PackageExport, UDataTable, UObject};
use uasset_parse::properties::{read_properties, read_property_tag, tag_data_overrides, FPropertyTagData, FPropertyTagType};
use uasset_parse::reader::Reader;
use uasset_parse::structs::FQuat;
use uasset_parse::summary::{FGuid, FNameEntrySerialized};
use uasset_parse::texture::{FByteBulkData, FTexturePlatformData, Texture2D};

fn name_map(names: &[&str]) -> NameMap {
    names
        .iter()
        .map(|n| FNameEntrySerialized { data: n.to_string(), non_case_preserving_hash: 0, case_preserving_hash: 0 })
        .collect()
}

fn push_i32(out: &mut Vec<u8>, v: i32) {
    out.extend_from_slice(&v.to_le_bytes());
}

fn push_name(out: &mut Vec<u8>, index: i32) {
    push_i32(out, index);
    push_i32(out, 0);
}

/// An IntProperty tag with its value.
fn int_tag(out: &mut Vec<u8>, name: i32, kind: i32, value: i32) {
    push_name(out, name);
    push_name(out, kind);
    push_i32(out, 4);
    push_i32(out, 0);
    out.push(0);
    push_i32(out, value);
}

const NAMES: [&str; 5] = ["None", "MyInt", "IntProperty", "Other", "WeirdProperty"];

#[test]
fn overrides_name_map_types() {
    match tag_data_overrides("Tracks") {
        Some(FPropertyTagData::MapProperty(k, v)) => {
            assert_eq!(k, "MovieSceneTrackIdentifier");
            assert_eq!(v, "MovieSceneEvaluationTrack");
        },
        _ => panic!("expected map data"),
    }
    assert!(tag_data_overrides("SomethingElse").is_none());
}

#[test]
fn reads_an_int_property_tag() {
    let names = name_map(&NAMES);
    let imports: ImportMap = Vec::new();
    let mut bytes = Vec::new();
    int_tag(&mut bytes, 1, 2, 42);
    let mut r = Reader::new(bytes);
    let tag = read_property_tag(&mut r, &names, &imports, true).unwrap().unwrap();
    assert_eq!(tag.get_name(), "MyInt");
    assert!(matches!(tag.get_data(), FPropertyTagType::IntProperty(42)));
    assert_eq!(r.position(), 29);
}

#[test]
fn tag_header_without_data_stays_after_header() {
    let names = name_map(&NAMES);
    let imports: ImportMap = Vec::new();
    let mut bytes = Vec::new();
    int_tag(&mut bytes, 1, 2, 42);
    let mut r = Reader::new(bytes);
    let tag = read_property_tag(&mut r, &names, &imports, false).unwrap().unwrap();
    assert!(tag.tag.is_none());
    assert_eq!(r.position(), 25);
}

#[test]
fn none_tag_ends_the_list() {
    let names = name_map(&NAMES);
    let imports: ImportMap = Vec::new();
    let mut bytes = Vec::new();
    int_tag(&mut bytes, 1, 2, 7);
    int_tag(&mut bytes, 3, 2, 8);
    push_name(&mut bytes, 0);
    let mut r = Reader::new(bytes);
    let tags = read_properties(&mut r, &names, &imports).unwrap();
    assert_eq!(tags.len(), 2);
    assert_eq!(tags[1].get_name(), "Other");
    assert_eq!(r.position(), 66);
}

#[test]
fn unknown_property_type_is_an_error_with_context() {
    let names = name_map(&NAMES);
    let imports: ImportMap = Vec::new();
    let mut bytes = Vec::new();
    push_name(&mut bytes, 1);
    push_name(&mut bytes, 4);
    push_i32(&mut bytes, 0);
    push_i32(&mut bytes, 0);
    bytes.push(0);
    let mut r = Reader::new(bytes);
    let e = read_property_tag(&mut r, &names, &imports, true).unwrap_err();
    assert_eq!(
        e.get_properties().clone(),
        vec!["Could not read property type: WeirdProperty at pos 25".to_string(), "Property Tag: MyInt (WeirdProperty)".to_string()]
    );
}

#[test]
fn object_keeps_the_last_property_of_a_name() {
    let names = name_map(&NAMES);
    let imports: ImportMap = Vec::new();
    let mut bytes = Vec::new();
    int_tag(&mut bytes, 1, 2, 1);
    int_tag(&mut bytes, 1, 2, 2);
    push_name(&mut bytes, 0);
    push_i32(&mut bytes, 0);
    let mut r = Reader::new(bytes);
    let object = UObject::new(&mut r, &names, &imports, "Thing").unwrap();
    assert_eq!(object.get_export_type(), "Thing");
    assert_eq!(object.get_properties().len(), 2);
    assert!(matches!(object.get_property("MyInt"), Some(FPropertyTagType::IntProperty(2))));
    assert!(object.get_property("Other").is_none());
}

#[test]
fn object_failure_names_the_export_type() {
    let names = name_map(&NAMES);
    let imports: ImportMap = Vec::new();
    let mut r = Reader::new(vec![1, 0, 0, 0]);
    let e = UObject::new(&mut r, &names, &imports, "Thing").unwrap_err();
    assert_eq!(
        e.get_properties().clone(),
        vec!["File Error: failed to fill whole buffer".to_string(), "Export type: Thing".to_string()]
    );
}

#[test]
fn object_skips_a_guid_it_cannot_read() {
    let names = name_map(&NAMES);
    let imports: ImportMap = Vec::new();
    let mut bytes = Vec::new();
    push_name(&mut bytes, 0);
    push_i32(&mut bytes, 1);
    bytes.extend_from_slice(&[0, 0, 0]);
    let mut r = Reader::new(bytes);
    let object = UObject::new(&mut r, &names, &imports, "Thing").unwrap();
    assert_eq!(object.get_properties().len(), 0);
    assert_eq!(r.position(), 15);
}

#[test]
fn strip_flags_test_their_bits() {
    let mut r = Reader::new(vec![3, 2]);
    let flags = FStripDataFlags::new(&mut r).unwrap();
    assert!(flags.is_editor_data_stripped());
    assert!(flags.is_data_stripped_for_server());
    assert!(flags.is_class_data_stripped(2));
    assert!(!flags.is_class_data_stripped(1));
    let mut r = Reader::new(vec![0, 0]);
    let flags = FStripDataFlags::new(&mut r).unwrap();
    assert!(!flags.is_editor_data_stripped());
    assert!(!flags.is_data_stripped_for_server());
}

#[test]
fn skin_weights_pad_to_eight_slots() {
    let mut r = Reader::new(vec![1, 2, 3, 4, 5, 6, 7, 8]);
    let w = FSkinWeightInfo::new(&mut r, 4).unwrap();
    assert_eq!(w.get_bone_index(), &[1, 2, 3, 4, 0, 0, 0, 0]);
    assert_eq!(w.get_bone_weight(), &[5, 6, 7, 8, 0, 0, 0, 0]);
    let mut r = Reader::new(vec![1, 2, 3]);
    let e = FSkinWeightInfo::new(&mut r, 9).unwrap_err();
    assert_eq!(e.get_properties().clone(), vec!["Max influences too high".to_string()]);
}

#[test]
fn weight_buffer_reads_its_weights() {
    let mut bytes = vec![0u8, 0];
    push_i32(&mut bytes, 0);
    push_i32(&mut bytes, 10);
    push_i32(&mut bytes, 8);
    push_i32(&mut bytes, 2);
    bytes.extend_from_slice(&[1, 2, 3, 4, 5, 6, 7, 8, 9, 10, 11, 12, 13, 14, 15, 16]);
    let mut r = Reader::new(bytes);
    let buffer = FSkinWeightVertexBuffer::new(&mut r).unwrap().unwrap();
    assert_eq!(buffer.get_length(), 2);
    assert_eq!(buffer.get_weights()[1].get_bone_index(), &[9, 10, 11, 12, 0, 0, 0, 0]);
    let mut bytes = vec![2u8, 0];
    push_i32(&mut bytes, 0);
    push_i32(&mut bytes, 10);
    let mut r = Reader::new(bytes);
    assert!(FSkinWeightVertexBuffer::new(&mut r).unwrap().is_none());
}

#[test]
fn index_container_by_size() {
    let mut bytes = vec![2u8];
    push_i32(&mut bytes, 2);
    push_i32(&mut bytes, 2);
    bytes.extend_from_slice(&[1, 0, 2, 0]);
    let mut r = Reader::new(bytes);
    match FMultisizeIndexContainer::new(&mut r).unwrap() {
        FMultisizeIndexContainer::Indices16(v) => assert_eq!(v, vec![1, 2]),
        _ => panic!("expected 16-bit indices"),
    }
    let mut bytes = vec![3u8];
    push_i32(&mut bytes, 3);
    let mut r = Reader::new(bytes);
    let e = FMultisizeIndexContainer::new(&mut r).unwrap_err();
    assert_eq!(e.get_properties().clone(), vec!["No format size".to_string()]);
}

#[test]
fn quaternion_conjugate_flips_signs() {
    let q = FQuat { x: 1.0f32.to_bits(), y: (-2.0f32).to_bits(), z: 0.0f32.to_bits(), w: 0.5f32.to_bits() };
    let c = q.conjugate();
    assert_eq!(f32::from_bits(c.x), -1.0);
    assert_eq!(f32::from_bits(c.y), 2.0);
    assert_eq!(c.z, (-0.0f32).to_bits());
    assert_eq!(c.w, q.w);
}

#[test]
fn key_header_unpacks_its_word() {
    let packed: u32 = (3 << 28) | (0xF << 24) | 5;
    let mut r = Reader::new(packed.to_le_bytes().to_vec());
    let h = FAnimKeyHeader::new(&mut r).unwrap();
    assert_eq!(h.key_format, AnimationCompressionFormat::IntervalFixed32NoW);
    assert_eq!(h.component_mask, 15);
    assert_eq!(h.num_keys, 5);
    assert!(h.has_time_tracks);
    let mut r = Reader::new(0x7000_0000u32.to_le_bytes().to_vec());
    let e = FAnimKeyHeader::new(&mut r).unwrap_err();
    assert_eq!(e.get_properties().clone(), vec!["Unsupported format: 7 0 0: 1879048192".to_string()]);
}

#[test]
fn align_moves_to_multiple_of_four() {
    let mut r = Reader::new(vec![0; 16]);
    r.seek_to(5);
    align_reader(&mut r).unwrap();
    assert_eq!(r.position(), 8);
    align_reader(&mut r).unwrap();
    assert_eq!(r.position(), 8);
}

#[test]
fn key_times_by_frame_count() {
    let mut r = Reader::new(vec![0, 0, 0, 0, 1, 2, 3, 0]);
    r.seek_to(1);
    assert_eq!(read_times(&mut r, 3, 10).unwrap(), vec![1, 2, 3]);
    assert_eq!(r.position(), 7);
    let mut r = Reader::new(vec![0, 0, 0, 0, 1, 1, 2, 0]);
    r.seek_to(2);
    assert_eq!(read_times(&mut r, 2, 300).unwrap(), vec![257, 2]);
    let mut r = Reader::new(vec![9]);
    assert_eq!(read_times(&mut r, 1, 10).unwrap(), Vec::<u16>::new());
    assert_eq!(r.position(), 0);
}

fn track(keys: usize, times: Option<Vec<u16>>) -> FTrack {
    let key = TrackKey::Float { x: Some(0), y: None, z: None };
    FTrack {
        translation: vec![key; keys],
        rotation: vec![key; keys],
        scale: Vec::new(),
        translation_times: times.clone(),
        rotation_times: times,
        scale_times: None,
    }
}

#[test]
fn track_times_as_frames() {
    assert_eq!(track(0, None).get_translation_times(4), None);
    assert_eq!(track(1, Some(vec![7])).get_translation_times(4), Some(vec![0]));
    assert_eq!(track(2, Some(vec![3, 9])).get_rotation_times(4), Some(vec![3, 9]));
    assert_eq!(track(2, None).get_translation_times(4), Some(vec![0, 1, 2, 3]));
    assert_eq!(track(2, None).get_translation_times(-1), Some(vec![]));
}

fn empty_object(kind: &str) -> UObject {
    UObject { export_type: kind.to_string(), properties: Vec::new() }
}

fn sequence(table: Vec<i32>) -> UAnimSequence {
    UAnimSequence {
        super_object: empty_object("AnimSequence"),
        skeleton_guid: FGuid { a: 0, b: 0, c: 0, d: 0 },
        key_encoding_format: 2,
        translation_compression_format: 0,
        rotation_compression_format: 0,
        scale_compression_format: 0,
        compressed_track_offsets: Vec::new(),
        compressed_scale_offsets: FCompressedOffsetData { offset_data: Vec::new(), strip_size: 1 },
        compressed_segments: Vec::new(),
        compressed_track_to_skeleton_table: table,
        compressed_curve_data: empty_object("RawCurveData"),
        compressed_raw_data_size: 0,
        compressed_num_frames: 12,
        compressed_stream: Vec::new(),
        tracks: Some(vec![track(1, None)]),
    }
}

#[test]
fn find_track_gives_the_first_match() {
    let s = sequence(vec![4, 7, 4]);
    assert_eq!(s.find_track(4), Some(0));
    assert_eq!(s.find_track(7), Some(1));
    assert_eq!(s.find_track(5), None);
    assert_eq!(s.get_track_map(), vec![4, 7, 4]);
    assert_eq!(s.get_num_frames(), 12);
    assert_eq!(s.get_export_type(), "AnimSequence");
    assert_eq!(s.get_tracks().len(), 1);
}

#[test]
fn texture_without_data_reports_errors() {
    let t = Texture2D { base_object: empty_object("Texture2D"), cooked: 1, textures: Vec::new() };
    assert_eq!(t.get_pixel_format().unwrap_err().get_properties().clone(), vec!["No textures found".to_string()]);
    assert_eq!(
        t.get_texture().unwrap_err().get_properties().clone(),
        vec!["No textures part of export".to_string()]
    );
    assert_eq!(t.get_export_type(), "Texture2D");
    assert_eq!(
        t.get_texture_move().unwrap_err().get_properties().clone(),
        vec!["No textures part of export".to_string()]
    );
}

#[test]
fn conjugating_twice_gives_back_the_quaternion() {
    let q = FQuat { x: 0x3f80_0000, y: 0xbf00_0000, z: 0, w: 7 };
    let back = q.conjugate().conjugate();
    assert_eq!((back.x, back.y, back.z, back.w), (q.x, q.y, q.z, q.w));
}

#[test]
fn property_type_names_are_trimmed() {
    let names = name_map(&["None", "MyInt", " IntProperty\t"]);
    let imports: ImportMap = Vec::new();
    let mut bytes = Vec::new();
    int_tag(&mut bytes, 1, 2, -3);
    let mut r = Reader::new(bytes);
    let tag = read_property_tag(&mut r, &names, &imports, true).unwrap().unwrap();
    assert_eq!(tag.property_type, "IntProperty");
    assert!(matches!(tag.get_data(), FPropertyTagType::IntProperty(-3)));
}

fn bulk_header(flags: i32, count: i32, offset: i64) -> Vec<u8> {
    let mut bytes = Vec::new();
    push_i32(&mut bytes, flags);
    push_i32(&mut bytes, count);
    push_i32(&mut bytes, count);
    bytes.extend_from_slice(&offset.to_le_bytes());
    bytes
}

#[test]
fn bulk_data_inline_or_in_ubulk() {
    let mut bytes = bulk_header(0x40, 3, 0);
    bytes.extend_from_slice(&[7, 8, 9]);
    let mut r = Reader::new(bytes);
    let mut ubulk: Option<Reader> = None;
    let bulk = FByteBulkData::new(&mut r, &mut ubulk, 0).unwrap();
    assert_eq!(bulk.data, vec![7, 8, 9]);

    let mut r = Reader::new(bulk_header(0x100, 2, 1));
    let mut ubulk = Some(Reader::new(vec![0, 1, 2, 3, 4, 5]));
    let bulk = FByteBulkData::new(&mut r, &mut ubulk, 2).unwrap();
    assert_eq!(bulk.data, vec![3, 4]);
    let ubulk = ubulk.unwrap();
    assert_eq!(ubulk.len(), 6);
    assert_eq!(ubulk.position(), 5);

    let mut r = Reader::new(bulk_header(0x100, 2, 1));
    let mut ubulk: Option<Reader> = None;
    let e = FByteBulkData::new(&mut r, &mut ubulk, 0).unwrap_err();
    assert_eq!(e.get_properties().clone(), vec!["No ubulk specified for texture".to_string()]);
}

#[test]
fn platform_data_reads_mips_inline_and_from_ubulk() {
    let mut bytes = Vec::new();
    push_i32(&mut bytes, 4);
    push_i32(&mut bytes, 2);
    push_i32(&mut bytes, 1);
    push_i32(&mut bytes, 6);
    bytes.extend_from_slice(b"PF_G8\0");
    push_i32(&mut bytes, 0);
    push_i32(&mut bytes, 2);
    push_i32(&mut bytes, 1);
    bytes.extend_from_slice(&bulk_header(0x40, 2, 0));
    bytes.extend_from_slice(&[1, 2]);
    push_i32(&mut bytes, 2);
    push_i32(&mut bytes, 1);
    push_i32(&mut bytes, 1);
    push_i32(&mut bytes, 1);
    bytes.extend_from_slice(&bulk_header(0x100, 3, 2));
    push_i32(&mut bytes, 1);
    push_i32(&mut bytes, 1);
    push_i32(&mut bytes, 1);
    let end = bytes.len() as u64;
    let mut r = Reader::new(bytes);
    let mut ubulk = Some(Reader::new(vec![0, 1, 2, 3, 4, 5, 6, 7]));
    let data = FTexturePlatformData::new(&mut r, &mut ubulk, 1).unwrap();
    assert_eq!(r.position(), end);
    assert_eq!(data.pixel_format, "PF_G8");
    assert_eq!(data.mips.len(), 2);
    assert_eq!(data.mips[0].get_bytes().clone(), vec![1, 2]);
    assert_eq!(data.mips[0].get_width(), 2);
    assert_eq!(data.mips[1].get_bytes().clone(), vec![3, 4, 5]);
    assert_eq!(ubulk.unwrap().position(), 6);
}

#[test]
fn data_table_rows_are_objects() {
    let names = name_map(&NAMES);
    let imports: ImportMap = Vec::new();
    let mut bytes = Vec::new();
    push_name(&mut bytes, 0);
    push_i32(&mut bytes, 0);
    push_i32(&mut bytes, 1);
    push_name(&mut bytes, 3);
    int_tag(&mut bytes, 1, 2, 11);
    push_name(&mut bytes, 0);
    let mut r = Reader::new(bytes);
    let table = UDataTable::new(&mut r, &names, &imports).unwrap();
    assert_eq!(table.get_export_type(), "DataTable");
    assert_eq!(table.rows.len(), 1);
    assert_eq!(table.rows[0].0, "Other");
    assert_eq!(table.rows[0].1.export_type, "RowStruct");
    assert!(matches!(table.rows[0].1.get_property("MyInt"), Some(FPropertyTagType::IntProperty(11))));
}

#[test]
fn track_pairs_match_first_tracks() {
    let own = sequence(vec![4, 7, 4]);
    let added = sequence(vec![7, 9, 4]);
    assert_eq!(own.track_pairs(&added), vec![(1, 0), (0, 2)]);
    assert_eq!(own.track_pairs(&sequence(vec![])), vec![]);
}

/// An animation sequence's bytes after its object: the tables, then the
/// compressed stream.
fn anim_bytes(key_encoding: u8, offsets: &[i32], table: &[i32], num_frames: i32, stream: &[u8]) -> Vec<u8> {
    let mut b = Vec::new();
    push_name(&mut b, 0);
    push_i32(&mut b, 0);
    b.extend_from_slice(&[0; 16]);
    b.extend_from_slice(&[0, 0]);
    push_i32(&mut b, 1);
    b.extend_from_slice(&[key_encoding, 0, 0, 0]);
    push_i32(&mut b, offsets.len() as i32);
    for o in offsets {
        push_i32(&mut b, *o);
    }
    push_i32(&mut b, 1);
    push_i32(&mut b, -1);
    push_i32(&mut b, 1);
    push_i32(&mut b, 0);
    push_i32(&mut b, table.len() as i32);
    for t in table {
        push_i32(&mut b, *t);
    }
    push_name(&mut b, 0);
    push_i32(&mut b, 0);
    push_i32(&mut b, num_frames);
    push_i32(&mut b, stream.len() as i32);
    push_i32(&mut b, 0);
    b.extend_from_slice(stream);
    push_i32(&mut b, 0);
    b
}

#[test]
fn anim_sequence_reads_its_tracks() {
    let names = name_map(&NAMES);
    let imports: ImportMap = Vec::new();
    let mut stream = Vec::new();
    let packed: u32 = (1 << 28) | (7 << 24) | 2;
    stream.extend_from_slice(&packed.to_le_bytes());
    for v in [1.0f32, 2.0, 3.0, 4.0, 5.0, 6.0] {
        stream.extend_from_slice(&v.to_bits().to_le_bytes());
    }
    let packed: u32 = (2 << 28) | (0xB << 24) | 3;
    stream.extend_from_slice(&packed.to_le_bytes());
    for v in [10u16, 11, 20, 21, 30, 31] {
        stream.extend_from_slice(&v.to_le_bytes());
    }
    stream.extend_from_slice(&[0, 5, 9, 0]);
    let bytes = anim_bytes(2, &[0, 28], &[3], 12, &stream);
    let mut r = Reader::new(bytes.clone());
    let anim = UAnimSequence::new(&mut r, &names, &imports).unwrap();
    assert_eq!(r.position() as usize, bytes.len());
    assert_eq!(anim.get_num_frames(), 12);
    assert_eq!(anim.find_track(3), Some(0));
    let tracks = anim.get_tracks();
    assert_eq!(tracks.len(), 1);
    let t = &tracks[0];
    assert_eq!(t.translation.len(), 2);
    match t.translation[1] {
        TrackKey::Float { x, y, z } => {
            assert_eq!((x, y, z), (Some(4.0f32.to_bits()), Some(5.0f32.to_bits()), Some(6.0f32.to_bits())))
        },
        _ => panic!("expected full-precision keys"),
    }
    assert_eq!(t.translation_times, None);
    assert_eq!(t.rotation.len(), 3);
    match t.rotation[2] {
        TrackKey::Fixed48 { x, y, z } => assert_eq!((x, y, z), (Some(30), Some(31), None)),
        _ => panic!("expected 48-bit keys"),
    }
    assert_eq!(t.rotation_times, Some(vec![0, 5, 9]));
    assert_eq!(t.get_rotation_times(12), Some(vec![0, 5, 9]));
    assert_eq!(t.get_translation_times(12), Some((0..12).collect::<Vec<i32>>()));
    assert!(t.scale.is_empty());
}

#[test]
fn unsupported_key_encoding_leaves_no_tracks() {
    let names = name_map(&NAMES);
    let imports: ImportMap = Vec::new();
    let bytes = anim_bytes(1, &[-1, -1], &[3], 12, &[]);
    let mut r = Reader::new(bytes);
    let anim = UAnimSequence::new(&mut r, &names, &imports).unwrap();
    assert!(anim.tracks.is_none());
}

#[test]
fn bad_key_header_is_reported_and_tracks_dropped() {
    let names = name_map(&NAMES);
    let imports: ImportMap = Vec::new();
    let bytes = anim_bytes(2, &[0, -1], &[3], 12, &0x7000_0000u32.to_le_bytes());
    let mut r = Reader::new(bytes);
    let anim = UAnimSequence::new(&mut r, &names, &imports).unwrap();
    assert!(anim.tracks.is_none());
}
