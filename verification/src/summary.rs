//! The package file summary at the start of a `.uasset`, and the records it
//! is made of.

use vstd::prelude::*;
use crate::error::ParserResult;
use crate::newable::{read_tarray, take_tarray, Newable};
use crate::reader::{fits, le_u16, le_u32, read_string, signed32, take_i32, take_string, take_u16, take_u32, Parse, Reader};

verus! {

/// A 128-bit GUID, as four little-endian words.
#[derive(Debug, Clone, Copy)]
pub struct FGuid {
    pub a: u32,
    pub b: u32,
    pub c: u32,
    pub d: u32,
}

impl DeepView for FGuid {
    type V = FGuid;

    open spec fn deep_view(&self) -> FGuid {
        *self
    }
}

impl Newable for FGuid {
    open spec fn parse(b: Seq<u8>, p: int) -> Parse<FGuid> {
        match take_u32(b, p) {
            Parse::Parsed(v0, p0) => {
                match take_u32(b, p0) {
                    Parse::Parsed(v1, p1) => {
                        match take_u32(b, p1) {
                            Parse::Parsed(v2, p2) => {
                                match take_u32(b, p2) {
                                    Parse::Parsed(v3, p3) => {
                                        Parse::Parsed(FGuid { a: v0, b: v1, c: v2, d: v3 }, p3)
                                    },
                                    other => other.pass(),
                                }
                            },
                            other => other.pass(),
                        }
                    },
                    other => other.pass(),
                }
            },
            other => other.pass(),
        }
    }

    fn new(reader: &mut Reader) -> (r: ParserResult<Self>) {
        let a = reader.read_u32()?;
        let b = reader.read_u32()?;
        let c = reader.read_u32()?;
        let d = reader.read_u32()?;
        Ok(FGuid { a, b, c, d })
    }
}

/// The lowercase hexadecimal digit for `d < 16`.
pub open spec fn hex_char(d: int) -> char {
    if d < 10 {
        (('0' as int) + d) as char
    } else {
        (('a' as int) + d - 10) as char
    }
}

/// A word as eight lowercase hexadecimal digits, most significant first.
pub open spec fn hex8(v: u32) -> Seq<char> {
    Seq::new(8, |i: int| hex_char(((v >> ((28 - 4 * i) as u32)) & 0xFu32) as int))
}

/// The text of one hexadecimal digit.
fn hex_digit(d: u32) -> (r: &'static str)
    requires
        d < 16,
    ensures
        r@ == seq![hex_char(d as int)],
{
    proof {
        reveal_strlit("0");
        reveal_strlit("1");
        reveal_strlit("2");
        reveal_strlit("3");
        reveal_strlit("4");
        reveal_strlit("5");
        reveal_strlit("6");
        reveal_strlit("7");
        reveal_strlit("8");
        reveal_strlit("9");
        reveal_strlit("a");
        reveal_strlit("b");
        reveal_strlit("c");
        reveal_strlit("d");
        reveal_strlit("e");
        reveal_strlit("f");
    }
    if d == 0 {
        "0"
    } else if d == 1 {
        "1"
    } else if d == 2 {
        "2"
    } else if d == 3 {
        "3"
    } else if d == 4 {
        "4"
    } else if d == 5 {
        "5"
    } else if d == 6 {
        "6"
    } else if d == 7 {
        "7"
    } else if d == 8 {
        "8"
    } else if d == 9 {
        "9"
    } else if d == 10 {
        "a"
    } else if d == 11 {
        "b"
    } else if d == 12 {
        "c"
    } else if d == 13 {
        "d"
    } else if d == 14 {
        "e"
    } else {
        "f"
    }
}

/// `text` followed by the eight hexadecimal digits of `v`.
fn push_hex8(text: String, v: u32) -> (r: String)
    ensures
        r@ == text@ + hex8(v),
{
    let mut out = text;
    let mut i: u32 = 0;
    while i < 8
        invariant
            i <= 8,
            out@ == text@ + hex8(v).take(i as int),
        decreases 8 - i,
    {
        let shift: u32 = 28 - 4 * i;
        let d = (v >> shift) & 0xFu32;
        assert(d < 16) by (bit_vector)
            requires
                d == (v >> shift) & 0xFu32,
        ;
        let ghost before = out@;
        out = out.concat(hex_digit(d));
        assert(hex8(v).take(i as int + 1) =~= hex8(v).take(i as int).push(hex_char(d as int)));
        assert(out@ =~= text@ + hex8(v).take(i as int + 1));
        i = i + 1;
    }
    assert(hex8(v).take(8) =~= hex8(v));
    out
}

impl FGuid {
    /// The four words as 32 lowercase hexadecimal digits.
    pub fn to_string(&self) -> (r: String)
        ensures
            r@ == hex8(self.a) + hex8(self.b) + hex8(self.c) + hex8(self.d),
    {
        let s = push_hex8(String::new(), self.a);
        let s = push_hex8(s, self.b);
        let s = push_hex8(s, self.c);
        let s = push_hex8(s, self.d);
        s
    }
}

/// The version of one custom serialization format.
#[derive(Debug)]
pub struct FCustomVersion {
    pub key: FGuid,
    pub version: i32,
}

impl DeepView for FCustomVersion {
    type V = FCustomVersion;

    open spec fn deep_view(&self) -> FCustomVersion {
        *self
    }
}

impl Newable for FCustomVersion {
    open spec fn parse(b: Seq<u8>, p: int) -> Parse<FCustomVersion> {
        match <FGuid as Newable>::parse(b, p) {
            Parse::Parsed(v0, p0) => {
                match take_i32(b, p0) {
                    Parse::Parsed(v1, p1) => {
                        Parse::Parsed(FCustomVersion { key: v0, version: v1 }, p1)
                    },
                    other => other.pass(),
                }
            },
            other => other.pass(),
        }
    }

    fn new(reader: &mut Reader) -> (r: ParserResult<Self>) {
        let key = <FGuid>::new(reader)?;
        let version = reader.read_i32()?;
        Ok(FCustomVersion { key, version })
    }
}

/// The export and name counts of an earlier generation of the package.
#[derive(Debug)]
pub struct FGenerationInfo {
    pub export_count: i32,
    pub name_count: i32,
}

impl DeepView for FGenerationInfo {
    type V = FGenerationInfo;

    open spec fn deep_view(&self) -> FGenerationInfo {
        *self
    }
}

impl Newable for FGenerationInfo {
    open spec fn parse(b: Seq<u8>, p: int) -> Parse<FGenerationInfo> {
        match take_i32(b, p) {
            Parse::Parsed(v0, p0) => {
                match take_i32(b, p0) {
                    Parse::Parsed(v1, p1) => {
                        Parse::Parsed(FGenerationInfo { export_count: v0, name_count: v1 }, p1)
                    },
                    other => other.pass(),
                }
            },
            other => other.pass(),
        }
    }

    fn new(reader: &mut Reader) -> (r: ParserResult<Self>) {
        let export_count = reader.read_i32()?;
        let name_count = reader.read_i32()?;
        Ok(FGenerationInfo { export_count, name_count })
    }
}

/// An engine version and the branch it was built from.
#[derive(Debug)]
pub struct FEngineVersion {
    pub major: u16,
    pub minor: u16,
    pub patch: u16,
    pub changelist: u32,
    pub branch: String,
}

/// What a [`FEngineVersion`] holds, as plain values.
pub struct FEngineVersionView {
    pub major: u16,
    pub minor: u16,
    pub patch: u16,
    pub changelist: u32,
    pub branch: Seq<char>,
}

impl DeepView for FEngineVersion {
    type V = FEngineVersionView;

    open spec fn deep_view(&self) -> FEngineVersionView {
        FEngineVersionView {
            major: self.major,
            minor: self.minor,
            patch: self.patch,
            changelist: self.changelist,
            branch: self.branch@,
        }
    }
}

impl Newable for FEngineVersion {
    open spec fn parse(b: Seq<u8>, p: int) -> Parse<FEngineVersionView> {
        match take_u16(b, p) {
            Parse::Parsed(v0, p0) => {
                match take_u16(b, p0) {
                    Parse::Parsed(v1, p1) => {
                        match take_u16(b, p1) {
                            Parse::Parsed(v2, p2) => {
                                match take_u32(b, p2) {
                                    Parse::Parsed(v3, p3) => {
                                        match take_string(b, p3) {
                                            Parse::Parsed(v4, p4) => {
                                                Parse::Parsed(FEngineVersionView { major: v0, minor: v1, patch: v2, changelist: v3, branch: v4 }, p4)
                                            },
                                            other => other.pass(),
                                        }
                                    },
                                    other => other.pass(),
                                }
                            },
                            other => other.pass(),
                        }
                    },
                    other => other.pass(),
                }
            },
            other => other.pass(),
        }
    }

    fn new(reader: &mut Reader) -> (r: ParserResult<Self>) {
        let major = reader.read_u16()?;
        let minor = reader.read_u16()?;
        let patch = reader.read_u16()?;
        let changelist = reader.read_u32()?;
        let branch = read_string(reader)?;
        Ok(FEngineVersion { major, minor, patch, changelist, branch })
    }
}

/// Where a compressed chunk lies, and where it expands to.
#[derive(Debug)]
pub struct FCompressedChunk {
    pub uncompressed_offset: i32,
    pub uncompressed_size: i32,
    pub compressed_offset: i32,
    pub compressed_size: i32,
}

impl DeepView for FCompressedChunk {
    type V = FCompressedChunk;

    open spec fn deep_view(&self) -> FCompressedChunk {
        *self
    }
}

impl Newable for FCompressedChunk {
    open spec fn parse(b: Seq<u8>, p: int) -> Parse<FCompressedChunk> {
        match take_i32(b, p) {
            Parse::Parsed(v0, p0) => {
                match take_i32(b, p0) {
                    Parse::Parsed(v1, p1) => {
                        match take_i32(b, p1) {
                            Parse::Parsed(v2, p2) => {
                                match take_i32(b, p2) {
                                    Parse::Parsed(v3, p3) => {
                                        Parse::Parsed(FCompressedChunk { uncompressed_offset: v0, uncompressed_size: v1, compressed_offset: v2, compressed_size: v3 }, p3)
                                    },
                                    other => other.pass(),
                                }
                            },
                            other => other.pass(),
                        }
                    },
                    other => other.pass(),
                }
            },
            other => other.pass(),
        }
    }

    fn new(reader: &mut Reader) -> (r: ParserResult<Self>) {
        let uncompressed_offset = reader.read_i32()?;
        let uncompressed_size = reader.read_i32()?;
        let compressed_offset = reader.read_i32()?;
        let compressed_size = reader.read_i32()?;
        Ok(FCompressedChunk { uncompressed_offset, uncompressed_size, compressed_offset, compressed_size })
    }
}

/// The summary that opens a package: versions, and where the name, import and export tables lie.
#[derive(Debug)]
pub struct FPackageFileSummary {
    pub tag: i32,
    pub legacy_file_version: i32,
    pub legacy_ue3_version: i32,
    pub file_version_u34: i32,
    pub file_version_licensee_ue4: i32,
    pub custom_version_container: Vec<FCustomVersion>,
    pub total_header_size: i32,
    pub folder_name: String,
    pub package_flags: u32,
    pub name_count: i32,
    pub name_offset: i32,
    pub gatherable_text_data_count: i32,
    pub gatherable_text_data_offset: i32,
    pub export_count: i32,
    pub export_offset: i32,
    pub import_count: i32,
    pub import_offset: i32,
    pub depends_offset: i32,
    pub string_asset_references_count: i32,
    pub string_asset_references_offset: i32,
    pub searchable_names_offset: i32,
    pub thumbnail_table_offset: i32,
    pub guid: FGuid,
    pub generations: Vec<FGenerationInfo>,
    pub saved_by_engine_version: FEngineVersion,
    pub compatible_with_engine_version: FEngineVersion,
    pub compression_flags: u32,
    pub compressed_chunks: Vec<FCompressedChunk>,
    pub package_source: u32,
    pub additional_packages_to_cook: Vec<String>,
    pub asset_registry_data_offset: i32,
    pub buld_data_start_offset: i32,
    pub world_tile_info_data_offset: i32,
    pub chunk_ids: Vec<i32>,
    pub preload_dependency_count: i32,
    pub preload_dependency_offset: i32,
}

/// What a [`FPackageFileSummary`] holds, as plain values.
pub struct FPackageFileSummaryView {
    pub tag: i32,
    pub legacy_file_version: i32,
    pub legacy_ue3_version: i32,
    pub file_version_u34: i32,
    pub file_version_licensee_ue4: i32,
    pub custom_version_container: Seq<FCustomVersion>,
    pub total_header_size: i32,
    pub folder_name: Seq<char>,
    pub package_flags: u32,
    pub name_count: i32,
    pub name_offset: i32,
    pub gatherable_text_data_count: i32,
    pub gatherable_text_data_offset: i32,
    pub export_count: i32,
    pub export_offset: i32,
    pub import_count: i32,
    pub import_offset: i32,
    pub depends_offset: i32,
    pub string_asset_references_count: i32,
    pub string_asset_references_offset: i32,
    pub searchable_names_offset: i32,
    pub thumbnail_table_offset: i32,
    pub guid: FGuid,
    pub generations: Seq<FGenerationInfo>,
    pub saved_by_engine_version: FEngineVersionView,
    pub compatible_with_engine_version: FEngineVersionView,
    pub compression_flags: u32,
    pub compressed_chunks: Seq<FCompressedChunk>,
    pub package_source: u32,
    pub additional_packages_to_cook: Seq<Seq<char>>,
    pub asset_registry_data_offset: i32,
    pub buld_data_start_offset: i32,
    pub world_tile_info_data_offset: i32,
    pub chunk_ids: Seq<i32>,
    pub preload_dependency_count: i32,
    pub preload_dependency_offset: i32,
}

impl DeepView for FPackageFileSummary {
    type V = FPackageFileSummaryView;

    open spec fn deep_view(&self) -> FPackageFileSummaryView {
        FPackageFileSummaryView {
            tag: self.tag,
            legacy_file_version: self.legacy_file_version,
            legacy_ue3_version: self.legacy_ue3_version,
            file_version_u34: self.file_version_u34,
            file_version_licensee_ue4: self.file_version_licensee_ue4,
            custom_version_container: self.custom_version_container.deep_view(),
            total_header_size: self.total_header_size,
            folder_name: self.folder_name@,
            package_flags: self.package_flags,
            name_count: self.name_count,
            name_offset: self.name_offset,
            gatherable_text_data_count: self.gatherable_text_data_count,
            gatherable_text_data_offset: self.gatherable_text_data_offset,
            export_count: self.export_count,
            export_offset: self.export_offset,
            import_count: self.import_count,
            import_offset: self.import_offset,
            depends_offset: self.depends_offset,
            string_asset_references_count: self.string_asset_references_count,
            string_asset_references_offset: self.string_asset_references_offset,
            searchable_names_offset: self.searchable_names_offset,
            thumbnail_table_offset: self.thumbnail_table_offset,
            guid: self.guid.deep_view(),
            generations: self.generations.deep_view(),
            saved_by_engine_version: self.saved_by_engine_version.deep_view(),
            compatible_with_engine_version: self.compatible_with_engine_version.deep_view(),
            compression_flags: self.compression_flags,
            compressed_chunks: self.compressed_chunks.deep_view(),
            package_source: self.package_source,
            additional_packages_to_cook: self.additional_packages_to_cook.deep_view(),
            asset_registry_data_offset: self.asset_registry_data_offset,
            buld_data_start_offset: self.buld_data_start_offset,
            world_tile_info_data_offset: self.world_tile_info_data_offset,
            chunk_ids: self.chunk_ids.deep_view(),
            preload_dependency_count: self.preload_dependency_count,
            preload_dependency_offset: self.preload_dependency_offset,
        }
    }
}

impl Newable for FPackageFileSummary {
    open spec fn parse(b: Seq<u8>, p: int) -> Parse<FPackageFileSummaryView> {
        match take_i32(b, p) {
            Parse::Parsed(v0, p0) => {
                match take_i32(b, p0) {
                    Parse::Parsed(v1, p1) => {
                        match take_i32(b, p1) {
                            Parse::Parsed(v2, p2) => {
                                match take_i32(b, p2) {
                                    Parse::Parsed(v3, p3) => {
                                        match take_i32(b, p3) {
                                            Parse::Parsed(v4, p4) => {
                                                match take_tarray::<FCustomVersion>(b, p4) {
                                                    Parse::Parsed(v5, p5) => {
                                                        match take_i32(b, p5) {
                                                            Parse::Parsed(v6, p6) => {
                                                                match take_string(b, p6) {
                                                                    Parse::Parsed(v7, p7) => {
                                                                        match take_u32(b, p7) {
                                                                            Parse::Parsed(v8, p8) => {
                                                                                match take_i32(b, p8) {
                                                                                    Parse::Parsed(v9, p9) => {
                                                                                        match take_i32(b, p9) {
                                                                                            Parse::Parsed(v10, p10) => {
                                                                                                match take_i32(b, p10) {
                                                                                                    Parse::Parsed(v11, p11) => {
                                                                                                        match take_i32(b, p11) {
                                                                                                            Parse::Parsed(v12, p12) => {
                                                                                                                match take_i32(b, p12) {
                                                                                                                    Parse::Parsed(v13, p13) => {
                                                                                                                        match take_i32(b, p13) {
                                                                                                                            Parse::Parsed(v14, p14) => {
                                                                                                                                match take_i32(b, p14) {
                                                                                                                                    Parse::Parsed(v15, p15) => {
                                                                                                                                        match take_i32(b, p15) {
                                                                                                                                            Parse::Parsed(v16, p16) => {
                                                                                                                                                match take_i32(b, p16) {
                                                                                                                                                    Parse::Parsed(v17, p17) => {
                                                                                                                                                        match take_i32(b, p17) {
                                                                                                                                                            Parse::Parsed(v18, p18) => {
                                                                                                                                                                match take_i32(b, p18) {
                                                                                                                                                                    Parse::Parsed(v19, p19) => {
                                                                                                                                                                        match take_i32(b, p19) {
                                                                                                                                                                            Parse::Parsed(v20, p20) => {
                                                                                                                                                                                match take_i32(b, p20) {
                                                                                                                                                                                    Parse::Parsed(v21, p21) => {
                                                                                                                                                                                        match <FGuid as Newable>::parse(b, p21) {
                                                                                                                                                                                            Parse::Parsed(v22, p22) => {
                                                                                                                                                                                                match take_tarray::<FGenerationInfo>(b, p22) {
                                                                                                                                                                                                    Parse::Parsed(v23, p23) => {
                                                                                                                                                                                                        match <FEngineVersion as Newable>::parse(b, p23) {
                                                                                                                                                                                                            Parse::Parsed(v24, p24) => {
                                                                                                                                                                                                                match <FEngineVersion as Newable>::parse(b, p24) {
                                                                                                                                                                                                                    Parse::Parsed(v25, p25) => {
                                                                                                                                                                                                                        match take_u32(b, p25) {
                                                                                                                                                                                                                            Parse::Parsed(v26, p26) => {
                                                                                                                                                                                                                                match take_tarray::<FCompressedChunk>(b, p26) {
                                                                                                                                                                                                                                    Parse::Parsed(v27, p27) => {
                                                                                                                                                                                                                                        match take_u32(b, p27) {
                                                                                                                                                                                                                                            Parse::Parsed(v28, p28) => {
                                                                                                                                                                                                                                                match take_tarray::<String>(b, p28) {
                                                                                                                                                                                                                                                    Parse::Parsed(v29, p29) => {
                                                                                                                                                                                                                                                        match take_i32(b, p29) {
                                                                                                                                                                                                                                                            Parse::Parsed(v30, p30) => {
                                                                                                                                                                                                                                                                match take_i32(b, p30) {
                                                                                                                                                                                                                                                                    Parse::Parsed(v31, p31) => {
                                                                                                                                                                                                                                                                        match take_i32(b, p31) {
                                                                                                                                                                                                                                                                            Parse::Parsed(v32, p32) => {
                                                                                                                                                                                                                                                                                match take_tarray::<i32>(b, p32) {
                                                                                                                                                                                                                                                                                    Parse::Parsed(v33, p33) => {
                                                                                                                                                                                                                                                                                        match take_i32(b, p33) {
                                                                                                                                                                                                                                                                                            Parse::Parsed(v34, p34) => {
                                                                                                                                                                                                                                                                                                match take_i32(b, p34) {
                                                                                                                                                                                                                                                                                                    Parse::Parsed(v35, p35) => {
                                                                                                                                                                                                                                                                                                        Parse::Parsed(FPackageFileSummaryView { tag: v0, legacy_file_version: v1, legacy_ue3_version: v2, file_version_u34: v3, file_version_licensee_ue4: v4, custom_version_container: v5, total_header_size: v6, folder_name: v7, package_flags: v8, name_count: v9, name_offset: v10, gatherable_text_data_count: v11, gatherable_text_data_offset: v12, export_count: v13, export_offset: v14, import_count: v15, import_offset: v16, depends_offset: v17, string_asset_references_count: v18, string_asset_references_offset: v19, searchable_names_offset: v20, thumbnail_table_offset: v21, guid: v22, generations: v23, saved_by_engine_version: v24, compatible_with_engine_version: v25, compression_flags: v26, compressed_chunks: v27, package_source: v28, additional_packages_to_cook: v29, asset_registry_data_offset: v30, buld_data_start_offset: v31, world_tile_info_data_offset: v32, chunk_ids: v33, preload_dependency_count: v34, preload_dependency_offset: v35 }, p35)
                                                                                                                                                                                                                                                                                                    },
                                                                                                                                                                                                                                                                                                    other => other.pass(),
                                                                                                                                                                                                                                                                                                }
                                                                                                                                                                                                                                                                                            },
                                                                                                                                                                                                                                                                                            other => other.pass(),
                                                                                                                                                                                                                                                                                        }
                                                                                                                                                                                                                                                                                    },
                                                                                                                                                                                                                                                                                    other => other.pass(),
                                                                                                                                                                                                                                                                                }
                                                                                                                                                                                                                                                                            },
                                                                                                                                                                                                                                                                            other => other.pass(),
                                                                                                                                                                                                                                                                        }
                                                                                                                                                                                                                                                                    },
                                                                                                                                                                                                                                                                    other => other.pass(),
                                                                                                                                                                                                                                                                }
                                                                                                                                                                                                                                                            },
                                                                                                                                                                                                                                                            other => other.pass(),
                                                                                                                                                                                                                                                        }
                                                                                                                                                                                                                                                    },
                                                                                                                                                                                                                                                    other => other.pass(),
                                                                                                                                                                                                                                                }
                                                                                                                                                                                                                                            },
                                                                                                                                                                                                                                            other => other.pass(),
                                                                                                                                                                                                                                        }
                                                                                                                                                                                                                                    },
                                                                                                                                                                                                                                    other => other.pass(),
                                                                                                                                                                                                                                }
                                                                                                                                                                                                                            },
                                                                                                                                                                                                                            other => other.pass(),
                                                                                                                                                                                                                        }
                                                                                                                                                                                                                    },
                                                                                                                                                                                                                    other => other.pass(),
                                                                                                                                                                                                                }
                                                                                                                                                                                                            },
                                                                                                                                                                                                            other => other.pass(),
                                                                                                                                                                                                        }
                                                                                                                                                                                                    },
                                                                                                                                                                                                    other => other.pass(),
                                                                                                                                                                                                }
                                                                                                                                                                                            },
                                                                                                                                                                                            other => other.pass(),
                                                                                                                                                                                        }
                                                                                                                                                                                    },
                                                                                                                                                                                    other => other.pass(),
                                                                                                                                                                                }
                                                                                                                                                                            },
                                                                                                                                                                            other => other.pass(),
                                                                                                                                                                        }
                                                                                                                                                                    },
                                                                                                                                                                    other => other.pass(),
                                                                                                                                                                }
                                                                                                                                                            },
                                                                                                                                                            other => other.pass(),
                                                                                                                                                        }
                                                                                                                                                    },
                                                                                                                                                    other => other.pass(),
                                                                                                                                                }
                                                                                                                                            },
                                                                                                                                            other => other.pass(),
                                                                                                                                        }
                                                                                                                                    },
                                                                                                                                    other => other.pass(),
                                                                                                                                }
                                                                                                                            },
                                                                                                                            other => other.pass(),
                                                                                                                        }
                                                                                                                    },
                                                                                                                    other => other.pass(),
                                                                                                                }
                                                                                                            },
                                                                                                            other => other.pass(),
                                                                                                        }
                                                                                                    },
                                                                                                    other => other.pass(),
                                                                                                }
                                                                                            },
                                                                                            other => other.pass(),
                                                                                        }
                                                                                    },
                                                                                    other => other.pass(),
                                                                                }
                                                                            },
                                                                            other => other.pass(),
                                                                        }
                                                                    },
                                                                    other => other.pass(),
                                                                }
                                                            },
                                                            other => other.pass(),
                                                        }
                                                    },
                                                    other => other.pass(),
                                                }
                                            },
                                            other => other.pass(),
                                        }
                                    },
                                    other => other.pass(),
                                }
                            },
                            other => other.pass(),
                        }
                    },
                    other => other.pass(),
                }
            },
            other => other.pass(),
        }
    }

    #[verifier::rlimit(100)]
    fn new(reader: &mut Reader) -> (r: ParserResult<Self>) {
        let tag = reader.read_i32()?;
        let legacy_file_version = reader.read_i32()?;
        let legacy_ue3_version = reader.read_i32()?;
        let file_version_u34 = reader.read_i32()?;
        let file_version_licensee_ue4 = reader.read_i32()?;
        let custom_version_container = read_tarray::<FCustomVersion>(reader)?;
        let total_header_size = reader.read_i32()?;
        let folder_name = read_string(reader)?;
        let package_flags = reader.read_u32()?;
        let name_count = reader.read_i32()?;
        let name_offset = reader.read_i32()?;
        let gatherable_text_data_count = reader.read_i32()?;
        let gatherable_text_data_offset = reader.read_i32()?;
        let export_count = reader.read_i32()?;
        let export_offset = reader.read_i32()?;
        let import_count = reader.read_i32()?;
        let import_offset = reader.read_i32()?;
        let depends_offset = reader.read_i32()?;
        let string_asset_references_count = reader.read_i32()?;
        let string_asset_references_offset = reader.read_i32()?;
        let searchable_names_offset = reader.read_i32()?;
        let thumbnail_table_offset = reader.read_i32()?;
        let guid = <FGuid>::new(reader)?;
        let generations = read_tarray::<FGenerationInfo>(reader)?;
        let saved_by_engine_version = <FEngineVersion>::new(reader)?;
        let compatible_with_engine_version = <FEngineVersion>::new(reader)?;
        let compression_flags = reader.read_u32()?;
        let compressed_chunks = read_tarray::<FCompressedChunk>(reader)?;
        let package_source = reader.read_u32()?;
        let additional_packages_to_cook = read_tarray::<String>(reader)?;
        let asset_registry_data_offset = reader.read_i32()?;
        let buld_data_start_offset = reader.read_i32()?;
        let world_tile_info_data_offset = reader.read_i32()?;
        let chunk_ids = read_tarray::<i32>(reader)?;
        let preload_dependency_count = reader.read_i32()?;
        let preload_dependency_offset = reader.read_i32()?;
        Ok(FPackageFileSummary { tag, legacy_file_version, legacy_ue3_version, file_version_u34, file_version_licensee_ue4, custom_version_container, total_header_size, folder_name, package_flags, name_count, name_offset, gatherable_text_data_count, gatherable_text_data_offset, export_count, export_offset, import_count, import_offset, depends_offset, string_asset_references_count, string_asset_references_offset, searchable_names_offset, thumbnail_table_offset, guid, generations, saved_by_engine_version, compatible_with_engine_version, compression_flags, compressed_chunks, package_source, additional_packages_to_cook, asset_registry_data_offset, buld_data_start_offset, world_tile_info_data_offset, chunk_ids, preload_dependency_count, preload_dependency_offset })
    }
}

/// An entry of the name table.
#[derive(Debug)]
pub struct FNameEntrySerialized {
    pub data: String,
    pub non_case_preserving_hash: u16,
    pub case_preserving_hash: u16,
}

/// What a [`FNameEntrySerialized`] holds, as plain values.
pub struct FNameEntryView {
    pub data: Seq<char>,
    pub non_case_preserving_hash: u16,
    pub case_preserving_hash: u16,
}

impl DeepView for FNameEntrySerialized {
    type V = FNameEntryView;

    open spec fn deep_view(&self) -> FNameEntryView {
        FNameEntryView {
            data: self.data@,
            non_case_preserving_hash: self.non_case_preserving_hash,
            case_preserving_hash: self.case_preserving_hash,
        }
    }
}

impl Newable for FNameEntrySerialized {
    open spec fn parse(b: Seq<u8>, p: int) -> Parse<FNameEntryView> {
        match take_string(b, p) {
            Parse::Parsed(v0, p0) => {
                match take_u16(b, p0) {
                    Parse::Parsed(v1, p1) => {
                        match take_u16(b, p1) {
                            Parse::Parsed(v2, p2) => {
                                Parse::Parsed(FNameEntryView { data: v0, non_case_preserving_hash: v1, case_preserving_hash: v2 }, p2)
                            },
                            other => other.pass(),
                        }
                    },
                    other => other.pass(),
                }
            },
            other => other.pass(),
        }
    }

    fn new(reader: &mut Reader) -> (r: ParserResult<Self>) {
        let data = read_string(reader)?;
        let non_case_preserving_hash = reader.read_u16()?;
        let case_preserving_hash = reader.read_u16()?;
        Ok(FNameEntrySerialized { data, non_case_preserving_hash, case_preserving_hash })
    }
}


/// A GUID is four little-endian words, `a` to `d` in that order.
pub proof fn lemma_guid_layout(b: Seq<u8>, p: int)
    requires
        fits(b, p, 16),
    ensures
        <FGuid as Newable>::parse(b, p) == Parse::Parsed(
            FGuid { a: le_u32(b, p), b: le_u32(b, p + 4), c: le_u32(b, p + 8), d: le_u32(b, p + 12) },
            p + 16,
        ),
{
}


/// The summary's fixed fields, where they lie: the tag and the four version
/// numbers in the first 20 bytes; after the custom versions, the total
/// header size; after the folder name that follows it, the package flags,
/// then the name, gatherable text, export and import counts and offsets (a
/// count before its offset), the depends offset, the string asset
/// references' count and offset, the searchable names and thumbnail table
/// offsets, and the GUID.
#[verifier::rlimit(50)]
pub proof fn lemma_summary_layout(b: Seq<u8>, p: int)
    requires
        <FPackageFileSummary as Newable>::parse(b, p) is Parsed,
    ensures
        ({
            let v = <FPackageFileSummary as Newable>::parse(b, p).value();
            let c = take_tarray::<FCustomVersion>(b, p + 20)->Parsed_1;
            let folder = take_string(b, c + 4);
            let s = folder->Parsed_1;
            &&& v.tag == signed32(le_u32(b, p))
            &&& v.legacy_file_version == signed32(le_u32(b, p + 4))
            &&& v.legacy_ue3_version == signed32(le_u32(b, p + 8))
            &&& v.file_version_u34 == signed32(le_u32(b, p + 12))
            &&& v.file_version_licensee_ue4 == signed32(le_u32(b, p + 16))
            &&& v.custom_version_container == take_tarray::<FCustomVersion>(b, p + 20)->Parsed_0
            &&& v.total_header_size == signed32(le_u32(b, c))
            &&& v.folder_name == folder->Parsed_0
            &&& v.package_flags == le_u32(b, s)
            &&& v.name_count == signed32(le_u32(b, s + 4))
            &&& v.name_offset == signed32(le_u32(b, s + 8))
            &&& v.gatherable_text_data_count == signed32(le_u32(b, s + 12))
            &&& v.gatherable_text_data_offset == signed32(le_u32(b, s + 16))
            &&& v.export_count == signed32(le_u32(b, s + 20))
            &&& v.export_offset == signed32(le_u32(b, s + 24))
            &&& v.import_count == signed32(le_u32(b, s + 28))
            &&& v.import_offset == signed32(le_u32(b, s + 32))
            &&& v.depends_offset == signed32(le_u32(b, s + 36))
            &&& v.string_asset_references_count == signed32(le_u32(b, s + 40))
            &&& v.string_asset_references_offset == signed32(le_u32(b, s + 44))
            &&& v.searchable_names_offset == signed32(le_u32(b, s + 48))
            &&& v.thumbnail_table_offset == signed32(le_u32(b, s + 52))
            &&& v.guid == (FGuid {
                a: le_u32(b, s + 56),
                b: le_u32(b, s + 60),
                c: le_u32(b, s + 64),
                d: le_u32(b, s + 68),
            })
        }),
{
}


/// The value of a lowercase hexadecimal digit (and -1 for any other
/// character).
pub open spec fn hex_digit_value(c: char) -> int {
    if '0' <= c && c <= '9' {
        c as int - '0' as int
    } else if 'a' <= c && c <= 'f' {
        c as int - 'a' as int + 10
    } else {
        -1
    }
}

/// A word's text is its eight base-16 digits, lowercase, the most
/// significant first: digit `i` is the word divided by `16^(7 - i)`, modulo
/// 16.
pub proof fn lemma_hex8_digits(v: u32)
    ensures
        hex8(v).len() == 8,
        hex_digit_value(hex8(v)[0]) == (v / 0x10000000) % 16,
        hex_digit_value(hex8(v)[1]) == (v / 0x1000000) % 16,
        hex_digit_value(hex8(v)[2]) == (v / 0x100000) % 16,
        hex_digit_value(hex8(v)[3]) == (v / 0x10000) % 16,
        hex_digit_value(hex8(v)[4]) == (v / 0x1000) % 16,
        hex_digit_value(hex8(v)[5]) == (v / 0x100) % 16,
        hex_digit_value(hex8(v)[6]) == (v / 0x10) % 16,
        hex_digit_value(hex8(v)[7]) == (v / 0x1) % 16,
{
    assert((v >> 28u32) & 0xFu32 == (v / 0x10000000) % 16) by (bit_vector);
    assert((v >> 24u32) & 0xFu32 == (v / 0x1000000) % 16) by (bit_vector);
    assert((v >> 20u32) & 0xFu32 == (v / 0x100000) % 16) by (bit_vector);
    assert((v >> 16u32) & 0xFu32 == (v / 0x10000) % 16) by (bit_vector);
    assert((v >> 12u32) & 0xFu32 == (v / 0x1000) % 16) by (bit_vector);
    assert((v >> 8u32) & 0xFu32 == (v / 0x100) % 16) by (bit_vector);
    assert((v >> 4u32) & 0xFu32 == (v / 0x10) % 16) by (bit_vector);
    assert((v >> 0u32) & 0xFu32 == (v / 0x1) % 16) by (bit_vector);
    assert forall|d: int| 0 <= d < 16 implies hex_digit_value(#[trigger] hex_char(d)) == d by {}
    assert forall|i: int| 0 <= i < 8 implies #[trigger] hex8(v)[i] == hex_char(((v >> ((28 - 4 * i) as u32)) & 0xFu32) as int) by {}
    assert(hex8(v)[0] == hex_char(((v >> 28u32) & 0xFu32) as int));
    assert(hex8(v)[1] == hex_char(((v >> 24u32) & 0xFu32) as int));
    assert(hex8(v)[2] == hex_char(((v >> 20u32) & 0xFu32) as int));
    assert(hex8(v)[3] == hex_char(((v >> 16u32) & 0xFu32) as int));
    assert(hex8(v)[4] == hex_char(((v >> 12u32) & 0xFu32) as int));
    assert(hex8(v)[5] == hex_char(((v >> 8u32) & 0xFu32) as int));
    assert(hex8(v)[6] == hex_char(((v >> 4u32) & 0xFu32) as int));
    assert(hex8(v)[7] == hex_char(((v >> 0u32) & 0xFu32) as int));
}


/// The summary's small records: a custom version is a GUID (16 bytes) then
/// an `i32` version; a generation its export count then its name count; a
/// compressed chunk its uncompressed offset and size, then its compressed
/// offset and size (`i32`s); an engine version its major, minor and patch
/// numbers (`u16`s), its changelist (`u32`) and its branch's text; a name
/// entry its text, then its non-case-preserving and case-preserving hashes
/// (`u16`s).
pub proof fn lemma_summary_record_layouts(b: Seq<u8>, p: int)
    ensures
        fits(b, p, 20) ==> <FCustomVersion as Newable>::parse(b, p) == Parse::Parsed(
            FCustomVersion {
                key: FGuid { a: le_u32(b, p), b: le_u32(b, p + 4), c: le_u32(b, p + 8), d: le_u32(b, p + 12) },
                version: signed32(le_u32(b, p + 16)),
            },
            p + 20,
        ),
        fits(b, p, 8) ==> <FGenerationInfo as Newable>::parse(b, p) == Parse::Parsed(
            FGenerationInfo { export_count: signed32(le_u32(b, p)), name_count: signed32(le_u32(b, p + 4)) },
            p + 8,
        ),
        fits(b, p, 16) ==> <FCompressedChunk as Newable>::parse(b, p) == Parse::Parsed(
            FCompressedChunk {
                uncompressed_offset: signed32(le_u32(b, p)),
                uncompressed_size: signed32(le_u32(b, p + 4)),
                compressed_offset: signed32(le_u32(b, p + 8)),
                compressed_size: signed32(le_u32(b, p + 12)),
            },
            p + 16,
        ),
        <FEngineVersion as Newable>::parse(b, p) is Parsed ==> ({
            let v = <FEngineVersion as Newable>::parse(b, p).value();
            &&& v.major == le_u16(b, p)
            &&& v.minor == le_u16(b, p + 2)
            &&& v.patch == le_u16(b, p + 4)
            &&& v.changelist == le_u32(b, p + 6)
            &&& v.branch == take_string(b, p + 10).value()
        }),
        <FNameEntrySerialized as Newable>::parse(b, p) is Parsed ==> ({
            let v = <FNameEntrySerialized as Newable>::parse(b, p).value();
            let s = take_string(b, p);
            &&& v.data == s.value()
            &&& v.non_case_preserving_hash == le_u16(b, s->Parsed_1)
            &&& v.case_preserving_hash == le_u16(b, s->Parsed_1 + 2)
        }),
{
}

} // verus!
