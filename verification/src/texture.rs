//! Textures: bulk data held inline or in the `.ubulk` file, mipmaps, and the
//! platform data of each pixel format.

use vstd::prelude::*;
use crate::error::{ParserError, ParserResult};
use crate::mesh::FStripDataFlags;
use crate::names::{import_names, name_texts, read_fname, take_fname, ImportMap, NameMap};
use crate::newable::{lemma_prepend_assoc, prepend, Newable};
use crate::objects::{take_object, ObjectView, PackageExport, UObject};
use crate::properties::{forward, rem};
use crate::reader::{
    fits, le_u32, le_u64, outcome, read_string, signed32, signed64, take_bytes, take_i32, take_i64, take_string, take_u32, Parse, Reader,
};
use crate::text::{same_text, text};

verus! {

/// How a block of bulk data is stored: flags, the byte count, the size on disk, and the offset in the file.
#[derive(Debug, Clone, Copy)]
pub struct FByteBulkDataHeader {
    pub bulk_data_flags: i32,
    pub element_count: i32,
    pub size_on_disk: i32,
    pub offset_in_file: i64,
}

impl DeepView for FByteBulkDataHeader {
    type V = FByteBulkDataHeader;

    open spec fn deep_view(&self) -> FByteBulkDataHeader {
        *self
    }
}

impl Newable for FByteBulkDataHeader {
    open spec fn parse(b: Seq<u8>, p: int) -> Parse<FByteBulkDataHeader> {
        match take_i32(b, p) {
            Parse::Parsed(v0, p0) => {
                match take_i32(b, p0) {
                    Parse::Parsed(v1, p1) => {
                        match take_i32(b, p1) {
                            Parse::Parsed(v2, p2) => {
                                match take_i64(b, p2) {
                                    Parse::Parsed(v3, p3) => {
                                        Parse::Parsed(FByteBulkDataHeader { bulk_data_flags: v0, element_count: v1, size_on_disk: v2, offset_in_file: v3 }, p3)
                                    },
                                    other => other.pass(),
                                }
                            },
                            other => other.pass(),
                        }
                    },
                    other => other.pass(),
                }
            },
            other => other.pass(),
        }
    }

    fn new(reader: &mut Reader) -> (r: ParserResult<Self>) {
        let bulk_data_flags = reader.read_i32()?;
        let element_count = reader.read_i32()?;
        let size_on_disk = reader.read_i32()?;
        let offset_in_file = reader.read_i64()?;
        Ok(FByteBulkDataHeader { bulk_data_flags, element_count, size_on_disk, offset_in_file })
    }
}

/// The bytes of the `.ubulk` file, when there is one.
pub open spec fn ubulk_bytes(ubulk: Option<Reader>) -> Option<Seq<u8>> {
    match ubulk {
        Some(u) => Some(u.bytes()),
        None => None,
    }
}

/// What `v as u64` gives for an `i64`: the value modulo 2^64.
pub open spec fn wrap_u64(v: int) -> int {
    if v < 0 {
        v + 0x1_0000_0000_0000_0000
    } else {
        v
    }
}

/// A block of bulk data: its header and its bytes.
#[derive(Debug)]
pub struct FByteBulkData {
    pub header: FByteBulkDataHeader,
    pub data: Vec<u8>,
}

/// What a [`FByteBulkData`] holds, as plain values.
pub struct BulkView {
    pub header: FByteBulkDataHeader,
    pub data: Seq<u8>,
}

impl DeepView for FByteBulkData {
    type V = BulkView;

    open spec fn deep_view(&self) -> BulkView {
        BulkView { header: self.header, data: self.data@ }
    }
}

/// The header; then, with flag `0x40`, the bytes inline; then, with flag
/// `0x100`, the bytes at `offset_in_file + bulk_offset` in the `.ubulk`
/// file (an error when there is none). A negative byte count, an offset
/// outside `i64`, or bytes missing from the `.ubulk` file is where the
/// format gives up.
pub open spec fn take_bulk(b: Seq<u8>, p: int, ubulk: Option<Seq<u8>>, bulk_offset: i64) -> Parse<BulkView> {
    match FByteBulkDataHeader::parse(b, p) {
        Parse::Parsed(header, q) => {
            let inline = if header.bulk_data_flags & 0x40 != 0 {
                if header.element_count < 0 {
                    Parse::Aborted
                } else {
                    take_bytes(b, q, header.element_count as int)
                }
            } else {
                Parse::Parsed(Seq::<u8>::empty(), q)
            };
            match inline {
                Parse::Parsed(data, e) => {
                    if header.bulk_data_flags & 0x100 != 0 {
                        match ubulk {
                            None => Parse::Failed(seq!["No ubulk specified for texture"@], e),
                            Some(u) => {
                                let offset = header.offset_in_file + bulk_offset;
                                let start = wrap_u64(offset);
                                if offset < i64::MIN || offset > i64::MAX || header.element_count < 0 {
                                    Parse::Aborted
                                } else if fits(u, start, header.element_count as int) {
                                    Parse::Parsed(
                                        BulkView { header, data: u.subrange(start, start + header.element_count) },
                                        e,
                                    )
                                } else {
                                    Parse::Aborted
                                }
                            },
                        }
                    } else {
                        Parse::Parsed(BulkView { header, data }, e)
                    }
                },
                other => other.pass(),
            }
        },
        other => other.pass(),
    }
}

/// The position of the `.ubulk` reader, when there is one.
pub open spec fn ubulk_at(ubulk: Option<Reader>) -> Option<int> {
    match ubulk {
        Some(u) => Some(u.at()),
        None => None,
    }
}

/// Where the `.ubulk` reader stands once the block `v` was read: just past
/// the block's bytes when they were read from it, and where it stood otherwise.
pub open spec fn bulk_moves(at: Option<int>, v: BulkView, bulk_offset: i64) -> Option<int> {
    match at {
        Some(_) => if v.header.bulk_data_flags & 0x100 != 0 {
            Some(wrap_u64(v.header.offset_in_file + bulk_offset) + v.header.element_count)
        } else {
            at
        },
        None => None,
    }
}

/// Where the `.ubulk` reader stands after a block is read: as
/// [`bulk_moves`] when the block was read, and where it stood otherwise.
pub open spec fn ubulk_at_after(at: Option<int>, read: Parse<BulkView>, bulk_offset: i64) -> Option<int> {
    match read {
        Parse::Parsed(v, _) => bulk_moves(at, v, bulk_offset),
        _ => at,
    }
}

/// Where the `.ubulk` reader stands once the mipmaps `mips` were read, one
/// after another.
pub open spec fn mips_move(at: Option<int>, mips: Seq<MipView>, bulk_offset: i64) -> Option<int>
    decreases mips.len(),
{
    if mips.len() == 0 {
        at
    } else {
        bulk_moves(mips_move(at, mips.drop_last(), bulk_offset), mips.last().data, bulk_offset)
    }
}

/// Where the `.ubulk` reader stands once the platform data blocks `textures`
/// were read, one after another, each with the bulk offset `bulk_offset`.
pub open spec fn platforms_move(at: Option<int>, textures: Seq<PlatformDataView>, bulk_offset: i64) -> Option<int>
    decreases textures.len(),
{
    if textures.len() == 0 {
        at
    } else {
        mips_move(platforms_move(at, textures.drop_last(), bulk_offset), textures.last().mips, bulk_offset)
    }
}

impl FByteBulkData {
    pub fn new(reader: &mut Reader, ubulk: &mut Option<Reader>, bulk_offset: i64) -> (r: ParserResult<Self>)
        requires
            !(take_bulk(old(reader).bytes(), old(reader).at(), ubulk_bytes(*old(ubulk)), bulk_offset) is Aborted),
        ensures
            final(reader).bytes() == old(reader).bytes(),
            ubulk_bytes(*final(ubulk)) == ubulk_bytes(*old(ubulk)),
            outcome(r, take_bulk(old(reader).bytes(), old(reader).at(), ubulk_bytes(*old(ubulk)), bulk_offset), *final(reader)),
            ubulk_at(*final(ubulk)) == ubulk_at_after(
                ubulk_at(*old(ubulk)),
                take_bulk(old(reader).bytes(), old(reader).at(), ubulk_bytes(*old(ubulk)), bulk_offset),
                bulk_offset,
            ),
    {
        let header = FByteBulkDataHeader::new(reader)?;
        let mut data: Vec<u8> = Vec::new();
        if header.bulk_data_flags & 0x0040 != 0 {
            if header.element_count < 0 {
                return vstd::pervasive::unreached();
            }
            data = reader.read_bytes(header.element_count as usize)?;
            assert(data.deep_view() =~= data@);
        }
        if header.bulk_data_flags & 0x0100 != 0 {
            let mut ubulk_reader = match ubulk.take() {
                Some(u) => u,
                None => {
                    return Err(ParserError::new(text("No ubulk specified for texture")));
                },
            };
            let offset: i128 = header.offset_in_file as i128 + bulk_offset as i128;
            if offset < i64::MIN as i128 || offset > i64::MAX as i128 || header.element_count < 0 {
                return vstd::pervasive::unreached();
            }
            let start: u64 = if offset >= 0 {
                offset as u64
            } else {
                (offset + 0x1_0000_0000_0000_0000i128) as u64
            };
            ubulk_reader.seek_to(start);
            let read = ubulk_reader.read_bytes(header.element_count as usize);
            *ubulk = Some(ubulk_reader);
            data = match read {
                Ok(d) => d,
                Err(_) => {
                    return vstd::pervasive::unreached();
                },
            };
            assert(data.deep_view() =~= data@);
        }
        Ok(FByteBulkData { header, data })
    }
}

/// A mipmap: a cooked flag, its bulk data, and its size.
#[derive(Debug)]
pub struct FTexture2DMipMap {
    pub data: FByteBulkData,
    pub size_x: i32,
    pub size_y: i32,
    pub size_z: i32,
}

/// What a [`FTexture2DMipMap`] holds, as plain values.
pub struct MipView {
    pub data: BulkView,
    pub size_x: i32,
    pub size_y: i32,
    pub size_z: i32,
}

impl DeepView for FTexture2DMipMap {
    type V = MipView;

    open spec fn deep_view(&self) -> MipView {
        MipView { data: self.data.deep_view(), size_x: self.size_x, size_y: self.size_y, size_z: self.size_z }
    }
}

/// An `i32` cooked flag, the bulk data, three `i32` sizes, then, when the
/// flag is not 1, an FString that is not kept.
pub open spec fn take_mip(b: Seq<u8>, p: int, ubulk: Option<Seq<u8>>, bulk_offset: i64) -> Parse<MipView> {
    match take_i32(b, p) {
        Parse::Parsed(cooked, p0) => match take_bulk(b, p0, ubulk, bulk_offset) {
            Parse::Parsed(data, p1) => match take_i32(b, p1) {
                Parse::Parsed(size_x, p2) => match take_i32(b, p2) {
                    Parse::Parsed(size_y, p3) => match take_i32(b, p3) {
                        Parse::Parsed(size_z, p4) => {
                            let mip = MipView { data, size_x, size_y, size_z };
                            if cooked != 1 {
                                match take_string(b, p4) {
                                    Parse::Parsed(_, e) => Parse::Parsed(mip, e),
                                    other => other.pass(),
                                }
                            } else {
                                Parse::Parsed(mip, p4)
                            }
                        },
                        other => other.pass(),
                    },
                    other => other.pass(),
                },
                other => other.pass(),
            },
            other => other.pass(),
        },
        other => other.pass(),
    }
}

impl FTexture2DMipMap {
    pub fn new(reader: &mut Reader, ubulk: &mut Option<Reader>, bulk_offset: i64) -> (r: ParserResult<Self>)
        requires
            !(take_mip(old(reader).bytes(), old(reader).at(), ubulk_bytes(*old(ubulk)), bulk_offset) is Aborted),
        ensures
            final(reader).bytes() == old(reader).bytes(),
            ubulk_bytes(*final(ubulk)) == ubulk_bytes(*old(ubulk)),
            outcome(r, take_mip(old(reader).bytes(), old(reader).at(), ubulk_bytes(*old(ubulk)), bulk_offset), *final(reader)),
            r matches Ok(m) ==> ubulk_at(*final(ubulk)) == bulk_moves(ubulk_at(*old(ubulk)), m.data.deep_view(), bulk_offset),
    {
        let cooked = reader.read_i32()?;
        let data = FByteBulkData::new(reader, ubulk, bulk_offset)?;
        let size_x = reader.read_i32()?;
        let size_y = reader.read_i32()?;
        let size_z = reader.read_i32()?;
        if cooked != 1 {
            read_string(reader)?;
        }
        Ok(FTexture2DMipMap { data, size_x, size_y, size_z })
    }

    pub fn get_bytes(&self) -> (r: &Vec<u8>)
        ensures
            *r == self.data.data,
    {
        &self.data.data
    }

    pub fn get_bytes_move(self) -> (r: Vec<u8>)
        ensures
            r == self.data.data,
    {
        self.data.data
    }

    /// The width, as a `u32` (a negative width wraps).
    pub fn get_width(&self) -> (r: u32)
        ensures
            r == self.size_x as u32,
    {
        self.size_x as u32
    }

    /// The height, as a `u32` (a negative height wraps).
    pub fn get_height(&self) -> (r: u32)
        ensures
            r == self.size_y as u32,
    {
        self.size_y as u32
    }
}

/// `n` mipmaps, one after another.
pub open spec fn take_mips(b: Seq<u8>, p: int, n: nat, ubulk: Option<Seq<u8>>, bulk_offset: i64) -> Parse<Seq<MipView>>
    decreases n,
{
    if n == 0 {
        Parse::Parsed(Seq::empty(), p)
    } else {
        match take_mip(b, p, ubulk, bulk_offset) {
            Parse::Parsed(x, q) => prepend(seq![x], take_mips(b, q, (n - 1) as nat, ubulk, bulk_offset)),
            other => other.pass(),
        }
    }
}

/// A texture's data for one pixel format.
#[derive(Debug)]
pub struct FTexturePlatformData {
    pub size_x: i32,
    pub size_y: i32,
    pub num_slices: i32,
    pub pixel_format: String,
    pub first_mip: i32,
    pub mips: Vec<FTexture2DMipMap>,
}

/// What a [`FTexturePlatformData`] holds, as plain values.
pub struct PlatformDataView {
    pub size_x: i32,
    pub size_y: i32,
    pub num_slices: i32,
    pub pixel_format: Seq<char>,
    pub first_mip: i32,
    pub mips: Seq<MipView>,
}

impl DeepView for FTexturePlatformData {
    type V = PlatformDataView;

    open spec fn deep_view(&self) -> PlatformDataView {
        PlatformDataView {
            size_x: self.size_x,
            size_y: self.size_y,
            num_slices: self.num_slices,
            pixel_format: self.pixel_format@,
            first_mip: self.first_mip,
            mips: self.mips.deep_view(),
        }
    }
}

/// Three `i32` sizes, the pixel format as an FString, the first mip as an
/// `i32`, then a `u32` count of mipmaps.
pub open spec fn take_platform(b: Seq<u8>, p: int, ubulk: Option<Seq<u8>>, bulk_offset: i64) -> Parse<PlatformDataView> {
    match take_i32(b, p) {
        Parse::Parsed(size_x, p0) => match take_i32(b, p0) {
            Parse::Parsed(size_y, p1) => match take_i32(b, p1) {
                Parse::Parsed(num_slices, p2) => match take_string(b, p2) {
                    Parse::Parsed(pixel_format, p3) => match take_i32(b, p3) {
                        Parse::Parsed(first_mip, p4) => match take_u32(b, p4) {
                            Parse::Parsed(n, p5) => match take_mips(b, p5, n as nat, ubulk, bulk_offset) {
                                Parse::Parsed(mips, e) => Parse::Parsed(
                                    PlatformDataView { size_x, size_y, num_slices, pixel_format, first_mip, mips },
                                    e,
                                ),
                                other => other.pass(),
                            },
                            other => other.pass(),
                        },
                        other => other.pass(),
                    },
                    other => other.pass(),
                },
                other => other.pass(),
            },
            other => other.pass(),
        },
        other => other.pass(),
    }
}

/// Reads `count` mipmaps.
fn read_mips(reader: &mut Reader, ubulk: &mut Option<Reader>, bulk_offset: i64, count: u32) -> (r: ParserResult<
    Vec<FTexture2DMipMap>,
>)
    requires
        !(take_mips(old(reader).bytes(), old(reader).at(), count as nat, ubulk_bytes(*old(ubulk)), bulk_offset)
            is Aborted),
    ensures
        final(reader).bytes() == old(reader).bytes(),
        ubulk_bytes(*final(ubulk)) == ubulk_bytes(*old(ubulk)),
        outcome(
            r,
            take_mips(old(reader).bytes(), old(reader).at(), count as nat, ubulk_bytes(*old(ubulk)), bulk_offset),
            *final(reader),
        ),
        r matches Ok(ms) ==> ubulk_at(*final(ubulk)) == mips_move(ubulk_at(*old(ubulk)), ms.deep_view(), bulk_offset),
{
    let ghost b = reader.bytes();
    let ghost q = reader.at();
    let ghost u = ubulk_bytes(*ubulk);
    let mut mips: Vec<FTexture2DMipMap> = Vec::new();
    assert(prepend(mips.deep_view(), take_mips(b, q, count as nat, u, bulk_offset)) == take_mips(
        b,
        q,
        count as nat,
        u,
        bulk_offset,
    )) by {
        match take_mips(b, q, count as nat, u, bulk_offset) {
            Parse::Parsed(ys, e) => {
                assert(mips.deep_view() + ys =~= ys);
            },
            _ => {},
        }
    }
    let mut i: u32 = 0;
    while i < count
        invariant
            reader.bytes() == b,
            b == old(reader).bytes(),
            q == old(reader).at(),
            u == ubulk_bytes(*old(ubulk)),
            ubulk_bytes(*ubulk) == u,
            ubulk_at(*ubulk) == mips_move(ubulk_at(*old(ubulk)), mips.deep_view(), bulk_offset),
            i <= count,
            prepend(mips.deep_view(), take_mips(b, reader.at(), (count - i) as nat, u, bulk_offset)) == take_mips(
                b,
                q,
                count as nat,
                u,
                bulk_offset,
            ),
            !(take_mips(b, q, count as nat, u, bulk_offset) is Aborted),
        decreases count - i,
    {
        let ghost before = mips.deep_view();
        let mip = FTexture2DMipMap::new(reader, ubulk, bulk_offset)?;
        proof {
            lemma_prepend_assoc(before, mip.deep_view(), take_mips(b, reader.at(), (count - i - 1) as nat, u, bulk_offset));
        }
        mips.push(mip);
        assert(mips.deep_view() =~= before.push(mip.deep_view()));
        assert(mips.deep_view().drop_last() =~= before);
        i = i + 1;
    }
    assert(mips.deep_view() + Seq::empty() =~= mips.deep_view());
    Ok(mips)
}

impl FTexturePlatformData {
    pub fn new(reader: &mut Reader, ubulk: &mut Option<Reader>, bulk_offset: i64) -> (r: ParserResult<Self>)
        requires
            !(take_platform(old(reader).bytes(), old(reader).at(), ubulk_bytes(*old(ubulk)), bulk_offset) is Aborted),
        ensures
            final(reader).bytes() == old(reader).bytes(),
            ubulk_bytes(*final(ubulk)) == ubulk_bytes(*old(ubulk)),
            outcome(
                r,
                take_platform(old(reader).bytes(), old(reader).at(), ubulk_bytes(*old(ubulk)), bulk_offset),
                *final(reader),
            ),
            r matches Ok(t) ==> ubulk_at(*final(ubulk)) == mips_move(ubulk_at(*old(ubulk)), t.mips.deep_view(), bulk_offset),
    {
        let size_x = reader.read_i32()?;
        let size_y = reader.read_i32()?;
        let num_slices = reader.read_i32()?;
        let pixel_format = read_string(reader)?;
        let first_mip = reader.read_i32()?;
        let length = reader.read_u32()?;
        let mips = read_mips(reader, ubulk, bulk_offset, length)?;
        Ok(FTexturePlatformData { size_x, size_y, num_slices, pixel_format, first_mip, mips })
    }
}

/// The platform data blocks: each an FName pixel format ("None" ends the
/// list), an `i64` offset at which the next block starts (counted from the
/// start of the `.uasset`, whose size is `asset_file_size`), then the data,
/// read with the bulk offset `export_size + asset_file_size`. A block that
/// does not end where its offset says, or a position or offset that
/// overflows, is where the format gives up.
pub open spec fn take_platforms(
    b: Seq<u8>,
    p: int,
    names: Seq<Seq<char>>,
    asset_file_size: i32,
    export_size: i64,
    ubulk: Option<Seq<u8>>,
) -> Parse<Seq<PlatformDataView>>
    decreases rem(b, p),
{
    match take_fname(b, p, names) {
        Parse::Parsed(pixel_format, q) => {
            if pixel_format == "None"@ {
                Parse::Parsed(Seq::empty(), q)
            } else {
                match take_i64(b, q) {
                    Parse::Parsed(skip_offset, q1) => {
                        let bulk_offset = export_size + asset_file_size;
                        if bulk_offset < i64::MIN || bulk_offset > i64::MAX {
                            Parse::Aborted
                        } else {
                            match take_platform(b, q1, ubulk, bulk_offset as i64) {
                                Parse::Parsed(t, e) => {
                                    let end = e + wrap_u64(asset_file_size as int);
                                    if end > u64::MAX || end != wrap_u64(skip_offset as int) || !forward(b, p, e) {
                                        Parse::Aborted
                                    } else {
                                        prepend(
                                            seq![t],
                                            take_platforms(b, e, names, asset_file_size, export_size, ubulk),
                                        )
                                    }
                                },
                                other => other.pass(),
                            }
                        }
                    },
                    other => other.pass(),
                }
            }
        },
        other => other.pass(),
    }
}

/// Reads platform data blocks up to the pixel format "None".
fn read_platforms(
    reader: &mut Reader,
    name_map: &NameMap,
    asset_file_size: i32,
    export_size: i64,
    ubulk: &mut Option<Reader>,
) -> (r: ParserResult<Vec<FTexturePlatformData>>)
    requires
        !(take_platforms(
            old(reader).bytes(),
            old(reader).at(),
            name_texts(name_map),
            asset_file_size,
            export_size,
            ubulk_bytes(*old(ubulk)),
        ) is Aborted),
    ensures
        final(reader).bytes() == old(reader).bytes(),
        ubulk_bytes(*final(ubulk)) == ubulk_bytes(*old(ubulk)),
        outcome(
            r,
            take_platforms(
                old(reader).bytes(),
                old(reader).at(),
                name_texts(name_map),
                asset_file_size,
                export_size,
                ubulk_bytes(*old(ubulk)),
            ),
            *final(reader),
        ),
        r matches Ok(ts) ==> ubulk_at(*final(ubulk)) == platforms_move(
            ubulk_at(*old(ubulk)),
            ts.deep_view(),
            (export_size + asset_file_size) as i64,
        ),
{
    let ghost b = reader.bytes();
    let ghost names = name_texts(name_map);
    let ghost u = ubulk_bytes(*ubulk);
    let ghost start = reader.at();
    let mut textures: Vec<FTexturePlatformData> = Vec::new();
    assert(prepend(textures.deep_view(), take_platforms(b, start, names, asset_file_size, export_size, u))
        == take_platforms(b, start, names, asset_file_size, export_size, u)) by {
        match take_platforms(b, start, names, asset_file_size, export_size, u) {
            Parse::Parsed(ys, e) => {
                assert(textures.deep_view() + ys =~= ys);
            },
            _ => {},
        }
    }
    loop
        invariant_except_break
            reader.bytes() == b,
            b == old(reader).bytes(),
            start == old(reader).at(),
            names == name_texts(name_map),
            u == ubulk_bytes(*old(ubulk)),
            ubulk_bytes(*ubulk) == u,
            ubulk_at(*ubulk) == platforms_move(
                ubulk_at(*old(ubulk)),
                textures.deep_view(),
                (export_size + asset_file_size) as i64,
            ),
            prepend(textures.deep_view(), take_platforms(b, reader.at(), names, asset_file_size, export_size, u))
                == take_platforms(b, start, names, asset_file_size, export_size, u),
            !(take_platforms(b, start, names, asset_file_size, export_size, u) is Aborted),
        ensures
            reader.bytes() == b,
            ubulk_bytes(*ubulk) == u,
            ubulk_at(*ubulk) == platforms_move(
                ubulk_at(*old(ubulk)),
                textures.deep_view(),
                (export_size + asset_file_size) as i64,
            ),
            take_platforms(b, start, names, asset_file_size, export_size, u) == Parse::Parsed(
                textures.deep_view(),
                reader.at(),
            ),
        decreases rem(b, reader.at()),
    {
        let ghost cur = reader.at();
        let ghost before = textures.deep_view();
        let pixel_format = read_fname(reader, name_map)?;
        if same_text(pixel_format.as_str(), "None") {
            assert(before + Seq::<PlatformDataView>::empty() =~= before);
            break;
        }
        let skip_offset = reader.read_i64()?;
        let bulk_offset: i128 = export_size as i128 + asset_file_size as i128;
        if bulk_offset < i64::MIN as i128 || bulk_offset > i64::MAX as i128 {
            return vstd::pervasive::unreached();
        }
        let texture = FTexturePlatformData::new(reader, ubulk, bulk_offset as i64)?;
        let asset_size: u64 = if asset_file_size >= 0 {
            asset_file_size as u64
        } else {
            (asset_file_size as i128 + 0x1_0000_0000_0000_0000i128) as u64
        };
        let skip: u64 = if skip_offset >= 0 {
            skip_offset as u64
        } else {
            (skip_offset as i128 + 0x1_0000_0000_0000_0000i128) as u64
        };
        let pos = reader.position();
        if pos > u64::MAX - asset_size || pos + asset_size != skip {
            return vstd::pervasive::unreached();
        }
        proof {
            lemma_prepend_assoc(
                before,
                texture.deep_view(),
                take_platforms(b, reader.at(), names, asset_file_size, export_size, u),
            );
        }
        textures.push(texture);
        assert(textures.deep_view() =~= before.push(texture.deep_view()));
        assert(textures.deep_view().drop_last() =~= before);
    }
    Ok(textures)
}

/// A texture: an object, then the platform data of each pixel format.
#[derive(Debug)]
pub struct Texture2D {
    pub base_object: UObject,
    pub cooked: u32,
    pub textures: Vec<FTexturePlatformData>,
}

/// What a [`Texture2D`] holds, as plain values.
pub struct TextureView {
    pub base_object: ObjectView,
    pub cooked: u32,
    pub textures: Seq<PlatformDataView>,
}

impl DeepView for Texture2D {
    type V = TextureView;

    open spec fn deep_view(&self) -> TextureView {
        TextureView { base_object: self.base_object.deep_view(), cooked: self.cooked, textures: self.textures.deep_view() }
    }
}

/// An object of type "Texture2D", two strip flags, a `u32` cooked flag, then
/// (when the flag is 1) the platform data blocks.
pub open spec fn take_texture(
    b: Seq<u8>,
    p: int,
    names: Seq<Seq<char>>,
    imports: Seq<Seq<char>>,
    asset_file_size: i32,
    export_size: i64,
    ubulk: Option<Seq<u8>>,
) -> Parse<TextureView> {
    match take_object(b, p, names, imports, "Texture2D"@) {
        Parse::Parsed(base_object, p0) => match FStripDataFlags::parse(b, p0) {
            Parse::Parsed(_, p1) => match FStripDataFlags::parse(b, p1) {
                Parse::Parsed(_, p2) => match take_u32(b, p2) {
                    Parse::Parsed(cooked, p3) => {
                        if cooked == 1 {
                            match take_platforms(b, p3, names, asset_file_size, export_size, ubulk) {
                                Parse::Parsed(textures, e) => Parse::Parsed(TextureView { base_object, cooked, textures }, e),
                                other => other.pass(),
                            }
                        } else {
                            Parse::Parsed(TextureView { base_object, cooked, textures: Seq::empty() }, p3)
                        }
                    },
                    other => other.pass(),
                },
                other => other.pass(),
            },
            other => other.pass(),
        },
        other => other.pass(),
    }
}

impl Texture2D {
    pub fn new(
        reader: &mut Reader,
        name_map: &NameMap,
        import_map: &ImportMap,
        asset_file_size: i32,
        export_size: i64,
        ubulk: &mut Option<Reader>,
    ) -> (r: ParserResult<Self>)
        requires
            !(take_texture(
                old(reader).bytes(),
                old(reader).at(),
                name_texts(name_map),
                import_names(import_map),
                asset_file_size,
                export_size,
                ubulk_bytes(*old(ubulk)),
            ) is Aborted),
        ensures
            final(reader).bytes() == old(reader).bytes(),
            ubulk_bytes(*final(ubulk)) == ubulk_bytes(*old(ubulk)),
            outcome(
                r,
                take_texture(
                    old(reader).bytes(),
                    old(reader).at(),
                    name_texts(name_map),
                    import_names(import_map),
                    asset_file_size,
                    export_size,
                    ubulk_bytes(*old(ubulk)),
                ),
                *final(reader),
            ),
            r matches Ok(t) ==> ubulk_at(*final(ubulk)) == platforms_move(
                ubulk_at(*old(ubulk)),
                t.textures.deep_view(),
                (export_size + asset_file_size) as i64,
            ),
    {
        let base_object = UObject::new(reader, name_map, import_map, "Texture2D")?;
        FStripDataFlags::new(reader)?;
        FStripDataFlags::new(reader)?;
        let cooked = reader.read_u32()?;
        let mut textures: Vec<FTexturePlatformData> = Vec::new();
        if cooked == 1 {
            textures = read_platforms(reader, name_map, asset_file_size, export_size, ubulk)?;
        }
        assert(cooked != 1 ==> textures.deep_view() =~= Seq::<PlatformDataView>::empty());
        Ok(Texture2D { base_object, cooked, textures })
    }

    /// The pixel format of the first platform data block.
    pub fn get_pixel_format(&self) -> (r: ParserResult<&str>)
        ensures
            match r {
                Ok(s) => self.textures.len() > 0 && s@ == self.textures@[0].pixel_format@,
                Err(e) => self.textures.len() == 0 && e@ == seq!["No textures found"@],
            },
    {
        if self.textures.len() == 0 {
            return Err(ParserError::new(text("No textures found")));
        }
        Ok(self.textures[0].pixel_format.as_str())
    }

    /// The first mipmap of the first platform data block.
    pub fn get_texture(&self) -> (r: ParserResult<&FTexture2DMipMap>)
        ensures
            match r {
                Ok(m) => self.textures.len() > 0 && self.textures@[0].mips.len() > 0 && *m == self.textures@[0].mips@[0],
                Err(e) => if self.textures.len() == 0 {
                    e@ == seq!["No textures part of export"@]
                } else {
                    self.textures@[0].mips.len() == 0 && e@ == seq!["No mipmaps part of texture"@]
                },
            },
    {
        if self.textures.len() == 0 {
            return Err(ParserError::new(text("No textures part of export")));
        }
        if self.textures[0].mips.len() == 0 {
            return Err(ParserError::new(text("No mipmaps part of texture")));
        }
        Ok(&self.textures[0].mips[0])
    }

    /// The first mipmap of the first platform data block, taken out of the texture.
    pub fn get_texture_move(self) -> (r: ParserResult<FTexture2DMipMap>)
        ensures
            match r {
                Ok(m) => self.textures.len() > 0 && self.textures@[0].mips.len() > 0 && m == self.textures@[0].mips@[0],
                Err(e) => if self.textures.len() == 0 {
                    e@ == seq!["No textures part of export"@]
                } else {
                    self.textures@[0].mips.len() == 0 && e@ == seq!["No mipmaps part of texture"@]
                },
            },
    {
        let mut textures = self.textures;
        if textures.len() == 0 {
            return Err(ParserError::new(text("No textures part of export")));
        }
        let mut texture = textures.swap_remove(0);
        if texture.mips.len() == 0 {
            return Err(ParserError::new(text("No mipmaps part of texture")));
        }
        Ok(texture.mips.swap_remove(0))
    }
}

impl PackageExport for Texture2D {
    open spec fn export_type_text(&self) -> Seq<char> {
        "Texture2D"@
    }

    fn get_export_type(&self) -> (r: &str) {
        "Texture2D"
    }
}


/// A bulk data header is 20 bytes: the flags, the element count and the size
/// on disk (`i32`s), then the offset in the file (`i64`).
pub proof fn lemma_bulk_header_layout(b: Seq<u8>, p: int)
    requires
        fits(b, p, 20),
    ensures
        <FByteBulkDataHeader as Newable>::parse(b, p) == Parse::Parsed(
            FByteBulkDataHeader {
                bulk_data_flags: signed32(le_u32(b, p)),
                element_count: signed32(le_u32(b, p + 4)),
                size_on_disk: signed32(le_u32(b, p + 8)),
                offset_in_file: signed64(le_u64(b, p + 12)),
            },
            p + 20,
        ),
{
}

/// Where a block of bulk data's bytes come from: with flag `0x100` from the
/// `.ubulk` file, at the header's offset plus the bulk offset (an error
/// when there is no such file); otherwise, with flag `0x40`, from the bytes
/// right after the header, and with neither flag there are none. The block
/// ends right after the header and any inline bytes.
pub proof fn lemma_bulk_source(b: Seq<u8>, p: int, ubulk: Option<Seq<u8>>, bulk_offset: i64)
    requires
        fits(b, p, 20),
        !(take_bulk(b, p, ubulk, bulk_offset) is Aborted),
    ensures
        ({
            let h = <FByteBulkDataHeader as Newable>::parse(b, p).value();
            let n = h.element_count as int;
            let inline = h.bulk_data_flags & 0x40 != 0;
            let r = take_bulk(b, p, ubulk, bulk_offset);
            let e = if inline { p + 20 + n } else { p + 20 };
            &&& r is Parsed ==> r.value().header == h && r->Parsed_1 == e
            &&& h.bulk_data_flags & 0x100 != 0 && ubulk is Some && r is Parsed ==> r.value().data
                == ubulk->Some_0.subrange(
                wrap_u64(h.offset_in_file + bulk_offset),
                wrap_u64(h.offset_in_file + bulk_offset) + n,
            )
            &&& h.bulk_data_flags & 0x100 != 0 && ubulk is None && (!inline || fits(b, p + 20, n)) ==> r
                == Parse::<BulkView>::Failed(seq!["No ubulk specified for texture"@], e)
            &&& h.bulk_data_flags & 0x100 == 0 && inline && r is Parsed ==> r.value().data == b.subrange(
                p + 20,
                p + 20 + n,
            )
            &&& h.bulk_data_flags & 0x100 == 0 && !inline ==> r is Parsed && r.value().data.len() == 0
        }),
{
}


/// `n` mipmaps read are `n` of them.
proof fn lemma_mips_len(b: Seq<u8>, p: int, n: nat, ubulk: Option<Seq<u8>>, bulk_offset: i64)
    requires
        take_mips(b, p, n, ubulk, bulk_offset) is Parsed,
    ensures
        take_mips(b, p, n, ubulk, bulk_offset).value().len() == n,
    decreases n,
{
    if n > 0 {
        let q = take_mip(b, p, ubulk, bulk_offset)->Parsed_1;
        lemma_mips_len(b, q, (n - 1) as nat, ubulk, bulk_offset);
    }
}

/// A texture's data for one pixel format: width, height and slice count as
/// `i32`s, the pixel format's text, the first mip as an `i32`, and a `u32`
/// count of mipmaps, with that many after it.
pub proof fn lemma_platform_data_parts(b: Seq<u8>, p: int, ubulk: Option<Seq<u8>>, bulk_offset: i64)
    requires
        take_platform(b, p, ubulk, bulk_offset) is Parsed,
    ensures
        ({
            let v = take_platform(b, p, ubulk, bulk_offset).value();
            let f = take_string(b, p + 12);
            let q = f->Parsed_1;
            &&& v.size_x == signed32(le_u32(b, p))
            &&& v.size_y == signed32(le_u32(b, p + 4))
            &&& v.num_slices == signed32(le_u32(b, p + 8))
            &&& f is Parsed && v.pixel_format == f.value()
            &&& v.first_mip == signed32(le_u32(b, q))
            &&& v.mips.len() == le_u32(b, q + 4)
            &&& v.mips == take_mips(b, q + 8, le_u32(b, q + 4) as nat, ubulk, bulk_offset).value()
        }),
{
    let f = take_string(b, p + 12);
    let q = f->Parsed_1;
    lemma_mips_len(b, q + 8, le_u32(b, q + 4) as nat, ubulk, bulk_offset);
}

/// A texture is its object, two strip flags (two bytes each), and a `u32`
/// cooked flag; when the flag is 1 the platform data follow, read with the
/// bulk offset `export_size + asset_file_size`, and otherwise there are none.
pub proof fn lemma_texture_parts(
    b: Seq<u8>,
    p: int,
    names: Seq<Seq<char>>,
    imports: Seq<Seq<char>>,
    asset_file_size: i32,
    export_size: i64,
    ubulk: Option<Seq<u8>>,
)
    requires
        take_texture(b, p, names, imports, asset_file_size, export_size, ubulk) is Parsed,
    ensures
        ({
            let t = take_texture(b, p, names, imports, asset_file_size, export_size, ubulk);
            let o = take_object(b, p, names, imports, "Texture2D"@);
            let q = o->Parsed_1 + 4;
            &&& o is Parsed && t.value().base_object == o.value()
            &&& t.value().cooked == le_u32(b, q)
            &&& le_u32(b, q) == 1 ==> t.value().textures == take_platforms(
                b,
                q + 4,
                names,
                asset_file_size,
                export_size,
                ubulk,
            ).value() && t->Parsed_1 == take_platforms(b, q + 4, names, asset_file_size, export_size, ubulk)->Parsed_1
            &&& le_u32(b, q) != 1 ==> t.value().textures.len() == 0 && t->Parsed_1 == q + 4
        }),
{
}


/// The platform data list: an FName pixel format at `p` whose text "None"
/// ends the list (eight bytes on); otherwise an `i64` skip offset at `p + 8`
/// and the block's data from `p + 16`, read with the bulk offset
/// `export_size + asset_file_size`, first in the list.
pub proof fn lemma_platforms_head(
    b: Seq<u8>,
    p: int,
    names: Seq<Seq<char>>,
    asset_file_size: i32,
    export_size: i64,
    ubulk: Option<Seq<u8>>,
)
    requires
        take_platforms(b, p, names, asset_file_size, export_size, ubulk) is Parsed,
    ensures
        ({
            let r = take_platforms(b, p, names, asset_file_size, export_size, ubulk);
            let f = take_fname(b, p, names);
            &&& f is Parsed
            &&& f.value() == "None"@ ==> r == Parse::Parsed(Seq::<PlatformDataView>::empty(), p + 8)
            &&& f.value() != "None"@ ==> r.value().len() > 0 && r.value()[0] == take_platform(
                b,
                p + 16,
                ubulk,
                (export_size + asset_file_size) as i64,
            ).value()
        }),
{
}


/// A mipmap is an `i32` cooked flag, its bulk data, then width, height and
/// depth as `i32`s; when the flag is not 1, an FString follows that is not
/// kept.
pub proof fn lemma_mip_layout(b: Seq<u8>, p: int, ubulk: Option<Seq<u8>>, bulk_offset: i64)
    requires
        take_mip(b, p, ubulk, bulk_offset) is Parsed,
    ensures
        ({
            let r = take_mip(b, p, ubulk, bulk_offset);
            let d = take_bulk(b, p + 4, ubulk, bulk_offset);
            let q = d->Parsed_1;
            &&& d is Parsed && r.value().data == d.value()
            &&& r.value().size_x == signed32(le_u32(b, q))
            &&& r.value().size_y == signed32(le_u32(b, q + 4))
            &&& r.value().size_z == signed32(le_u32(b, q + 8))
            &&& signed32(le_u32(b, p)) == 1 ==> r->Parsed_1 == q + 12
            &&& signed32(le_u32(b, p)) != 1 ==> r->Parsed_1 == take_string(b, q + 12)->Parsed_1
        }),
{
}

} // verus!
