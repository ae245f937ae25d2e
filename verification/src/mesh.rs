//! Skeletal meshes: vertex buffers, bone weights, reference skeletons and
//! render sections.

use vstd::prelude::*;
use crate::error::{ParserError, ParserResult};
use crate::names::{
    import_names, name_texts, read_fname, read_tarray_n, take_fname, take_tarray_n, ImportMap, NameMap,
    NewableWithNameMap, FPackageIndex, FPackageIndexView,
};
use crate::newable::{lemma_prepend_assoc, prepend, read_tarray, take_tarray, Newable};
use crate::properties::lift;
use crate::reader::{
    eof, fits, le_u16, le_u32, outcome, signed16, signed32, signed8, outcome_as, take_bytes, take_i8, take_i16, take_i32, take_u32, take_u8, take_u16,
    Parse, Reader,
};
use crate::structs::{FColor, FQuat, FVector, FVector2D, FVector4};
use crate::summary::FGuid;
use crate::text::text;

verus! {

/// Which kinds of data were left out when the asset was cooked.
#[derive(Debug, Clone, Copy)]
pub struct FStripDataFlags {
    pub global_strip_flags: u8,
    pub class_strip_flags: u8,
}

impl DeepView for FStripDataFlags {
    type V = FStripDataFlags;

    open spec fn deep_view(&self) -> FStripDataFlags {
        *self
    }
}

impl Newable for FStripDataFlags {
    open spec fn parse(b: Seq<u8>, p: int) -> Parse<FStripDataFlags> {
        match take_u8(b, p) {
            Parse::Parsed(v0, p0) => {
                match take_u8(b, p0) {
                    Parse::Parsed(v1, p1) => {
                        Parse::Parsed(FStripDataFlags { global_strip_flags: v0, class_strip_flags: v1 }, p1)
                    },
                    other => other.pass(),
                }
            },
            other => other.pass(),
        }
    }

    fn new(reader: &mut Reader) -> (r: ParserResult<Self>) {
        let global_strip_flags = reader.read_u8()?;
        let class_strip_flags = reader.read_u8()?;
        Ok(FStripDataFlags { global_strip_flags, class_strip_flags })
    }
}

impl FStripDataFlags {
    /// Editor-only data was left out.
    pub open spec fn editor_data_stripped(self) -> bool {
        self.global_strip_flags & 1 != 0
    }

    /// Data that only a server needs was left out.
    pub open spec fn stripped_for_server(self) -> bool {
        self.global_strip_flags & 2 != 0
    }

    /// The class-specific data that `flag` marks was left out.
    pub open spec fn class_data_stripped(self, flag: u8) -> bool {
        self.class_strip_flags & flag != 0
    }

    pub fn is_editor_data_stripped(&self) -> (r: bool)
        ensures
            r == self.editor_data_stripped(),
    {
        (self.global_strip_flags & 1) != 0
    }

    pub fn is_data_stripped_for_server(&self) -> (r: bool)
        ensures
            r == self.stripped_for_server(),
    {
        (self.global_strip_flags & 2) != 0
    }

    pub fn is_class_data_stripped(&self, flag: u8) -> (r: bool)
        ensures
            r == self.class_data_stripped(flag),
    {
        (self.class_strip_flags & flag) != 0
    }
}

/// `n` little-endian `u32` words.
pub open spec fn take_words(b: Seq<u8>, p: int, n: nat) -> Parse<Seq<u32>> {
    if fits(b, p, 4 * n as int) {
        Parse::Parsed(Seq::new(n, |i: int| le_u32(b, p + 4 * i)), p + 4 * n)
    } else {
        eof(b)
    }
}

/// `n` little-endian `u16` words.
pub open spec fn take_halfwords(b: Seq<u8>, p: int, n: nat) -> Parse<Seq<u16>> {
    if fits(b, p, 2 * n as int) {
        Parse::Parsed(Seq::new(n, |i: int| le_u16(b, p + 2 * i)), p + 2 * n)
    } else {
        eof(b)
    }
}

/// Four `u32` words.
fn read_words4(reader: &mut Reader) -> (r: ParserResult<[u32; 4]>)
    ensures
        final(reader).bytes() == old(reader).bytes(),
        outcome_as(r, take_words(old(reader).bytes(), old(reader).at(), 4), *final(reader), |a: [u32; 4]| a@),
{
    let a0 = reader.read_u32()?;
    let a1 = reader.read_u32()?;
    let a2 = reader.read_u32()?;
    let a3 = reader.read_u32()?;
    let a = [a0, a1, a2, a3];
    assert(a@ =~= Seq::new(4, |i: int| le_u32(old(reader).bytes(), old(reader).at() + 4 * i)));
    Ok(a)
}

/// Two `u32` words.
fn read_words2(reader: &mut Reader) -> (r: ParserResult<[u32; 2]>)
    ensures
        final(reader).bytes() == old(reader).bytes(),
        outcome_as(r, take_words(old(reader).bytes(), old(reader).at(), 2), *final(reader), |a: [u32; 2]| a@),
{
    let a0 = reader.read_u32()?;
    let a1 = reader.read_u32()?;
    let a = [a0, a1];
    assert(a@ =~= Seq::new(2, |i: int| le_u32(old(reader).bytes(), old(reader).at() + 4 * i)));
    Ok(a)
}

/// Four `u16` words.
fn read_halfwords4(reader: &mut Reader) -> (r: ParserResult<[u16; 4]>)
    ensures
        final(reader).bytes() == old(reader).bytes(),
        outcome_as(r, take_halfwords(old(reader).bytes(), old(reader).at(), 4), *final(reader), |a: [u16; 4]| a@),
{
    let a0 = reader.read_u16()?;
    let a1 = reader.read_u16()?;
    let a2 = reader.read_u16()?;
    let a3 = reader.read_u16()?;
    let a = [a0, a1, a2, a3];
    assert(a@ =~= Seq::new(4, |i: int| le_u16(old(reader).bytes(), old(reader).at() + 2 * i)));
    Ok(a)
}

/// Vertex positions: a stride, a count, an element size that is not kept, then the positions.
#[derive(Debug)]
pub struct FPositionVertexBuffer {
    pub stride: i32,
    pub num_verts: i32,
    pub verts: Vec<FVector>,
}

/// What a [`FPositionVertexBuffer`] holds, as plain values.
pub struct PositionBufferView {
    pub stride: i32,
    pub num_verts: i32,
    pub verts: Seq<FVector>,
}

impl DeepView for FPositionVertexBuffer {
    type V = PositionBufferView;

    open spec fn deep_view(&self) -> PositionBufferView {
        PositionBufferView {
            stride: self.stride,
            num_verts: self.num_verts,
            verts: self.verts.deep_view(),
        }
    }
}

impl Newable for FPositionVertexBuffer {
    open spec fn parse(b: Seq<u8>, p: int) -> Parse<PositionBufferView> {
        match take_i32(b, p) {
            Parse::Parsed(v0, p0) => {
                match take_i32(b, p0) {
                    Parse::Parsed(v1, p1) => {
                        match take_i32(b, p1) {
                            Parse::Parsed(v2, p2) => {
                                match take_tarray::<FVector>(b, p2) {
                                    Parse::Parsed(v3, p3) => {
                                        Parse::Parsed(PositionBufferView { stride: v0, num_verts: v1, verts: v3 }, p3)
                                    },
                                    other => other.pass(),
                                }
                            },
                            other => other.pass(),
                        }
                    },
                    other => other.pass(),
                }
            },
            other => other.pass(),
        }
    }

    fn new(reader: &mut Reader) -> (r: ParserResult<Self>) {
        let stride = reader.read_i32()?;
        let num_verts = reader.read_i32()?;
        let _element_size = reader.read_i32()?;
        let verts = read_tarray::<FVector>(reader)?;
        Ok(FPositionVertexBuffer { stride, num_verts, verts })
    }
}

impl FPositionVertexBuffer {
    pub fn get_verts(&self) -> (r: &[FVector])
        ensures
            r@ == self.verts@,
    {
        self.verts.as_slice()
    }
}

/// A vector packed as four signed 16-bit components.
#[derive(Debug, Clone, Copy)]
pub struct FPackedRGBA16N {
    pub x: i16,
    pub y: i16,
    pub z: i16,
    pub w: i16,
}

impl DeepView for FPackedRGBA16N {
    type V = FPackedRGBA16N;

    open spec fn deep_view(&self) -> FPackedRGBA16N {
        *self
    }
}

impl Newable for FPackedRGBA16N {
    open spec fn parse(b: Seq<u8>, p: int) -> Parse<FPackedRGBA16N> {
        match take_i16(b, p) {
            Parse::Parsed(v0, p0) => {
                match take_i16(b, p0) {
                    Parse::Parsed(v1, p1) => {
                        match take_i16(b, p1) {
                            Parse::Parsed(v2, p2) => {
                                match take_i16(b, p2) {
                                    Parse::Parsed(v3, p3) => {
                                        Parse::Parsed(FPackedRGBA16N { x: v0, y: v1, z: v2, w: v3 }, p3)
                                    },
                                    other => other.pass(),
                                }
                            },
                            other => other.pass(),
                        }
                    },
                    other => other.pass(),
                }
            },
            other => other.pass(),
        }
    }

    fn new(reader: &mut Reader) -> (r: ParserResult<Self>) {
        let x = reader.read_i16()?;
        let y = reader.read_i16()?;
        let z = reader.read_i16()?;
        let w = reader.read_i16()?;
        Ok(FPackedRGBA16N { x, y, z, w })
    }
}

/// A vector packed as four signed bytes, each standing for its value divided by 127.
#[derive(Debug, Clone, Copy)]
pub struct FPackedNormal {
    pub x: i8,
    pub y: i8,
    pub z: i8,
    pub w: i8,
}

impl DeepView for FPackedNormal {
    type V = FPackedNormal;

    open spec fn deep_view(&self) -> FPackedNormal {
        *self
    }
}

impl Newable for FPackedNormal {
    open spec fn parse(b: Seq<u8>, p: int) -> Parse<FPackedNormal> {
        match take_i8(b, p) {
            Parse::Parsed(v0, p0) => {
                match take_i8(b, p0) {
                    Parse::Parsed(v1, p1) => {
                        match take_i8(b, p1) {
                            Parse::Parsed(v2, p2) => {
                                match take_i8(b, p2) {
                                    Parse::Parsed(v3, p3) => {
                                        Parse::Parsed(FPackedNormal { x: v0, y: v1, z: v2, w: v3 }, p3)
                                    },
                                    other => other.pass(),
                                }
                            },
                            other => other.pass(),
                        }
                    },
                    other => other.pass(),
                }
            },
            other => other.pass(),
        }
    }

    fn new(reader: &mut Reader) -> (r: ParserResult<Self>) {
        let x = reader.read_i8()?;
        let y = reader.read_i8()?;
        let z = reader.read_i8()?;
        let w = reader.read_i8()?;
        Ok(FPackedNormal { x, y, z, w })
    }
}

/// A 2D vector of half-precision floats.
#[derive(Debug, Clone, Copy)]
pub struct FVector2DHalf {
    /// The bits of an `f16`.
    pub x: u16,
    /// The bits of an `f16`.
    pub y: u16,
}

impl DeepView for FVector2DHalf {
    type V = FVector2DHalf;

    open spec fn deep_view(&self) -> FVector2DHalf {
        *self
    }
}

impl Newable for FVector2DHalf {
    open spec fn parse(b: Seq<u8>, p: int) -> Parse<FVector2DHalf> {
        match take_u16(b, p) {
            Parse::Parsed(v0, p0) => {
                match take_u16(b, p0) {
                    Parse::Parsed(v1, p1) => {
                        Parse::Parsed(FVector2DHalf { x: v0, y: v1 }, p1)
                    },
                    other => other.pass(),
                }
            },
            other => other.pass(),
        }
    }

    fn new(reader: &mut Reader) -> (r: ParserResult<Self>) {
        let x = reader.read_u16()?;
        let y = reader.read_u16()?;
        Ok(FVector2DHalf { x, y })
    }
}

/// A vertex's tangent basis: the tangent, then the normal.
#[derive(Debug)]
pub struct TStaticMeshVertexTangent<T> {
    pub normal: T,
    pub tangent: T,
}

/// What a [`TStaticMeshVertexTangent`] holds, as plain values.
pub struct TangentView<V> {
    pub normal: V,
    pub tangent: V,
}

impl<T: DeepView> DeepView for TStaticMeshVertexTangent<T> {
    type V = TangentView<T::V>;

    open spec fn deep_view(&self) -> TangentView<T::V> {
        TangentView { normal: self.normal.deep_view(), tangent: self.tangent.deep_view() }
    }
}

impl<T: Newable> Newable for TStaticMeshVertexTangent<T> {
    open spec fn parse(b: Seq<u8>, p: int) -> Parse<TangentView<T::V>> {
        match T::parse(b, p) {
            Parse::Parsed(tangent, q) => match T::parse(b, q) {
                Parse::Parsed(normal, e) => Parse::Parsed(TangentView { normal, tangent }, e),
                other => other.pass(),
            },
            other => other.pass(),
        }
    }

    fn new(reader: &mut Reader) -> (r: ParserResult<Self>) {
        let tangent = T::new(reader)?;
        let normal = T::new(reader)?;
        Ok(TStaticMeshVertexTangent { normal, tangent })
    }
}

impl<T> TStaticMeshVertexTangent<T> {
    pub fn get_normal(&self) -> (r: &T)
        ensures
            *r == self.normal,
    {
        &self.normal
    }

    pub fn get_tangent(&self) -> (r: &T)
        ensures
            *r == self.tangent,
    {
        &self.tangent
    }
}

/// A vertex's texture coordinate.
#[derive(Debug)]
pub struct TStaticMeshVertexUV<T> {
    pub value: T,
}

impl<T: DeepView> DeepView for TStaticMeshVertexUV<T> {
    type V = T::V;

    open spec fn deep_view(&self) -> T::V {
        self.value.deep_view()
    }
}

impl<T: Newable> Newable for TStaticMeshVertexUV<T> {
    open spec fn parse(b: Seq<u8>, p: int) -> Parse<T::V> {
        T::parse(b, p)
    }

    fn new(reader: &mut Reader) -> (r: ParserResult<Self>) {
        let value = T::new(reader)?;
        Ok(TStaticMeshVertexUV { value })
    }
}

impl<T> TStaticMeshVertexUV<T> {
    pub fn get_val(&self) -> (r: &T)
        ensures
            *r == self.value,
    {
        &self.value
    }
}

/// The tangent bases of all vertices, in high or low precision.
#[derive(Debug)]
pub enum FStaticMeshVertexDataTangent {
    High(Vec<TStaticMeshVertexTangent<FPackedRGBA16N>>),
    Low(Vec<TStaticMeshVertexTangent<FPackedNormal>>),
}

/// What a [`FStaticMeshVertexDataTangent`] holds, as plain values.
pub enum TangentsView {
    High(Seq<TangentView<FPackedRGBA16N>>),
    Low(Seq<TangentView<FPackedNormal>>),
}

impl DeepView for FStaticMeshVertexDataTangent {
    type V = TangentsView;

    open spec fn deep_view(&self) -> TangentsView {
        match self {
            FStaticMeshVertexDataTangent::High(v) => TangentsView::High(v.deep_view()),
            FStaticMeshVertexDataTangent::Low(v) => TangentsView::Low(v.deep_view()),
        }
    }
}

/// The texture coordinates of all vertices, in full or half precision.
#[derive(Debug)]
pub enum FStaticMeshVertexDataUV {
    High(Vec<TStaticMeshVertexUV<FVector2D>>),
    Low(Vec<TStaticMeshVertexUV<FVector2DHalf>>),
}

/// What a [`FStaticMeshVertexDataUV`] holds, as plain values.
pub enum UVsView {
    High(Seq<FVector2D>),
    Low(Seq<FVector2DHalf>),
}

impl DeepView for FStaticMeshVertexDataUV {
    type V = UVsView;

    open spec fn deep_view(&self) -> UVsView {
        match self {
            FStaticMeshVertexDataUV::High(v) => UVsView::High(v.deep_view()),
            FStaticMeshVertexDataUV::Low(v) => UVsView::Low(v.deep_view()),
        }
    }
}

/// The tangent array, in the precision that the buffer's flag chose.
pub open spec fn take_tangents(b: Seq<u8>, p: int, high: bool) -> Parse<TangentsView> {
    if high {
        lift(take_tarray::<TStaticMeshVertexTangent<FPackedRGBA16N>>(b, p), |s| TangentsView::High(s))
    } else {
        lift(take_tarray::<TStaticMeshVertexTangent<FPackedNormal>>(b, p), |s| TangentsView::Low(s))
    }
}

/// The texture coordinate array, in the precision that the buffer's flag chose.
pub open spec fn take_uvs(b: Seq<u8>, p: int, full: bool) -> Parse<UVsView> {
    if full {
        lift(take_tarray::<TStaticMeshVertexUV<FVector2D>>(b, p), |s| UVsView::High(s))
    } else {
        lift(take_tarray::<TStaticMeshVertexUV<FVector2DHalf>>(b, p), |s| UVsView::Low(s))
    }
}

/// Tangents and texture coordinates of a mesh's vertices.
#[derive(Debug)]
pub struct FStaticMeshVertexBuffer {
    pub num_tex_coords: i32,
    pub num_vertices: i32,
    pub tangents: FStaticMeshVertexDataTangent,
    pub uvs: FStaticMeshVertexDataUV,
}

/// What a [`FStaticMeshVertexBuffer`] holds, as plain values.
pub struct StaticBufferView {
    pub num_tex_coords: i32,
    pub num_vertices: i32,
    pub tangents: TangentsView,
    pub uvs: UVsView,
}

impl DeepView for FStaticMeshVertexBuffer {
    type V = StaticBufferView;

    open spec fn deep_view(&self) -> StaticBufferView {
        StaticBufferView {
            num_tex_coords: self.num_tex_coords,
            num_vertices: self.num_vertices,
            tangents: self.tangents.deep_view(),
            uvs: self.uvs.deep_view(),
        }
    }
}

/// Strip flags; `i32` counts of texture coordinates and vertices; `i32`
/// flags for full-precision coordinates and high-precision tangents. With
/// server data stripped there is nothing more (`None`); otherwise an `i32`
/// element size and the tangents, then another and the coordinates.
pub open spec fn take_static_buffer(b: Seq<u8>, p: int) -> Parse<Option<StaticBufferView>> {
    match FStripDataFlags::parse(b, p) {
        Parse::Parsed(flags, p0) => match take_i32(b, p0) {
            Parse::Parsed(num_tex_coords, p1) => match take_i32(b, p1) {
                Parse::Parsed(num_vertices, p2) => match take_i32(b, p2) {
                    Parse::Parsed(full_uvs, p3) => match take_i32(b, p3) {
                        Parse::Parsed(high_tangents, p4) => {
                            if flags.stripped_for_server() {
                                Parse::Parsed(None, p4)
                            } else {
                                match take_i32(b, p4) {
                                    Parse::Parsed(_, p5) => match take_tangents(b, p5, high_tangents != 0) {
                                        Parse::Parsed(tangents, p6) => match take_i32(b, p6) {
                                            Parse::Parsed(_, p7) => match take_uvs(b, p7, full_uvs != 0) {
                                                Parse::Parsed(uvs, e) => Parse::Parsed(
                                                    Some(StaticBufferView { num_tex_coords, num_vertices, tangents, uvs }),
                                                    e,
                                                ),
                                                other => other.pass(),
                                            },
                                            other => other.pass(),
                                        },
                                        other => other.pass(),
                                    },
                                    other => other.pass(),
                                }
                            }
                        },
                        other => other.pass(),
                    },
                    other => other.pass(),
                },
                other => other.pass(),
            },
            other => other.pass(),
        },
        other => other.pass(),
    }
}

/// A static vertex buffer holds nothing when its strip flags say that the
/// server's data was left out (bit 1 of its first byte), and its arrays
/// otherwise.
pub proof fn lemma_static_buffer_stripped(b: Seq<u8>, p: int)
    requires
        take_static_buffer(b, p) is Parsed,
    ensures
        (take_static_buffer(b, p).value() is None) == ((b[p] / 2) % 2 == 1),
{
    let g = b[p];
    assert((g & 2 != 0) == ((g / 2) % 2 == 1)) by (bit_vector);
}

/// The precision of a static vertex buffer's arrays follows its two flags:
/// the tangents are high-precision exactly when the second flag (the `i32`
/// at byte 14, "high-precision tangents") is non-zero, and the texture
/// coordinates full-precision exactly when the first flag (the `i32` at byte
/// 10, "full-precision UVs") is non-zero. The counts are the `i32`s at bytes
/// 2 and 6, and the tangent array starts at byte 22, after its element size.
pub proof fn lemma_static_buffer_precisions(b: Seq<u8>, p: int)
    requires
        take_static_buffer(b, p) is Parsed,
        take_static_buffer(b, p).value() is Some,
    ensures
        (take_static_buffer(b, p).value()->Some_0.tangents is High) == (le_u32(b, p + 14) != 0),
        (take_static_buffer(b, p).value()->Some_0.uvs is High) == (le_u32(b, p + 10) != 0),
        take_static_buffer(b, p).value()->Some_0.num_tex_coords == signed32(le_u32(b, p + 2)),
        take_static_buffer(b, p).value()->Some_0.num_vertices == signed32(le_u32(b, p + 6)),
        take_tangents(b, p + 22, le_u32(b, p + 14) != 0) is Parsed,
        take_static_buffer(b, p).value()->Some_0.tangents == take_tangents(b, p + 22, le_u32(b, p + 14) != 0).value(),
{
    assert((signed32(le_u32(b, p + 14)) != 0) == (le_u32(b, p + 14) != 0));
}

impl FStaticMeshVertexBuffer {
    /// Reads the buffer; `None` when the server data was stripped.
    #[verifier::rlimit(50)]
    pub fn new(reader: &mut Reader) -> (r: ParserResult<Option<Self>>)
        requires
            !(take_static_buffer(old(reader).bytes(), old(reader).at()) is Aborted),
        ensures
            final(reader).bytes() == old(reader).bytes(),
            outcome(r, take_static_buffer(old(reader).bytes(), old(reader).at()), *final(reader)),
    {
        let flags = FStripDataFlags::new(reader)?;
        let num_tex_coords = reader.read_i32()?;
        let num_vertices = reader.read_i32()?;
        let use_full_precision_uvs = reader.read_i32()? != 0;
        let use_high_precision_tangent = reader.read_i32()? != 0;
        if flags.is_data_stripped_for_server() {
            return Ok(None);
        }
        let _element_size = reader.read_i32()?;
        let tangents = if use_high_precision_tangent {
            FStaticMeshVertexDataTangent::High(read_tarray(reader)?)
        } else {
            FStaticMeshVertexDataTangent::Low(read_tarray(reader)?)
        };
        let _element_size = reader.read_i32()?;
        let uvs = if use_full_precision_uvs {
            FStaticMeshVertexDataUV::High(read_tarray(reader)?)
        } else {
            FStaticMeshVertexDataUV::Low(read_tarray(reader)?)
        };
        Ok(Some(FStaticMeshVertexBuffer { num_tex_coords, num_vertices, tangents, uvs }))
    }

    pub fn get_tangents(&self) -> (r: &FStaticMeshVertexDataTangent)
        ensures
            *r == self.tangents,
    {
        &self.tangents
    }

    pub fn get_texcoords(&self) -> (r: &FStaticMeshVertexDataUV)
        ensures
            *r == self.uvs,
    {
        &self.uvs
    }
}

/// The bone indices and weights of one vertex: eight slots of each.
#[derive(Debug)]
pub struct FSkinWeightInfo {
    pub bone_index: [u8; 8],
    pub bone_weight: [u8; 8],
}

/// What a [`FSkinWeightInfo`] holds, as plain values.
pub struct SkinWeightView {
    pub bone_index: Seq<u8>,
    pub bone_weight: Seq<u8>,
}

impl DeepView for FSkinWeightInfo {
    type V = SkinWeightView;

    open spec fn deep_view(&self) -> SkinWeightView {
        SkinWeightView { bone_index: self.bone_index@, bone_weight: self.bone_weight@ }
    }
}

/// The bytes, then zeros up to eight slots.
pub open spec fn padded(s: Seq<u8>) -> Seq<u8> {
    s + Seq::new((8 - s.len()) as nat, |i: int| 0u8)
}

/// `max_influences` bone indices, then as many weights (the slots after
/// them zero); more than eight influences is an error.
pub open spec fn take_skin_weight(b: Seq<u8>, p: int, max_influences: int) -> Parse<SkinWeightView> {
    if max_influences > 8 {
        Parse::Failed(seq!["Max influences too high"@], p)
    } else {
        match take_bytes(b, p, max_influences) {
            Parse::Parsed(index, q) => match take_bytes(b, q, max_influences) {
                Parse::Parsed(weight, e) => Parse::Parsed(
                    SkinWeightView { bone_index: padded(index), bone_weight: padded(weight) },
                    e,
                ),
                other => other.pass(),
            },
            other => other.pass(),
        }
    }
}

/// Eight slots holding the bytes, then zeros.
fn padded_slots(s: &Vec<u8>) -> (a: [u8; 8])
    requires
        s.len() <= 8,
    ensures
        a@ == padded(s@),
{
    let mut a = [0u8; 8];
    let mut i: usize = 0;
    while i < s.len()
        invariant
            s.len() <= 8,
            i <= s.len(),
            a@.len() == 8,
            forall|j: int| 0 <= j < i ==> a@[j] == s@[j],
            forall|j: int| i <= j < 8 ==> a@[j] == 0,
        decreases s.len() - i,
    {
        a[i] = s[i];
        i = i + 1;
    }
    assert(a@ =~= padded(s@));
    a
}

impl FSkinWeightInfo {
    pub fn new(reader: &mut Reader, max_influences: usize) -> (r: ParserResult<Self>)
        ensures
            final(reader).bytes() == old(reader).bytes(),
            outcome(r, take_skin_weight(old(reader).bytes(), old(reader).at(), max_influences as int), *final(reader)),
    {
        if max_influences > 8 {
            return Err(ParserError::new(text("Max influences too high")));
        }
        let index = reader.read_bytes(max_influences)?;
        let weight = reader.read_bytes(max_influences)?;
        assert(index.deep_view() =~= index@);
        assert(weight.deep_view() =~= weight@);
        Ok(FSkinWeightInfo { bone_index: padded_slots(&index), bone_weight: padded_slots(&weight) })
    }

    pub fn get_bone_index(&self) -> (r: &[u8; 8])
        ensures
            *r == self.bone_index,
    {
        &self.bone_index
    }

    pub fn get_bone_weight(&self) -> (r: &[u8; 8])
        ensures
            *r == self.bone_weight,
    {
        &self.bone_weight
    }
}

/// `n` vertices' weights, one after another.
pub open spec fn take_skin_weights(b: Seq<u8>, p: int, n: nat, max_influences: int) -> Parse<Seq<SkinWeightView>>
    decreases n,
{
    if n == 0 {
        Parse::Parsed(Seq::empty(), p)
    } else {
        match take_skin_weight(b, p, max_influences) {
            Parse::Parsed(x, q) => prepend(seq![x], take_skin_weights(b, q, (n - 1) as nat, max_influences)),
            other => other.pass(),
        }
    }
}

/// The bone weights of all vertices of a mesh.
#[derive(Debug)]
pub struct FSkinWeightVertexBuffer {
    pub weights: Vec<FSkinWeightInfo>,
    pub num_vertices: i32,
}

/// What a [`FSkinWeightVertexBuffer`] holds, as plain values.
pub struct WeightBufferView {
    pub weights: Seq<SkinWeightView>,
    pub num_vertices: i32,
}

impl DeepView for FSkinWeightVertexBuffer {
    type V = WeightBufferView;

    open spec fn deep_view(&self) -> WeightBufferView {
        WeightBufferView { weights: self.weights.deep_view(), num_vertices: self.num_vertices }
    }
}

/// Strip flags, an `i32` flag for extra influences, an `i32` vertex count.
/// With server data stripped there is nothing more (`None`); otherwise an
/// `i32` element size, an `i32` count (none when negative), and that many
/// weights of eight influences (extra) or four.
pub open spec fn take_weight_buffer(b: Seq<u8>, p: int) -> Parse<Option<WeightBufferView>> {
    match FStripDataFlags::parse(b, p) {
        Parse::Parsed(flags, p0) => match take_i32(b, p0) {
            Parse::Parsed(extra, p1) => match take_i32(b, p1) {
                Parse::Parsed(num_vertices, p2) => {
                    if flags.stripped_for_server() {
                        Parse::Parsed(None, p2)
                    } else {
                        match take_i32(b, p2) {
                            Parse::Parsed(_, p3) => match take_i32(b, p3) {
                                Parse::Parsed(count, p4) => match take_skin_weights(
                                    b,
                                    p4,
                                    if count < 0 { 0 } else { count as nat },
                                    if extra != 0 { 8 } else { 4 },
                                ) {
                                    Parse::Parsed(weights, e) => Parse::Parsed(
                                        Some(WeightBufferView { weights, num_vertices }),
                                        e,
                                    ),
                                    other => other.pass(),
                                },
                                other => other.pass(),
                            },
                            other => other.pass(),
                        }
                    }
                },
                other => other.pass(),
            },
            other => other.pass(),
        },
        other => other.pass(),
    }
}

impl FSkinWeightVertexBuffer {
    /// Reads the buffer; `None` when the server data was stripped.
    pub fn new(reader: &mut Reader) -> (r: ParserResult<Option<Self>>)
        ensures
            final(reader).bytes() == old(reader).bytes(),
            outcome(r, take_weight_buffer(old(reader).bytes(), old(reader).at()), *final(reader)),
    {
        let ghost b = reader.bytes();
        let flags = FStripDataFlags::new(reader)?;
        let extra_bone_influences = reader.read_i32()? != 0;
        let num_vertices = reader.read_i32()?;
        if flags.is_data_stripped_for_server() {
            return Ok(None);
        }
        let _element_size = reader.read_i32()?;
        let element_count = reader.read_i32()?;
        let num_influences: usize = if extra_bone_influences { 8 } else { 4 };
        let ghost q = reader.at();
        let ghost total: nat = if element_count < 0 { 0 } else { element_count as nat };
        let mut weights: Vec<FSkinWeightInfo> = Vec::new();
        let mut i: i32 = 0;
        assert(prepend(weights.deep_view(), take_skin_weights(b, q, total, num_influences as int))
            == take_skin_weights(b, q, total, num_influences as int)) by {
            match take_skin_weights(b, q, total, num_influences as int) {
                Parse::Parsed(ys, e) => {
                    assert(weights.deep_view() + ys =~= ys);
                },
                _ => {},
            }
        }
        while i < element_count
            invariant
                reader.bytes() == b,
                b == old(reader).bytes(),
                0 <= i,
                element_count >= 0 ==> i <= element_count,
                total == (if element_count < 0 { 0 } else { element_count as nat }),
                prepend(weights.deep_view(), take_skin_weights(b, reader.at(), (total - i) as nat, num_influences as int))
                    == take_skin_weights(b, q, total, num_influences as int),
                take_weight_buffer(b, old(reader).at()) == (match take_skin_weights(b, q, total, num_influences as int) {
                    Parse::Parsed(weights, e) => Parse::Parsed(Some(WeightBufferView { weights, num_vertices }), e),
                    other => other.pass(),
                }),
            decreases element_count - i,
        {
            let ghost before = weights.deep_view();
            let w = FSkinWeightInfo::new(reader, num_influences)?;
            proof {
                lemma_prepend_assoc(before, w.deep_view(), take_skin_weights(b, reader.at(), (total - i - 1) as nat, num_influences as int));
            }
            weights.push(w);
            assert(weights.deep_view() =~= before.push(w.deep_view()));
            i = i + 1;
        }
        assert(weights.deep_view() + Seq::empty() =~= weights.deep_view());
        Ok(Some(FSkinWeightVertexBuffer { weights, num_vertices }))
    }

    pub fn get_weights(&self) -> (r: &Vec<FSkinWeightInfo>)
        ensures
            *r == self.weights,
    {
        &self.weights
    }

    /// The number of weights, as a `u32` (it wraps past `u32::MAX`).
    pub fn get_length(&self) -> (r: u32)
        ensures
            r == self.weights.len() as u32,
    {
        self.weights.len() as u32
    }
}

/// The colours of all vertices of a mesh.
#[derive(Debug)]
pub struct FColorVertexBuffer {
    pub stride: i32,
    pub num_verts: i32,
    pub colours: Vec<FColor>,
}

/// What a [`FColorVertexBuffer`] holds, as plain values.
pub struct ColorBufferView {
    pub stride: i32,
    pub num_verts: i32,
    pub colours: Seq<FColor>,
}

impl DeepView for FColorVertexBuffer {
    type V = ColorBufferView;

    open spec fn deep_view(&self) -> ColorBufferView {
        ColorBufferView { stride: self.stride, num_verts: self.num_verts, colours: self.colours.deep_view() }
    }
}

impl Newable for FColorVertexBuffer {
    /// Strip flags, an `i32` stride, an `i32` vertex count; then, unless
    /// server data was stripped or the count is not positive, an `i32`
    /// element size and the colours.
    open spec fn parse(b: Seq<u8>, p: int) -> Parse<ColorBufferView> {
        match FStripDataFlags::parse(b, p) {
            Parse::Parsed(flags, p0) => match take_i32(b, p0) {
                Parse::Parsed(stride, p1) => match take_i32(b, p1) {
                    Parse::Parsed(num_verts, p2) => {
                        if !flags.stripped_for_server() && num_verts > 0 {
                            match take_i32(b, p2) {
                                Parse::Parsed(_, p3) => match take_tarray::<FColor>(b, p3) {
                                    Parse::Parsed(colours, e) => Parse::Parsed(ColorBufferView { stride, num_verts, colours }, e),
                                    other => other.pass(),
                                },
                                other => other.pass(),
                            }
                        } else {
                            Parse::Parsed(ColorBufferView { stride, num_verts, colours: Seq::empty() }, p2)
                        }
                    },
                    other => other.pass(),
                },
                other => other.pass(),
            },
            other => other.pass(),
        }
    }

    fn new(reader: &mut Reader) -> (r: ParserResult<Self>) {
        let flags = FStripDataFlags::new(reader)?;
        let stride = reader.read_i32()?;
        let num_verts = reader.read_i32()?;
        let colours = if !flags.is_data_stripped_for_server() && num_verts > 0 {
            let _element_size = reader.read_i32()?;
            read_tarray::<FColor>(reader)?
        } else {
            Vec::new()
        };
        assert(colours.deep_view().len() == 0 ==> colours.deep_view() =~= Seq::<FColor>::empty());
        Ok(FColorVertexBuffer { stride, num_verts, colours })
    }
}

/// A bounding box and sphere: the origin, the box extent, the sphere radius.
#[derive(Debug, Clone, Copy)]
pub struct FBoxSphereBounds {
    pub origin: FVector,
    pub box_extend: FVector,
    /// The bits of an `f32`.
    pub sphere_radius: u32,
}

impl DeepView for FBoxSphereBounds {
    type V = FBoxSphereBounds;

    open spec fn deep_view(&self) -> FBoxSphereBounds {
        *self
    }
}

impl Newable for FBoxSphereBounds {
    open spec fn parse(b: Seq<u8>, p: int) -> Parse<FBoxSphereBounds> {
        match <FVector as Newable>::parse(b, p) {
            Parse::Parsed(v0, p0) => {
                match <FVector as Newable>::parse(b, p0) {
                    Parse::Parsed(v1, p1) => {
                        match take_u32(b, p1) {
                            Parse::Parsed(v2, p2) => {
                                Parse::Parsed(FBoxSphereBounds { origin: v0, box_extend: v1, sphere_radius: v2 }, p2)
                            },
                            other => other.pass(),
                        }
                    },
                    other => other.pass(),
                }
            },
            other => other.pass(),
        }
    }

    fn new(reader: &mut Reader) -> (r: ParserResult<Self>) {
        let origin = <FVector>::new(reader)?;
        let box_extend = <FVector>::new(reader)?;
        let sphere_radius = reader.read_u32()?;
        Ok(FBoxSphereBounds { origin, box_extend, sphere_radius })
    }
}

/// Texture-coordinate density data of a material.
#[derive(Debug)]
pub struct FMeshUVChannelInfo {
    pub initialised: bool,
    pub override_densities: bool,
    /// The bits of four `f32`s.
    pub local_uv_densities: [u32; 4],
}

/// What a [`FMeshUVChannelInfo`] holds, as plain values.
pub struct UVChannelView {
    pub initialised: bool,
    pub override_densities: bool,
    pub local_uv_densities: Seq<u32>,
}

impl DeepView for FMeshUVChannelInfo {
    type V = UVChannelView;

    open spec fn deep_view(&self) -> UVChannelView {
        UVChannelView {
            initialised: self.initialised,
            override_densities: self.override_densities,
            local_uv_densities: self.local_uv_densities@,
        }
    }
}

impl Newable for FMeshUVChannelInfo {
    open spec fn parse(b: Seq<u8>, p: int) -> Parse<UVChannelView> {
        match take_u32(b, p) {
            Parse::Parsed(v0, p0) => {
                match take_u32(b, p0) {
                    Parse::Parsed(v1, p1) => {
                        match take_words(b, p1, 4) {
                            Parse::Parsed(v2, p2) => {
                                Parse::Parsed(UVChannelView { initialised: v0 != 0, override_densities: v1 != 0, local_uv_densities: v2 }, p2)
                            },
                            other => other.pass(),
                        }
                    },
                    other => other.pass(),
                }
            },
            other => other.pass(),
        }
    }

    fn new(reader: &mut Reader) -> (r: ParserResult<Self>) {
        let initialised = reader.read_u32()? != 0;
        let override_densities = reader.read_u32()? != 0;
        let local_uv_densities = read_words4(reader)?;
        Ok(FMeshUVChannelInfo { initialised, override_densities, local_uv_densities })
    }
}

/// A material slot of a mesh: the material, a slot name when a `u32` flag says one follows, and texture-coordinate data.
#[derive(Debug)]
pub struct FSkeletalMaterial {
    pub material_interface: FPackageIndex,
    pub material_slot_name: String,
    pub uv_channel_data: FMeshUVChannelInfo,
}

/// What a [`FSkeletalMaterial`] holds, as plain values.
pub struct SkeletalMaterialView {
    pub material_interface: FPackageIndexView,
    pub material_slot_name: Seq<char>,
    pub uv_channel_data: UVChannelView,
}

impl DeepView for FSkeletalMaterial {
    type V = SkeletalMaterialView;

    open spec fn deep_view(&self) -> SkeletalMaterialView {
        SkeletalMaterialView {
            material_interface: self.material_interface.deep_view(),
            material_slot_name: self.material_slot_name@,
            uv_channel_data: self.uv_channel_data.deep_view(),
        }
    }
}

impl NewableWithNameMap for FSkeletalMaterial {
    open spec fn parse_n(b: Seq<u8>, p: int, names: Seq<Seq<char>>, imports: Seq<Seq<char>>) -> Parse<SkeletalMaterialView> {
        match <FPackageIndex as NewableWithNameMap>::parse_n(b, p, names, imports) {
            Parse::Parsed(v0, p0) => {
                match take_u32(b, p0) {
                    Parse::Parsed(v1, p1) => {
                        match if v1 != 0 { take_fname(b, p1, names) } else { Parse::Parsed(Seq::<char>::empty(), p1) } {
                            Parse::Parsed(v2, p2) => {
                                match <FMeshUVChannelInfo as Newable>::parse(b, p2) {
                                    Parse::Parsed(v3, p3) => {
                                        Parse::Parsed(SkeletalMaterialView { material_interface: v0, material_slot_name: v2, uv_channel_data: v3 }, p3)
                                    },
                                    other => other.pass(),
                                }
                            },
                            other => other.pass(),
                        }
                    },
                    other => other.pass(),
                }
            },
            other => other.pass(),
        }
    }

    fn new_n(reader: &mut Reader, name_map: &NameMap, import_map: &ImportMap) -> (r: ParserResult<Self>) {
        let material_interface = FPackageIndex::new_n(reader, name_map, import_map)?;
        let _serialize_slot_name = reader.read_u32()?;
        let material_slot_name = if _serialize_slot_name != 0 { read_fname(reader, name_map)? } else { String::new() };
        let uv_channel_data = <FMeshUVChannelInfo>::new(reader)?;
        Ok(FSkeletalMaterial { material_interface, material_slot_name, uv_channel_data })
    }
}

impl FSkeletalMaterial {
    /// The name of the material that the slot refers to.
    pub fn get_interface(&self) -> (r: &str)
        ensures
            r@ == self.material_interface.import@,
    {
        self.material_interface.import.as_str()
    }
}

/// A rotation, a translation and a scale.
#[derive(Debug, Clone, Copy)]
pub struct FTransform {
    pub rotation: FQuat,
    pub translation: FVector,
    pub scale_3d: FVector,
}

impl DeepView for FTransform {
    type V = FTransform;

    open spec fn deep_view(&self) -> FTransform {
        *self
    }
}

impl Newable for FTransform {
    open spec fn parse(b: Seq<u8>, p: int) -> Parse<FTransform> {
        match <FQuat as Newable>::parse(b, p) {
            Parse::Parsed(v0, p0) => {
                match <FVector as Newable>::parse(b, p0) {
                    Parse::Parsed(v1, p1) => {
                        match <FVector as Newable>::parse(b, p1) {
                            Parse::Parsed(v2, p2) => {
                                Parse::Parsed(FTransform { rotation: v0, translation: v1, scale_3d: v2 }, p2)
                            },
                            other => other.pass(),
                        }
                    },
                    other => other.pass(),
                }
            },
            other => other.pass(),
        }
    }

    fn new(reader: &mut Reader) -> (r: ParserResult<Self>) {
        let rotation = <FQuat>::new(reader)?;
        let translation = <FVector>::new(reader)?;
        let scale_3d = <FVector>::new(reader)?;
        Ok(FTransform { rotation, translation, scale_3d })
    }
}

/// A transform is 40 bytes: the quaternion's four `f32`s, then the
/// translation's three, then the scale's three, in that order.
pub proof fn lemma_transform_layout(b: Seq<u8>, p: int)
    requires
        fits(b, p, 40),
    ensures
        <FTransform as Newable>::parse(b, p) == Parse::Parsed(
            FTransform {
                rotation: FQuat { x: le_u32(b, p), y: le_u32(b, p + 4), z: le_u32(b, p + 8), w: le_u32(b, p + 12) },
                translation: FVector { x: le_u32(b, p + 16), y: le_u32(b, p + 20), z: le_u32(b, p + 24) },
                scale_3d: FVector { x: le_u32(b, p + 28), y: le_u32(b, p + 32), z: le_u32(b, p + 36) },
            },
            p + 40,
        ),
{
}

impl FTransform {
    pub fn get_rotation(&self) -> (r: &FQuat)
        ensures
            *r == self.rotation,
    {
        &self.rotation
    }

    pub fn get_translation(&self) -> (r: &FVector)
        ensures
            *r == self.translation,
    {
        &self.translation
    }

    pub fn get_scale(&self) -> (r: &FVector)
        ensures
            *r == self.scale_3d,
    {
        &self.scale_3d
    }
}

/// A bone: its name and the index of its parent.
#[derive(Debug)]
pub struct FMeshBoneInfo {
    pub name: String,
    pub parent_index: i32,
}

/// What a [`FMeshBoneInfo`] holds, as plain values.
pub struct BoneInfoView {
    pub name: Seq<char>,
    pub parent_index: i32,
}

impl DeepView for FMeshBoneInfo {
    type V = BoneInfoView;

    open spec fn deep_view(&self) -> BoneInfoView {
        BoneInfoView {
            name: self.name@,
            parent_index: self.parent_index,
        }
    }
}

impl NewableWithNameMap for FMeshBoneInfo {
    open spec fn parse_n(b: Seq<u8>, p: int, names: Seq<Seq<char>>, imports: Seq<Seq<char>>) -> Parse<BoneInfoView> {
        match take_fname(b, p, names) {
            Parse::Parsed(v0, p0) => {
                match take_i32(b, p0) {
                    Parse::Parsed(v1, p1) => {
                        Parse::Parsed(BoneInfoView { name: v0, parent_index: v1 }, p1)
                    },
                    other => other.pass(),
                }
            },
            other => other.pass(),
        }
    }

    fn new_n(reader: &mut Reader, name_map: &NameMap, import_map: &ImportMap) -> (r: ParserResult<Self>) {
        let name = read_fname(reader, name_map)?;
        let parent_index = reader.read_i32()?;
        Ok(FMeshBoneInfo { name, parent_index })
    }
}

impl FMeshBoneInfo {
    pub fn get_name(&self) -> (r: &str)
        ensures
            r@ == self.name@,
    {
        self.name.as_str()
    }

    pub fn get_parent_index(&self) -> (r: i32)
        ensures
            r == self.parent_index,
    {
        self.parent_index
    }
}

impl NewableWithNameMap for i32 {
    open spec fn parse_n(b: Seq<u8>, p: int, names: Seq<Seq<char>>, imports: Seq<Seq<char>>) -> Parse<i32> {
        take_i32(b, p)
    }

    fn new_n(reader: &mut Reader, _name_map: &NameMap, _import_map: &ImportMap) -> (r: ParserResult<i32>) {
        reader.read_i32()
    }
}

/// An FName, then a value.
impl<T: NewableWithNameMap> NewableWithNameMap for (String, T) {
    open spec fn parse_n(b: Seq<u8>, p: int, names: Seq<Seq<char>>, imports: Seq<Seq<char>>) -> Parse<(Seq<char>, T::V)> {
        match take_fname(b, p, names) {
            Parse::Parsed(name, q) => match T::parse_n(b, q, names, imports) {
                Parse::Parsed(v, e) => Parse::Parsed((name, v), e),
                other => other.pass(),
            },
            other => other.pass(),
        }
    }

    fn new_n(reader: &mut Reader, name_map: &NameMap, import_map: &ImportMap) -> (r: ParserResult<(String, T)>) {
        let name = read_fname(reader, name_map)?;
        let v = T::new_n(reader, name_map, import_map)?;
        Ok((name, v))
    }
}

/// A skeleton: its bones, their reference pose, and each bone name with its index.
#[derive(Debug)]
pub struct FReferenceSkeleton {
    pub ref_bone_info: Vec<FMeshBoneInfo>,
    pub ref_bone_pose: Vec<FTransform>,
    pub name_to_index: Vec<(String, i32)>,
}

/// What a [`FReferenceSkeleton`] holds, as plain values.
pub struct ReferenceSkeletonView {
    pub ref_bone_info: Seq<BoneInfoView>,
    pub ref_bone_pose: Seq<FTransform>,
    pub name_to_index: Seq<(Seq<char>, i32)>,
}

impl DeepView for FReferenceSkeleton {
    type V = ReferenceSkeletonView;

    open spec fn deep_view(&self) -> ReferenceSkeletonView {
        ReferenceSkeletonView {
            ref_bone_info: self.ref_bone_info.deep_view(),
            ref_bone_pose: self.ref_bone_pose.deep_view(),
            name_to_index: self.name_to_index.deep_view(),
        }
    }
}

impl NewableWithNameMap for FReferenceSkeleton {
    open spec fn parse_n(b: Seq<u8>, p: int, names: Seq<Seq<char>>, imports: Seq<Seq<char>>) -> Parse<ReferenceSkeletonView> {
        match take_tarray_n::<FMeshBoneInfo>(b, p, names, imports) {
            Parse::Parsed(v0, p0) => {
                match take_tarray::<FTransform>(b, p0) {
                    Parse::Parsed(v1, p1) => {
                        match take_tarray_n::<(String, i32)>(b, p1, names, imports) {
                            Parse::Parsed(v2, p2) => {
                                Parse::Parsed(ReferenceSkeletonView { ref_bone_info: v0, ref_bone_pose: v1, name_to_index: v2 }, p2)
                            },
                            other => other.pass(),
                        }
                    },
                    other => other.pass(),
                }
            },
            other => other.pass(),
        }
    }

    fn new_n(reader: &mut Reader, name_map: &NameMap, import_map: &ImportMap) -> (r: ParserResult<Self>) {
        let ref_bone_info = read_tarray_n::<FMeshBoneInfo>(reader, name_map, import_map)?;
        let ref_bone_pose = read_tarray::<FTransform>(reader)?;
        let name_to_index = read_tarray_n::<(String, i32)>(reader, name_map, import_map)?;
        Ok(FReferenceSkeleton { ref_bone_info, ref_bone_pose, name_to_index })
    }
}

impl FReferenceSkeleton {
    pub fn get_bone_info(&self) -> (r: &Vec<FMeshBoneInfo>)
        ensures
            *r == self.ref_bone_info,
    {
        &self.ref_bone_info
    }

    pub fn get_bone_pose(&self) -> (r: &Vec<FTransform>)
        ensures
            *r == self.ref_bone_pose,
    {
        &self.ref_bone_pose
    }
}

/// A named pose of a skeleton.
#[derive(Debug)]
pub struct FReferencePose {
    pub pose_name: String,
    pub reference_pose: Vec<FTransform>,
}

/// What a [`FReferencePose`] holds, as plain values.
pub struct ReferencePoseView {
    pub pose_name: Seq<char>,
    pub reference_pose: Seq<FTransform>,
}

impl DeepView for FReferencePose {
    type V = ReferencePoseView;

    open spec fn deep_view(&self) -> ReferencePoseView {
        ReferencePoseView {
            pose_name: self.pose_name@,
            reference_pose: self.reference_pose.deep_view(),
        }
    }
}

impl NewableWithNameMap for FReferencePose {
    open spec fn parse_n(b: Seq<u8>, p: int, names: Seq<Seq<char>>, imports: Seq<Seq<char>>) -> Parse<ReferencePoseView> {
        match take_fname(b, p, names) {
            Parse::Parsed(v0, p0) => {
                match take_tarray::<FTransform>(b, p0) {
                    Parse::Parsed(v1, p1) => {
                        Parse::Parsed(ReferencePoseView { pose_name: v0, reference_pose: v1 }, p1)
                    },
                    other => other.pass(),
                }
            },
            other => other.pass(),
        }
    }

    fn new_n(reader: &mut Reader, name_map: &NameMap, import_map: &ImportMap) -> (r: ParserResult<Self>) {
        let pose_name = read_fname(reader, name_map)?;
        let reference_pose = read_tarray::<FTransform>(reader)?;
        Ok(FReferencePose { pose_name, reference_pose })
    }
}

/// The clothing asset of a render section.
#[derive(Debug, Clone, Copy)]
pub struct FClothingSectionData {
    pub asset_guid: FGuid,
    pub asset_lod_index: i32,
}

impl DeepView for FClothingSectionData {
    type V = FClothingSectionData;

    open spec fn deep_view(&self) -> FClothingSectionData {
        *self
    }
}

impl Newable for FClothingSectionData {
    open spec fn parse(b: Seq<u8>, p: int) -> Parse<FClothingSectionData> {
        match <FGuid as Newable>::parse(b, p) {
            Parse::Parsed(v0, p0) => {
                match take_i32(b, p0) {
                    Parse::Parsed(v1, p1) => {
                        Parse::Parsed(FClothingSectionData { asset_guid: v0, asset_lod_index: v1 }, p1)
                    },
                    other => other.pass(),
                }
            },
            other => other.pass(),
        }
    }

    fn new(reader: &mut Reader) -> (r: ParserResult<Self>) {
        let asset_guid = <FGuid>::new(reader)?;
        let asset_lod_index = reader.read_i32()?;
        Ok(FClothingSectionData { asset_guid, asset_lod_index })
    }
}

/// Two words of a duplicated-vertex table.
#[derive(Debug, Clone, Copy)]
pub struct FIndexLengthPair {
    pub word1: u32,
    pub word2: u32,
}

impl DeepView for FIndexLengthPair {
    type V = FIndexLengthPair;

    open spec fn deep_view(&self) -> FIndexLengthPair {
        *self
    }
}

impl Newable for FIndexLengthPair {
    open spec fn parse(b: Seq<u8>, p: int) -> Parse<FIndexLengthPair> {
        match take_u32(b, p) {
            Parse::Parsed(v0, p0) => {
                match take_u32(b, p0) {
                    Parse::Parsed(v1, p1) => {
                        Parse::Parsed(FIndexLengthPair { word1: v0, word2: v1 }, p1)
                    },
                    other => other.pass(),
                }
            },
            other => other.pass(),
        }
    }

    fn new(reader: &mut Reader) -> (r: ParserResult<Self>) {
        let word1 = reader.read_u32()?;
        let word2 = reader.read_u32()?;
        Ok(FIndexLengthPair { word1, word2 })
    }
}

/// How a cloth vertex maps onto the mesh: three barycentric vectors, four source vertex indices and two words of padding.
#[derive(Debug)]
pub struct FMeshToMeshVertData {
    pub position_bary_coords: FVector4,
    pub normal_bary_coords: FVector4,
    pub tangent_bary_coords: FVector4,
    pub source_mesh_vert_indices: [u16; 4],
    pub padding: [u32; 2],
}

/// What a [`FMeshToMeshVertData`] holds, as plain values.
pub struct MeshToMeshView {
    pub position_bary_coords: FVector4,
    pub normal_bary_coords: FVector4,
    pub tangent_bary_coords: FVector4,
    pub source_mesh_vert_indices: Seq<u16>,
    pub padding: Seq<u32>,
}

impl DeepView for FMeshToMeshVertData {
    type V = MeshToMeshView;

    open spec fn deep_view(&self) -> MeshToMeshView {
        MeshToMeshView {
            position_bary_coords: self.position_bary_coords.deep_view(),
            normal_bary_coords: self.normal_bary_coords.deep_view(),
            tangent_bary_coords: self.tangent_bary_coords.deep_view(),
            source_mesh_vert_indices: self.source_mesh_vert_indices@,
            padding: self.padding@,
        }
    }
}

impl Newable for FMeshToMeshVertData {
    open spec fn parse(b: Seq<u8>, p: int) -> Parse<MeshToMeshView> {
        match <FVector4 as Newable>::parse(b, p) {
            Parse::Parsed(v0, p0) => {
                match <FVector4 as Newable>::parse(b, p0) {
                    Parse::Parsed(v1, p1) => {
                        match <FVector4 as Newable>::parse(b, p1) {
                            Parse::Parsed(v2, p2) => {
                                match take_halfwords(b, p2, 4) {
                                    Parse::Parsed(v3, p3) => {
                                        match take_words(b, p3, 2) {
                                            Parse::Parsed(v4, p4) => {
                                                Parse::Parsed(MeshToMeshView { position_bary_coords: v0, normal_bary_coords: v1, tangent_bary_coords: v2, source_mesh_vert_indices: v3, padding: v4 }, p4)
                                            },
                                            other => other.pass(),
                                        }
                                    },
                                    other => other.pass(),
                                }
                            },
                            other => other.pass(),
                        }
                    },
                    other => other.pass(),
                }
            },
            other => other.pass(),
        }
    }

    fn new(reader: &mut Reader) -> (r: ParserResult<Self>) {
        let position_bary_coords = <FVector4>::new(reader)?;
        let normal_bary_coords = <FVector4>::new(reader)?;
        let tangent_bary_coords = <FVector4>::new(reader)?;
        let source_mesh_vert_indices = read_halfwords4(reader)?;
        let padding = read_words2(reader)?;
        Ok(FMeshToMeshVertData { position_bary_coords, normal_bary_coords, tangent_bary_coords, source_mesh_vert_indices, padding })
    }
}

/// The index buffer of a mesh, in 16-bit or 32-bit indices.
#[derive(Debug)]
pub enum FMultisizeIndexContainer {
    Indices16(Vec<u16>),
    Indices32(Vec<u32>),
}

/// What a [`FMultisizeIndexContainer`] holds, as plain values.
pub enum IndicesView {
    Indices16(Seq<u16>),
    Indices32(Seq<u32>),
}

impl DeepView for FMultisizeIndexContainer {
    type V = IndicesView;

    open spec fn deep_view(&self) -> IndicesView {
        match self {
            FMultisizeIndexContainer::Indices16(v) => IndicesView::Indices16(v@),
            FMultisizeIndexContainer::Indices32(v) => IndicesView::Indices32(v@),
        }
    }
}

impl Newable for FMultisizeIndexContainer {
    /// A `u8` index size and an `i32` element size; then an array of `u16`
    /// (size 2) or `u32` (size 4); any other size is an error.
    open spec fn parse(b: Seq<u8>, p: int) -> Parse<IndicesView> {
        match take_u8(b, p) {
            Parse::Parsed(data_size, p0) => match take_i32(b, p0) {
                Parse::Parsed(_, p1) => {
                    if data_size == 2 {
                        lift(take_tarray::<u16>(b, p1), |s| IndicesView::Indices16(s))
                    } else if data_size == 4 {
                        lift(take_tarray::<u32>(b, p1), |s| IndicesView::Indices32(s))
                    } else {
                        Parse::Failed(seq!["No format size"@], p1)
                    }
                },
                other => other.pass(),
            },
            other => other.pass(),
        }
    }

    fn new(reader: &mut Reader) -> (r: ParserResult<Self>) {
        let data_size = reader.read_u8()?;
        let _element_size = reader.read_i32()?;
        if data_size == 2 {
            let v = read_tarray::<u16>(reader)?;
            assert(v.deep_view() =~= v@);
            Ok(FMultisizeIndexContainer::Indices16(v))
        } else if data_size == 4 {
            let v = read_tarray::<u32>(reader)?;
            assert(v.deep_view() =~= v@);
            Ok(FMultisizeIndexContainer::Indices32(v))
        } else {
            Err(ParserError::new(text("No format size")))
        }
    }
}

/// A section of a mesh drawn with one material. Its layout: strip flags, the material index, the first index, the triangle count, two `u32` flags, the first vertex (absent, and zero, when server data was stripped), cloth mapping, the bone map, vertex and influence counts, an `i16` cloth asset index, clothing data, two arrays that are not kept, and a `u32` disabled flag.
#[derive(Debug)]
pub struct FSkelMeshRenderSection {
    pub material_index: i16,
    pub base_index: i32,
    pub num_triangles: i32,
    pub base_vertex_index: u32,
    pub cloth_mapping_data: Vec<FMeshToMeshVertData>,
    pub bone_map: Vec<u16>,
    pub num_vertices: i32,
    pub max_bone_influences: i32,
    pub clothing_data: FClothingSectionData,
    pub disabled: bool,
}

/// What a [`FSkelMeshRenderSection`] holds, as plain values.
pub struct RenderSectionView {
    pub material_index: i16,
    pub base_index: i32,
    pub num_triangles: i32,
    pub base_vertex_index: u32,
    pub cloth_mapping_data: Seq<MeshToMeshView>,
    pub bone_map: Seq<u16>,
    pub num_vertices: i32,
    pub max_bone_influences: i32,
    pub clothing_data: FClothingSectionData,
    pub disabled: bool,
}

impl DeepView for FSkelMeshRenderSection {
    type V = RenderSectionView;

    open spec fn deep_view(&self) -> RenderSectionView {
        RenderSectionView {
            material_index: self.material_index,
            base_index: self.base_index,
            num_triangles: self.num_triangles,
            base_vertex_index: self.base_vertex_index,
            cloth_mapping_data: self.cloth_mapping_data.deep_view(),
            bone_map: self.bone_map.deep_view(),
            num_vertices: self.num_vertices,
            max_bone_influences: self.max_bone_influences,
            clothing_data: self.clothing_data.deep_view(),
            disabled: self.disabled,
        }
    }
}

impl NewableWithNameMap for FSkelMeshRenderSection {
    open spec fn parse_n(b: Seq<u8>, p: int, names: Seq<Seq<char>>, imports: Seq<Seq<char>>) -> Parse<RenderSectionView> {
        match <FStripDataFlags as Newable>::parse(b, p) {
            Parse::Parsed(v0, p0) => {
                match take_i16(b, p0) {
                    Parse::Parsed(v1, p1) => {
                        match take_i32(b, p1) {
                            Parse::Parsed(v2, p2) => {
                                match take_i32(b, p2) {
                                    Parse::Parsed(v3, p3) => {
                                        match take_u32(b, p3) {
                                            Parse::Parsed(v4, p4) => {
                                                match take_u32(b, p4) {
                                                    Parse::Parsed(v5, p5) => {
                                                        match if v0.stripped_for_server() { Parse::Parsed(0u32, p5) } else { take_u32(b, p5) } {
                                                            Parse::Parsed(v6, p6) => {
                                                                match take_tarray::<FMeshToMeshVertData>(b, p6) {
                                                                    Parse::Parsed(v7, p7) => {
                                                                        match take_tarray::<u16>(b, p7) {
                                                                            Parse::Parsed(v8, p8) => {
                                                                                match take_i32(b, p8) {
                                                                                    Parse::Parsed(v9, p9) => {
                                                                                        match take_i32(b, p9) {
                                                                                            Parse::Parsed(v10, p10) => {
                                                                                                match take_i16(b, p10) {
                                                                                                    Parse::Parsed(v11, p11) => {
                                                                                                        match <FClothingSectionData as Newable>::parse(b, p11) {
                                                                                                            Parse::Parsed(v12, p12) => {
                                                                                                                match take_tarray::<i32>(b, p12) {
                                                                                                                    Parse::Parsed(v13, p13) => {
                                                                                                                        match take_tarray::<FIndexLengthPair>(b, p13) {
                                                                                                                            Parse::Parsed(v14, p14) => {
                                                                                                                                match take_u32(b, p14) {
                                                                                                                                    Parse::Parsed(v15, p15) => {
                                                                                                                                        Parse::Parsed(RenderSectionView { material_index: v1, base_index: v2, num_triangles: v3, base_vertex_index: v6, cloth_mapping_data: v7, bone_map: v8, num_vertices: v9, max_bone_influences: v10, clothing_data: v12, disabled: v15 != 0 }, p15)
                                                                                                                                    },
                                                                                                                                    other => other.pass(),
                                                                                                                                }
                                                                                                                            },
                                                                                                                            other => other.pass(),
                                                                                                                        }
                                                                                                                    },
                                                                                                                    other => other.pass(),
                                                                                                                }
                                                                                                            },
                                                                                                            other => other.pass(),
                                                                                                        }
                                                                                                    },
                                                                                                    other => other.pass(),
                                                                                                }
                                                                                            },
                                                                                            other => other.pass(),
                                                                                        }
                                                                                    },
                                                                                    other => other.pass(),
                                                                                }
                                                                            },
                                                                            other => other.pass(),
                                                                        }
                                                                    },
                                                                    other => other.pass(),
                                                                }
                                                            },
                                                            other => other.pass(),
                                                        }
                                                    },
                                                    other => other.pass(),
                                                }
                                            },
                                            other => other.pass(),
                                        }
                                    },
                                    other => other.pass(),
                                }
                            },
                            other => other.pass(),
                        }
                    },
                    other => other.pass(),
                }
            },
            other => other.pass(),
        }
    }

    #[verifier::rlimit(80)]
    fn new_n(reader: &mut Reader, name_map: &NameMap, import_map: &ImportMap) -> (r: ParserResult<Self>) {
        let _flags = <FStripDataFlags>::new(reader)?;
        let material_index = reader.read_i16()?;
        let base_index = reader.read_i32()?;
        let num_triangles = reader.read_i32()?;
        let _recompute_tangent = reader.read_u32()?;
        let _cast_shadow = reader.read_u32()?;
        let base_vertex_index = if !_flags.is_data_stripped_for_server() { reader.read_u32()? } else { 0 };
        let cloth_mapping_data = read_tarray::<FMeshToMeshVertData>(reader)?;
        let bone_map = read_tarray::<u16>(reader)?;
        let num_vertices = reader.read_i32()?;
        let max_bone_influences = reader.read_i32()?;
        let _correspond_cloth_asset_index = reader.read_i16()?;
        let clothing_data = <FClothingSectionData>::new(reader)?;
        let _vertex_buffer = read_tarray::<i32>(reader)?;
        let _index_pairs = read_tarray::<FIndexLengthPair>(reader)?;
        let disabled = reader.read_u32()? != 0;
        Ok(FSkelMeshRenderSection { material_index, base_index, num_triangles, base_vertex_index, cloth_mapping_data, bone_map, num_vertices, max_bone_influences, clothing_data, disabled })
    }
}

impl FSkelMeshRenderSection {
    pub fn get_bone_map(&self) -> (r: &Vec<u16>)
        ensures
            *r == self.bone_map,
    {
        &self.bone_map
    }

    pub fn get_num_verts(&self) -> (r: i32)
        ensures
            r == self.num_vertices,
    {
        self.num_vertices
    }

    pub fn get_base_index(&self) -> (r: u32)
        ensures
            r == self.base_vertex_index,
    {
        self.base_vertex_index
    }

    pub fn get_num_triangles(&self) -> (r: i32)
        ensures
            r == self.num_triangles,
    {
        self.num_triangles
    }

    pub fn get_base_triangle_index(&self) -> (r: i32)
        ensures
            r == self.base_index,
    {
        self.base_index
    }

    pub fn get_material_index(&self) -> (r: i16)
        ensures
            r == self.material_index,
    {
        self.material_index
    }
}

/// One level of detail of a mesh, ready to draw.
#[derive(Debug)]
pub struct FSkeletalMeshRenderData {
    pub sections: Vec<FSkelMeshRenderSection>,
    pub indices: FMultisizeIndexContainer,
    pub active_bone_indices: Vec<i16>,
    pub required_bones: Vec<i16>,
    pub position_vertex_buffer: FPositionVertexBuffer,
    pub static_mesh_vertex_buffer: Option<FStaticMeshVertexBuffer>,
    pub skin_weight_vertex_buffer: Option<FSkinWeightVertexBuffer>,
    pub colour_vertex_buffer: Option<FColorVertexBuffer>,
}

/// What a [`FSkeletalMeshRenderData`] holds, as plain values.
pub struct RenderDataView {
    pub sections: Seq<RenderSectionView>,
    pub indices: IndicesView,
    pub active_bone_indices: Seq<i16>,
    pub required_bones: Seq<i16>,
    pub position_vertex_buffer: PositionBufferView,
    pub static_mesh_vertex_buffer: Option<StaticBufferView>,
    pub skin_weight_vertex_buffer: Option<WeightBufferView>,
    pub colour_vertex_buffer: Option<ColorBufferView>,
}

impl DeepView for FSkeletalMeshRenderData {
    type V = RenderDataView;

    open spec fn deep_view(&self) -> RenderDataView {
        RenderDataView {
            sections: self.sections.deep_view(),
            indices: self.indices.deep_view(),
            active_bone_indices: self.active_bone_indices@,
            required_bones: self.required_bones@,
            position_vertex_buffer: self.position_vertex_buffer.deep_view(),
            static_mesh_vertex_buffer: self.static_mesh_vertex_buffer.deep_view(),
            skin_weight_vertex_buffer: self.skin_weight_vertex_buffer.deep_view(),
            colour_vertex_buffer: self.colour_vertex_buffer.deep_view(),
        }
    }
}

/// The colour buffer when the mesh has vertex colours, and nothing otherwise.
pub open spec fn take_colours(b: Seq<u8>, p: int, has_vertex_colors: bool) -> Parse<Option<ColorBufferView>> {
    if has_vertex_colors {
        lift(FColorVertexBuffer::parse(b, p), |c| Some(c))
    } else {
        Parse::Parsed(None, p)
    }
}

/// The vertex buffers that follow a level's header: positions, tangents
/// and coordinates, weights, and colours.
pub open spec fn take_vertex_buffers(b: Seq<u8>, p: int, has_vertex_colors: bool) -> Parse<
    (PositionBufferView, Option<StaticBufferView>, Option<WeightBufferView>, Option<ColorBufferView>),
> {
    match FPositionVertexBuffer::parse(b, p) {
        Parse::Parsed(positions, p0) => match take_static_buffer(b, p0) {
            Parse::Parsed(statics, p1) => match take_weight_buffer(b, p1) {
                Parse::Parsed(weights, p2) => match take_colours(b, p2, has_vertex_colors) {
                    Parse::Parsed(colours, e) => Parse::Parsed((positions, statics, weights, colours), e),
                    other => other.pass(),
                },
                other => other.pass(),
            },
            other => other.pass(),
        },
        other => other.pass(),
    }
}

/// Strip flags, the sections, the index buffer, two `i16` bone arrays;
/// when server data or class data 2 was stripped, an error; otherwise the
/// vertex buffers.
pub open spec fn take_render_data(
    b: Seq<u8>,
    p: int,
    names: Seq<Seq<char>>,
    imports: Seq<Seq<char>>,
    has_vertex_colors: bool,
) -> Parse<RenderDataView> {
    match FStripDataFlags::parse(b, p) {
        Parse::Parsed(flags, p0) => match take_tarray_n::<FSkelMeshRenderSection>(b, p0, names, imports) {
            Parse::Parsed(sections, p1) => match FMultisizeIndexContainer::parse(b, p1) {
                Parse::Parsed(indices, p2) => match take_tarray::<i16>(b, p2) {
                    Parse::Parsed(active_bone_indices, p3) => match take_tarray::<i16>(b, p3) {
                        Parse::Parsed(required_bones, p4) => {
                            if flags.stripped_for_server() || flags.class_data_stripped(2) {
                                Parse::Failed(seq!["Could not read FSkelMesh, no renderable data"@], p4)
                            } else {
                                match take_vertex_buffers(b, p4, has_vertex_colors) {
                                    Parse::Parsed(buffers, e) => Parse::Parsed(
                                        RenderDataView {
                                            sections,
                                            indices,
                                            active_bone_indices,
                                            required_bones,
                                            position_vertex_buffer: buffers.0,
                                            static_mesh_vertex_buffer: buffers.1,
                                            skin_weight_vertex_buffer: buffers.2,
                                            colour_vertex_buffer: buffers.3,
                                        },
                                        e,
                                    ),
                                    other => other.pass(),
                                }
                            }
                        },
                        other => other.pass(),
                    },
                    other => other.pass(),
                },
                other => other.pass(),
            },
            other => other.pass(),
        },
        other => other.pass(),
    }
}

impl FSkeletalMeshRenderData {
    pub fn get_position_buffer(&self) -> (r: &FPositionVertexBuffer)
        ensures
            *r == self.position_vertex_buffer,
    {
        &self.position_vertex_buffer
    }

    pub fn get_indices(&self) -> (r: &FMultisizeIndexContainer)
        ensures
            *r == self.indices,
    {
        &self.indices
    }

    /// The tangent and coordinate buffer, which must be there.
    pub fn get_static_buffer(&self) -> (r: &FStaticMeshVertexBuffer)
        requires
            self.static_mesh_vertex_buffer is Some,
        ensures
            *r == self.static_mesh_vertex_buffer->0,
    {
        match &self.static_mesh_vertex_buffer {
            Some(buffer) => buffer,
            None => vstd::pervasive::unreached(),
        }
    }

    /// The weight buffer, which must be there.
    pub fn get_weight_buffer(&self) -> (r: &FSkinWeightVertexBuffer)
        requires
            self.skin_weight_vertex_buffer is Some,
        ensures
            *r == self.skin_weight_vertex_buffer->0,
    {
        match &self.skin_weight_vertex_buffer {
            Some(buffer) => buffer,
            None => vstd::pervasive::unreached(),
        }
    }

    pub fn get_sections(&self) -> (r: &Vec<FSkelMeshRenderSection>)
        ensures
            *r == self.sections,
    {
        &self.sections
    }

    #[verifier::rlimit(60)]
    pub fn new(reader: &mut Reader, name_map: &NameMap, import_map: &ImportMap, has_vertex_colors: bool) -> (r:
        ParserResult<Self>)
        requires
            !(take_render_data(
                old(reader).bytes(),
                old(reader).at(),
                name_texts(name_map),
                import_names(import_map),
                has_vertex_colors,
            ) is Aborted),
        ensures
            final(reader).bytes() == old(reader).bytes(),
            outcome(
                r,
                take_render_data(
                    old(reader).bytes(),
                    old(reader).at(),
                    name_texts(name_map),
                    import_names(import_map),
                    has_vertex_colors,
                ),
                *final(reader),
            ),
    {
        let flags = FStripDataFlags::new(reader)?;
        let sections = read_tarray_n::<FSkelMeshRenderSection>(reader, name_map, import_map)?;
        let indices = FMultisizeIndexContainer::new(reader)?;
        let active_bone_indices = read_tarray::<i16>(reader)?;
        let required_bones = read_tarray::<i16>(reader)?;
        assert(active_bone_indices.deep_view() =~= active_bone_indices@);
        assert(required_bones.deep_view() =~= required_bones@);
        if flags.is_data_stripped_for_server() || flags.is_class_data_stripped(2) {
            return Err(ParserError::new(text("Could not read FSkelMesh, no renderable data")));
        }
        let position_vertex_buffer = FPositionVertexBuffer::new(reader)?;
        let static_mesh_vertex_buffer = FStaticMeshVertexBuffer::new(reader)?;
        let skin_weight_vertex_buffer = FSkinWeightVertexBuffer::new(reader)?;
        let colour_vertex_buffer = if has_vertex_colors {
            Some(FColorVertexBuffer::new(reader)?)
        } else {
            None
        };
        Ok(
            FSkeletalMeshRenderData {
                sections,
                indices,
                active_bone_indices,
                required_bones,
                position_vertex_buffer,
                static_mesh_vertex_buffer,
                skin_weight_vertex_buffer,
                colour_vertex_buffer,
            },
        )
    }
}


/// Strip flags are two bytes, the global flags then the class flags; the
/// editor data was left out when bit 0 of the global byte is set (it is
/// odd), and the server's data when bit 1 is.
pub proof fn lemma_strip_flags(b: Seq<u8>, p: int, flags: FStripDataFlags)
    ensures
        fits(b, p, 2) ==> <FStripDataFlags as Newable>::parse(b, p) == Parse::Parsed(
            FStripDataFlags { global_strip_flags: b[p], class_strip_flags: b[p + 1] },
            p + 2,
        ),
        flags.editor_data_stripped() == (flags.global_strip_flags % 2 == 1),
        flags.stripped_for_server() == ((flags.global_strip_flags / 2) % 2 == 1),
{
    let g = flags.global_strip_flags;
    assert((g & 1 != 0) == (g % 2 == 1)) by (bit_vector);
    assert((g & 2 != 0) == ((g / 2) % 2 == 1)) by (bit_vector);
}

/// A bounding box and sphere is the origin vector, the box extent vector,
/// then the sphere's radius; an index and length pair is two words in that
/// order.
pub proof fn lemma_bounds_layouts(b: Seq<u8>, p: int)
    ensures
        fits(b, p, 28) ==> <FBoxSphereBounds as Newable>::parse(b, p) == Parse::Parsed(
            FBoxSphereBounds {
                origin: FVector { x: le_u32(b, p), y: le_u32(b, p + 4), z: le_u32(b, p + 8) },
                box_extend: FVector { x: le_u32(b, p + 12), y: le_u32(b, p + 16), z: le_u32(b, p + 20) },
                sphere_radius: le_u32(b, p + 24),
            },
            p + 28,
        ),
        fits(b, p, 8) ==> <FIndexLengthPair as Newable>::parse(b, p) == Parse::Parsed(
            FIndexLengthPair { word1: le_u32(b, p), word2: le_u32(b, p + 4) },
            p + 8,
        ),
{
}


/// A packed normal is four signed bytes `x`, `y`, `z`, `w`; a 16-bit packed
/// vector four little-endian `i16`s in that order; a half-precision 2D
/// vector two `u16`s, `x` then `y`.
pub proof fn lemma_packed_layouts(b: Seq<u8>, p: int)
    ensures
        fits(b, p, 4) ==> <FPackedNormal as Newable>::parse(b, p) == Parse::Parsed(
            FPackedNormal { x: signed8(b[p]), y: signed8(b[p + 1]), z: signed8(b[p + 2]), w: signed8(b[p + 3]) },
            p + 4,
        ),
        fits(b, p, 8) ==> <FPackedRGBA16N as Newable>::parse(b, p) == Parse::Parsed(
            FPackedRGBA16N {
                x: signed16(le_u16(b, p)),
                y: signed16(le_u16(b, p + 2)),
                z: signed16(le_u16(b, p + 4)),
                w: signed16(le_u16(b, p + 6)),
            },
            p + 8,
        ),
        fits(b, p, 4) ==> <FVector2DHalf as Newable>::parse(b, p) == Parse::Parsed(
            FVector2DHalf { x: le_u16(b, p), y: le_u16(b, p + 2) },
            p + 4,
        ),
{
}

/// A vertex's skin weights are `m` bone index bytes then `m` weight bytes,
/// each held in eight slots whose slots from `m` on are zero; more than
/// eight influences is an error.
pub proof fn lemma_skin_weight_slots(b: Seq<u8>, p: int, m: int)
    requires
        0 <= m,
    ensures
        m > 8 ==> take_skin_weight(b, p, m) == Parse::<SkinWeightView>::Failed(seq!["Max influences too high"@], p),
        m <= 8 && fits(b, p, 2 * m) ==> ({
            let r = take_skin_weight(b, p, m);
            &&& r is Parsed
            &&& r->Parsed_1 == p + 2 * m
            &&& r.value().bone_index.len() == 8
            &&& r.value().bone_weight.len() == 8
            &&& forall|i: int| 0 <= i < m ==> #[trigger] r.value().bone_index[i] == b[p + i]
            &&& forall|i: int| 0 <= i < m ==> #[trigger] r.value().bone_weight[i] == b[p + m + i]
            &&& forall|i: int| m <= i < 8 ==> #[trigger] r.value().bone_index[i] == 0
            &&& forall|i: int| m <= i < 8 ==> #[trigger] r.value().bone_weight[i] == 0
        }),
{
}

/// An index buffer's first byte is the index size: 2 gives 16-bit indices
/// and 4 gives 32-bit indices, each an array after the `i32` element size;
/// any other size is the error "No format size".
pub proof fn lemma_index_size_choice(b: Seq<u8>, p: int)
    requires
        fits(b, p, 5),
    ensures
        b[p] == 2 ==> <FMultisizeIndexContainer as Newable>::parse(b, p) == lift(
            take_tarray::<u16>(b, p + 5),
            |s| IndicesView::Indices16(s),
        ),
        b[p] == 4 ==> <FMultisizeIndexContainer as Newable>::parse(b, p) == lift(
            take_tarray::<u32>(b, p + 5),
            |s| IndicesView::Indices32(s),
        ),
        b[p] != 2 && b[p] != 4 ==> <FMultisizeIndexContainer as Newable>::parse(b, p) == Parse::<
            IndicesView,
        >::Failed(seq!["No format size"@], p + 5),
{
}


/// `n` vertices' weights read are `n` of them.
proof fn lemma_skin_weights_len(b: Seq<u8>, p: int, n: nat, m: int)
    requires
        take_skin_weights(b, p, n, m) is Parsed,
    ensures
        take_skin_weights(b, p, n, m).value().len() == n,
    decreases n,
{
    if n > 0 {
        let q = take_skin_weight(b, p, m)->Parsed_1;
        lemma_skin_weights_len(b, q, (n - 1) as nat, m);
    }
}

/// A skin weight buffer: two bytes of strip flags, then the `i32` extra
/// influences flag (eight influences per vertex when it is set, four
/// otherwise) and the `i32` vertex count; nothing more when the server's
/// data was left out (bit 1 of the first byte); otherwise an element size,
/// the `i32` count of weights and that many vertices' weights.
pub proof fn lemma_weight_buffer_layout(b: Seq<u8>, p: int)
    requires
        take_weight_buffer(b, p) is Parsed,
    ensures
        ({
            let r = take_weight_buffer(b, p);
            let stripped = (b[p] / 2) % 2 == 1;
            let m: int = if le_u32(b, p + 2) != 0 { 8 } else { 4 };
            let count = signed32(le_u32(b, p + 14));
            let n: nat = if count < 0 { 0 } else { count as nat };
            &&& stripped ==> r == Parse::Parsed(Option::<WeightBufferView>::None, p + 10)
            &&& !stripped ==> r.value() is Some && r.value()->Some_0.num_vertices == signed32(le_u32(b, p + 6))
                && r.value()->Some_0.weights == take_skin_weights(b, p + 18, n, m).value()
                && r.value()->Some_0.weights.len() == n
        }),
{
    let g = b[p];
    assert((g & 2 != 0) == ((g / 2) % 2 == 1)) by (bit_vector);
    let count = signed32(le_u32(b, p + 14));
    let n: nat = if count < 0 { 0 } else { count as nat };
    let m: int = if le_u32(b, p + 2) != 0 { 8 } else { 4 };
    if (b[p] / 2) % 2 != 1 {
        lemma_skin_weights_len(b, p + 18, n, m);
    }
}

/// Render data can be read only when neither the server's data (bit 1 of
/// the first strip flag byte) nor the class data marked 2 (bit 1 of the
/// second) was left out; it has a colour buffer exactly when the mesh has
/// vertex colours.
pub proof fn lemma_render_data_colours(
    b: Seq<u8>,
    p: int,
    names: Seq<Seq<char>>,
    imports: Seq<Seq<char>>,
    has_vertex_colors: bool,
)
    requires
        take_render_data(b, p, names, imports, has_vertex_colors) is Parsed,
    ensures
        (b[p] / 2) % 2 == 0,
        (b[p + 1] / 2) % 2 == 0,
        (take_render_data(b, p, names, imports, has_vertex_colors).value().colour_vertex_buffer is Some)
            == has_vertex_colors,
{
    let g = b[p];
    let c = b[p + 1];
    assert((g & 2 != 0) == ((g / 2) % 2 == 1)) by (bit_vector);
    assert((c & 2 != 0) == ((c / 2) % 2 == 1)) by (bit_vector);
}


/// A position buffer is its `i32` stride and vertex count, an element size,
/// then the array of vertex positions.
pub proof fn lemma_position_buffer_layout(b: Seq<u8>, p: int)
    requires
        FPositionVertexBuffer::parse(b, p) is Parsed,
    ensures
        ({
            let v = FPositionVertexBuffer::parse(b, p).value();
            &&& v.stride == signed32(le_u32(b, p))
            &&& v.num_verts == signed32(le_u32(b, p + 4))
            &&& take_tarray::<FVector>(b, p + 12) is Parsed
            &&& v.verts == take_tarray::<FVector>(b, p + 12).value()
        }),
{
}

/// A colour buffer is two bytes of strip flags, the `i32` stride and vertex
/// count; the colours (after an element size) are there only when the
/// server's data was kept (bit 1 of the first byte clear) and the count is
/// positive, and there are none otherwise.
pub proof fn lemma_colour_buffer_layout(b: Seq<u8>, p: int)
    requires
        FColorVertexBuffer::parse(b, p) is Parsed,
    ensures
        ({
            let r = FColorVertexBuffer::parse(b, p);
            let n = signed32(le_u32(b, p + 6));
            let kept = (b[p] / 2) % 2 == 0 && n > 0;
            &&& r.value().stride == signed32(le_u32(b, p + 2))
            &&& r.value().num_verts == n
            &&& kept ==> r.value().colours == take_tarray::<FColor>(b, p + 14).value()
                && r->Parsed_1 == take_tarray::<FColor>(b, p + 14)->Parsed_1
            &&& !kept ==> r.value().colours.len() == 0 && r->Parsed_1 == p + 10
        }),
{
    let g = b[p];
    assert((g & 2 != 0) == ((g / 2) % 2 == 1)) by (bit_vector);
}

/// A UV channel's data: two `u32` flags (initialised, override densities),
/// set when not zero, then four density words.
pub proof fn lemma_uv_channel_layout(b: Seq<u8>, p: int)
    requires
        fits(b, p, 24),
    ensures
        FMeshUVChannelInfo::parse(b, p) == Parse::Parsed(
            UVChannelView {
                initialised: le_u32(b, p) != 0,
                override_densities: le_u32(b, p + 4) != 0,
                local_uv_densities: seq![le_u32(b, p + 8), le_u32(b, p + 12), le_u32(b, p + 16), le_u32(b, p + 20)],
            },
            p + 24,
        ),
{
    assert(Seq::new(4, |i: int| le_u32(b, p + 8 + 4 * i)) =~= seq![
        le_u32(b, p + 8),
        le_u32(b, p + 12),
        le_u32(b, p + 16),
        le_u32(b, p + 20),
    ]);
}

/// A bone's info is its FName, then its parent's index as an `i32`.
pub proof fn lemma_bone_info_layout(b: Seq<u8>, p: int, names: Seq<Seq<char>>, imports: Seq<Seq<char>>)
    requires
        fits(b, p, 12),
        0 <= signed32(le_u32(b, p)) < names.len(),
    ensures
        FMeshBoneInfo::parse_n(b, p, names, imports) == Parse::Parsed(
            BoneInfoView { name: names[signed32(le_u32(b, p)) as int], parent_index: signed32(le_u32(b, p + 8)) },
            p + 12,
        ),
{
}

/// A skeletal material is its interface's package index, a `u32` flag, the
/// slot's FName when that flag is set (an empty name otherwise), then the
/// UV channel data.
pub proof fn lemma_skeletal_material_layout(b: Seq<u8>, p: int, names: Seq<Seq<char>>, imports: Seq<Seq<char>>)
    requires
        FSkeletalMaterial::parse_n(b, p, names, imports) is Parsed,
    ensures
        ({
            let v = FSkeletalMaterial::parse_n(b, p, names, imports).value();
            let named = le_u32(b, p + 4) != 0;
            &&& v.material_interface == <FPackageIndex as NewableWithNameMap>::parse_n(b, p, names, imports).value()
            &&& named ==> v.material_slot_name == names[signed32(le_u32(b, p + 8)) as int]
                && v.uv_channel_data == FMeshUVChannelInfo::parse(b, p + 16).value()
            &&& !named ==> v.material_slot_name.len() == 0 && v.uv_channel_data == FMeshUVChannelInfo::parse(
                b,
                p + 8,
            ).value()
        }),
{
}

/// A reference skeleton is its bones' infos, then their poses, then the
/// bones' indices by name, one array after another.
pub proof fn lemma_reference_skeleton_parts(b: Seq<u8>, p: int, names: Seq<Seq<char>>, imports: Seq<Seq<char>>)
    requires
        FReferenceSkeleton::parse_n(b, p, names, imports) is Parsed,
    ensures
        ({
            let v = FReferenceSkeleton::parse_n(b, p, names, imports).value();
            let i = take_tarray_n::<FMeshBoneInfo>(b, p, names, imports);
            let t = take_tarray::<FTransform>(b, i->Parsed_1);
            &&& i is Parsed && v.ref_bone_info == i.value()
            &&& t is Parsed && v.ref_bone_pose == t.value()
            &&& v.name_to_index == take_tarray_n::<(String, i32)>(b, t->Parsed_1, names, imports).value()
        }),
{
}


/// A render section: two bytes of strip flags, the `i16` material index at
/// byte 2, the `i32` first index and triangle count at bytes 4 and 8, two
/// `u32` flags that are not kept, then the `u32` first vertex at byte 20
/// unless the server's data was left out (bit 1 of the first byte), in which
/// case it is zero and is not read; then the cloth mapping data and the bone
/// map.
pub proof fn lemma_render_section_layout(b: Seq<u8>, p: int, names: Seq<Seq<char>>, imports: Seq<Seq<char>>)
    requires
        FSkelMeshRenderSection::parse_n(b, p, names, imports) is Parsed,
    ensures
        ({
            let v = FSkelMeshRenderSection::parse_n(b, p, names, imports).value();
            let stripped = (b[p] / 2) % 2 == 1;
            let q = if stripped { p + 20 } else { p + 24 };
            let m = take_tarray::<FMeshToMeshVertData>(b, q);
            &&& v.material_index == signed16(le_u16(b, p + 2))
            &&& v.base_index == signed32(le_u32(b, p + 4))
            &&& v.num_triangles == signed32(le_u32(b, p + 8))
            &&& stripped ==> v.base_vertex_index == 0
            &&& !stripped ==> v.base_vertex_index == le_u32(b, p + 20)
            &&& m is Parsed && v.cloth_mapping_data == m.value()
            &&& v.bone_map == take_tarray::<u16>(b, m->Parsed_1).value()
        }),
{
    let g = b[p];
    assert((g & 2 != 0) == ((g / 2) % 2 == 1)) by (bit_vector);
}

} // verus!
