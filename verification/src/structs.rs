//! The fixed-layout structs that struct properties hold, by struct name.

use vstd::prelude::*;
use crate::error::ParserResult;
use crate::names::{
    name_texts, import_names, read_fname, take_fname, ImportMap, NameMap,
    NewableWithNameMap,
};
use crate::newable::{lemma_prepend_assoc, prepend, read_tarray, take_tarray, Newable};
use crate::reader::{fits, le_u32, read_string, take_i32, take_string, take_u32, take_u8, Parse, Reader};
use crate::summary::FGuid;

verus! {

/// The kind of one end of a range.
#[derive(Debug, Clone, Copy, PartialEq, Eq)]
pub enum TRangeBoundType {
    RangeExclusive,
    RangeInclusive,
    RangeOpen,
}

impl DeepView for TRangeBoundType {
    type V = TRangeBoundType;

    open spec fn deep_view(&self) -> TRangeBoundType {
        *self
    }
}

/// One end of a range.
#[derive(Debug)]
pub struct TRangeBound<T> {
    pub bound_type: TRangeBoundType,
    pub value: T,
}

/// What a [`TRangeBound`] holds, as plain values.
pub struct TRangeBoundView<V> {
    pub bound_type: TRangeBoundType,
    pub value: V,
}

impl<T: DeepView> DeepView for TRangeBound<T> {
    type V = TRangeBoundView<T::V>;

    open spec fn deep_view(&self) -> TRangeBoundView<T::V> {
        TRangeBoundView { bound_type: self.bound_type, value: self.value.deep_view() }
    }
}

/// The bound kinds by their byte: 0, 1 and 2; the format has no other.
pub open spec fn bound_type_of(byte: u8) -> TRangeBoundType
    recommends
        byte <= 2,
{
    if byte == 0 {
        TRangeBoundType::RangeExclusive
    } else if byte == 1 {
        TRangeBoundType::RangeInclusive
    } else {
        TRangeBoundType::RangeOpen
    }
}

impl<T: Newable> Newable for TRangeBound<T> {
    /// A byte for the kind (a byte above 2 is where the format gives up),
    /// then the value.
    open spec fn parse(b: Seq<u8>, p: int) -> Parse<TRangeBoundView<T::V>> {
        match take_u8(b, p) {
            Parse::Parsed(kind, q) => {
                if kind > 2 {
                    Parse::Aborted
                } else {
                    match T::parse(b, q) {
                        Parse::Parsed(value, e) => Parse::Parsed(
                            TRangeBoundView { bound_type: bound_type_of(kind), value },
                            e,
                        ),
                        other => other.pass(),
                    }
                }
            },
            other => other.pass(),
        }
    }

    fn new(reader: &mut Reader) -> (r: ParserResult<Self>) {
        let kind = reader.read_u8()?;
        let bound_type = if kind == 0 {
            TRangeBoundType::RangeExclusive
        } else if kind == 1 {
            TRangeBoundType::RangeInclusive
        } else {
            TRangeBoundType::RangeOpen
        };
        let value = T::new(reader)?;
        Ok(TRangeBound { bound_type, value })
    }
}

/// A range: its lower bound, then its upper bound.
#[derive(Debug)]
pub struct TRange<T> {
    pub lower_bound: TRangeBound<T>,
    pub upper_bound: TRangeBound<T>,
}

/// What a [`TRange`] holds, as plain values.
pub struct TRangeView<V> {
    pub lower_bound: TRangeBoundView<V>,
    pub upper_bound: TRangeBoundView<V>,
}

impl<T: DeepView> DeepView for TRange<T> {
    type V = TRangeView<T::V>;

    open spec fn deep_view(&self) -> TRangeView<T::V> {
        TRangeView { lower_bound: self.lower_bound.deep_view(), upper_bound: self.upper_bound.deep_view() }
    }
}

impl<T: Newable> Newable for TRange<T> {
    open spec fn parse(b: Seq<u8>, p: int) -> Parse<TRangeView<T::V>> {
        match TRangeBound::<T>::parse(b, p) {
            Parse::Parsed(lower_bound, q) => match TRangeBound::<T>::parse(b, q) {
                Parse::Parsed(upper_bound, e) => Parse::Parsed(TRangeView { lower_bound, upper_bound }, e),
                other => other.pass(),
            },
            other => other.pass(),
        }
    }

    fn new(reader: &mut Reader) -> (r: ParserResult<Self>) {
        let lower_bound = TRangeBound::<T>::new(reader)?;
        let upper_bound = TRangeBound::<T>::new(reader)?;
        Ok(TRange { lower_bound, upper_bound })
    }
}

/// `n` FNames, one after another.
pub open spec fn take_fnames(b: Seq<u8>, p: int, n: nat, names: Seq<Seq<char>>) -> Parse<Seq<Seq<char>>>
    decreases n,
{
    if n == 0 {
        Parse::Parsed(Seq::empty(), p)
    } else {
        match take_fname(b, p, names) {
            Parse::Parsed(x, q) => prepend(seq![x], take_fnames(b, q, (n - 1) as nat, names)),
            other => other.pass(),
        }
    }
}

/// A set of gameplay tags: a `u32` count, then that many FNames.
#[derive(Debug)]
pub struct FGameplayTagContainer {
    pub gameplay_tags: Vec<String>,
}

impl DeepView for FGameplayTagContainer {
    type V = Seq<Seq<char>>;

    open spec fn deep_view(&self) -> Seq<Seq<char>> {
        self.gameplay_tags.deep_view()
    }
}

impl NewableWithNameMap for FGameplayTagContainer {
    open spec fn parse_n(b: Seq<u8>, p: int, names: Seq<Seq<char>>, imports: Seq<Seq<char>>) -> Parse<
        Seq<Seq<char>>,
    > {
        match take_u32(b, p) {
            Parse::Parsed(n, q) => take_fnames(b, q, n as nat, names),
            other => other.pass(),
        }
    }

    fn new_n(reader: &mut Reader, name_map: &NameMap, _import_map: &ImportMap) -> (r: ParserResult<Self>) {
        let ghost b = reader.bytes();
        let ghost names = name_texts(name_map);
        let length = reader.read_u32()?;
        let ghost q = reader.at();
        let mut container: Vec<String> = Vec::new();
        let mut i: u32 = 0;
        assert(prepend(container.deep_view(), take_fnames(b, q, length as nat, names)) == take_fnames(
            b,
            q,
            length as nat,
            names,
        )) by {
            match take_fnames(b, q, length as nat, names) {
                Parse::Parsed(ys, e) => {
                    assert(container.deep_view() + ys =~= ys);
                },
                _ => {},
            }
        }
        while i < length
            invariant
                reader.bytes() == b,
                b == old(reader).bytes(),
                names == name_texts(name_map),
                i <= length,
                prepend(container.deep_view(), take_fnames(b, reader.at(), (length - i) as nat, names))
                    == take_fnames(b, q, length as nat, names),
                Self::parse_n(b, old(reader).at(), names, import_names(_import_map)) == take_fnames(
                    b,
                    q,
                    length as nat,
                    names,
                ),
            decreases length - i,
        {
            let ghost before = container.deep_view();
            let x = read_fname(reader, name_map)?;
            proof {
                lemma_prepend_assoc(before, x@, take_fnames(b, reader.at(), (length - i - 1) as nat, names));
            }
            container.push(x);
            assert(container.deep_view() =~= before.push(x@));
            i = i + 1;
        }
        assert(container.deep_view() + Seq::empty() =~= container.deep_view());
        Ok(FGameplayTagContainer { gameplay_tags: container })
    }
}

/// `n` legacy object references, one after another.
pub open spec fn take_legacy_references(b: Seq<u8>, p: int, n: nat) -> Parse<Seq<FLevelSequenceLegacyObjectReferenceView>>
    decreases n,
{
    if n == 0 {
        Parse::Parsed(Seq::empty(), p)
    } else {
        match FLevelSequenceLegacyObjectReference::parse(b, p) {
            Parse::Parsed(x, q) => prepend(seq![x], take_legacy_references(b, q, (n - 1) as nat)),
            other => other.pass(),
        }
    }
}

/// Object references of a level sequence: an `i32` count (none when it is
/// negative), then the references.
#[derive(Debug)]
pub struct FLevelSequenceObjectReferenceMap {
    pub map_data: Vec<FLevelSequenceLegacyObjectReference>,
}

impl DeepView for FLevelSequenceObjectReferenceMap {
    type V = Seq<FLevelSequenceLegacyObjectReferenceView>;

    open spec fn deep_view(&self) -> Seq<FLevelSequenceLegacyObjectReferenceView> {
        self.map_data.deep_view()
    }
}

impl NewableWithNameMap for FLevelSequenceObjectReferenceMap {
    open spec fn parse_n(b: Seq<u8>, p: int, names: Seq<Seq<char>>, imports: Seq<Seq<char>>) -> Parse<
        Seq<FLevelSequenceLegacyObjectReferenceView>,
    > {
        match take_i32(b, p) {
            Parse::Parsed(n, q) => take_legacy_references(b, q, if n < 0 { 0 } else { n as nat }),
            other => other.pass(),
        }
    }

    fn new_n(reader: &mut Reader, _name_map: &NameMap, _import_map: &ImportMap) -> (r: ParserResult<Self>) {
        let ghost b = reader.bytes();
        let element_count = reader.read_i32()?;
        let count: u32 = if element_count < 0 { 0 } else { element_count as u32 };
        let ghost q = reader.at();
        let mut map_data: Vec<FLevelSequenceLegacyObjectReference> = Vec::new();
        let mut i: u32 = 0;
        assert(prepend(map_data.deep_view(), take_legacy_references(b, q, count as nat)) == take_legacy_references(
            b,
            q,
            count as nat,
        )) by {
            match take_legacy_references(b, q, count as nat) {
                Parse::Parsed(ys, e) => {
                    assert(map_data.deep_view() + ys =~= ys);
                },
                _ => {},
            }
        }
        while i < count
            invariant
                reader.bytes() == b,
                b == old(reader).bytes(),
                i <= count,
                prepend(map_data.deep_view(), take_legacy_references(b, reader.at(), (count - i) as nat))
                    == take_legacy_references(b, q, count as nat),
                Self::parse_n(b, old(reader).at(), name_texts(_name_map), import_names(_import_map))
                    == take_legacy_references(b, q, count as nat),
            decreases count - i,
        {
            let ghost before = map_data.deep_view();
            let x = FLevelSequenceLegacyObjectReference::new(reader)?;
            proof {
                lemma_prepend_assoc(before, x.deep_view(), take_legacy_references(b, reader.at(), (count - i - 1) as nat));
            }
            map_data.push(x);
            assert(map_data.deep_view() =~= before.push(x.deep_view()));
            i = i + 1;
        }
        assert(map_data.deep_view() + Seq::empty() =~= map_data.deep_view());
        Ok(FLevelSequenceObjectReferenceMap { map_data })
    }
}

/// A point of two `u32` coordinates.
#[derive(Debug)]
pub struct FIntPoint {
    pub x: u32,
    pub y: u32,
}

impl DeepView for FIntPoint {
    type V = FIntPoint;

    open spec fn deep_view(&self) -> FIntPoint {
        *self
    }
}

impl NewableWithNameMap for FIntPoint {
    open spec fn parse_n(b: Seq<u8>, p: int, names: Seq<Seq<char>>, imports: Seq<Seq<char>>) -> Parse<FIntPoint> {
        match take_u32(b, p) {
            Parse::Parsed(v0, p0) => {
                match take_u32(b, p0) {
                    Parse::Parsed(v1, p1) => {
                        Parse::Parsed(FIntPoint { x: v0, y: v1 }, p1)
                    },
                    other => other.pass(),
                }
            },
            other => other.pass(),
        }
    }

    fn new_n(reader: &mut Reader, name_map: &NameMap, import_map: &ImportMap) -> (r: ParserResult<Self>) {
        let x = reader.read_u32()?;
        let y = reader.read_u32()?;
        Ok(FIntPoint { x, y })
    }
}

/// A 2D vector.
#[derive(Debug, Clone, Copy)]
pub struct FVector2D {
    /// The bits of an `f32`.
    pub x: u32,
    /// The bits of an `f32`.
    pub y: u32,
}

impl DeepView for FVector2D {
    type V = FVector2D;

    open spec fn deep_view(&self) -> FVector2D {
        *self
    }
}

impl Newable for FVector2D {
    open spec fn parse(b: Seq<u8>, p: int) -> Parse<FVector2D> {
        match take_u32(b, p) {
            Parse::Parsed(v0, p0) => {
                match take_u32(b, p0) {
                    Parse::Parsed(v1, p1) => {
                        Parse::Parsed(FVector2D { x: v0, y: v1 }, p1)
                    },
                    other => other.pass(),
                }
            },
            other => other.pass(),
        }
    }

    fn new(reader: &mut Reader) -> (r: ParserResult<Self>) {
        let x = reader.read_u32()?;
        let y = reader.read_u32()?;
        Ok(FVector2D { x, y })
    }
}

impl NewableWithNameMap for FVector2D {
    open spec fn parse_n(b: Seq<u8>, p: int, names: Seq<Seq<char>>, imports: Seq<Seq<char>>) -> Parse<FVector2D> {
        <FVector2D as Newable>::parse(b, p)
    }

    fn new_n(reader: &mut Reader, _name_map: &NameMap, _import_map: &ImportMap) -> (r: ParserResult<Self>) {
        FVector2D::new(reader)
    }
}

/// A colour of four `f32` channels.
#[derive(Debug)]
pub struct FLinearColor {
    /// The bits of an `f32`.
    pub r: u32,
    /// The bits of an `f32`.
    pub g: u32,
    /// The bits of an `f32`.
    pub b: u32,
    /// The bits of an `f32`.
    pub a: u32,
}

impl DeepView for FLinearColor {
    type V = FLinearColor;

    open spec fn deep_view(&self) -> FLinearColor {
        *self
    }
}

impl NewableWithNameMap for FLinearColor {
    open spec fn parse_n(b: Seq<u8>, p: int, names: Seq<Seq<char>>, imports: Seq<Seq<char>>) -> Parse<FLinearColor> {
        match take_u32(b, p) {
            Parse::Parsed(v0, p0) => {
                match take_u32(b, p0) {
                    Parse::Parsed(v1, p1) => {
                        match take_u32(b, p1) {
                            Parse::Parsed(v2, p2) => {
                                match take_u32(b, p2) {
                                    Parse::Parsed(v3, p3) => {
                                        Parse::Parsed(FLinearColor { r: v0, g: v1, b: v2, a: v3 }, p3)
                                    },
                                    other => other.pass(),
                                }
                            },
                            other => other.pass(),
                        }
                    },
                    other => other.pass(),
                }
            },
            other => other.pass(),
        }
    }

    fn new_n(reader: &mut Reader, name_map: &NameMap, import_map: &ImportMap) -> (r: ParserResult<Self>) {
        let r = reader.read_u32()?;
        let g = reader.read_u32()?;
        let b = reader.read_u32()?;
        let a = reader.read_u32()?;
        Ok(FLinearColor { r, g, b, a })
    }
}

/// A colour of four byte channels, stored blue, green, red, alpha.
#[derive(Debug)]
pub struct FColor {
    pub b: u8,
    pub g: u8,
    pub r: u8,
    pub a: u8,
}

impl DeepView for FColor {
    type V = FColor;

    open spec fn deep_view(&self) -> FColor {
        *self
    }
}

impl Newable for FColor {
    open spec fn parse(b: Seq<u8>, p: int) -> Parse<FColor> {
        match take_u8(b, p) {
            Parse::Parsed(v0, p0) => {
                match take_u8(b, p0) {
                    Parse::Parsed(v1, p1) => {
                        match take_u8(b, p1) {
                            Parse::Parsed(v2, p2) => {
                                match take_u8(b, p2) {
                                    Parse::Parsed(v3, p3) => {
                                        Parse::Parsed(FColor { b: v0, g: v1, r: v2, a: v3 }, p3)
                                    },
                                    other => other.pass(),
                                }
                            },
                            other => other.pass(),
                        }
                    },
                    other => other.pass(),
                }
            },
            other => other.pass(),
        }
    }

    fn new(reader: &mut Reader) -> (r: ParserResult<Self>) {
        let b = reader.read_u8()?;
        let g = reader.read_u8()?;
        let r = reader.read_u8()?;
        let a = reader.read_u8()?;
        Ok(FColor { b, g, r, a })
    }
}

impl NewableWithNameMap for FColor {
    open spec fn parse_n(b: Seq<u8>, p: int, names: Seq<Seq<char>>, imports: Seq<Seq<char>>) -> Parse<FColor> {
        <FColor as Newable>::parse(b, p)
    }

    fn new_n(reader: &mut Reader, _name_map: &NameMap, _import_map: &ImportMap) -> (r: ParserResult<Self>) {
        FColor::new(reader)
    }
}

/// A quaternion.
#[derive(Debug, Clone, Copy)]
pub struct FQuat {
    /// The bits of an `f32`.
    pub x: u32,
    /// The bits of an `f32`.
    pub y: u32,
    /// The bits of an `f32`.
    pub z: u32,
    /// The bits of an `f32`.
    pub w: u32,
}

impl DeepView for FQuat {
    type V = FQuat;

    open spec fn deep_view(&self) -> FQuat {
        *self
    }
}

impl Newable for FQuat {
    open spec fn parse(b: Seq<u8>, p: int) -> Parse<FQuat> {
        match take_u32(b, p) {
            Parse::Parsed(v0, p0) => {
                match take_u32(b, p0) {
                    Parse::Parsed(v1, p1) => {
                        match take_u32(b, p1) {
                            Parse::Parsed(v2, p2) => {
                                match take_u32(b, p2) {
                                    Parse::Parsed(v3, p3) => {
                                        Parse::Parsed(FQuat { x: v0, y: v1, z: v2, w: v3 }, p3)
                                    },
                                    other => other.pass(),
                                }
                            },
                            other => other.pass(),
                        }
                    },
                    other => other.pass(),
                }
            },
            other => other.pass(),
        }
    }

    fn new(reader: &mut Reader) -> (r: ParserResult<Self>) {
        let x = reader.read_u32()?;
        let y = reader.read_u32()?;
        let z = reader.read_u32()?;
        let w = reader.read_u32()?;
        Ok(FQuat { x, y, z, w })
    }
}

/// A 3D vector.
#[derive(Debug, Clone, Copy)]
pub struct FVector {
    /// The bits of an `f32`.
    pub x: u32,
    /// The bits of an `f32`.
    pub y: u32,
    /// The bits of an `f32`.
    pub z: u32,
}

impl DeepView for FVector {
    type V = FVector;

    open spec fn deep_view(&self) -> FVector {
        *self
    }
}

impl Newable for FVector {
    open spec fn parse(b: Seq<u8>, p: int) -> Parse<FVector> {
        match take_u32(b, p) {
            Parse::Parsed(v0, p0) => {
                match take_u32(b, p0) {
                    Parse::Parsed(v1, p1) => {
                        match take_u32(b, p1) {
                            Parse::Parsed(v2, p2) => {
                                Parse::Parsed(FVector { x: v0, y: v1, z: v2 }, p2)
                            },
                            other => other.pass(),
                        }
                    },
                    other => other.pass(),
                }
            },
            other => other.pass(),
        }
    }

    fn new(reader: &mut Reader) -> (r: ParserResult<Self>) {
        let x = reader.read_u32()?;
        let y = reader.read_u32()?;
        let z = reader.read_u32()?;
        Ok(FVector { x, y, z })
    }
}

/// A 4D vector.
#[derive(Debug, Clone, Copy)]
pub struct FVector4 {
    /// The bits of an `f32`.
    pub x: u32,
    /// The bits of an `f32`.
    pub y: u32,
    /// The bits of an `f32`.
    pub z: u32,
    /// The bits of an `f32`.
    pub w: u32,
}

impl DeepView for FVector4 {
    type V = FVector4;

    open spec fn deep_view(&self) -> FVector4 {
        *self
    }
}

impl Newable for FVector4 {
    open spec fn parse(b: Seq<u8>, p: int) -> Parse<FVector4> {
        match take_u32(b, p) {
            Parse::Parsed(v0, p0) => {
                match take_u32(b, p0) {
                    Parse::Parsed(v1, p1) => {
                        match take_u32(b, p1) {
                            Parse::Parsed(v2, p2) => {
                                match take_u32(b, p2) {
                                    Parse::Parsed(v3, p3) => {
                                        Parse::Parsed(FVector4 { x: v0, y: v1, z: v2, w: v3 }, p3)
                                    },
                                    other => other.pass(),
                                }
                            },
                            other => other.pass(),
                        }
                    },
                    other => other.pass(),
                }
            },
            other => other.pass(),
        }
    }

    fn new(reader: &mut Reader) -> (r: ParserResult<Self>) {
        let x = reader.read_u32()?;
        let y = reader.read_u32()?;
        let z = reader.read_u32()?;
        let w = reader.read_u32()?;
        Ok(FVector4 { x, y, z, w })
    }
}

impl NewableWithNameMap for FQuat {
    open spec fn parse_n(b: Seq<u8>, p: int, names: Seq<Seq<char>>, imports: Seq<Seq<char>>) -> Parse<FQuat> {
        <FQuat as Newable>::parse(b, p)
    }

    fn new_n(reader: &mut Reader, _name_map: &NameMap, _import_map: &ImportMap) -> (r: ParserResult<Self>) {
        FQuat::new(reader)
    }
}

impl NewableWithNameMap for FVector {
    open spec fn parse_n(b: Seq<u8>, p: int, names: Seq<Seq<char>>, imports: Seq<Seq<char>>) -> Parse<FVector> {
        <FVector as Newable>::parse(b, p)
    }

    fn new_n(reader: &mut Reader, _name_map: &NameMap, _import_map: &ImportMap) -> (r: ParserResult<Self>) {
        FVector::new(reader)
    }
}

/// Negating an `f32` flips its sign bit.
pub open spec fn negated_bits(x: u32) -> u32 {
    x ^ 0x8000_0000u32
}

/// A quaternion with `x`, `y` and `z` negated.
pub open spec fn conjugated(q: FQuat) -> FQuat {
    FQuat { x: negated_bits(q.x), y: negated_bits(q.y), z: negated_bits(q.z), w: q.w }
}

/// Conjugating twice gives back the quaternion.
pub proof fn lemma_conjugate_twice(q: FQuat)
    ensures
        conjugated(conjugated(q)) == q,
{
    let (x, y, z) = (q.x, q.y, q.z);
    assert(x ^ 0x8000_0000u32 ^ 0x8000_0000u32 == x) by (bit_vector);
    assert(y ^ 0x8000_0000u32 ^ 0x8000_0000u32 == y) by (bit_vector);
    assert(z ^ 0x8000_0000u32 ^ 0x8000_0000u32 == z) by (bit_vector);
}

impl FVector2D {
    /// The components, as the bits of `f32`s.
    pub fn get_tuple(&self) -> (r: (u32, u32))
        ensures
            r == (self.x, self.y),
    {
        (self.x, self.y)
    }
}

impl FQuat {
    /// The components, as the bits of `f32`s.
    pub fn get_tuple(&self) -> (r: (u32, u32, u32, u32))
        ensures
            r == (self.x, self.y, self.z, self.w),
    {
        (self.x, self.y, self.z, self.w)
    }

    /// The conjugate: `x`, `y` and `z` negated, `w` kept.
    pub fn conjugate(&self) -> (r: FQuat)
        ensures
            r == conjugated(*self),
    {
        FQuat { x: self.x ^ 0x8000_0000u32, y: self.y ^ 0x8000_0000u32, z: self.z ^ 0x8000_0000u32, w: self.w }
    }
}

impl FVector {
    /// The components, as the bits of `f32`s.
    pub fn get_tuple(&self) -> (r: (u32, u32, u32))
        ensures
            r == (self.x, self.y, self.z),
    {
        (self.x, self.y, self.z)
    }
}

impl FVector4 {
    /// The components, as the bits of `f32`s.
    pub fn get_tuple(&self) -> (r: (u32, u32, u32, u32))
        ensures
            r == (self.x, self.y, self.z, self.w),
    {
        (self.x, self.y, self.z, self.w)
    }

    /// The first three components, as the bits of `f32`s.
    pub fn get_tuple3(&self) -> (r: (u32, u32, u32))
        ensures
            r == (self.x, self.y, self.z),
    {
        (self.x, self.y, self.z)
    }
}

impl NewableWithNameMap for FVector4 {
    open spec fn parse_n(b: Seq<u8>, p: int, names: Seq<Seq<char>>, imports: Seq<Seq<char>>) -> Parse<FVector4> {
        <FVector4 as Newable>::parse(b, p)
    }

    fn new_n(reader: &mut Reader, _name_map: &NameMap, _import_map: &ImportMap) -> (r: ParserResult<Self>) {
        FVector4::new(reader)
    }
}

/// A rotation as pitch, yaw and roll.
#[derive(Debug)]
pub struct FRotator {
    /// The bits of an `f32`.
    pub pitch: u32,
    /// The bits of an `f32`.
    pub yaw: u32,
    /// The bits of an `f32`.
    pub roll: u32,
}

impl DeepView for FRotator {
    type V = FRotator;

    open spec fn deep_view(&self) -> FRotator {
        *self
    }
}

impl NewableWithNameMap for FRotator {
    open spec fn parse_n(b: Seq<u8>, p: int, names: Seq<Seq<char>>, imports: Seq<Seq<char>>) -> Parse<FRotator> {
        match take_u32(b, p) {
            Parse::Parsed(v0, p0) => {
                match take_u32(b, p0) {
                    Parse::Parsed(v1, p1) => {
                        match take_u32(b, p1) {
                            Parse::Parsed(v2, p2) => {
                                Parse::Parsed(FRotator { pitch: v0, yaw: v1, roll: v2 }, p2)
                            },
                            other => other.pass(),
                        }
                    },
                    other => other.pass(),
                }
            },
            other => other.pass(),
        }
    }

    fn new_n(reader: &mut Reader, name_map: &NameMap, import_map: &ImportMap) -> (r: ParserResult<Self>) {
        let pitch = reader.read_u32()?;
        let yaw = reader.read_u32()?;
        let roll = reader.read_u32()?;
        Ok(FRotator { pitch, yaw, roll })
    }
}

/// An `f32` that may differ per platform.
#[derive(Debug)]
pub struct FPerPlatformFloat {
    pub cooked: bool,
    /// The bits of an `f32`.
    pub value: u32,
}

impl DeepView for FPerPlatformFloat {
    type V = FPerPlatformFloat;

    open spec fn deep_view(&self) -> FPerPlatformFloat {
        *self
    }
}

impl NewableWithNameMap for FPerPlatformFloat {
    open spec fn parse_n(b: Seq<u8>, p: int, names: Seq<Seq<char>>, imports: Seq<Seq<char>>) -> Parse<FPerPlatformFloat> {
        match take_u8(b, p) {
            Parse::Parsed(v0, p0) => {
                match take_u32(b, p0) {
                    Parse::Parsed(v1, p1) => {
                        Parse::Parsed(FPerPlatformFloat { cooked: v0 != 0, value: v1 }, p1)
                    },
                    other => other.pass(),
                }
            },
            other => other.pass(),
        }
    }

    fn new_n(reader: &mut Reader, name_map: &NameMap, import_map: &ImportMap) -> (r: ParserResult<Self>) {
        let cooked = reader.read_u8()? != 0;
        let value = reader.read_u32()?;
        Ok(FPerPlatformFloat { cooked, value })
    }
}

/// A `u32` that may differ per platform.
#[derive(Debug)]
pub struct FPerPlatformInt {
    pub cooked: bool,
    pub value: u32,
}

impl DeepView for FPerPlatformInt {
    type V = FPerPlatformInt;

    open spec fn deep_view(&self) -> FPerPlatformInt {
        *self
    }
}

impl NewableWithNameMap for FPerPlatformInt {
    open spec fn parse_n(b: Seq<u8>, p: int, names: Seq<Seq<char>>, imports: Seq<Seq<char>>) -> Parse<FPerPlatformInt> {
        match take_u8(b, p) {
            Parse::Parsed(v0, p0) => {
                match take_u32(b, p0) {
                    Parse::Parsed(v1, p1) => {
                        Parse::Parsed(FPerPlatformInt { cooked: v0 != 0, value: v1 }, p1)
                    },
                    other => other.pass(),
                }
            },
            other => other.pass(),
        }
    }

    fn new_n(reader: &mut Reader, name_map: &NameMap, import_map: &ImportMap) -> (r: ParserResult<Self>) {
        let cooked = reader.read_u8()? != 0;
        let value = reader.read_u32()?;
        Ok(FPerPlatformInt { cooked, value })
    }
}

/// An alias table for weighted sampling.
#[derive(Debug)]
pub struct FWeightedRandomSampler {
    /// The bits of each `f32` probability.
    pub prob: Vec<u32>,
    pub alias: Vec<i32>,
    /// The bits of an `f32`.
    pub total_weight: u32,
}

/// What a [`FWeightedRandomSampler`] holds, as plain values.
pub struct FWeightedRandomSamplerView {
    pub prob: Seq<u32>,
    pub alias: Seq<i32>,
    pub total_weight: u32,
}

impl DeepView for FWeightedRandomSampler {
    type V = FWeightedRandomSamplerView;

    open spec fn deep_view(&self) -> FWeightedRandomSamplerView {
        FWeightedRandomSamplerView {
            prob: self.prob.deep_view(),
            alias: self.alias.deep_view(),
            total_weight: self.total_weight,
        }
    }
}

impl NewableWithNameMap for FWeightedRandomSampler {
    open spec fn parse_n(b: Seq<u8>, p: int, names: Seq<Seq<char>>, imports: Seq<Seq<char>>) -> Parse<FWeightedRandomSamplerView> {
        match take_tarray::<u32>(b, p) {
            Parse::Parsed(v0, p0) => {
                match take_tarray::<i32>(b, p0) {
                    Parse::Parsed(v1, p1) => {
                        match take_u32(b, p1) {
                            Parse::Parsed(v2, p2) => {
                                Parse::Parsed(FWeightedRandomSamplerView { prob: v0, alias: v1, total_weight: v2 }, p2)
                            },
                            other => other.pass(),
                        }
                    },
                    other => other.pass(),
                }
            },
            other => other.pass(),
        }
    }

    fn new_n(reader: &mut Reader, name_map: &NameMap, import_map: &ImportMap) -> (r: ParserResult<Self>) {
        let prob = read_tarray::<u32>(reader)?;
        let alias = read_tarray::<i32>(reader)?;
        let total_weight = reader.read_u32()?;
        Ok(FWeightedRandomSampler { prob, alias, total_weight })
    }
}

/// A path to an object that is loaded on demand.
#[derive(Debug)]
pub struct FSoftObjectPath {
    pub asset_path_name: String,
    pub sub_path_string: String,
}

/// What a [`FSoftObjectPath`] holds, as plain values.
pub struct FSoftObjectPathView {
    pub asset_path_name: Seq<char>,
    pub sub_path_string: Seq<char>,
}

impl DeepView for FSoftObjectPath {
    type V = FSoftObjectPathView;

    open spec fn deep_view(&self) -> FSoftObjectPathView {
        FSoftObjectPathView {
            asset_path_name: self.asset_path_name@,
            sub_path_string: self.sub_path_string@,
        }
    }
}

impl NewableWithNameMap for FSoftObjectPath {
    open spec fn parse_n(b: Seq<u8>, p: int, names: Seq<Seq<char>>, imports: Seq<Seq<char>>) -> Parse<FSoftObjectPathView> {
        match take_fname(b, p, names) {
            Parse::Parsed(v0, p0) => {
                match take_string(b, p0) {
                    Parse::Parsed(v1, p1) => {
                        Parse::Parsed(FSoftObjectPathView { asset_path_name: v0, sub_path_string: v1 }, p1)
                    },
                    other => other.pass(),
                }
            },
            other => other.pass(),
        }
    }

    fn new_n(reader: &mut Reader, name_map: &NameMap, import_map: &ImportMap) -> (r: ParserResult<Self>) {
        let asset_path_name = read_fname(reader, name_map)?;
        let sub_path_string = read_string(reader)?;
        Ok(FSoftObjectPath { asset_path_name, sub_path_string })
    }
}

/// An object reference of a level sequence, in its legacy form.
#[derive(Debug)]
pub struct FLevelSequenceLegacyObjectReference {
    pub key_guid: FGuid,
    pub object_id: FGuid,
    pub object_path: String,
}

/// What a [`FLevelSequenceLegacyObjectReference`] holds, as plain values.
pub struct FLevelSequenceLegacyObjectReferenceView {
    pub key_guid: FGuid,
    pub object_id: FGuid,
    pub object_path: Seq<char>,
}

impl DeepView for FLevelSequenceLegacyObjectReference {
    type V = FLevelSequenceLegacyObjectReferenceView;

    open spec fn deep_view(&self) -> FLevelSequenceLegacyObjectReferenceView {
        FLevelSequenceLegacyObjectReferenceView {
            key_guid: self.key_guid.deep_view(),
            object_id: self.object_id.deep_view(),
            object_path: self.object_path@,
        }
    }
}

impl Newable for FLevelSequenceLegacyObjectReference {
    open spec fn parse(b: Seq<u8>, p: int) -> Parse<FLevelSequenceLegacyObjectReferenceView> {
        match <FGuid as Newable>::parse(b, p) {
            Parse::Parsed(v0, p0) => {
                match <FGuid as Newable>::parse(b, p0) {
                    Parse::Parsed(v1, p1) => {
                        match take_string(b, p1) {
                            Parse::Parsed(v2, p2) => {
                                Parse::Parsed(FLevelSequenceLegacyObjectReferenceView { key_guid: v0, object_id: v1, object_path: v2 }, p2)
                            },
                            other => other.pass(),
                        }
                    },
                    other => other.pass(),
                }
            },
            other => other.pass(),
        }
    }

    fn new(reader: &mut Reader) -> (r: ParserResult<Self>) {
        let key_guid = <FGuid>::new(reader)?;
        let object_id = <FGuid>::new(reader)?;
        let object_path = read_string(reader)?;
        Ok(FLevelSequenceLegacyObjectReference { key_guid, object_id, object_path })
    }
}

/// A struct that holds a single `i32`.
#[derive(Debug)]
pub struct FI32 {
    pub value: i32,
}

impl DeepView for FI32 {
    type V = FI32;

    open spec fn deep_view(&self) -> FI32 {
        *self
    }
}

impl NewableWithNameMap for FI32 {
    open spec fn parse_n(b: Seq<u8>, p: int, names: Seq<Seq<char>>, imports: Seq<Seq<char>>) -> Parse<FI32> {
        match take_i32(b, p) {
            Parse::Parsed(v0, p0) => {
                Parse::Parsed(FI32 { value: v0 }, p0)
            },
            other => other.pass(),
        }
    }

    fn new_n(reader: &mut Reader, name_map: &NameMap, import_map: &ImportMap) -> (r: ParserResult<Self>) {
        let value = reader.read_i32()?;
        Ok(FI32 { value })
    }
}

/// A struct that holds a single `u32`.
#[derive(Debug)]
pub struct FU32 {
    pub value: u32,
}

impl DeepView for FU32 {
    type V = FU32;

    open spec fn deep_view(&self) -> FU32 {
        *self
    }
}

impl NewableWithNameMap for FU32 {
    open spec fn parse_n(b: Seq<u8>, p: int, names: Seq<Seq<char>>, imports: Seq<Seq<char>>) -> Parse<FU32> {
        match take_u32(b, p) {
            Parse::Parsed(v0, p0) => {
                Parse::Parsed(FU32 { value: v0 }, p0)
            },
            other => other.pass(),
        }
    }

    fn new_n(reader: &mut Reader, name_map: &NameMap, import_map: &ImportMap) -> (r: ParserResult<Self>) {
        let value = reader.read_u32()?;
        Ok(FU32 { value })
    }
}

/// Identifies a section of a track of a sequence.
#[derive(Debug)]
pub struct FMovieSceneEvaluationKey {
    pub sequence_id: u32,
    pub track_identifier: i32,
    pub section_index: u32,
}

impl DeepView for FMovieSceneEvaluationKey {
    type V = FMovieSceneEvaluationKey;

    open spec fn deep_view(&self) -> FMovieSceneEvaluationKey {
        *self
    }
}

impl NewableWithNameMap for FMovieSceneEvaluationKey {
    open spec fn parse_n(b: Seq<u8>, p: int, names: Seq<Seq<char>>, imports: Seq<Seq<char>>) -> Parse<FMovieSceneEvaluationKey> {
        match take_u32(b, p) {
            Parse::Parsed(v0, p0) => {
                match take_i32(b, p0) {
                    Parse::Parsed(v1, p1) => {
                        match take_u32(b, p1) {
                            Parse::Parsed(v2, p2) => {
                                Parse::Parsed(FMovieSceneEvaluationKey { sequence_id: v0, track_identifier: v1, section_index: v2 }, p2)
                            },
                            other => other.pass(),
                        }
                    },
                    other => other.pass(),
                }
            },
            other => other.pass(),
        }
    }

    fn new_n(reader: &mut Reader, name_map: &NameMap, import_map: &ImportMap) -> (r: ParserResult<Self>) {
        let sequence_id = reader.read_u32()?;
        let track_identifier = reader.read_i32()?;
        let section_index = reader.read_u32()?;
        Ok(FMovieSceneEvaluationKey { sequence_id, track_identifier, section_index })
    }
}

/// A name as shown to the user.
#[derive(Debug)]
pub struct FSmartName {
    pub display_name: String,
}

/// What a [`FSmartName`] holds, as plain values.
pub struct FSmartNameView {
    pub display_name: Seq<char>,
}

impl DeepView for FSmartName {
    type V = FSmartNameView;

    open spec fn deep_view(&self) -> FSmartNameView {
        FSmartNameView {
            display_name: self.display_name@,
        }
    }
}

impl NewableWithNameMap for FSmartName {
    open spec fn parse_n(b: Seq<u8>, p: int, names: Seq<Seq<char>>, imports: Seq<Seq<char>>) -> Parse<FSmartNameView> {
        match take_fname(b, p, names) {
            Parse::Parsed(v0, p0) => {
                Parse::Parsed(FSmartNameView { display_name: v0 }, p0)
            },
            other => other.pass(),
        }
    }

    fn new_n(reader: &mut Reader, name_map: &NameMap, import_map: &ImportMap) -> (r: ParserResult<Self>) {
        let display_name = read_fname(reader, name_map)?;
        Ok(FSmartName { display_name })
    }
}

/// A key of a curve with tangents.
#[derive(Debug)]
pub struct FRichCurveKey {
    pub interp_mode: u8,
    pub tangent_mode: u8,
    pub tangent_weight_mode: u8,
    /// The bits of an `f32`.
    pub time: u32,
    /// The bits of an `f32`.
    pub arrive_tangent: u32,
    /// The bits of an `f32`.
    pub arrive_tangent_weight: u32,
    /// The bits of an `f32`.
    pub leave_tangent: u32,
    /// The bits of an `f32`.
    pub leave_tangent_weight: u32,
}

impl DeepView for FRichCurveKey {
    type V = FRichCurveKey;

    open spec fn deep_view(&self) -> FRichCurveKey {
        *self
    }
}

impl NewableWithNameMap for FRichCurveKey {
    open spec fn parse_n(b: Seq<u8>, p: int, names: Seq<Seq<char>>, imports: Seq<Seq<char>>) -> Parse<FRichCurveKey> {
        match take_u8(b, p) {
            Parse::Parsed(v0, p0) => {
                match take_u8(b, p0) {
                    Parse::Parsed(v1, p1) => {
                        match take_u8(b, p1) {
                            Parse::Parsed(v2, p2) => {
                                match take_u32(b, p2) {
                                    Parse::Parsed(v3, p3) => {
                                        match take_u32(b, p3) {
                                            Parse::Parsed(v4, p4) => {
                                                match take_u32(b, p4) {
                                                    Parse::Parsed(v5, p5) => {
                                                        match take_u32(b, p5) {
                                                            Parse::Parsed(v6, p6) => {
                                                                match take_u32(b, p6) {
                                                                    Parse::Parsed(v7, p7) => {
                                                                        Parse::Parsed(FRichCurveKey { interp_mode: v0, tangent_mode: v1, tangent_weight_mode: v2, time: v3, arrive_tangent: v4, arrive_tangent_weight: v5, leave_tangent: v6, leave_tangent_weight: v7 }, p7)
                                                                    },
                                                                    other => other.pass(),
                                                                }
                                                            },
                                                            other => other.pass(),
                                                        }
                                                    },
                                                    other => other.pass(),
                                                }
                                            },
                                            other => other.pass(),
                                        }
                                    },
                                    other => other.pass(),
                                }
                            },
                            other => other.pass(),
                        }
                    },
                    other => other.pass(),
                }
            },
            other => other.pass(),
        }
    }

    fn new_n(reader: &mut Reader, name_map: &NameMap, import_map: &ImportMap) -> (r: ParserResult<Self>) {
        let interp_mode = reader.read_u8()?;
        let tangent_mode = reader.read_u8()?;
        let tangent_weight_mode = reader.read_u8()?;
        let time = reader.read_u32()?;
        let arrive_tangent = reader.read_u32()?;
        let arrive_tangent_weight = reader.read_u32()?;
        let leave_tangent = reader.read_u32()?;
        let leave_tangent_weight = reader.read_u32()?;
        Ok(FRichCurveKey { interp_mode, tangent_mode, tangent_weight_mode, time, arrive_tangent, arrive_tangent_weight, leave_tangent, leave_tangent_weight })
    }
}

/// A key of a curve without tangents.
#[derive(Debug)]
pub struct FSimpleCurveKey {
    /// The bits of an `f32`.
    pub time: u32,
    /// The bits of an `f32`.
    pub value: u32,
}

impl DeepView for FSimpleCurveKey {
    type V = FSimpleCurveKey;

    open spec fn deep_view(&self) -> FSimpleCurveKey {
        *self
    }
}

impl NewableWithNameMap for FSimpleCurveKey {
    open spec fn parse_n(b: Seq<u8>, p: int, names: Seq<Seq<char>>, imports: Seq<Seq<char>>) -> Parse<FSimpleCurveKey> {
        match take_u32(b, p) {
            Parse::Parsed(v0, p0) => {
                match take_u32(b, p0) {
                    Parse::Parsed(v1, p1) => {
                        Parse::Parsed(FSimpleCurveKey { time: v0, value: v1 }, p1)
                    },
                    other => other.pass(),
                }
            },
            other => other.pass(),
        }
    }

    fn new_n(reader: &mut Reader, name_map: &NameMap, import_map: &ImportMap) -> (r: ParserResult<Self>) {
        let time = reader.read_u32()?;
        let value = reader.read_u32()?;
        Ok(FSimpleCurveKey { time, value })
    }
}

/// A range of frames.
#[derive(Debug)]
pub struct FMovieSceneFrameRange {
    pub value: TRange<i32>,
}

/// What a [`FMovieSceneFrameRange`] holds, as plain values.
pub struct FMovieSceneFrameRangeView {
    pub value: TRangeView<i32>,
}

impl DeepView for FMovieSceneFrameRange {
    type V = FMovieSceneFrameRangeView;

    open spec fn deep_view(&self) -> FMovieSceneFrameRangeView {
        FMovieSceneFrameRangeView {
            value: self.value.deep_view(),
        }
    }
}

impl NewableWithNameMap for FMovieSceneFrameRange {
    open spec fn parse_n(b: Seq<u8>, p: int, names: Seq<Seq<char>>, imports: Seq<Seq<char>>) -> Parse<FMovieSceneFrameRangeView> {
        match <TRange<i32> as Newable>::parse(b, p) {
            Parse::Parsed(v0, p0) => {
                Parse::Parsed(FMovieSceneFrameRangeView { value: v0 }, p0)
            },
            other => other.pass(),
        }
    }

    fn new_n(reader: &mut Reader, name_map: &NameMap, import_map: &ImportMap) -> (r: ParserResult<Self>) {
        let value = <TRange<i32>>::new(reader)?;
        Ok(FMovieSceneFrameRange { value })
    }
}

/// A handle to an entry of an evaluation tree.
#[derive(Debug)]
pub struct FEvaluationTreeEntryHandle {
    pub entry_index: i32,
}

impl DeepView for FEvaluationTreeEntryHandle {
    type V = FEvaluationTreeEntryHandle;

    open spec fn deep_view(&self) -> FEvaluationTreeEntryHandle {
        *self
    }
}

impl Newable for FEvaluationTreeEntryHandle {
    open spec fn parse(b: Seq<u8>, p: int) -> Parse<FEvaluationTreeEntryHandle> {
        match take_i32(b, p) {
            Parse::Parsed(v0, p0) => {
                Parse::Parsed(FEvaluationTreeEntryHandle { entry_index: v0 }, p0)
            },
            other => other.pass(),
        }
    }

    fn new(reader: &mut Reader) -> (r: ParserResult<Self>) {
        let entry_index = reader.read_i32()?;
        Ok(FEvaluationTreeEntryHandle { entry_index })
    }
}

/// A handle to a node of an evaluation tree.
#[derive(Debug)]
pub struct FMovieSceneEvaluationTreeNodeHandle {
    pub children_handle: FEvaluationTreeEntryHandle,
    pub index: i32,
}

impl DeepView for FMovieSceneEvaluationTreeNodeHandle {
    type V = FMovieSceneEvaluationTreeNodeHandle;

    open spec fn deep_view(&self) -> FMovieSceneEvaluationTreeNodeHandle {
        *self
    }
}

impl Newable for FMovieSceneEvaluationTreeNodeHandle {
    open spec fn parse(b: Seq<u8>, p: int) -> Parse<FMovieSceneEvaluationTreeNodeHandle> {
        match <FEvaluationTreeEntryHandle as Newable>::parse(b, p) {
            Parse::Parsed(v0, p0) => {
                match take_i32(b, p0) {
                    Parse::Parsed(v1, p1) => {
                        Parse::Parsed(FMovieSceneEvaluationTreeNodeHandle { children_handle: v0, index: v1 }, p1)
                    },
                    other => other.pass(),
                }
            },
            other => other.pass(),
        }
    }

    fn new(reader: &mut Reader) -> (r: ParserResult<Self>) {
        let children_handle = <FEvaluationTreeEntryHandle>::new(reader)?;
        let index = reader.read_i32()?;
        Ok(FMovieSceneEvaluationTreeNodeHandle { children_handle, index })
    }
}

/// A node of an evaluation tree.
#[derive(Debug)]
pub struct FMovieSceneEvaluationTreeNode {
    pub range: TRange<i32>,
    pub parent: FMovieSceneEvaluationTreeNodeHandle,
    pub children_id: FEvaluationTreeEntryHandle,
    pub data_id: FEvaluationTreeEntryHandle,
}

/// What a [`FMovieSceneEvaluationTreeNode`] holds, as plain values.
pub struct FMovieSceneEvaluationTreeNodeView {
    pub range: TRangeView<i32>,
    pub parent: FMovieSceneEvaluationTreeNodeHandle,
    pub children_id: FEvaluationTreeEntryHandle,
    pub data_id: FEvaluationTreeEntryHandle,
}

impl DeepView for FMovieSceneEvaluationTreeNode {
    type V = FMovieSceneEvaluationTreeNodeView;

    open spec fn deep_view(&self) -> FMovieSceneEvaluationTreeNodeView {
        FMovieSceneEvaluationTreeNodeView {
            range: self.range.deep_view(),
            parent: self.parent.deep_view(),
            children_id: self.children_id.deep_view(),
            data_id: self.data_id.deep_view(),
        }
    }
}

impl Newable for FMovieSceneEvaluationTreeNode {
    open spec fn parse(b: Seq<u8>, p: int) -> Parse<FMovieSceneEvaluationTreeNodeView> {
        match <TRange<i32> as Newable>::parse(b, p) {
            Parse::Parsed(v0, p0) => {
                match <FMovieSceneEvaluationTreeNodeHandle as Newable>::parse(b, p0) {
                    Parse::Parsed(v1, p1) => {
                        match <FEvaluationTreeEntryHandle as Newable>::parse(b, p1) {
                            Parse::Parsed(v2, p2) => {
                                match <FEvaluationTreeEntryHandle as Newable>::parse(b, p2) {
                                    Parse::Parsed(v3, p3) => {
                                        Parse::Parsed(FMovieSceneEvaluationTreeNodeView { range: v0, parent: v1, children_id: v2, data_id: v3 }, p3)
                                    },
                                    other => other.pass(),
                                }
                            },
                            other => other.pass(),
                        }
                    },
                    other => other.pass(),
                }
            },
            other => other.pass(),
        }
    }

    fn new(reader: &mut Reader) -> (r: ParserResult<Self>) {
        let range = <TRange<i32>>::new(reader)?;
        let parent = <FMovieSceneEvaluationTreeNodeHandle>::new(reader)?;
        let children_id = <FEvaluationTreeEntryHandle>::new(reader)?;
        let data_id = <FEvaluationTreeEntryHandle>::new(reader)?;
        Ok(FMovieSceneEvaluationTreeNode { range, parent, children_id, data_id })
    }
}

/// Where an entry of an evaluation tree lies among its items.
#[derive(Debug)]
pub struct FEntry {
    pub start_index: i32,
    pub size: i32,
    pub capacity: i32,
}

impl DeepView for FEntry {
    type V = FEntry;

    open spec fn deep_view(&self) -> FEntry {
        *self
    }
}

impl Newable for FEntry {
    open spec fn parse(b: Seq<u8>, p: int) -> Parse<FEntry> {
        match take_i32(b, p) {
            Parse::Parsed(v0, p0) => {
                match take_i32(b, p0) {
                    Parse::Parsed(v1, p1) => {
                        match take_i32(b, p1) {
                            Parse::Parsed(v2, p2) => {
                                Parse::Parsed(FEntry { start_index: v0, size: v1, capacity: v2 }, p2)
                            },
                            other => other.pass(),
                        }
                    },
                    other => other.pass(),
                }
            },
            other => other.pass(),
        }
    }

    fn new(reader: &mut Reader) -> (r: ParserResult<Self>) {
        let start_index = reader.read_i32()?;
        let size = reader.read_i32()?;
        let capacity = reader.read_i32()?;
        Ok(FEntry { start_index, size, capacity })
    }
}

/// Entries, then the items that they index.
#[derive(Debug)]
pub struct TEvaluationTreeEntryContainer<T> {
    pub entries: Vec<FEntry>,
    pub items: Vec<T>,
}

/// What a [`TEvaluationTreeEntryContainer`] holds, as plain values.
pub struct TEvaluationTreeEntryContainerView<V> {
    pub entries: Seq<FEntry>,
    pub items: Seq<V>,
}

impl<T: DeepView> DeepView for TEvaluationTreeEntryContainer<T> {
    type V = TEvaluationTreeEntryContainerView<T::V>;

    open spec fn deep_view(&self) -> TEvaluationTreeEntryContainerView<T::V> {
        TEvaluationTreeEntryContainerView { entries: self.entries.deep_view(), items: self.items.deep_view() }
    }
}

impl<T: Newable> Newable for TEvaluationTreeEntryContainer<T> {
    open spec fn parse(b: Seq<u8>, p: int) -> Parse<TEvaluationTreeEntryContainerView<T::V>> {
        match take_tarray::<FEntry>(b, p) {
            Parse::Parsed(entries, q) => match take_tarray::<T>(b, q) {
                Parse::Parsed(items, e) => Parse::Parsed(TEvaluationTreeEntryContainerView { entries, items }, e),
                other => other.pass(),
            },
            other => other.pass(),
        }
    }

    fn new(reader: &mut Reader) -> (r: ParserResult<Self>) {
        let entries = read_tarray::<FEntry>(reader)?;
        let items = read_tarray::<T>(reader)?;
        Ok(TEvaluationTreeEntryContainer { entries, items })
    }
}

/// An evaluation tree: its root, then its other nodes.
#[derive(Debug)]
pub struct FMovieSceneEvaluationTree {
    pub root_node: FMovieSceneEvaluationTreeNode,
    pub child_nodes: TEvaluationTreeEntryContainer<FMovieSceneEvaluationTreeNode>,
}

/// What a [`FMovieSceneEvaluationTree`] holds, as plain values.
pub struct FMovieSceneEvaluationTreeView {
    pub root_node: FMovieSceneEvaluationTreeNodeView,
    pub child_nodes: TEvaluationTreeEntryContainerView<FMovieSceneEvaluationTreeNodeView>,
}

impl DeepView for FMovieSceneEvaluationTree {
    type V = FMovieSceneEvaluationTreeView;

    open spec fn deep_view(&self) -> FMovieSceneEvaluationTreeView {
        FMovieSceneEvaluationTreeView {
            root_node: self.root_node.deep_view(),
            child_nodes: self.child_nodes.deep_view(),
        }
    }
}

impl Newable for FMovieSceneEvaluationTree {
    open spec fn parse(b: Seq<u8>, p: int) -> Parse<FMovieSceneEvaluationTreeView> {
        match <FMovieSceneEvaluationTreeNode as Newable>::parse(b, p) {
            Parse::Parsed(v0, p0) => {
                match <TEvaluationTreeEntryContainer<FMovieSceneEvaluationTreeNode> as Newable>::parse(b, p0) {
                    Parse::Parsed(v1, p1) => {
                        Parse::Parsed(FMovieSceneEvaluationTreeView { root_node: v0, child_nodes: v1 }, p1)
                    },
                    other => other.pass(),
                }
            },
            other => other.pass(),
        }
    }

    fn new(reader: &mut Reader) -> (r: ParserResult<Self>) {
        let root_node = <FMovieSceneEvaluationTreeNode>::new(reader)?;
        let child_nodes = <TEvaluationTreeEntryContainer<FMovieSceneEvaluationTreeNode>>::new(reader)?;
        Ok(FMovieSceneEvaluationTree { root_node, child_nodes })
    }
}

/// The value of an interface property.
#[derive(Debug)]
pub struct UInterfaceProperty {
    pub interface_number: u32,
}

impl DeepView for UInterfaceProperty {
    type V = UInterfaceProperty;

    open spec fn deep_view(&self) -> UInterfaceProperty {
        *self
    }
}

impl NewableWithNameMap for UInterfaceProperty {
    open spec fn parse_n(b: Seq<u8>, p: int, names: Seq<Seq<char>>, imports: Seq<Seq<char>>) -> Parse<UInterfaceProperty> {
        match take_u32(b, p) {
            Parse::Parsed(v0, p0) => {
                Parse::Parsed(UInterfaceProperty { interface_number: v0 }, p0)
            },
            other => other.pass(),
        }
    }

    fn new_n(reader: &mut Reader, name_map: &NameMap, import_map: &ImportMap) -> (r: ParserResult<Self>) {
        let interface_number = reader.read_u32()?;
        Ok(UInterfaceProperty { interface_number })
    }
}


/// The fixed layouts of the small value types, each component little-endian
/// in the order named: a 2D vector is `x` then `y`; a point `x` then `y`; a
/// linear colour `r`, `g`, `b`, `a`; a colour's bytes `b`, `g`, `r`, `a`; a
/// quaternion `x`, `y`, `z`, `w`; a vector `x`, `y`, `z`; a 4D vector `x`,
/// `y`, `z`, `w`; a rotator `pitch`, `yaw`, `roll`; a simple curve key
/// `time` then `value`; a rich curve key three mode bytes (interpolation,
/// tangent, tangent weight) then `time`, the arrive tangent and its weight,
/// and the leave tangent and its weight.
pub proof fn lemma_value_layouts(b: Seq<u8>, p: int, names: Seq<Seq<char>>, imports: Seq<Seq<char>>)
    ensures
        fits(b, p, 8) ==> <FVector2D as Newable>::parse(b, p) == Parse::Parsed(
            FVector2D { x: le_u32(b, p), y: le_u32(b, p + 4) },
            p + 8,
        ),
        fits(b, p, 8) ==> <FIntPoint as NewableWithNameMap>::parse_n(b, p, names, imports) == Parse::Parsed(
            FIntPoint { x: le_u32(b, p), y: le_u32(b, p + 4) },
            p + 8,
        ),
        fits(b, p, 16) ==> <FLinearColor as NewableWithNameMap>::parse_n(b, p, names, imports) == Parse::Parsed(
            FLinearColor { r: le_u32(b, p), g: le_u32(b, p + 4), b: le_u32(b, p + 8), a: le_u32(b, p + 12) },
            p + 16,
        ),
        fits(b, p, 4) ==> <FColor as Newable>::parse(b, p) == Parse::Parsed(
            FColor { b: b[p], g: b[p + 1], r: b[p + 2], a: b[p + 3] },
            p + 4,
        ),
        fits(b, p, 16) ==> <FQuat as Newable>::parse(b, p) == Parse::Parsed(
            FQuat { x: le_u32(b, p), y: le_u32(b, p + 4), z: le_u32(b, p + 8), w: le_u32(b, p + 12) },
            p + 16,
        ),
        fits(b, p, 12) ==> <FVector as Newable>::parse(b, p) == Parse::Parsed(
            FVector { x: le_u32(b, p), y: le_u32(b, p + 4), z: le_u32(b, p + 8) },
            p + 12,
        ),
        fits(b, p, 16) ==> <FVector4 as Newable>::parse(b, p) == Parse::Parsed(
            FVector4 { x: le_u32(b, p), y: le_u32(b, p + 4), z: le_u32(b, p + 8), w: le_u32(b, p + 12) },
            p + 16,
        ),
        fits(b, p, 12) ==> <FRotator as NewableWithNameMap>::parse_n(b, p, names, imports) == Parse::Parsed(
            FRotator { pitch: le_u32(b, p), yaw: le_u32(b, p + 4), roll: le_u32(b, p + 8) },
            p + 12,
        ),
        fits(b, p, 8) ==> <FSimpleCurveKey as NewableWithNameMap>::parse_n(b, p, names, imports) == Parse::Parsed(
            FSimpleCurveKey { time: le_u32(b, p), value: le_u32(b, p + 4) },
            p + 8,
        ),
        fits(b, p, 23) ==> <FRichCurveKey as NewableWithNameMap>::parse_n(b, p, names, imports) == Parse::Parsed(
            FRichCurveKey {
                interp_mode: b[p],
                tangent_mode: b[p + 1],
                tangent_weight_mode: b[p + 2],
                time: le_u32(b, p + 3),
                arrive_tangent: le_u32(b, p + 7),
                arrive_tangent_weight: le_u32(b, p + 11),
                leave_tangent: le_u32(b, p + 15),
                leave_tangent_weight: le_u32(b, p + 19),
            },
            p + 23,
        ),
{
}


/// The conjugate keeps `w` and negates `x`, `y` and `z` as `f32` negation
/// does: the sign bit (bit 31) of each is flipped and the other 31 bits are
/// kept.
pub proof fn lemma_conjugate_negates(q: FQuat)
    ensures
        conjugated(q).w == q.w,
        conjugated(q).x % 0x8000_0000 == q.x % 0x8000_0000,
        conjugated(q).y % 0x8000_0000 == q.y % 0x8000_0000,
        conjugated(q).z % 0x8000_0000 == q.z % 0x8000_0000,
        conjugated(q).x / 0x8000_0000 == 1 - q.x / 0x8000_0000,
        conjugated(q).y / 0x8000_0000 == 1 - q.y / 0x8000_0000,
        conjugated(q).z / 0x8000_0000 == 1 - q.z / 0x8000_0000,
{
    let (x, y, z) = (q.x, q.y, q.z);
    assert((x ^ 0x8000_0000u32) % 0x8000_0000 == x % 0x8000_0000 && (x ^ 0x8000_0000u32) / 0x8000_0000 == 1 - x
        / 0x8000_0000) by (bit_vector);
    assert((y ^ 0x8000_0000u32) % 0x8000_0000 == y % 0x8000_0000 && (y ^ 0x8000_0000u32) / 0x8000_0000 == 1 - y
        / 0x8000_0000) by (bit_vector);
    assert((z ^ 0x8000_0000u32) % 0x8000_0000 == z % 0x8000_0000 && (z ^ 0x8000_0000u32) / 0x8000_0000 == 1 - z
        / 0x8000_0000) by (bit_vector);
}


/// Per-platform values are a cooked byte (set when not zero) then the value
/// (the bits of an `f32`, or a `u32`); an evaluation key is the sequence ID
/// (`u32`), the track identifier (`i32`) and the section index (`u32`).
pub proof fn lemma_platform_value_layouts(b: Seq<u8>, p: int, names: Seq<Seq<char>>, imports: Seq<Seq<char>>)
    ensures
        fits(b, p, 5) ==> <FPerPlatformFloat as NewableWithNameMap>::parse_n(b, p, names, imports) == Parse::Parsed(
            FPerPlatformFloat { cooked: b[p] != 0, value: le_u32(b, p + 1) },
            p + 5,
        ),
        fits(b, p, 5) ==> <FPerPlatformInt as NewableWithNameMap>::parse_n(b, p, names, imports) == Parse::Parsed(
            FPerPlatformInt { cooked: b[p] != 0, value: le_u32(b, p + 1) },
            p + 5,
        ),
        fits(b, p, 12) ==> <FMovieSceneEvaluationKey as NewableWithNameMap>::parse_n(b, p, names, imports)
            == Parse::Parsed(
            FMovieSceneEvaluationKey {
                sequence_id: le_u32(b, p),
                track_identifier: crate::reader::signed32(le_u32(b, p + 4)),
                section_index: le_u32(b, p + 8),
            },
            p + 12,
        ),
{
}

} // verus!
