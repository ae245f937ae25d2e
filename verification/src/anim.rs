//! Animation sequences: the compressed key stream, read track by track.
//!
//! Keys are kept as they are stored (the bits of `f32`s, fixed-point words,
//! packed words with their ranges); turning them into floating-point
//! vectors is left to the caller.

use vstd::prelude::*;
use crate::error::{ParserError, ParserResult};
use crate::mesh::{take_halfwords, FStripDataFlags};
use crate::names::{import_names, name_texts, ImportMap, NameMap};
use crate::newable::{lemma_prepend_assoc, prepend, read_tarray, take_tarray, Newable};
use crate::objects::{take_object, ObjectView, PackageExport, UObject};
use crate::properties::{lift, read_properties, take_properties};
use crate::reader::{fits, le_u32, signed32, outcome, outcome_as, take_bytes, take_i32, take_u16, take_u32, take_u8, Parse, Reader};
use crate::structs::FVector;
use crate::summary::FGuid;
use crate::text::{decimal, decimal_text, join, text};

verus! {

/// How the keys of a track are stored.
#[derive(Debug, Clone, Copy, PartialEq, Eq, Structural)]
pub enum AnimationCompressionFormat {
    /// No compression (the format's first kind).
    Uncompressed,
    Float96NoW,
    Fixed48NoW,
    IntervalFixed32NoW,
    Fixed32NoW,
    Float32NoW,
    Identity,
}

/// The formats by their number, 0 to 6.
pub open spec fn format_of(n: u32) -> AnimationCompressionFormat {
    if n == 0 {
        AnimationCompressionFormat::Uncompressed
    } else if n == 1 {
        AnimationCompressionFormat::Float96NoW
    } else if n == 2 {
        AnimationCompressionFormat::Fixed48NoW
    } else if n == 3 {
        AnimationCompressionFormat::IntervalFixed32NoW
    } else if n == 4 {
        AnimationCompressionFormat::Fixed32NoW
    } else if n == 5 {
        AnimationCompressionFormat::Float32NoW
    } else {
        AnimationCompressionFormat::Identity
    }
}

/// The header of a track's keys.
#[derive(Debug, Clone, Copy)]
pub struct FAnimKeyHeader {
    pub key_format: AnimationCompressionFormat,
    pub component_mask: u32,
    pub num_keys: u32,
    pub has_time_tracks: bool,
}

impl DeepView for FAnimKeyHeader {
    type V = FAnimKeyHeader;

    open spec fn deep_view(&self) -> FAnimKeyHeader {
        *self
    }
}

/// The message of a key format above 6.
pub open spec fn format_message(packed: u32) -> Seq<char> {
    "Unsupported format: "@ + decimal((packed >> 28u32) as int) + " "@ + decimal(((packed >> 24u32) & 0xFu32) as int)
        + " "@ + decimal((packed & 0xFFFFFFu32) as int) + ": "@ + decimal(packed as int)
}

impl Newable for FAnimKeyHeader {
    /// A packed `u32`: the format in the top four bits, the component mask in
    /// the next four, the key count in the low 24; bit 3 of the mask says
    /// that key times follow. A format above 6 is an error.
    open spec fn parse(b: Seq<u8>, p: int) -> Parse<FAnimKeyHeader> {
        match take_u32(b, p) {
            Parse::Parsed(packed, e) => {
                let format = packed >> 28u32;
                let component_mask = (packed >> 24u32) & 0xFu32;
                if format > 6 {
                    Parse::Failed(seq![format_message(packed)], e)
                } else {
                    Parse::Parsed(
                        FAnimKeyHeader {
                            key_format: format_of(format),
                            component_mask,
                            num_keys: packed & 0xFFFFFFu32,
                            has_time_tracks: component_mask & 8 != 0,
                        },
                        e,
                    )
                }
            },
            other => other.pass(),
        }
    }

    fn new(reader: &mut Reader) -> (r: ParserResult<Self>) {
        let packed = reader.read_u32()?;
        let key_format_i = packed >> 28u32;
        let component_mask = (packed >> 24u32) & 0xFu32;
        let num_keys = packed & 0xFFFFFFu32;
        let key_format = if key_format_i == 0 {
            AnimationCompressionFormat::Uncompressed
        } else if key_format_i == 1 {
            AnimationCompressionFormat::Float96NoW
        } else if key_format_i == 2 {
            AnimationCompressionFormat::Fixed48NoW
        } else if key_format_i == 3 {
            AnimationCompressionFormat::IntervalFixed32NoW
        } else if key_format_i == 4 {
            AnimationCompressionFormat::Fixed32NoW
        } else if key_format_i == 5 {
            AnimationCompressionFormat::Float32NoW
        } else if key_format_i == 6 {
            AnimationCompressionFormat::Identity
        } else {
            let msg = join(
                join(
                    join(
                        join(
                            join(
                                join(join(text("Unsupported format: "), decimal_text(key_format_i as i128).as_str()), " "),
                                decimal_text(component_mask as i128).as_str(),
                            ),
                            " ",
                        ),
                        decimal_text(num_keys as i128).as_str(),
                    ),
                    ": ",
                ),
                decimal_text(packed as i128).as_str(),
            );
            return Err(ParserError::new(msg));
        };
        Ok(FAnimKeyHeader { key_format, component_mask, num_keys, has_time_tracks: (component_mask & 8) != 0 })
    }
}

/// The next multiple of four from `p`.
pub open spec fn align4(p: int) -> int {
    if p % 4 == 0 {
        p
    } else {
        p + 4 - p % 4
    }
}

/// The message of a seek past `u64::MAX`.
pub open spec fn seek_message() -> Seq<char> {
    "File Error: invalid seek to a negative or overflowing position"@
}

/// Moving on to the next multiple of four: an error when that lies past
/// `u64::MAX`.
pub open spec fn take_align(p: int) -> Parse<()> {
    if align4(p) > u64::MAX {
        Parse::Failed(seq![seek_message()], p)
    } else {
        Parse::Parsed((), align4(p))
    }
}

/// Moves the reader on to the next multiple of four.
pub fn align_reader(reader: &mut Reader) -> (r: ParserResult<()>)
    ensures
        final(reader).bytes() == old(reader).bytes(),
        outcome(r, take_align(old(reader).at()), *final(reader)),
        r is Ok ==> final(reader).at() % 4 == 0,
{
    let pos = reader.position();
    let offset = pos % 4;
    if offset != 0 {
        if pos > u64::MAX - (4 - offset) {
            return Err(ParserError::new(text("File Error: invalid seek to a negative or overflowing position")));
        }
        reader.seek_to(pos + (4 - offset));
    }
    Ok(())
}

/// The times of a track's keys, as frame numbers: nothing for one key or
/// none; otherwise, after aligning to four bytes, one `u8` per key when the
/// sequence has fewer than 256 frames and one `u16` per key otherwise (a
/// negative frame count counting as a large one).
pub open spec fn take_times(b: Seq<u8>, p: int, num_keys: u32, num_frames: i32) -> Parse<Seq<u16>> {
    if num_keys <= 1 {
        Parse::Parsed(Seq::empty(), p)
    } else {
        match take_align(p) {
            Parse::Parsed(_, q) => {
                if 0 <= num_frames < 256 {
                    lift(take_bytes(b, q, num_keys as int), |s: Seq<u8>| s.map_values(|x: u8| x as u16))
                } else {
                    take_halfwords(b, q, num_keys as nat)
                }
            },
            other => other.pass(),
        }
    }
}

/// Reads the times of a track's keys.
pub fn read_times(reader: &mut Reader, num_keys: u32, num_frames: i32) -> (r: ParserResult<Vec<u16>>)
    ensures
        final(reader).bytes() == old(reader).bytes(),
        outcome_as(r, take_times(old(reader).bytes(), old(reader).at(), num_keys, num_frames), *final(reader), |v: Vec<u16>| v@),
{
    let ghost b = reader.bytes();
    let mut times: Vec<u16> = Vec::new();
    if num_keys <= 1 {
        return Ok(times);
    }
    align_reader(reader)?;
    let ghost q = reader.at();
    let small = 0 <= num_frames && num_frames < 256;
    let mut i: u32 = 0;
    while i < num_keys
        invariant
            reader.bytes() == b,
            b == old(reader).bytes(),
            q == align4(old(reader).at()),
            take_align(old(reader).at()) == Parse::<()>::Parsed((), q),
            num_keys > 1,
            i <= num_keys,
            small == (0 <= num_frames < 256),
            reader.at() == q + (if small { i as int } else { 2 * i }),
            small && i > 0 ==> fits(b, q, i as int),
            !small && i > 0 ==> fits(b, q, 2 * i),
            times@.len() == i,
            forall|k: int|
                0 <= k < i ==> #[trigger] times@[k] == (if small {
                    b[q + k] as u16
                } else {
                    crate::reader::le_u16(b, q + 2 * k)
                }),
        decreases num_keys - i,
    {
        if small {
            let v = reader.read_u8()?;
            times.push(v as u16);
        } else {
            let v = reader.read_u16()?;
            times.push(v);
        }
        i = i + 1;
    }
    if small {
        assert(times@ =~= b.subrange(q, q + num_keys).map_values(|x: u8| x as u16));
    } else {
        assert(times@ =~= Seq::new(num_keys as nat, |k: int| crate::reader::le_u16(b, q + 2 * k)));
    }
    Ok(times)
}


/// The range of each component of a track's packed keys: the bits of the
/// minimum and of the extent (`f32`s), for the components that the mask
/// names.
#[derive(Debug, Clone, Copy)]
pub struct KeyRange {
    pub x: Option<(u32, u32)>,
    pub y: Option<(u32, u32)>,
    pub z: Option<(u32, u32)>,
}

impl DeepView for KeyRange {
    type V = KeyRange;

    open spec fn deep_view(&self) -> KeyRange {
        *self
    }
}

/// One key of a track, as stored.
#[derive(Debug, Clone, Copy)]
pub enum TrackKey {
    /// Full-precision components, as the bits of `f32`s; a component that
    /// the mask leaves out is absent.
    Float { x: Option<u32>, y: Option<u32>, z: Option<u32> },
    /// 16-bit fixed-point components; a component that the mask leaves out
    /// is absent.
    Fixed48 { x: Option<u16>, y: Option<u16>, z: Option<u16> },
    /// One word holding three packed components, with the track's range.
    IntervalFixed32 { packed: u32, range: KeyRange },
}

impl DeepView for TrackKey {
    type V = TrackKey;

    open spec fn deep_view(&self) -> TrackKey {
        *self
    }
}

/// A `u32` when `present`, and nothing otherwise.
pub open spec fn take_word_if(b: Seq<u8>, p: int, present: bool) -> Parse<Option<u32>> {
    if present {
        lift(take_u32(b, p), |v: u32| Some(v))
    } else {
        Parse::Parsed(None, p)
    }
}

/// A `u16` when `present`, and nothing otherwise.
pub open spec fn take_half_if(b: Seq<u8>, p: int, present: bool) -> Parse<Option<u16>> {
    if present {
        lift(take_u16(b, p), |v: u16| Some(v))
    } else {
        Parse::Parsed(None, p)
    }
}

/// Two `u32`s when `present`, and nothing otherwise.
pub open spec fn take_pair_if(b: Seq<u8>, p: int, present: bool) -> Parse<Option<(u32, u32)>> {
    if present {
        match take_u32(b, p) {
            Parse::Parsed(min, q) => lift(take_u32(b, q), |max: u32| Some((min, max))),
            other => other.pass(),
        }
    } else {
        Parse::Parsed(None, p)
    }
}

fn read_word_if(reader: &mut Reader, present: bool) -> (r: ParserResult<Option<u32>>)
    ensures
        final(reader).bytes() == old(reader).bytes(),
        outcome(r, take_word_if(old(reader).bytes(), old(reader).at(), present), *final(reader)),
{
    if present {
        Ok(Some(reader.read_u32()?))
    } else {
        Ok(None)
    }
}

fn read_half_if(reader: &mut Reader, present: bool) -> (r: ParserResult<Option<u16>>)
    ensures
        final(reader).bytes() == old(reader).bytes(),
        outcome(r, take_half_if(old(reader).bytes(), old(reader).at(), present), *final(reader)),
{
    if present {
        Ok(Some(reader.read_u16()?))
    } else {
        Ok(None)
    }
}

fn read_pair_if(reader: &mut Reader, present: bool) -> (r: ParserResult<Option<(u32, u32)>>)
    ensures
        final(reader).bytes() == old(reader).bytes(),
        outcome(r, take_pair_if(old(reader).bytes(), old(reader).at(), present), *final(reader)),
{
    if present {
        let min = reader.read_u32()?;
        let max = reader.read_u32()?;
        Ok(Some((min, max)))
    } else {
        Ok(None)
    }
}

/// The ranges, which only packed keys have: for each component that the
/// mask names, its minimum and then its extent.
pub open spec fn take_range(b: Seq<u8>, p: int, h: FAnimKeyHeader) -> Parse<KeyRange> {
    if h.key_format == AnimationCompressionFormat::IntervalFixed32NoW {
        match take_pair_if(b, p, h.component_mask & 1 != 0) {
            Parse::Parsed(x, p0) => match take_pair_if(b, p0, h.component_mask & 2 != 0) {
                Parse::Parsed(y, p1) => match take_pair_if(b, p1, h.component_mask & 4 != 0) {
                    Parse::Parsed(z, e) => Parse::Parsed(KeyRange { x, y, z }, e),
                    other => other.pass(),
                },
                other => other.pass(),
            },
            other => other.pass(),
        }
    } else {
        Parse::Parsed(KeyRange { x: None, y: None, z: None }, p)
    }
}

/// For packed keys, the ranges are laid out component by component, x, y
/// then z, each that the mask names taking eight bytes: the minimum's bits
/// first, then the extent's. Other formats have no ranges and read nothing.
pub proof fn lemma_range_layout(b: Seq<u8>, p: int, h: FAnimKeyHeader)
    requires
        h.key_format == AnimationCompressionFormat::IntervalFixed32NoW ==> fits(
            b,
            p,
            (if h.component_mask & 1 != 0 { 8int } else { 0int }) + (if h.component_mask & 2 != 0 {
                8int
            } else {
                0int
            }) + (if h.component_mask & 4 != 0 { 8int } else { 0int }),
        ),
    ensures
        h.key_format == AnimationCompressionFormat::IntervalFixed32NoW ==> ({
            let qy = p + if h.component_mask & 1 != 0 { 8int } else { 0int };
            let qz = qy + if h.component_mask & 2 != 0 { 8int } else { 0int };
            let e = qz + if h.component_mask & 4 != 0 { 8int } else { 0int };
            take_range(b, p, h) == Parse::Parsed(
                KeyRange {
                    x: if h.component_mask & 1 != 0 { Some((le_u32(b, p), le_u32(b, p + 4))) } else { None },
                    y: if h.component_mask & 2 != 0 { Some((le_u32(b, qy), le_u32(b, qy + 4))) } else { None },
                    z: if h.component_mask & 4 != 0 { Some((le_u32(b, qz), le_u32(b, qz + 4))) } else { None },
                },
                e,
            )
        }),
        h.key_format != AnimationCompressionFormat::IntervalFixed32NoW ==> take_range(b, p, h) == Parse::Parsed(
            KeyRange { x: None, y: None, z: None },
            p,
        ),
{
}

fn read_range(reader: &mut Reader, h: &FAnimKeyHeader) -> (r: ParserResult<KeyRange>)
    ensures
        final(reader).bytes() == old(reader).bytes(),
        outcome(r, take_range(old(reader).bytes(), old(reader).at(), *h), *final(reader)),
{
    if h.key_format == AnimationCompressionFormat::IntervalFixed32NoW {
        let x = read_pair_if(reader, h.component_mask & 1 != 0)?;
        let y = read_pair_if(reader, h.component_mask & 2 != 0)?;
        let z = read_pair_if(reader, h.component_mask & 4 != 0)?;
        Ok(KeyRange { x, y, z })
    } else {
        Ok(KeyRange { x: None, y: None, z: None })
    }
}

/// One key in the track's format: uncompressed and 96-bit keys hold the
/// `f32` components that the mask names (all three when it names none);
/// 48-bit keys hold a `u16` for each component that the mask names; packed
/// keys are one `u32`. Any other format is where the format's reader gives
/// up.
pub open spec fn take_key(b: Seq<u8>, p: int, h: FAnimKeyHeader, range: KeyRange) -> Parse<TrackKey> {
    match h.key_format {
        AnimationCompressionFormat::Uncompressed | AnimationCompressionFormat::Float96NoW => {
            if h.component_mask & 7 != 0 {
                match take_word_if(b, p, h.component_mask & 1 != 0) {
                    Parse::Parsed(x, p0) => match take_word_if(b, p0, h.component_mask & 2 != 0) {
                        Parse::Parsed(y, p1) => match take_word_if(b, p1, h.component_mask & 4 != 0) {
                            Parse::Parsed(z, e) => Parse::Parsed(TrackKey::Float { x, y, z }, e),
                            other => other.pass(),
                        },
                        other => other.pass(),
                    },
                    other => other.pass(),
                }
            } else {
                lift(
                    <FVector as Newable>::parse(b, p),
                    |v: FVector| TrackKey::Float { x: Some(v.x), y: Some(v.y), z: Some(v.z) },
                )
            }
        },
        AnimationCompressionFormat::Fixed48NoW => match take_half_if(b, p, h.component_mask & 1 != 0) {
            Parse::Parsed(x, p0) => match take_half_if(b, p0, h.component_mask & 2 != 0) {
                Parse::Parsed(y, p1) => match take_half_if(b, p1, h.component_mask & 4 != 0) {
                    Parse::Parsed(z, e) => Parse::Parsed(TrackKey::Fixed48 { x, y, z }, e),
                    other => other.pass(),
                },
                other => other.pass(),
            },
            other => other.pass(),
        },
        AnimationCompressionFormat::IntervalFixed32NoW => lift(
            take_u32(b, p),
            |packed: u32| TrackKey::IntervalFixed32 { packed, range },
        ),
        _ => Parse::Aborted,
    }
}

fn read_key(reader: &mut Reader, h: &FAnimKeyHeader, range: KeyRange) -> (r: ParserResult<TrackKey>)
    requires
        !(take_key(old(reader).bytes(), old(reader).at(), *h, range) is Aborted),
    ensures
        final(reader).bytes() == old(reader).bytes(),
        outcome(r, take_key(old(reader).bytes(), old(reader).at(), *h, range), *final(reader)),
{
    match h.key_format {
        AnimationCompressionFormat::Uncompressed | AnimationCompressionFormat::Float96NoW => {
            if h.component_mask & 7 != 0 {
                let x = read_word_if(reader, h.component_mask & 1 != 0)?;
                let y = read_word_if(reader, h.component_mask & 2 != 0)?;
                let z = read_word_if(reader, h.component_mask & 4 != 0)?;
                Ok(TrackKey::Float { x, y, z })
            } else {
                let v = FVector::new(reader)?;
                Ok(TrackKey::Float { x: Some(v.x), y: Some(v.y), z: Some(v.z) })
            }
        },
        AnimationCompressionFormat::Fixed48NoW => {
            let x = read_half_if(reader, h.component_mask & 1 != 0)?;
            let y = read_half_if(reader, h.component_mask & 2 != 0)?;
            let z = read_half_if(reader, h.component_mask & 4 != 0)?;
            Ok(TrackKey::Fixed48 { x, y, z })
        },
        AnimationCompressionFormat::IntervalFixed32NoW => {
            let packed = reader.read_u32()?;
            Ok(TrackKey::IntervalFixed32 { packed, range })
        },
        _ => vstd::pervasive::unreached(),
    }
}

/// `n` keys, one after another.
pub open spec fn take_keys(b: Seq<u8>, p: int, n: nat, h: FAnimKeyHeader, range: KeyRange) -> Parse<Seq<TrackKey>>
    decreases n,
{
    if n == 0 {
        Parse::Parsed(Seq::empty(), p)
    } else {
        match take_key(b, p, h, range) {
            Parse::Parsed(x, q) => prepend(seq![x], take_keys(b, q, (n - 1) as nat, h, range)),
            other => other.pass(),
        }
    }
}

fn read_keys(reader: &mut Reader, h: &FAnimKeyHeader, range: KeyRange) -> (r: ParserResult<Vec<TrackKey>>)
    requires
        !(take_keys(old(reader).bytes(), old(reader).at(), h.num_keys as nat, *h, range) is Aborted),
    ensures
        final(reader).bytes() == old(reader).bytes(),
        outcome(r, take_keys(old(reader).bytes(), old(reader).at(), h.num_keys as nat, *h, range), *final(reader)),
{
    let ghost b = reader.bytes();
    let ghost q = reader.at();
    let count = h.num_keys;
    let mut keys: Vec<TrackKey> = Vec::new();
    assert(prepend(keys.deep_view(), take_keys(b, q, count as nat, *h, range)) == take_keys(b, q, count as nat, *h, range))
        by {
        match take_keys(b, q, count as nat, *h, range) {
            Parse::Parsed(ys, e) => {
                assert(keys.deep_view() + ys =~= ys);
            },
            _ => {},
        }
    }
    let mut i: u32 = 0;
    while i < count
        invariant
            reader.bytes() == b,
            b == old(reader).bytes(),
            q == old(reader).at(),
            count == h.num_keys,
            i <= count,
            prepend(keys.deep_view(), take_keys(b, reader.at(), (count - i) as nat, *h, range)) == take_keys(
                b,
                q,
                count as nat,
                *h,
                range,
            ),
            !(take_keys(b, q, count as nat, *h, range) is Aborted),
        decreases count - i,
    {
        let ghost before = keys.deep_view();
        let key = read_key(reader, h, range)?;
        proof {
            lemma_prepend_assoc(before, key, take_keys(b, reader.at(), (count - i - 1) as nat, *h, range));
        }
        keys.push(key);
        assert(keys.deep_view() =~= before.push(key));
        i = i + 1;
    }
    assert(keys.deep_view() + Seq::empty() =~= keys.deep_view());
    Ok(keys)
}

/// The message added to a failure to read a part's key header.
pub open spec fn part_message(label: Seq<char>, pos: int, track: int) -> Seq<char> {
    label + decimal(pos) + " "@ + decimal(track)
}

/// The key times of a part when its header says that they follow.
pub open spec fn take_part_times(b: Seq<u8>, p: int, h: FAnimKeyHeader, num_frames: i32) -> Parse<Option<Seq<u16>>> {
    if h.has_time_tracks {
        lift(take_times(b, p, h.num_keys, num_frames), |t: Seq<u16>| Some(t))
    } else {
        Parse::Parsed(None, p)
    }
}

/// One part of a track (translation, rotation or scale): nothing when its
/// offset is -1; otherwise a key header (a failure to read it gets the
/// label, the position and the track as context), the range, the keys, the
/// times when the header says so, and alignment to four bytes.
pub open spec fn take_part(
    b: Seq<u8>,
    p: int,
    offset: i32,
    track: int,
    label: Seq<char>,
    num_frames: i32,
) -> Parse<(Seq<TrackKey>, Option<Seq<u16>>)> {
    if offset == -1 {
        Parse::Parsed((Seq::empty(), None), p)
    } else {
        match FAnimKeyHeader::parse(b, p) {
            Parse::Parsed(h, q) => match take_range(b, q, h) {
                Parse::Parsed(range, q1) => match take_keys(b, q1, h.num_keys as nat, h, range) {
                    Parse::Parsed(keys, q2) => match take_part_times(b, q2, h, num_frames) {
                        Parse::Parsed(times, q3) => match take_align(q3) {
                            Parse::Parsed(_, e) => Parse::Parsed((keys, times), e),
                            other => other.pass(),
                        },
                        other => other.pass(),
                    },
                    other => other.pass(),
                },
                other => other.pass(),
            },
            Parse::Failed(m, e) => Parse::Failed(m.push(part_message(label, e, track)), e),
            Parse::Aborted => Parse::Aborted,
        }
    }
}

fn read_part(reader: &mut Reader, offset: i32, track: usize, label: &str, num_frames: i32) -> (r: ParserResult<
    (Vec<TrackKey>, Option<Vec<u16>>),
>)
    requires
        !(take_part(old(reader).bytes(), old(reader).at(), offset, track as int, label@, num_frames) is Aborted),
    ensures
        final(reader).bytes() == old(reader).bytes(),
        outcome(r, take_part(old(reader).bytes(), old(reader).at(), offset, track as int, label@, num_frames), *final(reader)),
{
    if offset == -1 {
        let none: Vec<TrackKey> = Vec::new();
        assert(none.deep_view() =~= Seq::<TrackKey>::empty());
        return Ok((none, None));
    }
    let header = match FAnimKeyHeader::new(reader) {
        Ok(h) => h,
        Err(e) => {
            let pos = reader.position();
            let msg = join(join(join(text(label), decimal_text(pos as i128).as_str()), " "), decimal_text(track as i128).as_str());
            return Err(ParserError::add(e, msg));
        },
    };
    let range = read_range(reader, &header)?;
    let keys = read_keys(reader, &header, range)?;
    let times = if header.has_time_tracks {
        let t = read_times(reader, header.num_keys, num_frames)?;
        assert(t.deep_view() =~= t@);
        Some(t)
    } else {
        None
    };
    align_reader(reader)?;
    Ok((keys, times))
}


/// A segment of compressed frames and the formats of its parts.
#[derive(Debug, Clone, Copy)]
pub struct FCompressedSegment {
    pub start_frame: i32,
    pub num_frames: i32,
    pub byte_stream_offset: i32,
    pub translation_compression_format: u8,
    pub rotation_compression_format: u8,
    pub scale_compression_format: u8,
}

impl DeepView for FCompressedSegment {
    type V = FCompressedSegment;

    open spec fn deep_view(&self) -> FCompressedSegment {
        *self
    }
}

impl Newable for FCompressedSegment {
    open spec fn parse(b: Seq<u8>, p: int) -> Parse<FCompressedSegment> {
        match take_i32(b, p) {
            Parse::Parsed(v0, p0) => {
                match take_i32(b, p0) {
                    Parse::Parsed(v1, p1) => {
                        match take_i32(b, p1) {
                            Parse::Parsed(v2, p2) => {
                                match take_u8(b, p2) {
                                    Parse::Parsed(v3, p3) => {
                                        match take_u8(b, p3) {
                                            Parse::Parsed(v4, p4) => {
                                                match take_u8(b, p4) {
                                                    Parse::Parsed(v5, p5) => {
                                                        Parse::Parsed(FCompressedSegment { start_frame: v0, num_frames: v1, byte_stream_offset: v2, translation_compression_format: v3, rotation_compression_format: v4, scale_compression_format: v5 }, p5)
                                                    },
                                                    other => other.pass(),
                                                }
                                            },
                                            other => other.pass(),
                                        }
                                    },
                                    other => other.pass(),
                                }
                            },
                            other => other.pass(),
                        }
                    },
                    other => other.pass(),
                }
            },
            other => other.pass(),
        }
    }

    fn new(reader: &mut Reader) -> (r: ParserResult<Self>) {
        let start_frame = reader.read_i32()?;
        let num_frames = reader.read_i32()?;
        let byte_stream_offset = reader.read_i32()?;
        let translation_compression_format = reader.read_u8()?;
        let rotation_compression_format = reader.read_u8()?;
        let scale_compression_format = reader.read_u8()?;
        Ok(FCompressedSegment { start_frame, num_frames, byte_stream_offset, translation_compression_format, rotation_compression_format, scale_compression_format })
    }
}


/// The scale offsets of the tracks: `strip_size` entries per track.
#[derive(Debug)]
pub struct FCompressedOffsetData {
    pub offset_data: Vec<i32>,
    pub strip_size: i32,
}

/// The keys of one bone's track, as stored, and their times (frame numbers)
/// when the track has them.
#[derive(Debug)]
pub struct FTrack {
    pub translation: Vec<TrackKey>,
    pub rotation: Vec<TrackKey>,
    pub scale: Vec<TrackKey>,
    pub translation_times: Option<Vec<u16>>,
    pub rotation_times: Option<Vec<u16>>,
    pub scale_times: Option<Vec<u16>>,
}

/// What an [`FTrack`] holds, as plain values.
pub struct TrackView {
    pub translation: Seq<TrackKey>,
    pub rotation: Seq<TrackKey>,
    pub scale: Seq<TrackKey>,
    pub translation_times: Option<Seq<u16>>,
    pub rotation_times: Option<Seq<u16>>,
    pub scale_times: Option<Seq<u16>>,
}

impl DeepView for FTrack {
    type V = TrackView;

    open spec fn deep_view(&self) -> TrackView {
        TrackView {
            translation: self.translation@,
            rotation: self.rotation@,
            scale: self.scale@,
            translation_times: self.translation_times.deep_view(),
            rotation_times: self.rotation_times.deep_view(),
            scale_times: self.scale_times.deep_view(),
        }
    }
}

/// The times of a part's keys, as frame numbers: none without keys, frame 0
/// for a single key, the stored times when there are some, and otherwise
/// every frame of the sequence in order.
pub open spec fn key_times(num_keys: nat, times: Option<Seq<u16>>, num_frames: i32) -> Option<Seq<i32>> {
    if num_keys == 0 {
        None
    } else if num_keys == 1 {
        Some(seq![0i32])
    } else {
        match times {
            Some(t) => Some(t.map_values(|x: u16| x as i32)),
            None => Some(Seq::new(if num_frames < 0 { 0 } else { num_frames as nat }, |i: int| i as i32)),
        }
    }
}

/// The frame numbers `0..num_frames`.
fn build_times(num_frames: i32) -> (r: Vec<i32>)
    ensures
        r@ == Seq::new(if num_frames < 0 { 0 } else { num_frames as nat }, |i: int| i as i32),
{
    let mut times: Vec<i32> = Vec::new();
    let mut i: i32 = 0;
    while i < num_frames
        invariant
            0 <= i,
            num_frames >= 0 ==> i <= num_frames,
            num_frames < 0 ==> i == 0,
            times@ == Seq::new(i as nat, |k: int| k as i32),
        decreases num_frames - i,
    {
        times.push(i);
        i = i + 1;
        assert(times@ =~= Seq::new(i as nat, |k: int| k as i32));
    }
    times
}

/// The stored times as frame numbers.
fn widen_times(times: &Vec<u16>) -> (r: Vec<i32>)
    ensures
        r@ == times@.map_values(|x: u16| x as i32),
{
    let mut out: Vec<i32> = Vec::new();
    let mut i: usize = 0;
    while i < times.len()
        invariant
            i <= times@.len(),
            out@ == times@.take(i as int).map_values(|x: u16| x as i32),
        decreases times@.len() - i,
    {
        out.push(times[i] as i32);
        i = i + 1;
        assert(out@ =~= times@.take(i as int).map_values(|x: u16| x as i32));
    }
    assert(times@.take(i as int) =~= times@);
    out
}

/// The times of a part's keys.
fn times_of(num_keys: usize, times: &Option<Vec<u16>>, num_frames: i32) -> (r: Option<Vec<i32>>)
    ensures
        r.deep_view() == key_times(num_keys as nat, times.deep_view(), num_frames),
{
    if num_keys == 0 {
        return None;
    }
    if num_keys == 1 {
        let mut one: Vec<i32> = Vec::new();
        one.push(0);
        assert(one.deep_view() =~= seq![0i32]);
        return Some(one);
    }
    let r = match times {
        Some(t) => {
            assert(t.deep_view() =~= t@);
            widen_times(t)
        },
        None => build_times(num_frames),
    };
    assert(r.deep_view() =~= r@);
    Some(r)
}

impl FTrack {
    /// The translation keys, as stored.
    pub fn get_translation(&self) -> (r: &Vec<TrackKey>)
        ensures
            *r == self.translation,
    {
        &self.translation
    }

    /// The rotation keys, as stored.
    pub fn get_rotation(&self) -> (r: &Vec<TrackKey>)
        ensures
            *r == self.rotation,
    {
        &self.rotation
    }

    /// The frame of each translation key.
    pub fn get_translation_times(&self, num_frames: i32) -> (r: Option<Vec<i32>>)
        ensures
            r.deep_view() == key_times(self.translation@.len(), self.translation_times.deep_view(), num_frames),
    {
        times_of(self.translation.len(), &self.translation_times, num_frames)
    }

    /// The frame of each rotation key.
    pub fn get_rotation_times(&self, num_frames: i32) -> (r: Option<Vec<i32>>)
        ensures
            r.deep_view() == key_times(self.rotation@.len(), self.rotation_times.deep_view(), num_frames),
    {
        times_of(self.rotation.len(), &self.rotation_times, num_frames)
    }
}

/// One track: its translation, rotation and scale parts. The translation
/// and rotation offsets are the track's two entries in `offsets`; the scale
/// offset is entry `track * strip_size` (the size taken as a `usize`) of
/// `scale_offsets`, and an index that overflows or lies outside them is
/// where the format's reader gives up.
pub open spec fn take_track(
    b: Seq<u8>,
    p: int,
    track: int,
    offsets: Seq<i32>,
    scale_offsets: Seq<i32>,
    strip_size: i32,
    num_frames: i32,
) -> Parse<TrackView> {
    match take_part(b, p, offsets[2 * track], track, "Translation error: "@, num_frames) {
        Parse::Parsed(t, p0) => match take_part(b, p0, offsets[2 * track + 1], track, "Rotation error: "@, num_frames) {
            Parse::Parsed(r, p1) => {
                let k = track * ((strip_size as usize) as int);
                if k > usize::MAX || k >= scale_offsets.len() {
                    Parse::Aborted
                } else {
                    match take_part(b, p1, scale_offsets[k], track, "Scale error: "@, num_frames) {
                        Parse::Parsed(s, e) => Parse::Parsed(
                            TrackView {
                                translation: t.0,
                                rotation: r.0,
                                scale: s.0,
                                translation_times: t.1,
                                rotation_times: r.1,
                                scale_times: s.1,
                            },
                            e,
                        ),
                        other => other.pass(),
                    }
                }
            },
            other => other.pass(),
        },
        other => other.pass(),
    }
}

/// Tracks `track..n`, one after another.
pub open spec fn take_tracks(
    b: Seq<u8>,
    p: int,
    track: nat,
    n: nat,
    offsets: Seq<i32>,
    scale_offsets: Seq<i32>,
    strip_size: i32,
    num_frames: i32,
) -> Parse<Seq<TrackView>>
    decreases n - track,
{
    if track >= n {
        Parse::Parsed(Seq::empty(), p)
    } else {
        match take_track(b, p, track as int, offsets, scale_offsets, strip_size, num_frames) {
            Parse::Parsed(t, q) => prepend(
                seq![t],
                take_tracks(b, q, track + 1, n, offsets, scale_offsets, strip_size, num_frames),
            ),
            other => other.pass(),
        }
    }
}

/// The tracks of the compressed stream: only the per-track key encoding (2)
/// is supported; there is one track for each two track offsets.
pub open spec fn stream_tracks(
    key_encoding_format: u8,
    offsets: Seq<i32>,
    scale_offsets: Seq<i32>,
    strip_size: i32,
    num_frames: i32,
    stream: Seq<u8>,
) -> Parse<Seq<TrackView>> {
    if key_encoding_format != 2 {
        Parse::Failed(seq!["Can only parse PerTrackCompression"@], 0)
    } else {
        take_tracks(stream, 0, 0, offsets.len() / 2, offsets, scale_offsets, strip_size, num_frames)
    }
}


/// An animation sequence: an object, the compression tables, the compressed
/// key stream, and the tracks read from it (none when they could not be read).
#[derive(Debug)]
pub struct UAnimSequence {
    pub super_object: UObject,
    pub skeleton_guid: FGuid,
    pub key_encoding_format: u8,
    pub translation_compression_format: u8,
    pub rotation_compression_format: u8,
    pub scale_compression_format: u8,
    pub compressed_track_offsets: Vec<i32>,
    pub compressed_scale_offsets: FCompressedOffsetData,
    pub compressed_segments: Vec<FCompressedSegment>,
    pub compressed_track_to_skeleton_table: Vec<i32>,
    pub compressed_curve_data: UObject,
    pub compressed_raw_data_size: i32,
    pub compressed_num_frames: i32,
    pub compressed_stream: Vec<u8>,
    pub tracks: Option<Vec<FTrack>>,
}

/// What a [`UAnimSequence`] holds, as plain values.
pub struct AnimSequenceView {
    pub super_object: ObjectView,
    pub skeleton_guid: FGuid,
    pub key_encoding_format: u8,
    pub translation_compression_format: u8,
    pub rotation_compression_format: u8,
    pub scale_compression_format: u8,
    pub compressed_track_offsets: Seq<i32>,
    pub scale_offset_data: Seq<i32>,
    pub scale_strip_size: i32,
    pub compressed_segments: Seq<FCompressedSegment>,
    pub compressed_track_to_skeleton_table: Seq<i32>,
    pub compressed_curve_data: ObjectView,
    pub compressed_raw_data_size: i32,
    pub compressed_num_frames: i32,
    pub compressed_stream: Seq<u8>,
    pub tracks: Option<Seq<TrackView>>,
}

impl DeepView for UAnimSequence {
    type V = AnimSequenceView;

    open spec fn deep_view(&self) -> AnimSequenceView {
        AnimSequenceView {
            super_object: self.super_object.deep_view(),
            skeleton_guid: self.skeleton_guid,
            key_encoding_format: self.key_encoding_format,
            translation_compression_format: self.translation_compression_format,
            rotation_compression_format: self.rotation_compression_format,
            scale_compression_format: self.scale_compression_format,
            compressed_track_offsets: self.compressed_track_offsets@,
            scale_offset_data: self.compressed_scale_offsets.offset_data@,
            scale_strip_size: self.compressed_scale_offsets.strip_size,
            compressed_segments: self.compressed_segments@,
            compressed_track_to_skeleton_table: self.compressed_track_to_skeleton_table@,
            compressed_curve_data: self.compressed_curve_data.deep_view(),
            compressed_raw_data_size: self.compressed_raw_data_size,
            compressed_num_frames: self.compressed_num_frames,
            compressed_stream: self.compressed_stream@,
            tracks: self.tracks.deep_view(),
        }
    }
}

/// The start of a sequence: an object of type "AnimSequence", the skeleton's
/// GUID, strip flags, a `u32` flag for compressed data (zero is an error),
/// then four `u8` formats.
pub open spec fn take_anim_head(b: Seq<u8>, p: int, names: Seq<Seq<char>>, imports: Seq<Seq<char>>) -> Parse<
    (ObjectView, FGuid, (u8, u8, u8, u8)),
> {
    match take_object(b, p, names, imports, "AnimSequence"@) {
        Parse::Parsed(object, p0) => match <FGuid as Newable>::parse(b, p0) {
            Parse::Parsed(guid, p1) => match FStripDataFlags::parse(b, p1) {
                Parse::Parsed(_, p2) => match take_u32(b, p2) {
                    Parse::Parsed(compressed, p3) => {
                        if compressed == 0 {
                            Parse::Failed(seq!["Could not decode AnimSequence"@], p3)
                        } else {
                            match take_u8(b, p3) {
                                Parse::Parsed(f0, p4) => match take_u8(b, p4) {
                                    Parse::Parsed(f1, p5) => match take_u8(b, p5) {
                                        Parse::Parsed(f2, p6) => match take_u8(b, p6) {
                                            Parse::Parsed(f3, e) => Parse::Parsed((object, guid, (f0, f1, f2, f3)), e),
                                            other => other.pass(),
                                        },
                                        other => other.pass(),
                                    },
                                    other => other.pass(),
                                },
                                other => other.pass(),
                            }
                        }
                    },
                    other => other.pass(),
                },
                other => other.pass(),
            },
            other => other.pass(),
        },
        other => other.pass(),
    }
}

/// The compression tables: the track offsets, the scale offsets and their
/// `i32` strip size, the segments, the track-to-skeleton table, then the
/// tags of the curve data.
pub open spec fn take_anim_tables(b: Seq<u8>, p: int, names: Seq<Seq<char>>, imports: Seq<Seq<char>>) -> Parse<
    (Seq<i32>, Seq<i32>, i32, Seq<FCompressedSegment>, Seq<i32>, Seq<crate::properties::TagView>),
> {
    match take_tarray::<i32>(b, p) {
        Parse::Parsed(track_offsets, p0) => match take_tarray::<i32>(b, p0) {
            Parse::Parsed(scale_offsets, p1) => match take_i32(b, p1) {
                Parse::Parsed(strip_size, p2) => match take_tarray::<FCompressedSegment>(b, p2) {
                    Parse::Parsed(segments, p3) => match take_tarray::<i32>(b, p3) {
                        Parse::Parsed(table, p4) => match take_properties(b, p4, names, imports) {
                            Parse::Parsed(curves, e) => Parse::Parsed(
                                (track_offsets, scale_offsets, strip_size, segments, table, curves),
                                e,
                            ),
                            other => other.pass(),
                        },
                        other => other.pass(),
                    },
                    other => other.pass(),
                },
                other => other.pass(),
            },
            other => other.pass(),
        },
        other => other.pass(),
    }
}

/// The compressed stream: `i32` raw size, `i32` frame count, `i32` byte
/// count, a `u32` bulk-data flag, the bytes, then a `u32` that is not kept.
/// A set bulk-data flag or a negative byte count is where the format's
/// reader gives up.
pub open spec fn take_anim_stream(b: Seq<u8>, p: int) -> Parse<(i32, i32, Seq<u8>)> {
    match take_i32(b, p) {
        Parse::Parsed(raw_size, p0) => match take_i32(b, p0) {
            Parse::Parsed(num_frames, p1) => match take_i32(b, p1) {
                Parse::Parsed(num_bytes, p2) => match take_u32(b, p2) {
                    Parse::Parsed(bulk, p3) => {
                        if bulk != 0 || num_bytes < 0 {
                            Parse::Aborted
                        } else {
                            match take_bytes(b, p3, num_bytes as int) {
                                Parse::Parsed(stream, p4) => match take_u32(b, p4) {
                                    Parse::Parsed(_, e) => Parse::Parsed((raw_size, num_frames, stream), e),
                                    other => other.pass(),
                                },
                                other => other.pass(),
                            }
                        }
                    },
                    other => other.pass(),
                },
                other => other.pass(),
            },
            other => other.pass(),
        },
        other => other.pass(),
    }
}

/// A sequence: its head, its tables and its stream; the tracks are those
/// read from the stream, or none when reading them fails.
pub open spec fn take_anim_sequence(b: Seq<u8>, p: int, names: Seq<Seq<char>>, imports: Seq<Seq<char>>) -> Parse<
    AnimSequenceView,
> {
    match take_anim_head(b, p, names, imports) {
        Parse::Parsed(head, p0) => match take_anim_tables(b, p0, names, imports) {
            Parse::Parsed(tables, p1) => match take_anim_stream(b, p1) {
                Parse::Parsed(stream, e) => {
                    let tracks = stream_tracks(head.2.0, tables.0, tables.1, tables.2, stream.1, stream.2);
                    if tracks is Aborted {
                        Parse::Aborted
                    } else {
                        Parse::Parsed(
                            AnimSequenceView {
                                super_object: head.0,
                                skeleton_guid: head.1,
                                key_encoding_format: head.2.0,
                                translation_compression_format: head.2.1,
                                rotation_compression_format: head.2.2,
                                scale_compression_format: head.2.3,
                                compressed_track_offsets: tables.0,
                                scale_offset_data: tables.1,
                                scale_strip_size: tables.2,
                                compressed_segments: tables.3,
                                compressed_track_to_skeleton_table: tables.4,
                                compressed_curve_data: ObjectView { export_type: "RawCurveData"@, properties: tables.5 },
                                compressed_raw_data_size: stream.0,
                                compressed_num_frames: stream.1,
                                compressed_stream: stream.2,
                                tracks: match tracks {
                                    Parse::Parsed(t, _) => Some(t),
                                    _ => None,
                                },
                            },
                            e,
                        )
                    }
                },
                other => other.pass(),
            },
            other => other.pass(),
        },
        other => other.pass(),
    }
}

fn read_anim_head(reader: &mut Reader, name_map: &NameMap, import_map: &ImportMap) -> (r: ParserResult<
    (UObject, FGuid, (u8, u8, u8, u8)),
>)
    requires
        !(take_anim_head(old(reader).bytes(), old(reader).at(), name_texts(name_map), import_names(import_map))
            is Aborted),
    ensures
        final(reader).bytes() == old(reader).bytes(),
        outcome(
            r,
            take_anim_head(old(reader).bytes(), old(reader).at(), name_texts(name_map), import_names(import_map)),
            *final(reader),
        ),
{
    let super_object = UObject::new(reader, name_map, import_map, "AnimSequence")?;
    let skeleton_guid = FGuid::new(reader)?;
    let _flags = FStripDataFlags::new(reader)?;
    let use_compressed_data = reader.read_u32()? != 0;
    if !use_compressed_data {
        return Err(ParserError::new(text("Could not decode AnimSequence")));
    }
    let key_encoding_format = reader.read_u8()?;
    let translation_compression_format = reader.read_u8()?;
    let rotation_compression_format = reader.read_u8()?;
    let scale_compression_format = reader.read_u8()?;
    Ok(
        (
            super_object,
            skeleton_guid,
            (key_encoding_format, translation_compression_format, rotation_compression_format, scale_compression_format),
        ),
    )
}

fn read_anim_tables(reader: &mut Reader, name_map: &NameMap, import_map: &ImportMap) -> (r: ParserResult<
    (Vec<i32>, FCompressedOffsetData, Vec<FCompressedSegment>, Vec<i32>, UObject),
>)
    requires
        !(take_anim_tables(old(reader).bytes(), old(reader).at(), name_texts(name_map), import_names(import_map))
            is Aborted),
    ensures
        final(reader).bytes() == old(reader).bytes(),
        outcome_as(
            r,
            take_anim_tables(old(reader).bytes(), old(reader).at(), name_texts(name_map), import_names(import_map)),
            *final(reader),
            |t: (Vec<i32>, FCompressedOffsetData, Vec<FCompressedSegment>, Vec<i32>, UObject)| (
                t.0@,
                t.1.offset_data@,
                t.1.strip_size,
                t.2@,
                t.3@,
                t.4.deep_view().properties,
            ),
        ),
        r matches Ok(t) ==> t.4.export_type@ == "RawCurveData"@,
{
    let compressed_track_offsets = read_tarray::<i32>(reader)?;
    let offset_data = read_tarray::<i32>(reader)?;
    let strip_size = reader.read_i32()?;
    let compressed_segments = read_tarray::<FCompressedSegment>(reader)?;
    let compressed_track_to_skeleton_table = read_tarray::<i32>(reader)?;
    let properties = read_properties(reader, name_map, import_map)?;
    assert(compressed_track_offsets.deep_view() =~= compressed_track_offsets@);
    assert(offset_data.deep_view() =~= offset_data@);
    assert(compressed_segments.deep_view() =~= compressed_segments@);
    assert(compressed_track_to_skeleton_table.deep_view() =~= compressed_track_to_skeleton_table@);
    Ok(
        (
            compressed_track_offsets,
            FCompressedOffsetData { offset_data, strip_size },
            compressed_segments,
            compressed_track_to_skeleton_table,
            UObject { export_type: text("RawCurveData"), properties },
        ),
    )
}

fn read_anim_stream(reader: &mut Reader) -> (r: ParserResult<(i32, i32, Vec<u8>)>)
    requires
        !(take_anim_stream(old(reader).bytes(), old(reader).at()) is Aborted),
    ensures
        final(reader).bytes() == old(reader).bytes(),
        outcome_as(
            r,
            take_anim_stream(old(reader).bytes(), old(reader).at()),
            *final(reader),
            |t: (i32, i32, Vec<u8>)| (t.0, t.1, t.2@),
        ),
{
    let compressed_raw_data_size = reader.read_i32()?;
    let compressed_num_frames = reader.read_i32()?;
    let num_bytes = reader.read_i32()?;
    let use_bulk_data_load = reader.read_u32()? != 0;
    if use_bulk_data_load || num_bytes < 0 {
        return vstd::pervasive::unreached();
    }
    let compressed_stream = reader.read_bytes(num_bytes as usize)?;
    assert(compressed_stream.deep_view() =~= compressed_stream@);
    let _use_raw_data_only = reader.read_u32()?;
    Ok((compressed_raw_data_size, compressed_num_frames, compressed_stream))
}

impl UAnimSequence {
    /// The tracks that the compressed stream holds.
    pub open spec fn stream_tracks(&self) -> Parse<Seq<TrackView>> {
        stream_tracks(
            self.key_encoding_format,
            self.compressed_track_offsets@,
            self.compressed_scale_offsets.offset_data@,
            self.compressed_scale_offsets.strip_size,
            self.compressed_num_frames,
            self.compressed_stream@,
        )
    }

    pub fn new(reader: &mut Reader, name_map: &NameMap, import_map: &ImportMap) -> (r: ParserResult<Self>)
        requires
            !(take_anim_sequence(old(reader).bytes(), old(reader).at(), name_texts(name_map), import_names(import_map))
                is Aborted),
        ensures
            final(reader).bytes() == old(reader).bytes(),
            outcome(
                r,
                take_anim_sequence(old(reader).bytes(), old(reader).at(), name_texts(name_map), import_names(import_map)),
                *final(reader),
            ),
    {
        let (super_object, skeleton_guid, formats) = read_anim_head(reader, name_map, import_map)?;
        let (compressed_track_offsets, compressed_scale_offsets, compressed_segments, compressed_track_to_skeleton_table, compressed_curve_data) =
            read_anim_tables(reader, name_map, import_map)?;
        let (compressed_raw_data_size, compressed_num_frames, compressed_stream) = read_anim_stream(reader)?;
        let mut result = UAnimSequence {
            super_object,
            skeleton_guid,
            key_encoding_format: formats.0,
            translation_compression_format: formats.1,
            rotation_compression_format: formats.2,
            scale_compression_format: formats.3,
            compressed_track_offsets,
            compressed_scale_offsets,
            compressed_segments,
            compressed_track_to_skeleton_table,
            compressed_curve_data,
            compressed_raw_data_size,
            compressed_num_frames,
            compressed_stream,
            tracks: None,
        };
        match result.read_tracks() {
            Ok(tracks) => {
                result.tracks = Some(tracks);
            },
            Err(_) => {},
        }
        Ok(result)
    }

    /// Reads the tracks from the compressed stream.
    fn read_tracks(&self) -> (r: ParserResult<Vec<FTrack>>)
        requires
            !(self.stream_tracks() is Aborted),
        ensures
            match self.stream_tracks() {
                Parse::Parsed(t, _) => r matches Ok(v) && v.deep_view() == t,
                Parse::Failed(m, _) => r matches Err(e) && e@ == m,
                Parse::Aborted => true,
            },
    {
        if self.key_encoding_format != 2 {
            return Err(ParserError::new(text("Can only parse PerTrackCompression")));
        }
        let mut reader = Reader::new(self.compressed_stream.clone());
        let ghost b = reader.bytes();
        assert(b =~= self.compressed_stream@);
        let num_tracks = self.compressed_track_offsets.len() / 2;
        let num_frames = self.compressed_num_frames;
        let ghost offsets = self.compressed_track_offsets@;
        let ghost scale_offsets = self.compressed_scale_offsets.offset_data@;
        let ghost strip_size = self.compressed_scale_offsets.strip_size;
        let mut tracks: Vec<FTrack> = Vec::new();
        assert(prepend(tracks.deep_view(), take_tracks(b, 0, 0, num_tracks as nat, offsets, scale_offsets, strip_size, num_frames))
            == take_tracks(b, 0, 0, num_tracks as nat, offsets, scale_offsets, strip_size, num_frames)) by {
            match take_tracks(b, 0, 0, num_tracks as nat, offsets, scale_offsets, strip_size, num_frames) {
                Parse::Parsed(ys, e) => {
                    assert(tracks.deep_view() + ys =~= ys);
                },
                _ => {},
            }
        }
        let mut i: usize = 0;
        while i < num_tracks
            invariant
                reader.bytes() == b,
                b == self.compressed_stream@,
                offsets == self.compressed_track_offsets@,
                scale_offsets == self.compressed_scale_offsets.offset_data@,
                strip_size == self.compressed_scale_offsets.strip_size,
                num_frames == self.compressed_num_frames,
                self.key_encoding_format == 2,
                num_tracks == offsets.len() / 2,
                i <= num_tracks,
                prepend(
                    tracks.deep_view(),
                    take_tracks(b, reader.at(), i as nat, num_tracks as nat, offsets, scale_offsets, strip_size, num_frames),
                ) == take_tracks(b, 0, 0, num_tracks as nat, offsets, scale_offsets, strip_size, num_frames),
                !(take_tracks(b, 0, 0, num_tracks as nat, offsets, scale_offsets, strip_size, num_frames) is Aborted),
            decreases num_tracks - i,
        {
            let ghost before = tracks.deep_view();
            assert(2 * i + 1 < self.compressed_track_offsets.len());
            let (translation, translation_times) = read_part(
                &mut reader,
                self.compressed_track_offsets[2 * i],
                i,
                "Translation error: ",
                num_frames,
            )?;
            let (rotation, rotation_times) = read_part(
                &mut reader,
                self.compressed_track_offsets[2 * i + 1],
                i,
                "Rotation error: ",
                num_frames,
            )?;
            let strip = #[verifier::truncate] (self.compressed_scale_offsets.strip_size as usize);
            let k = match i.checked_mul(strip) {
                Some(k) => k,
                None => {
                    return vstd::pervasive::unreached();
                },
            };
            if k >= self.compressed_scale_offsets.offset_data.len() {
                return vstd::pervasive::unreached();
            }
            let (scale, scale_times) = read_part(
                &mut reader,
                self.compressed_scale_offsets.offset_data[k],
                i,
                "Scale error: ",
                num_frames,
            )?;
            assert(translation.deep_view() =~= translation@);
            assert(rotation.deep_view() =~= rotation@);
            assert(scale.deep_view() =~= scale@);
            let track = FTrack { translation, rotation, scale, translation_times, rotation_times, scale_times };
            proof {
                lemma_prepend_assoc(
                    before,
                    track.deep_view(),
                    take_tracks(b, reader.at(), (i + 1) as nat, num_tracks as nat, offsets, scale_offsets, strip_size, num_frames),
                );
            }
            tracks.push(track);
            assert(tracks.deep_view() =~= before.push(track.deep_view()));
            i = i + 1;
        }
        assert(tracks.deep_view() + Seq::empty() =~= tracks.deep_view());
        Ok(tracks)
    }

    pub fn get_super_object(&self) -> (r: &UObject)
        ensures
            *r == self.super_object,
    {
        &self.super_object
    }

    /// The skeleton track that each track animates.
    pub fn get_track_map(&self) -> (r: Vec<i32>)
        ensures
            r@ == self.compressed_track_to_skeleton_table@,
    {
        self.compressed_track_to_skeleton_table.clone()
    }

    pub fn get_num_frames(&self) -> (r: i32)
        ensures
            r == self.compressed_num_frames,
    {
        self.compressed_num_frames
    }

    /// The tracks, which must have been read.
    pub fn get_tracks(self) -> (r: Vec<FTrack>)
        requires
            self.tracks is Some,
        ensures
            r == self.tracks->0,
    {
        match self.tracks {
            Some(tracks) => tracks,
            None => vstd::pervasive::unreached(),
        }
    }

    /// The first track that animates the given skeleton track.
    pub fn find_track(&self, track_id: i32) -> (r: Option<usize>)
        ensures
            match r {
                Some(i) => first_index(self.compressed_track_to_skeleton_table@, track_id) == Some(i as int),
                None => first_index(self.compressed_track_to_skeleton_table@, track_id) is None,
            },
            match r {
                Some(i) => i < self.compressed_track_to_skeleton_table@.len()
                    && self.compressed_track_to_skeleton_table@[i as int] == track_id
                    && forall|j: int| 0 <= j < i ==> self.compressed_track_to_skeleton_table@[j] != track_id,
                None => forall|j: int|
                    0 <= j < self.compressed_track_to_skeleton_table@.len()
                        ==> self.compressed_track_to_skeleton_table@[j] != track_id,
            },
    {
        let track_map = &self.compressed_track_to_skeleton_table;
        let mut i: usize = 0;
        while i < track_map.len()
            invariant
                i <= track_map@.len(),
                track_map == &self.compressed_track_to_skeleton_table,
                forall|j: int| 0 <= j < i ==> track_map@[j] != track_id,
            decreases track_map@.len() - i,
        {
            if track_id == track_map[i] {
                proof {
                    lemma_first_index(track_map@, track_id);
                }
                return Some(i);
            }
            i = i + 1;
        }
        proof {
            lemma_first_index(track_map@, track_id);
        }
        None
    }

    /// The tracks that adding `to_add` combines, as (track of `self`, track
    /// of `to_add`): for each track of `to_add` in order, the first track of
    /// `self` that animates the same skeleton track, where there is one.
    pub fn track_pairs(&self, to_add: &UAnimSequence) -> (r: Vec<(usize, usize)>)
        ensures
            r@.map_values(|q: (usize, usize)| (q.0 as int, q.1 as int)) == track_pairs(
                self.compressed_track_to_skeleton_table@,
                to_add.compressed_track_to_skeleton_table@,
            ),
    {
        let ghost own = self.compressed_track_to_skeleton_table@;
        let ghost added = to_add.compressed_track_to_skeleton_table@;
        let mut pairs: Vec<(usize, usize)> = Vec::new();
        let mut i: usize = 0;
        assert(added.take(0) =~= Seq::<i32>::empty());
        while i < to_add.compressed_track_to_skeleton_table.len()
            invariant
                own == self.compressed_track_to_skeleton_table@,
                added == to_add.compressed_track_to_skeleton_table@,
                i <= added.len(),
                pairs@.map_values(|q: (usize, usize)| (q.0 as int, q.1 as int)) == track_pairs(own, added.take(i as int)),
            decreases added.len() - i,
        {
            let ghost before = pairs@;
            assert(added.take(i as int + 1).drop_last() =~= added.take(i as int));
            assert(added.take(i as int + 1).last() == added[i as int]);
            let track_id = to_add.compressed_track_to_skeleton_table[i];
            match self.find_track(track_id) {
                Some(j) => {
                    pairs.push((j, i));
                    assert(pairs@.map_values(|q: (usize, usize)| (q.0 as int, q.1 as int)) =~= before.map_values(
                        |q: (usize, usize)| (q.0 as int, q.1 as int),
                    ).push((j as int, i as int)));
                },
                None => {},
            }
            i = i + 1;
        }
        assert(added.take(i as int) =~= added);
        pairs
    }
}

/// The position of the first of `s` equal to `v`.
pub open spec fn first_index(s: Seq<i32>, v: i32) -> Option<int>
    decreases s.len(),
{
    if s.len() == 0 {
        None
    } else {
        match first_index(s.drop_last(), v) {
            Some(i) => Some(i),
            None => if s.last() == v {
                Some(s.len() - 1)
            } else {
                None
            },
        }
    }
}

/// The position found holds `v` and no earlier one does.
pub proof fn lemma_first_index(s: Seq<i32>, v: i32)
    ensures
        match first_index(s, v) {
            Some(i) => 0 <= i < s.len() && s[i] == v && forall|j: int| 0 <= j < i ==> s[j] != v,
            None => forall|j: int| 0 <= j < s.len() ==> s[j] != v,
        },
    decreases s.len(),
{
    if s.len() > 0 {
        lemma_first_index(s.drop_last(), v);
        assert forall|j: int| 0 <= j < s.len() - 1 implies s[j] == s.drop_last()[j] by {}
    }
}

/// The pairs (track of the first sequence, track of the second) that adding
/// the second sequence to the first combines: for each track of the second
/// in order, the first track of the first that animates the same skeleton
/// track, where there is one.
pub open spec fn track_pairs(own: Seq<i32>, added: Seq<i32>) -> Seq<(int, int)>
    decreases added.len(),
{
    if added.len() == 0 {
        Seq::empty()
    } else {
        let rest = track_pairs(own, added.drop_last());
        match first_index(own, added.last()) {
            Some(j) => rest.push((j, added.len() - 1)),
            None => rest,
        }
    }
}

impl PackageExport for UAnimSequence {
    open spec fn export_type_text(&self) -> Seq<char> {
        "AnimSequence"@
    }

    fn get_export_type(&self) -> (r: &str) {
        "AnimSequence"
    }
}


/// A key header is one little-endian word: the format's number is the word
/// divided by 2^28 (0 uncompressed, 1 96-bit floats, 2 48-bit fixed, 3
/// packed intervals, 4 32-bit fixed, 5 32-bit floats, 6 identity; above 6 an
/// error), the component mask the next four bits, the key count the low 24
/// bits, and key times follow when the mask's bit 3 is set.
pub proof fn lemma_key_header_fields(b: Seq<u8>, p: int)
    requires
        fits(b, p, 4),
    ensures
        ({
            let w = le_u32(b, p);
            let n = w / 0x1000_0000;
            let mask = (w / 0x100_0000) % 16;
            let h = <FAnimKeyHeader as Newable>::parse(b, p);
            &&& n > 6 ==> h is Failed
            &&& n <= 6 ==> h is Parsed && h->Parsed_1 == p + 4 && h.value().component_mask == mask
                && h.value().num_keys == w % 0x100_0000 && h.value().has_time_tracks == (mask >= 8)
            &&& n == 0 ==> h.value().key_format == AnimationCompressionFormat::Uncompressed
            &&& n == 1 ==> h.value().key_format == AnimationCompressionFormat::Float96NoW
            &&& n == 2 ==> h.value().key_format == AnimationCompressionFormat::Fixed48NoW
            &&& n == 3 ==> h.value().key_format == AnimationCompressionFormat::IntervalFixed32NoW
            &&& n == 4 ==> h.value().key_format == AnimationCompressionFormat::Fixed32NoW
            &&& n == 5 ==> h.value().key_format == AnimationCompressionFormat::Float32NoW
            &&& n == 6 ==> h.value().key_format == AnimationCompressionFormat::Identity
        }),
{
    let w = le_u32(b, p);
    assert(w >> 28u32 == w / 0x1000_0000) by (bit_vector);
    assert((w >> 24u32) & 0xFu32 == (w / 0x100_0000) % 16) by (bit_vector);
    assert(w & 0xFFFFFFu32 == w % 0x100_0000) by (bit_vector);
    let m = (w >> 24u32) & 0xFu32;
    assert((m & 8 != 0) == (m >= 8)) by (bit_vector)
        requires
            m < 16,
    ;
}

/// A compressed segment is its start frame, frame count and byte offset
/// (`i32`s), then the translation, rotation and scale formats (bytes).
pub proof fn lemma_segment_layout(b: Seq<u8>, p: int)
    requires
        fits(b, p, 15),
    ensures
        <FCompressedSegment as Newable>::parse(b, p) == Parse::Parsed(
            FCompressedSegment {
                start_frame: signed32(le_u32(b, p)),
                num_frames: signed32(le_u32(b, p + 4)),
                byte_stream_offset: signed32(le_u32(b, p + 8)),
                translation_compression_format: b[p + 12],
                rotation_compression_format: b[p + 13],
                scale_compression_format: b[p + 14],
            },
            p + 15,
        ),
{
}


/// Key times: none for one key or none; otherwise they start at the first
/// multiple of four at or after `p`, one byte per key when the sequence has
/// fewer than 256 frames and one little-endian `u16` per key otherwise.
pub proof fn lemma_times_layout(b: Seq<u8>, p: int, num_keys: u32, num_frames: i32, q: int)
    requires
        take_times(b, p, num_keys, num_frames) is Parsed,
        0 <= p,
        q % 4 == 0,
        p <= q < p + 4,
    ensures
        num_keys <= 1 ==> take_times(b, p, num_keys, num_frames) == Parse::Parsed(Seq::<u16>::empty(), p),
        num_keys > 1 ==> ({
            let t = take_times(b, p, num_keys, num_frames).value();
            let small = 0 <= num_frames < 256;
            &&& t.len() == num_keys
            &&& take_times(b, p, num_keys, num_frames)->Parsed_1 == q + (if small { 1int } else { 2int }) * num_keys
            &&& forall|i: int|
                0 <= i < num_keys ==> #[trigger] t[i] == (if small {
                    b[q + i] as u16
                } else {
                    crate::reader::le_u16(b, q + 2 * i)
                })
        }),
{
    assert(align4(p) == q);
}


/// One key, by the header's format: 96-bit and uncompressed keys hold a
/// little-endian `f32` for each component that the mask names, in the order
/// x, y, z (all three when the mask names none); 48-bit keys a `u16` for
/// each named component; packed keys one word, kept with the track's range.
pub proof fn lemma_key_layout(b: Seq<u8>, p: int, h: FAnimKeyHeader, range: KeyRange)
    ensures
        ({
            let fx = h.component_mask & 1 != 0;
            let fy = h.component_mask & 2 != 0;
            let fz = h.component_mask & 4 != 0;
            let wide = h.key_format == AnimationCompressionFormat::Uncompressed || h.key_format
                == AnimationCompressionFormat::Float96NoW;
            let qy = p + if fx { 4int } else { 0int };
            let qz = qy + if fy { 4int } else { 0int };
            let e = qz + if fz { 4int } else { 0int };
            let hy = p + if fx { 2int } else { 0int };
            let hz = hy + if fy { 2int } else { 0int };
            let he = hz + if fz { 2int } else { 0int };
            &&& wide && h.component_mask & 7 == 0 && fits(b, p, 12) ==> take_key(b, p, h, range) == Parse::Parsed(
                TrackKey::Float { x: Some(le_u32(b, p)), y: Some(le_u32(b, p + 4)), z: Some(le_u32(b, p + 8)) },
                p + 12,
            )
            &&& wide && h.component_mask & 7 != 0 && fits(b, p, e - p) ==> take_key(b, p, h, range) == Parse::Parsed(
                TrackKey::Float {
                    x: if fx { Some(le_u32(b, p)) } else { None },
                    y: if fy { Some(le_u32(b, qy)) } else { None },
                    z: if fz { Some(le_u32(b, qz)) } else { None },
                },
                e,
            )
            &&& h.key_format == AnimationCompressionFormat::Fixed48NoW && fits(b, p, he - p) ==> take_key(b, p, h, range)
                == Parse::Parsed(
                TrackKey::Fixed48 {
                    x: if fx { Some(crate::reader::le_u16(b, p)) } else { None },
                    y: if fy { Some(crate::reader::le_u16(b, hy)) } else { None },
                    z: if fz { Some(crate::reader::le_u16(b, hz)) } else { None },
                },
                he,
            )
            &&& h.key_format == AnimationCompressionFormat::IntervalFixed32NoW && fits(b, p, 4) ==> take_key(b, p, h, range)
                == Parse::Parsed(TrackKey::IntervalFixed32 { packed: le_u32(b, p), range }, p + 4)
        }),
{
}

/// A part read from keys holds as many keys as its header says, key times
/// exactly when the header's mask says that they follow, and ends on a
/// multiple of four; a part whose offset is -1 is empty and reads nothing.
pub proof fn lemma_part_shape(b: Seq<u8>, p: int, offset: i32, track: int, label: Seq<char>, num_frames: i32)
    requires
        take_part(b, p, offset, track, label, num_frames) is Parsed,
    ensures
        offset == -1 ==> take_part(b, p, offset, track, label, num_frames) == Parse::Parsed(
            (Seq::<TrackKey>::empty(), Option::<Seq<u16>>::None),
            p,
        ),
        offset != -1 ==> ({
            let h = <FAnimKeyHeader as Newable>::parse(b, p).value();
            let r = take_part(b, p, offset, track, label, num_frames);
            &&& r.value().0.len() == h.num_keys
            &&& (r.value().1 is Some) == h.has_time_tracks
            &&& r->Parsed_1 % 4 == 0
        }),
{
    if offset != -1 {
        let h = <FAnimKeyHeader as Newable>::parse(b, p).value();
        let q = <FAnimKeyHeader as Newable>::parse(b, p)->Parsed_1;
        let q1 = take_range(b, q, h)->Parsed_1;
        let range = take_range(b, q, h).value();
        lemma_keys_len(b, q1, h.num_keys as nat, h, range);
    }
}

/// `n` keys read are `n` keys.
proof fn lemma_keys_len(b: Seq<u8>, p: int, n: nat, h: FAnimKeyHeader, range: KeyRange)
    requires
        take_keys(b, p, n, h, range) is Parsed,
    ensures
        take_keys(b, p, n, h, range).value().len() == n,
    decreases n,
{
    if n > 0 {
        let q = take_key(b, p, h, range)->Parsed_1;
        lemma_keys_len(b, q, (n - 1) as nat, h, range);
    }
}


/// A part's key frames: there are none without keys; a single key sits at
/// frame 0; stored times are the frames, key by key; and without stored
/// times the frames are 0, 1, ... up to the sequence's frame count.
pub proof fn lemma_key_times_cases(num_keys: nat, times: Option<Seq<u16>>, num_frames: i32)
    ensures
        (key_times(num_keys, times, num_frames) is None) == (num_keys == 0),
        num_keys == 1 ==> key_times(num_keys, times, num_frames)->Some_0.len() == 1 && key_times(
            num_keys,
            times,
            num_frames,
        )->Some_0[0] == 0,
        num_keys > 1 && times is Some ==> ({
            let f = key_times(num_keys, times, num_frames)->Some_0;
            &&& f.len() == times->Some_0.len()
            &&& forall|i: int| 0 <= i < f.len() ==> #[trigger] f[i] == times->Some_0[i] as int
        }),
        num_keys > 1 && times is None ==> ({
            let f = key_times(num_keys, times, num_frames)->Some_0;
            &&& f.len() == (if num_frames < 0 { 0 } else { num_frames as int })
            &&& forall|i: int| 0 <= i < f.len() ==> #[trigger] f[i] == i
        }),
{
}


/// A track is its translation part, read with its first offset, then its
/// rotation part, read with its second, then its scale part, read with the
/// scale offset at `track * strip_size`; each part's keys and times go to the
/// track's matching fields.
pub proof fn lemma_track_parts(
    b: Seq<u8>,
    p: int,
    track: int,
    offsets: Seq<i32>,
    scale_offsets: Seq<i32>,
    strip_size: i32,
    num_frames: i32,
)
    requires
        0 <= track,
        take_track(b, p, track, offsets, scale_offsets, strip_size, num_frames) is Parsed,
    ensures
        ({
            let v = take_track(b, p, track, offsets, scale_offsets, strip_size, num_frames).value();
            let t = take_part(b, p, offsets[2 * track], track, "Translation error: "@, num_frames);
            let r = take_part(b, t->Parsed_1, offsets[2 * track + 1], track, "Rotation error: "@, num_frames);
            let k = track * ((strip_size as usize) as int);
            let s = take_part(b, r->Parsed_1, scale_offsets[k], track, "Scale error: "@, num_frames);
            &&& t is Parsed && v.translation == t.value().0 && v.translation_times == t.value().1
            &&& r is Parsed && v.rotation == r.value().0 && v.rotation_times == r.value().1
            &&& 0 <= k < scale_offsets.len()
            &&& s is Parsed && v.scale == s.value().0 && v.scale_times == s.value().1
        }),
{
}

/// Tracks `track` to `n` read one after another are `n - track` tracks, the
/// first being track number `track`.
pub proof fn lemma_tracks_count(
    b: Seq<u8>,
    p: int,
    track: nat,
    n: nat,
    offsets: Seq<i32>,
    scale_offsets: Seq<i32>,
    strip_size: i32,
    num_frames: i32,
)
    requires
        take_tracks(b, p, track, n, offsets, scale_offsets, strip_size, num_frames) is Parsed,
    ensures
        track <= n ==> take_tracks(b, p, track, n, offsets, scale_offsets, strip_size, num_frames).value().len() == n
            - track,
        track < n ==> take_tracks(b, p, track, n, offsets, scale_offsets, strip_size, num_frames).value()[0]
            == take_track(b, p, track as int, offsets, scale_offsets, strip_size, num_frames).value(),
    decreases n - track,
{
    if track < n {
        let q = take_track(b, p, track as int, offsets, scale_offsets, strip_size, num_frames)->Parsed_1;
        lemma_tracks_count(b, q, track + 1, n, offsets, scale_offsets, strip_size, num_frames);
    }
}

/// The key stream holds one track for each pair of track offsets, read from
/// its start; only per-track compression (key encoding 2) can be read, and
/// any other encoding is the error "Can only parse PerTrackCompression".
pub proof fn lemma_stream_tracks(
    key_encoding_format: u8,
    offsets: Seq<i32>,
    scale_offsets: Seq<i32>,
    strip_size: i32,
    num_frames: i32,
    stream: Seq<u8>,
)
    ensures
        key_encoding_format != 2 ==> stream_tracks(key_encoding_format, offsets, scale_offsets, strip_size, num_frames, stream)
            == Parse::<Seq<TrackView>>::Failed(seq!["Can only parse PerTrackCompression"@], 0),
        key_encoding_format == 2 && stream_tracks(key_encoding_format, offsets, scale_offsets, strip_size, num_frames, stream)
            is Parsed ==> stream_tracks(key_encoding_format, offsets, scale_offsets, strip_size, num_frames, stream).value().len()
            == offsets.len() / 2,
{
    if key_encoding_format == 2 && stream_tracks(key_encoding_format, offsets, scale_offsets, strip_size, num_frames, stream)
        is Parsed {
        lemma_tracks_count(stream, 0, 0, offsets.len() / 2, offsets, scale_offsets, strip_size, num_frames);
    }
}


/// An animation sequence: its object; the skeleton's GUID (16 bytes); two
/// bytes of strip flags; a `u32` compressed flag, which is not zero; the
/// key encoding and the translation, rotation and scale formats (one byte
/// each, in that order); the track offsets; the scale offsets; the scale
/// strip size; the segments; the track-to-skeleton table; the curve tags;
/// then the raw size, the frame count and the byte count (`i32`s), a `u32`
/// flag, and the key stream's bytes. Its tracks are those that the stream
/// holds by the sequence's own key encoding, offsets and frame count, and
/// none when they cannot be read.
#[verifier::spinoff_prover]
#[verifier::rlimit(100)]
pub proof fn lemma_anim_sequence_layout(b: Seq<u8>, p: int, names: Seq<Seq<char>>, imports: Seq<Seq<char>>)
    requires
        take_anim_sequence(b, p, names, imports) is Parsed,
    ensures
        ({
            let v = take_anim_sequence(b, p, names, imports).value();
            let o = take_object(b, p, names, imports, "AnimSequence"@);
            let p0 = o->Parsed_1;
            let t0 = take_tarray::<i32>(b, p0 + 26);
            let t1 = take_tarray::<i32>(b, t0->Parsed_1);
            let q2 = t1->Parsed_1 + 4;
            let t3 = take_tarray::<FCompressedSegment>(b, q2);
            let t4 = take_tarray::<i32>(b, t3->Parsed_1);
            let c = take_properties(b, t4->Parsed_1, names, imports);
            let q = c->Parsed_1;
            let n = signed32(le_u32(b, q + 8)) as int;
            let tracks = stream_tracks(
                v.key_encoding_format,
                v.compressed_track_offsets,
                v.scale_offset_data,
                v.scale_strip_size,
                v.compressed_num_frames,
                v.compressed_stream,
            );
            &&& o is Parsed && v.super_object == o.value()
            &&& v.skeleton_guid == (FGuid {
                a: le_u32(b, p0),
                b: le_u32(b, p0 + 4),
                c: le_u32(b, p0 + 8),
                d: le_u32(b, p0 + 12),
            })
            &&& le_u32(b, p0 + 18) != 0
            &&& v.key_encoding_format == b[p0 + 22]
            &&& v.translation_compression_format == b[p0 + 23]
            &&& v.rotation_compression_format == b[p0 + 24]
            &&& v.scale_compression_format == b[p0 + 25]
            &&& t0 is Parsed && v.compressed_track_offsets == t0.value()
            &&& t1 is Parsed && v.scale_offset_data == t1.value()
            &&& v.scale_strip_size == signed32(le_u32(b, t1->Parsed_1))
            &&& t3 is Parsed && v.compressed_segments == t3.value()
            &&& t4 is Parsed && v.compressed_track_to_skeleton_table == t4.value()
            &&& c is Parsed && v.compressed_curve_data.properties == c.value()
            &&& v.compressed_curve_data.export_type == "RawCurveData"@
            &&& v.compressed_raw_data_size == signed32(le_u32(b, q))
            &&& v.compressed_num_frames == signed32(le_u32(b, q + 4))
            &&& 0 <= n && v.compressed_stream == b.subrange(q + 16, q + 16 + n)
            &&& (v.tracks is Some) == (tracks is Parsed)
            &&& v.tracks is Some ==> v.tracks->Some_0 == tracks.value()
        }),
{
}

} // verus!
