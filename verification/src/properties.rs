//! Property tags and the values they hold: the self-describing part of a
//! package, where a tag names a property's type and a value of that type
//! follows, and where struct, array and map values hold further values.

use vstd::prelude::*;
use crate::error::{ParserError, ParserResult};
use crate::names::{
    import_names, name_texts, read_fname, take_fname, FPackageIndex, FPackageIndexView, ImportMap, NameMap,
    NewableWithNameMap,
};
use crate::newable::{lemma_prepend_assoc, prepend, read_tarray, take_tarray, Newable};
use crate::reader::{fits, le_u16, le_u32, le_u64, signed32, 
    outcome, outcome_as, read_string, take_i32, take_i8, take_string, take_u16, take_u32, take_u64, take_u8, Parse, Reader,
};
use crate::structs::{
    FColor, FEntry, FGameplayTagContainer, FI32, FIntPoint, FLevelSequenceObjectReferenceMap, FLinearColor,
    FMovieSceneEvaluationKey, FMovieSceneEvaluationTree, FMovieSceneEvaluationTreeView, FMovieSceneFrameRange,
    FPerPlatformFloat, FPerPlatformInt, FQuat, FRichCurveKey, FRotator, FSimpleCurveKey, FSmartName,
    FSoftObjectPath, FSoftObjectPathView, FU32, FVector, FVector2D, FWeightedRandomSampler, TRange, TRangeView,
    TEvaluationTreeEntryContainer, UInterfaceProperty, FLevelSequenceLegacyObjectReferenceView,
    FMovieSceneFrameRangeView, FSmartNameView, FWeightedRandomSamplerView,
};
use crate::summary::FGuid;
use crate::text::{decimal, decimal_text, join, same_text, text, trim_text, trimmed};

verus! {

// ---------------------------------------------------------------------------
// Text

/// A localizable text; only the forms without history (-1) and with a plain
/// source string (0) are known.
#[derive(Debug)]
pub struct FText {
    pub flags: u32,
    pub history_type: i8,
    pub namespace: String,
    pub key: String,
    pub source_string: String,
}

/// What an [`FText`] holds, as plain values.
pub struct FTextView {
    pub flags: u32,
    pub history_type: i8,
    pub namespace: Seq<char>,
    pub key: Seq<char>,
    pub source_string: Seq<char>,
}

impl DeepView for FText {
    type V = FTextView;

    open spec fn deep_view(&self) -> FTextView {
        FTextView {
            flags: self.flags,
            history_type: self.history_type,
            namespace: self.namespace@,
            key: self.key@,
            source_string: self.source_string@,
        }
    }
}

pub open spec fn history_message(history_type: i8) -> Seq<char> {
    "Could not read history type: "@ + decimal(history_type as int)
}

impl Newable for FText {
    /// `u32` flags and an `i8` history type; for history 0, the namespace,
    /// key and source string; for -1 nothing more.
    open spec fn parse(b: Seq<u8>, p: int) -> Parse<FTextView> {
        match take_u32(b, p) {
            Parse::Parsed(flags, q) => match take_i8(b, q) {
                Parse::Parsed(history_type, q1) => {
                    if history_type == -1 {
                        Parse::Parsed(
                            FTextView {
                                flags,
                                history_type,
                                namespace: Seq::empty(),
                                key: Seq::empty(),
                                source_string: Seq::empty(),
                            },
                            q1,
                        )
                    } else if history_type == 0 {
                        match take_string(b, q1) {
                            Parse::Parsed(namespace, q2) => match take_string(b, q2) {
                                Parse::Parsed(key, q3) => match take_string(b, q3) {
                                    Parse::Parsed(source_string, q4) => Parse::Parsed(
                                        FTextView { flags, history_type, namespace, key, source_string },
                                        q4,
                                    ),
                                    other => other.pass(),
                                },
                                other => other.pass(),
                            },
                            other => other.pass(),
                        }
                    } else {
                        Parse::Failed(seq![history_message(history_type)], q1)
                    }
                },
                other => other.pass(),
            },
            other => other.pass(),
        }
    }

    fn new(reader: &mut Reader) -> (r: ParserResult<Self>) {
        let flags = reader.read_u32()?;
        let history_type = reader.read_i8()?;
        if history_type == -1 {
            Ok(FText {
                flags,
                history_type,
                namespace: String::new(),
                key: String::new(),
                source_string: String::new(),
            })
        } else if history_type == 0 {
            let namespace = read_string(reader)?;
            let key = read_string(reader)?;
            let source_string = read_string(reader)?;
            Ok(FText { flags, history_type, namespace, key, source_string })
        } else {
            let msg = join(text("Could not read history type: "), decimal_text(history_type as i128).as_str());
            Err(ParserError::new(msg))
        }
    }
}

// ---------------------------------------------------------------------------
// Tag data

/// The type parameters that a tag carries for some property types.
#[derive(Debug)]
pub enum FPropertyTagData {
    StructProperty(String, FGuid),
    BoolProperty(bool),
    ByteProperty(String),
    EnumProperty(String),
    ArrayProperty(String),
    MapProperty(String, String),
    SetProperty(String),
    NoData,
}

/// What an [`FPropertyTagData`] holds, as plain values.
pub enum TagDataView {
    StructProperty(Seq<char>, FGuid),
    BoolProperty(bool),
    ByteProperty(Seq<char>),
    EnumProperty(Seq<char>),
    ArrayProperty(Seq<char>),
    MapProperty(Seq<char>, Seq<char>),
    SetProperty(Seq<char>),
    NoData,
}

impl DeepView for FPropertyTagData {
    type V = TagDataView;

    open spec fn deep_view(&self) -> TagDataView {
        match self {
            FPropertyTagData::StructProperty(n, g) => TagDataView::StructProperty(n@, *g),
            FPropertyTagData::BoolProperty(v) => TagDataView::BoolProperty(*v),
            FPropertyTagData::ByteProperty(n) => TagDataView::ByteProperty(n@),
            FPropertyTagData::EnumProperty(n) => TagDataView::EnumProperty(n@),
            FPropertyTagData::ArrayProperty(n) => TagDataView::ArrayProperty(n@),
            FPropertyTagData::MapProperty(k, v) => TagDataView::MapProperty(k@, v@),
            FPropertyTagData::SetProperty(n) => TagDataView::SetProperty(n@),
            FPropertyTagData::NoData => TagDataView::NoData,
        }
    }
}

/// The map properties whose tags do not name their key and value struct
/// types, and the types that they hold.
pub open spec fn overrides(tag_name: Seq<char>) -> Option<TagDataView> {
    if tag_name == "BindingIdToReferences"@ {
        Some(TagDataView::MapProperty("Guid"@, "LevelSequenceBindingReferenceArray"@))
    } else if tag_name == "Tracks"@ {
        Some(TagDataView::MapProperty("MovieSceneTrackIdentifier"@, "MovieSceneEvaluationTrack"@))
    } else if tag_name == "SubTemplateSerialNumbers"@ {
        Some(TagDataView::MapProperty("MovieSceneSequenceID"@, "UInt32Property"@))
    } else if tag_name == "SubSequences"@ {
        Some(TagDataView::MapProperty("MovieSceneSequenceID"@, "MovieSceneSubSequenceData"@))
    } else if tag_name == "Hierarchy"@ {
        Some(TagDataView::MapProperty("MovieSceneSequenceID"@, "MovieSceneSequenceHierarchyNode"@))
    } else if tag_name == "TrackSignatureToTrackIdentifier"@ {
        Some(TagDataView::MapProperty("Guid"@, "MovieSceneTrackIdentifier"@))
    } else if tag_name == "SubSectionRanges"@ {
        Some(TagDataView::MapProperty("Guid"@, "MovieSceneFrameRange"@))
    } else {
        None
    }
}

/// The key and value types of the map properties that [`overrides`] lists.
pub fn tag_data_overrides(tag_name: &str) -> (r: Option<FPropertyTagData>)
    ensures
        r.deep_view() == overrides(tag_name@),
{
    if same_text(tag_name, "BindingIdToReferences") {
        Some(FPropertyTagData::MapProperty(text("Guid"), text("LevelSequenceBindingReferenceArray")))
    } else if same_text(tag_name, "Tracks") {
        Some(FPropertyTagData::MapProperty(text("MovieSceneTrackIdentifier"), text("MovieSceneEvaluationTrack")))
    } else if same_text(tag_name, "SubTemplateSerialNumbers") {
        Some(FPropertyTagData::MapProperty(text("MovieSceneSequenceID"), text("UInt32Property")))
    } else if same_text(tag_name, "SubSequences") {
        Some(FPropertyTagData::MapProperty(text("MovieSceneSequenceID"), text("MovieSceneSubSequenceData")))
    } else if same_text(tag_name, "Hierarchy") {
        Some(FPropertyTagData::MapProperty(text("MovieSceneSequenceID"), text("MovieSceneSequenceHierarchyNode")))
    } else if same_text(tag_name, "TrackSignatureToTrackIdentifier") {
        Some(FPropertyTagData::MapProperty(text("Guid"), text("MovieSceneTrackIdentifier")))
    } else if same_text(tag_name, "SubSectionRanges") {
        Some(FPropertyTagData::MapProperty(text("Guid"), text("MovieSceneFrameRange")))
    } else {
        None
    }
}

/// The type parameters that follow the size and array index of a tag.
pub open spec fn take_tag_data(b: Seq<u8>, p: int, ptype: Seq<char>, names: Seq<Seq<char>>) -> Parse<TagDataView> {
    if ptype == "StructProperty"@ {
        match take_fname(b, p, names) {
            Parse::Parsed(n, q) => match <FGuid as Newable>::parse(b, q) {
                Parse::Parsed(g, e) => Parse::Parsed(TagDataView::StructProperty(n, g), e),
                other => other.pass(),
            },
            other => other.pass(),
        }
    } else if ptype == "BoolProperty"@ {
        match take_u8(b, p) {
            Parse::Parsed(v, e) => Parse::Parsed(TagDataView::BoolProperty(v != 0), e),
            other => other.pass(),
        }
    } else if ptype == "EnumProperty"@ {
        match take_fname(b, p, names) {
            Parse::Parsed(n, e) => Parse::Parsed(TagDataView::EnumProperty(n), e),
            other => other.pass(),
        }
    } else if ptype == "ByteProperty"@ {
        match take_fname(b, p, names) {
            Parse::Parsed(n, e) => Parse::Parsed(TagDataView::ByteProperty(n), e),
            other => other.pass(),
        }
    } else if ptype == "ArrayProperty"@ {
        match take_fname(b, p, names) {
            Parse::Parsed(n, e) => Parse::Parsed(TagDataView::ArrayProperty(n), e),
            other => other.pass(),
        }
    } else if ptype == "MapProperty"@ {
        match take_fname(b, p, names) {
            Parse::Parsed(k, q) => match take_fname(b, q, names) {
                Parse::Parsed(v, e) => Parse::Parsed(TagDataView::MapProperty(k, v), e),
                other => other.pass(),
            },
            other => other.pass(),
        }
    } else if ptype == "SetProperty"@ {
        match take_fname(b, p, names) {
            Parse::Parsed(n, e) => Parse::Parsed(TagDataView::SetProperty(n), e),
            other => other.pass(),
        }
    } else {
        Parse::Parsed(TagDataView::NoData, p)
    }
}

fn read_tag_data(reader: &mut Reader, name_map: &NameMap, property_type: &str) -> (r: ParserResult<FPropertyTagData>)
    ensures
        final(reader).bytes() == old(reader).bytes(),
        outcome(
            r,
            take_tag_data(old(reader).bytes(), old(reader).at(), property_type@, name_texts(name_map)),
            *final(reader),
        ),
{
    if same_text(property_type, "StructProperty") {
        let n = read_fname(reader, name_map)?;
        let g = FGuid::new(reader)?;
        Ok(FPropertyTagData::StructProperty(n, g))
    } else if same_text(property_type, "BoolProperty") {
        let v = reader.read_u8()?;
        Ok(FPropertyTagData::BoolProperty(v != 0))
    } else if same_text(property_type, "EnumProperty") {
        let n = read_fname(reader, name_map)?;
        Ok(FPropertyTagData::EnumProperty(n))
    } else if same_text(property_type, "ByteProperty") {
        let n = read_fname(reader, name_map)?;
        Ok(FPropertyTagData::ByteProperty(n))
    } else if same_text(property_type, "ArrayProperty") {
        let n = read_fname(reader, name_map)?;
        Ok(FPropertyTagData::ArrayProperty(n))
    } else if same_text(property_type, "MapProperty") {
        let k = read_fname(reader, name_map)?;
        let v = read_fname(reader, name_map)?;
        Ok(FPropertyTagData::MapProperty(k, v))
    } else if same_text(property_type, "SetProperty") {
        let n = read_fname(reader, name_map)?;
        Ok(FPropertyTagData::SetProperty(n))
    } else {
        Ok(FPropertyTagData::NoData)
    }
}

// ---------------------------------------------------------------------------
// Tag headers

/// Everything of a tag but its value.
pub struct TagHeaderView {
    pub name: Seq<char>,
    pub property_type: Seq<char>,
    pub tag_data: TagDataView,
    pub size: i32,
    pub array_index: i32,
    pub property_guid: Option<FGuid>,
}

/// Everything of a tag but its value.
pub struct TagHeader {
    pub name: String,
    pub property_type: String,
    pub tag_data: FPropertyTagData,
    pub size: i32,
    pub array_index: i32,
    pub property_guid: Option<FGuid>,
}

impl DeepView for TagHeader {
    type V = TagHeaderView;

    open spec fn deep_view(&self) -> TagHeaderView {
        TagHeaderView {
            name: self.name@,
            property_type: self.property_type@,
            tag_data: self.tag_data.deep_view(),
            size: self.size,
            array_index: self.array_index,
            property_guid: self.property_guid,
        }
    }
}

/// The tag data that a tag ends up with: a map property named in
/// [`overrides`] takes the types given there.
pub open spec fn effective_tag_data(name: Seq<char>, ptype: Seq<char>, data: TagDataView) -> TagDataView {
    if ptype == "MapProperty"@ {
        match overrides(name) {
            Some(d) => d,
            None => data,
        }
    } else {
        data
    }
}

/// An optional GUID: a byte that says whether one follows.
pub open spec fn take_optional_guid(b: Seq<u8>, p: int) -> Parse<Option<FGuid>> {
    match take_u8(b, p) {
        Parse::Parsed(has, q) => {
            if has != 0 {
                match <FGuid as Newable>::parse(b, q) {
                    Parse::Parsed(g, e) => Parse::Parsed(Some(g), e),
                    other => other.pass(),
                }
            } else {
                Parse::Parsed(None, q)
            }
        },
        other => other.pass(),
    }
}

/// A tag's header: an FName (the text "None" ends a list of tags), the
/// type's FName (trimmed), the `i32` size of the value and `i32` array index,
/// the type parameters, and an optional GUID.
pub open spec fn take_tag_header(b: Seq<u8>, p: int, names: Seq<Seq<char>>) -> Parse<Option<TagHeaderView>> {
    match take_fname(b, p, names) {
        Parse::Parsed(name, q) => {
            if name == "None"@ {
                Parse::Parsed(None, q)
            } else {
                match take_fname(b, q, names) {
                    Parse::Parsed(raw_type, q1) => {
                        let property_type = trimmed(raw_type);
                        match take_i32(b, q1) {
                            Parse::Parsed(size, q2) => match take_i32(b, q2) {
                                Parse::Parsed(array_index, q3) => match take_tag_data(b, q3, property_type, names) {
                                    Parse::Parsed(data, q4) => match take_optional_guid(b, q4) {
                                        Parse::Parsed(property_guid, e) => Parse::Parsed(
                                            Some(
                                                TagHeaderView {
                                                    name,
                                                    property_type,
                                                    tag_data: effective_tag_data(name, property_type, data),
                                                    size,
                                                    array_index,
                                                    property_guid,
                                                },
                                            ),
                                            e,
                                        ),
                                        other => other.pass(),
                                    },
                                    other => other.pass(),
                                },
                                other => other.pass(),
                            },
                            other => other.pass(),
                        }
                    },
                    other => other.pass(),
                }
            }
        },
        other => other.pass(),
    }
}

fn read_tag_header(reader: &mut Reader, name_map: &NameMap) -> (r: ParserResult<Option<TagHeader>>)
    ensures
        final(reader).bytes() == old(reader).bytes(),
        outcome(r, take_tag_header(old(reader).bytes(), old(reader).at(), name_texts(name_map)), *final(reader)),
{
    let name = read_fname(reader, name_map)?;
    if same_text(name.as_str(), "None") {
        return Ok(None);
    }
    let raw_type = read_fname(reader, name_map)?;
    let property_type = trim_text(raw_type.as_str()).to_owned();
    let size = reader.read_i32()?;
    let array_index = reader.read_i32()?;
    let mut tag_data = read_tag_data(reader, name_map, property_type.as_str())?;
    if same_text(property_type.as_str(), "MapProperty") {
        tag_data = match tag_data_overrides(name.as_str()) {
            Some(data) => data,
            None => tag_data,
        };
    }
    let has_property_guid = reader.read_u8()? != 0;
    let property_guid = if has_property_guid {
        Some(FGuid::new(reader)?)
    } else {
        None
    };
    Ok(Some(TagHeader { name, property_type, tag_data, size, array_index, property_guid }))
}

// ---------------------------------------------------------------------------
// Values

/// A property value, by the type that its tag names.
#[derive(Debug)]
pub enum FPropertyTagType {
    BoolProperty(bool),
    StructProperty(UScriptStruct),
    ObjectProperty(FPackageIndex),
    InterfaceProperty(UInterfaceProperty),
    /// The bits of an `f32`.
    FloatProperty(u32),
    TextProperty(FText),
    StrProperty(String),
    NameProperty(String),
    IntProperty(i32),
    UInt16Property(u16),
    UInt32Property(u32),
    UInt64Property(u64),
    ArrayProperty(UScriptArray),
    MapProperty(UScriptMap),
    ByteProperty(u8),
    EnumProperty(Option<String>),
    SoftObjectProperty(FSoftObjectPath),
}

/// The elements of an array property, with the tag that describes them when
/// they are structs or arrays.
#[derive(Debug)]
pub struct UScriptArray {
    pub tag: Option<Box<FPropertyTag>>,
    pub data: Vec<FPropertyTagType>,
}

/// The entries of a map property, in the order read.
#[derive(Debug)]
pub struct UScriptMap {
    pub map_data: Vec<(FPropertyTagType, FPropertyTagType)>,
}

/// A tagged property: its name, its type, the type's parameters, and the
/// value (which is left unread inside the tag that describes an array's
/// elements).
#[derive(Debug)]
pub struct FPropertyTag {
    pub name: String,
    pub property_type: String,
    pub tag_data: FPropertyTagData,
    pub size: i32,
    pub array_index: i32,
    pub property_guid: Option<FGuid>,
    pub tag: Option<FPropertyTagType>,
}

/// A struct value and the name of its struct type.
#[derive(Debug)]
pub struct UScriptStruct {
    pub struct_name: String,
    pub struct_type: StructValue,
}

/// A struct value, by struct type; any struct type not listed is read as a
/// list of tagged properties.
#[derive(Debug)]
pub enum StructValue {
    Vector2D(FVector2D),
    LinearColor(FLinearColor),
    Color(FColor),
    GameplayTagContainer(FGameplayTagContainer),
    IntPoint(FIntPoint),
    Guid(FGuid),
    Quat(FQuat),
    Vector(FVector),
    Rotator(FRotator),
    PerPlatformFloat(FPerPlatformFloat),
    PerPlatformInt(FPerPlatformInt),
    WeightedRandomSampler(FWeightedRandomSampler),
    SoftObjectPath(FSoftObjectPath),
    LevelSequenceObjectReferenceMap(FLevelSequenceObjectReferenceMap),
    I32(FI32),
    SectionEvaluationDataTree(FSectionEvaluationDataTree),
    MovieSceneSegment(FMovieSceneSegment),
    InlineStruct(InlineUStruct),
    MovieSceneFrameRange(FMovieSceneFrameRange),
    U32(FU32),
    MovieSceneEvaluationKey(FMovieSceneEvaluationKey),
    SmartName(FSmartName),
    RichCurveKey(FRichCurveKey),
    SimpleCurveKey(FSimpleCurveKey),
    Fallback(FStructFallback),
}

/// A struct read as the tagged properties it holds.
#[derive(Debug)]
pub struct FStructFallback {
    pub properties: Vec<FPropertyTag>,
}

/// A segment of a sequence: a frame range, an id, and its evaluation data.
#[derive(Debug)]
pub struct FMovieSceneSegment {
    pub range: TRange<i32>,
    pub id: i32,
    pub allow_empty: bool,
    pub impls: Vec<UScriptStruct>,
}

/// An evaluation tree whose data items are structs of tagged properties.
#[derive(Debug)]
pub struct TMovieSceneEvaluationTree {
    pub base_tree: FMovieSceneEvaluationTree,
    pub data: TEvaluationTreeEntryContainer<FStructFallback>,
}

/// The evaluation data of the sections of a track.
#[derive(Debug)]
pub struct FSectionEvaluationDataTree {
    pub tree: TMovieSceneEvaluationTree,
}

/// A struct that names its own type and holds tagged properties.
#[derive(Debug)]
pub struct InlineUStruct {
    pub type_label: String,
    pub data: FStructFallback,
}

/// What an [`FPropertyTagType`] holds, as plain values.
pub enum TagTypeView {
    BoolProperty(bool),
    StructProperty(ScriptStructView),
    ObjectProperty(FPackageIndexView),
    InterfaceProperty(UInterfaceProperty),
    FloatProperty(u32),
    TextProperty(FTextView),
    StrProperty(Seq<char>),
    NameProperty(Seq<char>),
    IntProperty(i32),
    UInt16Property(u16),
    UInt32Property(u32),
    UInt64Property(u64),
    ArrayProperty(ArrayView),
    MapProperty(Seq<(TagTypeView, TagTypeView)>),
    ByteProperty(u8),
    EnumProperty(Option<Seq<char>>),
    SoftObjectProperty(FSoftObjectPathView),
}

/// What a [`UScriptArray`] holds, as plain values.
pub struct ArrayView {
    pub tag: Option<Box<TagView>>,
    pub data: Seq<TagTypeView>,
}

/// What an [`FPropertyTag`] holds, as plain values.
pub struct TagView {
    pub name: Seq<char>,
    pub property_type: Seq<char>,
    pub tag_data: TagDataView,
    pub size: i32,
    pub array_index: i32,
    pub property_guid: Option<FGuid>,
    pub tag: Option<Box<TagTypeView>>,
}

/// What a [`UScriptStruct`] holds, as plain values.
pub struct ScriptStructView {
    pub struct_name: Seq<char>,
    pub struct_type: StructValueView,
}

/// What a [`StructValue`] holds, as plain values.
pub enum StructValueView {
    Vector2D(FVector2D),
    LinearColor(FLinearColor),
    Color(FColor),
    GameplayTagContainer(Seq<Seq<char>>),
    IntPoint(FIntPoint),
    Guid(FGuid),
    Quat(FQuat),
    Vector(FVector),
    Rotator(FRotator),
    PerPlatformFloat(FPerPlatformFloat),
    PerPlatformInt(FPerPlatformInt),
    WeightedRandomSampler(FWeightedRandomSamplerView),
    SoftObjectPath(FSoftObjectPathView),
    LevelSequenceObjectReferenceMap(Seq<FLevelSequenceLegacyObjectReferenceView>),
    I32(FI32),
    SectionEvaluationDataTree(SectionTreeView),
    MovieSceneSegment(SegmentView),
    InlineStruct(InlineView),
    MovieSceneFrameRange(FMovieSceneFrameRangeView),
    U32(FU32),
    MovieSceneEvaluationKey(FMovieSceneEvaluationKey),
    SmartName(FSmartNameView),
    RichCurveKey(FRichCurveKey),
    SimpleCurveKey(FSimpleCurveKey),
    Fallback(Seq<TagView>),
}

/// What an [`FMovieSceneSegment`] holds, as plain values.
pub struct SegmentView {
    pub range: TRangeView<i32>,
    pub id: i32,
    pub allow_empty: bool,
    pub impls: Seq<ScriptStructView>,
}

/// What an [`FSectionEvaluationDataTree`] holds, as plain values.
pub struct SectionTreeView {
    pub base_tree: FMovieSceneEvaluationTreeView,
    pub entries: Seq<FEntry>,
    pub items: Seq<Seq<TagView>>,
}

/// What an [`InlineUStruct`] holds, as plain values.
pub struct InlineView {
    pub type_label: Seq<char>,
    pub data: Seq<TagView>,
}

pub open spec fn tag_type_view(t: FPropertyTagType) -> TagTypeView
    decreases t,
{
    match t {
        FPropertyTagType::BoolProperty(v) => TagTypeView::BoolProperty(v),
        FPropertyTagType::StructProperty(s) => TagTypeView::StructProperty(script_struct_view(s)),
        FPropertyTagType::ObjectProperty(i) => TagTypeView::ObjectProperty(i.deep_view()),
        FPropertyTagType::InterfaceProperty(i) => TagTypeView::InterfaceProperty(i),
        FPropertyTagType::FloatProperty(v) => TagTypeView::FloatProperty(v),
        FPropertyTagType::TextProperty(x) => TagTypeView::TextProperty(x.deep_view()),
        FPropertyTagType::StrProperty(s) => TagTypeView::StrProperty(s@),
        FPropertyTagType::NameProperty(s) => TagTypeView::NameProperty(s@),
        FPropertyTagType::IntProperty(v) => TagTypeView::IntProperty(v),
        FPropertyTagType::UInt16Property(v) => TagTypeView::UInt16Property(v),
        FPropertyTagType::UInt32Property(v) => TagTypeView::UInt32Property(v),
        FPropertyTagType::UInt64Property(v) => TagTypeView::UInt64Property(v),
        FPropertyTagType::ArrayProperty(a) => TagTypeView::ArrayProperty(array_view(a)),
        FPropertyTagType::MapProperty(m) => TagTypeView::MapProperty(pairs_view(m.map_data@)),
        FPropertyTagType::ByteProperty(v) => TagTypeView::ByteProperty(v),
        FPropertyTagType::EnumProperty(v) => TagTypeView::EnumProperty(
            match v {
                Some(s) => Some(s@),
                None => None,
            },
        ),
        FPropertyTagType::SoftObjectProperty(x) => TagTypeView::SoftObjectProperty(x.deep_view()),
    }
}

pub open spec fn array_view(a: UScriptArray) -> ArrayView
    decreases a,
{
    ArrayView { tag: boxed_tag_view(a.tag), data: tag_types_view(a.data@) }
}

pub open spec fn boxed_tag_view(t: Option<Box<FPropertyTag>>) -> Option<Box<TagView>>
    decreases t,
{
    match t {
        Some(x) => Some(Box::new(tag_view(*x))),
        None => None,
    }
}

pub open spec fn tag_types_view(s: Seq<FPropertyTagType>) -> Seq<TagTypeView>
    decreases s,
{
    if s.len() == 0 {
        Seq::empty()
    } else {
        tag_types_view(s.drop_last()).push(tag_type_view(s.last()))
    }
}

pub open spec fn pairs_view(s: Seq<(FPropertyTagType, FPropertyTagType)>) -> Seq<(TagTypeView, TagTypeView)>
    decreases s,
{
    if s.len() == 0 {
        Seq::empty()
    } else {
        pairs_view(s.drop_last()).push((tag_type_view(s.last().0), tag_type_view(s.last().1)))
    }
}

pub open spec fn tag_view(t: FPropertyTag) -> TagView
    decreases t,
{
    TagView {
        name: t.name@,
        property_type: t.property_type@,
        tag_data: t.tag_data.deep_view(),
        size: t.size,
        array_index: t.array_index,
        property_guid: t.property_guid,
        tag: match t.tag {
            Some(v) => Some(Box::new(tag_type_view(v))),
            None => None,
        },
    }
}

pub open spec fn tags_view(s: Seq<FPropertyTag>) -> Seq<TagView>
    decreases s,
{
    if s.len() == 0 {
        Seq::empty()
    } else {
        tags_view(s.drop_last()).push(tag_view(s.last()))
    }
}

pub open spec fn script_struct_view(s: UScriptStruct) -> ScriptStructView
    decreases s,
{
    ScriptStructView { struct_name: s.struct_name@, struct_type: struct_value_view(s.struct_type) }
}

pub open spec fn script_structs_view(s: Seq<UScriptStruct>) -> Seq<ScriptStructView>
    decreases s,
{
    if s.len() == 0 {
        Seq::empty()
    } else {
        script_structs_view(s.drop_last()).push(script_struct_view(s.last()))
    }
}

pub open spec fn fallbacks_view(s: Seq<FStructFallback>) -> Seq<Seq<TagView>>
    decreases s,
{
    if s.len() == 0 {
        Seq::empty()
    } else {
        fallbacks_view(s.drop_last()).push(tags_view(s.last().properties@))
    }
}

pub open spec fn struct_value_view(v: StructValue) -> StructValueView
    decreases v,
{
    match v {
        StructValue::Vector2D(x) => StructValueView::Vector2D(x),
        StructValue::LinearColor(x) => StructValueView::LinearColor(x),
        StructValue::Color(x) => StructValueView::Color(x),
        StructValue::GameplayTagContainer(x) => StructValueView::GameplayTagContainer(x.deep_view()),
        StructValue::IntPoint(x) => StructValueView::IntPoint(x),
        StructValue::Guid(x) => StructValueView::Guid(x),
        StructValue::Quat(x) => StructValueView::Quat(x),
        StructValue::Vector(x) => StructValueView::Vector(x),
        StructValue::Rotator(x) => StructValueView::Rotator(x),
        StructValue::PerPlatformFloat(x) => StructValueView::PerPlatformFloat(x),
        StructValue::PerPlatformInt(x) => StructValueView::PerPlatformInt(x),
        StructValue::WeightedRandomSampler(x) => StructValueView::WeightedRandomSampler(x.deep_view()),
        StructValue::SoftObjectPath(x) => StructValueView::SoftObjectPath(x.deep_view()),
        StructValue::LevelSequenceObjectReferenceMap(x) => StructValueView::LevelSequenceObjectReferenceMap(
            x.deep_view(),
        ),
        StructValue::I32(x) => StructValueView::I32(x),
        StructValue::SectionEvaluationDataTree(x) => StructValueView::SectionEvaluationDataTree(
            SectionTreeView {
                base_tree: x.tree.base_tree.deep_view(),
                entries: x.tree.data.entries.deep_view(),
                items: fallbacks_view(x.tree.data.items@),
            },
        ),
        StructValue::MovieSceneSegment(x) => StructValueView::MovieSceneSegment(
            SegmentView {
                range: x.range.deep_view(),
                id: x.id,
                allow_empty: x.allow_empty,
                impls: script_structs_view(x.impls@),
            },
        ),
        StructValue::InlineStruct(x) => StructValueView::InlineStruct(
            InlineView { type_label: x.type_label@, data: tags_view(x.data.properties@) },
        ),
        StructValue::MovieSceneFrameRange(x) => StructValueView::MovieSceneFrameRange(x.deep_view()),
        StructValue::U32(x) => StructValueView::U32(x),
        StructValue::MovieSceneEvaluationKey(x) => StructValueView::MovieSceneEvaluationKey(x),
        StructValue::SmartName(x) => StructValueView::SmartName(x.deep_view()),
        StructValue::RichCurveKey(x) => StructValueView::RichCurveKey(x),
        StructValue::SimpleCurveKey(x) => StructValueView::SimpleCurveKey(x),
        StructValue::Fallback(x) => StructValueView::Fallback(tags_view(x.properties@)),
    }
}

impl DeepView for FPropertyTagType {
    type V = TagTypeView;

    open spec fn deep_view(&self) -> TagTypeView {
        tag_type_view(*self)
    }
}

impl DeepView for FPropertyTag {
    type V = TagView;

    open spec fn deep_view(&self) -> TagView {
        tag_view(*self)
    }
}

impl DeepView for UScriptStruct {
    type V = ScriptStructView;

    open spec fn deep_view(&self) -> ScriptStructView {
        script_struct_view(*self)
    }
}

impl DeepView for UScriptArray {
    type V = ArrayView;

    open spec fn deep_view(&self) -> ArrayView {
        array_view(*self)
    }
}

impl DeepView for UScriptMap {
    type V = Seq<(TagTypeView, TagTypeView)>;

    open spec fn deep_view(&self) -> Seq<(TagTypeView, TagTypeView)> {
        pairs_view(self.map_data@)
    }
}

impl DeepView for FMovieSceneSegment {
    type V = SegmentView;

    open spec fn deep_view(&self) -> SegmentView {
        SegmentView {
            range: self.range.deep_view(),
            id: self.id,
            allow_empty: self.allow_empty,
            impls: script_structs_view(self.impls@),
        }
    }
}

impl DeepView for FSectionEvaluationDataTree {
    type V = SectionTreeView;

    open spec fn deep_view(&self) -> SectionTreeView {
        SectionTreeView {
            base_tree: self.tree.base_tree.deep_view(),
            entries: self.tree.data.entries.deep_view(),
            items: fallbacks_view(self.tree.data.items@),
        }
    }
}

impl DeepView for InlineUStruct {
    type V = InlineView;

    open spec fn deep_view(&self) -> InlineView {
        InlineView { type_label: self.type_label@, data: tags_view(self.data.properties@) }
    }
}

impl DeepView for FStructFallback {
    type V = Seq<TagView>;

    open spec fn deep_view(&self) -> Seq<TagView> {
        tags_view(self.properties@)
    }
}

// ---------------------------------------------------------------------------
// The layout of tags and values

/// The bytes left from `p`, the measure that the readers below consume.
pub open spec fn rem(b: Seq<u8>, p: int) -> nat {
    if p <= b.len() {
        (b.len() - p) as nat
    } else {
        0
    }
}

/// Reading went on from `from` to the later `to`, from inside the input.
pub open spec fn forward(b: Seq<u8>, from: int, to: int) -> bool {
    0 <= from < to && from < b.len()
}

/// What `size as u64` adds to a `u64` position.
pub open spec fn size_offset(size: i32) -> int {
    if size >= 0 {
        size as int
    } else {
        size + 0x1_0000_0000_0000_0000
    }
}

/// A parse mapped through `f`.
pub open spec fn lift<A, B>(r: Parse<A>, f: spec_fn(A) -> B) -> Parse<B> {
    match r {
        Parse::Parsed(v, e) => Parse::Parsed(f(v), e),
        other => other.pass(),
    }
}

pub open spec fn tag_message(name: Seq<char>, property_type: Seq<char>) -> Seq<char> {
    "Property Tag: "@ + name + " ("@ + property_type + ")"@
}

pub open spec fn struct_message(struct_name: Seq<char>) -> Seq<char> {
    "Struct Type: "@ + struct_name
}

pub open spec fn unknown_type_message(property_type: Seq<char>, pos: int) -> Seq<char> {
    "Could not read property type: "@ + property_type + " at pos "@ + decimal(pos)
}

pub open spec fn map_message(key_type: Seq<char>, value_type: Seq<char>) -> Seq<char> {
    "Could not read MapProperty with types: "@ + key_type + " "@ + value_type
}

pub open spec fn map_entry_message(key_type: Seq<char>, value_type: Seq<char>) -> Seq<char> {
    "MapProperty error, types: "@ + key_type + " "@ + value_type
}

/// A tag made of a header and a value.
pub open spec fn tag_of(h: TagHeaderView, tag: Option<Box<TagTypeView>>) -> TagView {
    TagView {
        name: h.name,
        property_type: h.property_type,
        tag_data: h.tag_data,
        size: h.size,
        array_index: h.array_index,
        property_guid: h.property_guid,
        tag,
    }
}

/// A tag: its header, then (when `read_data`) its value, after which reading
/// goes on `size` bytes past the header; `None` for the tag that ends a
/// list. A position past `u64::MAX` is where the format gives up.
pub open spec fn take_tag(
    b: Seq<u8>,
    p: int,
    names: Seq<Seq<char>>,
    imports: Seq<Seq<char>>,
    read_data: bool,
) -> Parse<Option<TagView>>
    decreases rem(b, p), 0nat, 0nat,
{
    match take_tag_header(b, p, names) {
        Parse::Parsed(None, e) => Parse::Parsed(None, e),
        Parse::Parsed(Some(h), q) => {
            if !forward(b, p, q) {
                Parse::Aborted
            } else if read_data {
                match take_value(b, q, h.property_type, Some(h.tag_data), names, imports).context(
                    tag_message(h.name, h.property_type),
                ) {
                    Parse::Parsed(v, _) => {
                        if q + size_offset(h.size) > u64::MAX {
                            Parse::Aborted
                        } else {
                            Parse::Parsed(Some(tag_of(h, Some(Box::new(v)))), q + size_offset(h.size))
                        }
                    },
                    other => other.pass(),
                }
            } else if q + size_offset(h.size) > u64::MAX {
                Parse::Aborted
            } else {
                Parse::Parsed(Some(tag_of(h, None)), q)
            }
        },
        other => other.pass(),
    }
}

/// Tags up to the one named "None".
pub open spec fn take_properties(b: Seq<u8>, p: int, names: Seq<Seq<char>>, imports: Seq<Seq<char>>) -> Parse<
    Seq<TagView>,
>
    decreases rem(b, p), 1nat, 0nat,
{
    match take_tag(b, p, names, imports, true) {
        Parse::Parsed(None, e) => Parse::Parsed(Seq::empty(), e),
        Parse::Parsed(Some(t), e) => {
            if forward(b, p, e) {
                prepend(seq![t], take_properties(b, e, names, imports))
            } else {
                Parse::Aborted
            }
        },
        other => other.pass(),
    }
}

/// An FString that names a type, then tags.
pub open spec fn take_inline_struct(b: Seq<u8>, p: int, names: Seq<Seq<char>>, imports: Seq<Seq<char>>) -> Parse<
    InlineView,
>
    decreases rem(b, p), 2nat, 0nat,
{
    match take_string(b, p) {
        Parse::Parsed(type_label, q) => {
            if forward(b, p, q) {
                match take_properties(b, q, names, imports) {
                    Parse::Parsed(data, e) => Parse::Parsed(InlineView { type_label, data }, e),
                    other => other.pass(),
                }
            } else {
                Parse::Aborted
            }
        },
        other => other.pass(),
    }
}

/// A range of `i32` frames, an `i32` id, a `u32` flag, a `u32` count, then
/// that many structs of type "SectionEvaluationData".
pub open spec fn take_segment(b: Seq<u8>, p: int, names: Seq<Seq<char>>, imports: Seq<Seq<char>>) -> Parse<
    SegmentView,
>
    decreases rem(b, p), 2nat, 0nat,
{
    match <TRange<i32> as Newable>::parse(b, p) {
        Parse::Parsed(range, q1) => match take_i32(b, q1) {
            Parse::Parsed(id, q2) => match take_u32(b, q2) {
                Parse::Parsed(allow_empty, q3) => match take_u32(b, q3) {
                    Parse::Parsed(n, q4) => {
                        if forward(b, p, q4) {
                            match take_structs(b, q4, n as nat, "SectionEvaluationData"@, names, imports) {
                                Parse::Parsed(impls, e) => Parse::Parsed(
                                    SegmentView { range, id, allow_empty: allow_empty != 0, impls },
                                    e,
                                ),
                                other => other.pass(),
                            }
                        } else {
                            Parse::Aborted
                        }
                    },
                    other => other.pass(),
                },
                other => other.pass(),
            },
            other => other.pass(),
        },
        other => other.pass(),
    }
}

/// An evaluation tree, the entries of its data, then a `u32` count and
/// that many lists of tags.
pub open spec fn take_section_tree(b: Seq<u8>, p: int, names: Seq<Seq<char>>, imports: Seq<Seq<char>>) -> Parse<
    SectionTreeView,
>
    decreases rem(b, p), 2nat, 0nat,
{
    match <FMovieSceneEvaluationTree as Newable>::parse(b, p) {
        Parse::Parsed(base_tree, q1) => match take_tarray::<FEntry>(b, q1) {
            Parse::Parsed(entries, q2) => match take_u32(b, q2) {
                Parse::Parsed(n, q3) => {
                    if forward(b, p, q3) {
                        match take_fallbacks(b, q3, n as nat, names, imports) {
                            Parse::Parsed(items, e) => Parse::Parsed(SectionTreeView { base_tree, entries, items }, e),
                            other => other.pass(),
                        }
                    } else {
                        Parse::Aborted
                    }
                },
                other => other.pass(),
            },
            other => other.pass(),
        },
        other => other.pass(),
    }
}

/// `n` structs of one type.
pub open spec fn take_structs(
    b: Seq<u8>,
    p: int,
    n: nat,
    struct_name: Seq<char>,
    names: Seq<Seq<char>>,
    imports: Seq<Seq<char>>,
) -> Parse<Seq<ScriptStructView>>
    decreases rem(b, p), 5nat, n,
{
    if n == 0 {
        Parse::Parsed(Seq::empty(), p)
    } else {
        match take_struct(b, p, struct_name, names, imports) {
            Parse::Parsed(x, e) => {
                if e < p {
                    Parse::Aborted
                } else {
                    prepend(seq![x], take_structs(b, e, (n - 1) as nat, struct_name, names, imports))
                }
            },
            other => other.pass(),
        }
    }
}

/// `n` lists of tags.
pub open spec fn take_fallbacks(
    b: Seq<u8>,
    p: int,
    n: nat,
    names: Seq<Seq<char>>,
    imports: Seq<Seq<char>>,
) -> Parse<Seq<Seq<TagView>>>
    decreases rem(b, p), 5nat, n,
{
    if n == 0 {
        Parse::Parsed(Seq::empty(), p)
    } else {
        match take_properties(b, p, names, imports) {
            Parse::Parsed(x, e) => {
                if e < p {
                    Parse::Aborted
                } else {
                    prepend(seq![x], take_fallbacks(b, e, (n - 1) as nat, names, imports))
                }
            },
            other => other.pass(),
        }
    }
}

/// The struct types with a layout of their own, numbered: first those of
/// fixed layout, then those that hold further structs; every other name is
/// read as tags.
pub open spec fn struct_kind(struct_name: Seq<char>) -> int {
    if struct_name == "Vector2D"@ {
        0
    } else if struct_name == "LinearColor"@ {
        1
    } else if struct_name == "Color"@ {
        2
    } else if struct_name == "GameplayTagContainer"@ {
        3
    } else if struct_name == "IntPoint"@ {
        4
    } else if struct_name == "Guid"@ {
        5
    } else if struct_name == "Quat"@ {
        6
    } else if struct_name == "Vector"@ {
        7
    } else if struct_name == "Rotator"@ {
        8
    } else if struct_name == "PerPlatformFloat"@ {
        9
    } else if struct_name == "PerPlatformInt"@ {
        10
    } else if struct_name == "SkeletalMeshSamplingLODBuiltData"@ {
        11
    } else if struct_name == "SoftObjectPath"@ {
        12
    } else if struct_name == "LevelSequenceObjectReferenceMap"@ {
        13
    } else if struct_name == "FrameNumber"@ || struct_name == "MovieSceneTrackIdentifier"@ || struct_name == "MovieSceneSegmentIdentifier"@ {
        14
    } else if struct_name == "MovieSceneFrameRange"@ {
        15
    } else if struct_name == "MovieSceneSequenceID"@ {
        16
    } else if struct_name == "MovieSceneEvaluationKey"@ {
        17
    } else if struct_name == "SmartName"@ {
        18
    } else if struct_name == "RichCurveKey"@ {
        19
    } else if struct_name == "SimpleCurveKey"@ {
        20
    } else if struct_name == "SectionEvaluationDataTree"@ {
        21
    } else if struct_name == "MovieSceneSegment"@ {
        22
    } else if struct_name == "MovieSceneEvalTemplatePtr"@ || struct_name == "MovieSceneTrackImplementationPtr"@ || struct_name == "MovieSceneSequenceInstanceDataPtr"@ {
        23
    } else {
        24
    }
}

/// The number that [`struct_kind`] gives a struct type.
pub fn struct_kind_of(struct_name: &str) -> (k: u8)
    ensures
        k == struct_kind(struct_name@),
{
    if same_text(struct_name, "Vector2D") {
        0
    } else if same_text(struct_name, "LinearColor") {
        1
    } else if same_text(struct_name, "Color") {
        2
    } else if same_text(struct_name, "GameplayTagContainer") {
        3
    } else if same_text(struct_name, "IntPoint") {
        4
    } else if same_text(struct_name, "Guid") {
        5
    } else if same_text(struct_name, "Quat") {
        6
    } else if same_text(struct_name, "Vector") {
        7
    } else if same_text(struct_name, "Rotator") {
        8
    } else if same_text(struct_name, "PerPlatformFloat") {
        9
    } else if same_text(struct_name, "PerPlatformInt") {
        10
    } else if same_text(struct_name, "SkeletalMeshSamplingLODBuiltData") {
        11
    } else if same_text(struct_name, "SoftObjectPath") {
        12
    } else if same_text(struct_name, "LevelSequenceObjectReferenceMap") {
        13
    } else if same_text(struct_name, "FrameNumber") || same_text(struct_name, "MovieSceneTrackIdentifier") || same_text(struct_name, "MovieSceneSegmentIdentifier") {
        14
    } else if same_text(struct_name, "MovieSceneFrameRange") {
        15
    } else if same_text(struct_name, "MovieSceneSequenceID") {
        16
    } else if same_text(struct_name, "MovieSceneEvaluationKey") {
        17
    } else if same_text(struct_name, "SmartName") {
        18
    } else if same_text(struct_name, "RichCurveKey") {
        19
    } else if same_text(struct_name, "SimpleCurveKey") {
        20
    } else if same_text(struct_name, "SectionEvaluationDataTree") {
        21
    } else if same_text(struct_name, "MovieSceneSegment") {
        22
    } else if same_text(struct_name, "MovieSceneEvalTemplatePtr") || same_text(struct_name, "MovieSceneTrackImplementationPtr") || same_text(struct_name, "MovieSceneSequenceInstanceDataPtr") {
        23
    } else {
        24
    }
}

/// The struct values of fixed layout, first part.
pub open spec fn take_plain_struct_a(b: Seq<u8>, p: int, kind: int, names: Seq<Seq<char>>, imports: Seq<Seq<char>>) -> Parse<
    StructValueView,
> {
    if kind == 0 {
        lift(<FVector2D as NewableWithNameMap>::parse_n(b, p, names, imports), |x| StructValueView::Vector2D(x))
    } else if kind == 1 {
        lift(<FLinearColor as NewableWithNameMap>::parse_n(b, p, names, imports), |x| StructValueView::LinearColor(x))
    } else if kind == 2 {
        lift(<FColor as NewableWithNameMap>::parse_n(b, p, names, imports), |x| StructValueView::Color(x))
    } else if kind == 3 {
        lift(<FGameplayTagContainer as NewableWithNameMap>::parse_n(b, p, names, imports), |x| StructValueView::GameplayTagContainer(x))
    } else if kind == 4 {
        lift(<FIntPoint as NewableWithNameMap>::parse_n(b, p, names, imports), |x| StructValueView::IntPoint(x))
    } else if kind == 5 {
        lift(<FGuid as Newable>::parse(b, p), |x| StructValueView::Guid(x))
    } else if kind == 6 {
        lift(<FQuat as NewableWithNameMap>::parse_n(b, p, names, imports), |x| StructValueView::Quat(x))
    } else if kind == 7 {
        lift(<FVector as NewableWithNameMap>::parse_n(b, p, names, imports), |x| StructValueView::Vector(x))
    } else if kind == 8 {
        lift(<FRotator as NewableWithNameMap>::parse_n(b, p, names, imports), |x| StructValueView::Rotator(x))
    } else if kind == 9 {
        lift(<FPerPlatformFloat as NewableWithNameMap>::parse_n(b, p, names, imports), |x| StructValueView::PerPlatformFloat(x))
    } else if kind == 10 {
        lift(<FPerPlatformInt as NewableWithNameMap>::parse_n(b, p, names, imports), |x| StructValueView::PerPlatformInt(x))
    } else {
        Parse::Aborted
    }
}

/// The struct values of fixed layout, second part.
pub open spec fn take_plain_struct_b(b: Seq<u8>, p: int, kind: int, names: Seq<Seq<char>>, imports: Seq<Seq<char>>) -> Parse<
    StructValueView,
> {
    if kind == 11 {
        lift(<FWeightedRandomSampler as NewableWithNameMap>::parse_n(b, p, names, imports), |x| StructValueView::WeightedRandomSampler(x))
    } else if kind == 12 {
        lift(<FSoftObjectPath as NewableWithNameMap>::parse_n(b, p, names, imports), |x| StructValueView::SoftObjectPath(x))
    } else if kind == 13 {
        lift(<FLevelSequenceObjectReferenceMap as NewableWithNameMap>::parse_n(b, p, names, imports), |x| StructValueView::LevelSequenceObjectReferenceMap(x))
    } else if kind == 14 {
        lift(<FI32 as NewableWithNameMap>::parse_n(b, p, names, imports), |x| StructValueView::I32(x))
    } else if kind == 15 {
        lift(<FMovieSceneFrameRange as NewableWithNameMap>::parse_n(b, p, names, imports), |x| StructValueView::MovieSceneFrameRange(x))
    } else if kind == 16 {
        lift(<FU32 as NewableWithNameMap>::parse_n(b, p, names, imports), |x| StructValueView::U32(x))
    } else if kind == 17 {
        lift(<FMovieSceneEvaluationKey as NewableWithNameMap>::parse_n(b, p, names, imports), |x| StructValueView::MovieSceneEvaluationKey(x))
    } else if kind == 18 {
        lift(<FSmartName as NewableWithNameMap>::parse_n(b, p, names, imports), |x| StructValueView::SmartName(x))
    } else if kind == 19 {
        lift(<FRichCurveKey as NewableWithNameMap>::parse_n(b, p, names, imports), |x| StructValueView::RichCurveKey(x))
    } else if kind == 20 {
        lift(<FSimpleCurveKey as NewableWithNameMap>::parse_n(b, p, names, imports), |x| StructValueView::SimpleCurveKey(x))
    } else {
        Parse::Aborted
    }
}

/// Reads a struct value of fixed layout, first part.
fn read_plain_struct_a(reader: &mut Reader, name_map: &NameMap, import_map: &ImportMap, kind: u8) -> (r: ParserResult<StructValue>)
    requires
        0 <= kind < 11,
        !(take_plain_struct_a(old(reader).bytes(), old(reader).at(), kind as int, name_texts(name_map), import_names(import_map)) is Aborted),
    ensures
        final(reader).bytes() == old(reader).bytes(),
        outcome_as(
            r,
            take_plain_struct_a(old(reader).bytes(), old(reader).at(), kind as int, name_texts(name_map), import_names(import_map)),
            *final(reader),
            |v: StructValue| struct_value_view(v),
        ),
{
    if kind == 0 {
        match FVector2D::new_n(reader, name_map, import_map) {
            Ok(x) => Ok(StructValue::Vector2D(x)),
            Err(e) => Err(e),
        }
    } else if kind == 1 {
        match FLinearColor::new_n(reader, name_map, import_map) {
            Ok(x) => Ok(StructValue::LinearColor(x)),
            Err(e) => Err(e),
        }
    } else if kind == 2 {
        match FColor::new_n(reader, name_map, import_map) {
            Ok(x) => Ok(StructValue::Color(x)),
            Err(e) => Err(e),
        }
    } else if kind == 3 {
        match FGameplayTagContainer::new_n(reader, name_map, import_map) {
            Ok(x) => Ok(StructValue::GameplayTagContainer(x)),
            Err(e) => Err(e),
        }
    } else if kind == 4 {
        match FIntPoint::new_n(reader, name_map, import_map) {
            Ok(x) => Ok(StructValue::IntPoint(x)),
            Err(e) => Err(e),
        }
    } else if kind == 5 {
        match FGuid::new(reader) {
            Ok(x) => Ok(StructValue::Guid(x)),
            Err(e) => Err(e),
        }
    } else if kind == 6 {
        match FQuat::new_n(reader, name_map, import_map) {
            Ok(x) => Ok(StructValue::Quat(x)),
            Err(e) => Err(e),
        }
    } else if kind == 7 {
        match FVector::new_n(reader, name_map, import_map) {
            Ok(x) => Ok(StructValue::Vector(x)),
            Err(e) => Err(e),
        }
    } else if kind == 8 {
        match FRotator::new_n(reader, name_map, import_map) {
            Ok(x) => Ok(StructValue::Rotator(x)),
            Err(e) => Err(e),
        }
    } else if kind == 9 {
        match FPerPlatformFloat::new_n(reader, name_map, import_map) {
            Ok(x) => Ok(StructValue::PerPlatformFloat(x)),
            Err(e) => Err(e),
        }
    } else if kind == 10 {
        match FPerPlatformInt::new_n(reader, name_map, import_map) {
            Ok(x) => Ok(StructValue::PerPlatformInt(x)),
            Err(e) => Err(e),
        }
    } else {
        vstd::pervasive::unreached()
    }
}

/// Reads a struct value of fixed layout, second part.
fn read_plain_struct_b(reader: &mut Reader, name_map: &NameMap, import_map: &ImportMap, kind: u8) -> (r: ParserResult<StructValue>)
    requires
        11 <= kind < 21,
        !(take_plain_struct_b(old(reader).bytes(), old(reader).at(), kind as int, name_texts(name_map), import_names(import_map)) is Aborted),
    ensures
        final(reader).bytes() == old(reader).bytes(),
        outcome_as(
            r,
            take_plain_struct_b(old(reader).bytes(), old(reader).at(), kind as int, name_texts(name_map), import_names(import_map)),
            *final(reader),
            |v: StructValue| struct_value_view(v),
        ),
{
    if kind == 11 {
        match FWeightedRandomSampler::new_n(reader, name_map, import_map) {
            Ok(x) => Ok(StructValue::WeightedRandomSampler(x)),
            Err(e) => Err(e),
        }
    } else if kind == 12 {
        match FSoftObjectPath::new_n(reader, name_map, import_map) {
            Ok(x) => Ok(StructValue::SoftObjectPath(x)),
            Err(e) => Err(e),
        }
    } else if kind == 13 {
        match FLevelSequenceObjectReferenceMap::new_n(reader, name_map, import_map) {
            Ok(x) => Ok(StructValue::LevelSequenceObjectReferenceMap(x)),
            Err(e) => Err(e),
        }
    } else if kind == 14 {
        match FI32::new_n(reader, name_map, import_map) {
            Ok(x) => Ok(StructValue::I32(x)),
            Err(e) => Err(e),
        }
    } else if kind == 15 {
        match FMovieSceneFrameRange::new_n(reader, name_map, import_map) {
            Ok(x) => Ok(StructValue::MovieSceneFrameRange(x)),
            Err(e) => Err(e),
        }
    } else if kind == 16 {
        match FU32::new_n(reader, name_map, import_map) {
            Ok(x) => Ok(StructValue::U32(x)),
            Err(e) => Err(e),
        }
    } else if kind == 17 {
        match FMovieSceneEvaluationKey::new_n(reader, name_map, import_map) {
            Ok(x) => Ok(StructValue::MovieSceneEvaluationKey(x)),
            Err(e) => Err(e),
        }
    } else if kind == 18 {
        match FSmartName::new_n(reader, name_map, import_map) {
            Ok(x) => Ok(StructValue::SmartName(x)),
            Err(e) => Err(e),
        }
    } else if kind == 19 {
        match FRichCurveKey::new_n(reader, name_map, import_map) {
            Ok(x) => Ok(StructValue::RichCurveKey(x)),
            Err(e) => Err(e),
        }
    } else if kind == 20 {
        match FSimpleCurveKey::new_n(reader, name_map, import_map) {
            Ok(x) => Ok(StructValue::SimpleCurveKey(x)),
            Err(e) => Err(e),
        }
    } else {
        vstd::pervasive::unreached()
    }
}

/// A struct value of the named type.
pub open spec fn take_struct(
    b: Seq<u8>,
    p: int,
    struct_name: Seq<char>,
    names: Seq<Seq<char>>,
    imports: Seq<Seq<char>>,
) -> Parse<ScriptStructView>
    decreases rem(b, p), 3nat, 0nat,
{
    let kind = struct_kind(struct_name);
    let value: Parse<StructValueView> = if kind < 11 {
        take_plain_struct_a(b, p, kind, names, imports)
    } else if kind < 21 {
        take_plain_struct_b(b, p, kind, names, imports)
    } else if kind == 21 {
        lift(take_section_tree(b, p, names, imports), |x| StructValueView::SectionEvaluationDataTree(x))
    } else if kind == 22 {
        lift(take_segment(b, p, names, imports), |x| StructValueView::MovieSceneSegment(x))
    } else if kind == 23 {
        lift(take_inline_struct(b, p, names, imports), |x| StructValueView::InlineStruct(x))
    } else {
        lift(take_properties(b, p, names, imports), |x| StructValueView::Fallback(x))
    };
    lift(value.context(struct_message(struct_name)), |v| ScriptStructView { struct_name, struct_type: v })
}

/// A value of a property type that holds no nested tags; an unknown type
/// is an error.
#[verifier::opaque]
pub open spec fn take_plain_value(
    b: Seq<u8>,
    p: int,
    property_type: Seq<char>,
    tag_data: Option<TagDataView>,
    names: Seq<Seq<char>>,
    imports: Seq<Seq<char>>,
) -> Parse<TagTypeView> {
    if property_type == "ObjectProperty"@ {
        lift(<FPackageIndex as NewableWithNameMap>::parse_n(b, p, names, imports), |x| TagTypeView::ObjectProperty(x))
    } else if property_type == "InterfaceProperty"@ {
        lift(
            <UInterfaceProperty as NewableWithNameMap>::parse_n(b, p, names, imports),
            |x| TagTypeView::InterfaceProperty(x),
        )
    } else if property_type == "FloatProperty"@ {
        lift(take_u32(b, p), |x| TagTypeView::FloatProperty(x))
    } else if property_type == "TextProperty"@ {
        lift(<FText as Newable>::parse(b, p), |x| TagTypeView::TextProperty(x))
    } else if property_type == "StrProperty"@ {
        lift(take_string(b, p), |x| TagTypeView::StrProperty(x))
    } else if property_type == "NameProperty"@ {
        lift(take_fname(b, p, names), |x| TagTypeView::NameProperty(x))
    } else if property_type == "IntProperty"@ {
        lift(take_i32(b, p), |x| TagTypeView::IntProperty(x))
    } else if property_type == "UInt16Property"@ {
        lift(take_u16(b, p), |x| TagTypeView::UInt16Property(x))
    } else if property_type == "UInt32Property"@ {
        lift(take_u32(b, p), |x| TagTypeView::UInt32Property(x))
    } else if property_type == "UInt64Property"@ {
        lift(take_u64(b, p), |x| TagTypeView::UInt64Property(x))
    } else if property_type == "ByteProperty"@ {
        match tag_data {
            Some(TagDataView::ByteProperty(n)) => {
                if n == "None"@ {
                    lift(take_u8(b, p), |x| TagTypeView::ByteProperty(x))
                } else {
                    lift(take_fname(b, p, names), |x| TagTypeView::NameProperty(x))
                }
            },
            _ => Parse::Aborted,
        }
    } else if property_type == "EnumProperty"@ {
        match tag_data {
            Some(TagDataView::EnumProperty(v)) => {
                if v == "None"@ {
                    Parse::Parsed(TagTypeView::EnumProperty(None), p)
                } else {
                    lift(take_fname(b, p, names), |x| TagTypeView::EnumProperty(Some(x)))
                }
            },
            _ => Parse::Aborted,
        }
    } else if property_type == "SoftObjectProperty"@ {
        lift(
            <FSoftObjectPath as NewableWithNameMap>::parse_n(b, p, names, imports),
            |x| TagTypeView::SoftObjectProperty(x),
        )
    } else {
        Parse::Failed(seq![unknown_type_message(property_type, p)], p)
    }
}

/// A value of the named property type, given the tag's type parameters;
/// parameters of the wrong kind (or none) are where the format gives up.
pub open spec fn take_value(
    b: Seq<u8>,
    p: int,
    property_type: Seq<char>,
    tag_data: Option<TagDataView>,
    names: Seq<Seq<char>>,
    imports: Seq<Seq<char>>,
) -> Parse<TagTypeView>
    decreases rem(b, p), 4nat, 0nat,
{
    if property_type == "BoolProperty"@ {
        match tag_data {
            Some(TagDataView::BoolProperty(v)) => Parse::Parsed(TagTypeView::BoolProperty(v), p),
            _ => Parse::Aborted,
        }
    } else if property_type == "StructProperty"@ {
        match tag_data {
            Some(TagDataView::StructProperty(n, _)) => lift(
                take_struct(b, p, n, names, imports),
                |x| TagTypeView::StructProperty(x),
            ),
            _ => Parse::Aborted,
        }
    } else if property_type == "ArrayProperty"@ {
        match tag_data {
            Some(TagDataView::ArrayProperty(inner)) => lift(
                take_array(b, p, inner, names, imports),
                |x| TagTypeView::ArrayProperty(x),
            ),
            _ => Parse::Aborted,
        }
    } else if property_type == "MapProperty"@ {
        match tag_data {
            Some(TagDataView::MapProperty(k, v)) => lift(
                take_map(b, p, k, v, names, imports),
                |x| TagTypeView::MapProperty(x),
            ),
            _ => Parse::Aborted,
        }
    } else {
        take_plain_value(b, p, property_type, tag_data, names, imports)
    }
}

/// Whether the elements of an array of this type are described by a tag.
pub open spec fn array_has_tag(inner_type: Seq<char>) -> bool {
    inner_type == "StructProperty"@ || inner_type == "ArrayProperty"@
}

/// An array value: a `u32` count; for struct and array elements a tag that
/// describes them (whose absence is where the format gives up); then the
/// elements.
pub open spec fn take_array(
    b: Seq<u8>,
    p: int,
    inner_type: Seq<char>,
    names: Seq<Seq<char>>,
    imports: Seq<Seq<char>>,
) -> Parse<ArrayView>
    decreases rem(b, p), 3nat, 0nat,
{
    match take_u32(b, p) {
        Parse::Parsed(n, q) => {
            let head: Parse<Option<TagView>> = if array_has_tag(inner_type) {
                take_tag(b, q, names, imports, false)
            } else {
                Parse::Parsed(None, q)
            };
            match head {
                Parse::Parsed(t, q2) => {
                    if (array_has_tag(inner_type) && t is None) || !forward(b, p, q2) {
                        Parse::Aborted
                    } else {
                        let tag_data = match t {
                            Some(tv) => Some(tv.tag_data),
                            None => None,
                        };
                        match take_elements(b, q2, n as nat, inner_type, tag_data, names, imports) {
                            Parse::Parsed(data, e) => Parse::Parsed(
                                ArrayView {
                                    tag: match t {
                                        Some(tv) => Some(Box::new(tv)),
                                        None => None,
                                    },
                                    data,
                                },
                                e,
                            ),
                            other => other.pass(),
                        }
                    }
                },
                other => other.pass(),
            }
        },
        other => other.pass(),
    }
}

/// `n` array elements: a byte each for bool (non-zero) and byte elements,
/// a value of the element type otherwise.
pub open spec fn take_elements(
    b: Seq<u8>,
    p: int,
    n: nat,
    inner_type: Seq<char>,
    tag_data: Option<TagDataView>,
    names: Seq<Seq<char>>,
    imports: Seq<Seq<char>>,
) -> Parse<Seq<TagTypeView>>
    decreases rem(b, p), 5nat, n,
{
    if n == 0 {
        Parse::Parsed(Seq::empty(), p)
    } else {
        let first: Parse<TagTypeView> = if inner_type == "BoolProperty"@ {
            lift(take_u8(b, p), |x: u8| TagTypeView::BoolProperty(x != 0))
        } else if inner_type == "ByteProperty"@ {
            lift(take_u8(b, p), |x| TagTypeView::ByteProperty(x))
        } else {
            take_value(b, p, inner_type, tag_data, names, imports)
        };
        match first {
            Parse::Parsed(x, e) => {
                if e < p {
                    Parse::Aborted
                } else {
                    prepend(seq![x], take_elements(b, e, (n - 1) as nat, inner_type, tag_data, names, imports))
                }
            },
            other => other.pass(),
        }
    }
}

/// A map value: an `i32` count of keys to remove (which must be zero), an
/// `i32` count of entries (none when negative), then the entries.
pub open spec fn take_map(
    b: Seq<u8>,
    p: int,
    key_type: Seq<char>,
    value_type: Seq<char>,
    names: Seq<Seq<char>>,
    imports: Seq<Seq<char>>,
) -> Parse<Seq<(TagTypeView, TagTypeView)>>
    decreases rem(b, p), 3nat, 0nat,
{
    match take_i32(b, p) {
        Parse::Parsed(remove, q1) => {
            if remove != 0 {
                Parse::Failed(seq![map_message(key_type, value_type)], q1)
            } else {
                match take_i32(b, q1) {
                    Parse::Parsed(num, q2) => {
                        if forward(b, p, q2) {
                            take_entries(
                                b,
                                q2,
                                if num < 0 {
                                    0
                                } else {
                                    num as nat
                                },
                                key_type,
                                value_type,
                                names,
                                imports,
                            )
                        } else {
                            Parse::Aborted
                        }
                    },
                    other => other.pass(),
                }
            }
        },
        other => other.pass(),
    }
}

/// `n` map entries: a key, then a value.
pub open spec fn take_entries(
    b: Seq<u8>,
    p: int,
    n: nat,
    key_type: Seq<char>,
    value_type: Seq<char>,
    names: Seq<Seq<char>>,
    imports: Seq<Seq<char>>,
) -> Parse<Seq<(TagTypeView, TagTypeView)>>
    decreases rem(b, p), 5nat, n,
{
    if n == 0 {
        Parse::Parsed(Seq::empty(), p)
    } else {
        match take_map_value(b, p, key_type, "StructProperty"@, names, imports).context(map_entry_message(key_type, value_type)) {
            Parse::Parsed(k, e1) => {
                if e1 < p {
                    Parse::Aborted
                } else {
                    match take_map_value(b, e1, value_type, "StructProperty"@, names, imports).context(
                        map_entry_message(key_type, value_type),
                    ) {
                        Parse::Parsed(v, e2) => {
                            if e2 < e1 {
                                Parse::Aborted
                            } else {
                                prepend(
                                    seq![(k, v)],
                                    take_entries(b, e2, (n - 1) as nat, key_type, value_type, names, imports),
                                )
                            }
                        },
                        other => other.pass(),
                    }
                }
            },
            other => other.pass(),
        }
    }
}

/// A key or value of a map: bool (a byte, true unless it is 1), enum and
/// name (FNames), `u32`; a struct of type "StructProperty" for struct
/// properties (its type named by `struct_type`), and a struct of the type
/// itself for any other type.
pub open spec fn take_map_value(
    b: Seq<u8>,
    p: int,
    inner_type: Seq<char>,
    struct_type: Seq<char>,
    names: Seq<Seq<char>>,
    imports: Seq<Seq<char>>,
) -> Parse<TagTypeView>
    decreases rem(b, p), 4nat, 0nat,
{
    if inner_type == "BoolProperty"@ {
        lift(take_u8(b, p), |x: u8| TagTypeView::BoolProperty(x != 1))
    } else if inner_type == "EnumProperty"@ {
        lift(take_fname(b, p, names), |x| TagTypeView::EnumProperty(Some(x)))
    } else if inner_type == "UInt32Property"@ {
        lift(take_u32(b, p), |x| TagTypeView::UInt32Property(x))
    } else if inner_type == "StructProperty"@ {
        lift(take_struct(b, p, struct_type, names, imports), |x| TagTypeView::StructProperty(x))
    } else if inner_type == "NameProperty"@ {
        lift(take_fname(b, p, names), |x| TagTypeView::NameProperty(x))
    } else {
        lift(take_struct(b, p, inner_type, names, imports), |x| TagTypeView::StructProperty(x))
    }
}

// ---------------------------------------------------------------------------
// Reading tags and values

/// `size as u64`: the size, or the size plus 2^64 when it is negative.
fn size_as_u64(size: i32) -> (r: u64)
    ensures
        r == size_offset(size),
{
    if size >= 0 {
        size as u64
    } else {
        u64::MAX - ((-(size as i64) - 1) as u64)
    }
}

/// Reads a property tag and, when `read_data`, its value; `None` for the tag
/// that ends a list.
pub fn read_property_tag(reader: &mut Reader, name_map: &NameMap, import_map: &ImportMap, read_data: bool) -> (r:
    ParserResult<Option<FPropertyTag>>)
    requires
        !(take_tag(old(reader).bytes(), old(reader).at(), name_texts(name_map), import_names(import_map), read_data) is Aborted),
    ensures
        final(reader).bytes() == old(reader).bytes(),
        outcome(
            r,
            take_tag(old(reader).bytes(), old(reader).at(), name_texts(name_map), import_names(import_map), read_data),
            *final(reader),
        ),
    decreases rem(old(reader).bytes(), old(reader).at()), 0nat,
{
    let header = read_tag_header(reader, name_map)?;
    let h = match header {
        Some(h) => h,
        None => {
            return Ok(None);
        },
    };
    let pos = reader.position();
    let add = size_as_u64(h.size);
    let property_desc = join(
        join(join(join(text("Property Tag: "), h.name.as_str()), " ("), h.property_type.as_str()),
        ")",
    );
    let tag = if read_data {
        match FPropertyTagType::new(reader, name_map, import_map, h.property_type.as_str(), Some(&h.tag_data)) {
            Ok(v) => Some(v),
            Err(e) => {
                return Err(ParserError::add(e, property_desc));
            },
        }
    } else {
        None
    };
    if pos > u64::MAX - add {
        return vstd::pervasive::unreached();
    }
    let final_pos = pos + add;
    if read_data {
        reader.seek_to(final_pos);
    }
    Ok(
        Some(
            FPropertyTag {
                name: h.name,
                property_type: h.property_type,
                tag_data: h.tag_data,
                size: h.size,
                array_index: h.array_index,
                property_guid: h.property_guid,
                tag,
            },
        ),
    )
}

/// Reads tags and their values up to the tag named "None".
pub fn read_properties(reader: &mut Reader, name_map: &NameMap, import_map: &ImportMap) -> (r: ParserResult<
    Vec<FPropertyTag>,
>)
    requires
        !(take_properties(old(reader).bytes(), old(reader).at(), name_texts(name_map), import_names(import_map)) is Aborted),
    ensures
        final(reader).bytes() == old(reader).bytes(),
        outcome_as(
            r,
            take_properties(old(reader).bytes(), old(reader).at(), name_texts(name_map), import_names(import_map)),
            *final(reader),
            |v: Vec<FPropertyTag>| tags_view(v@),
        ),
    decreases rem(old(reader).bytes(), old(reader).at()), 1nat,
{
    let ghost b = reader.bytes();
    let ghost names = name_texts(name_map);
    let ghost imports = import_names(import_map);
    let ghost start = reader.at();
    let mut properties: Vec<FPropertyTag> = Vec::new();
    assert(prepend(tags_view(properties@), take_properties(b, start, names, imports)) == take_properties(b, start, names, imports)) by {
        match take_properties(b, start, names, imports) {
            Parse::Parsed(ys, e) => {
                assert(tags_view(properties@) + ys =~= ys);
            },
            _ => {},
        }
    }
    loop
        invariant_except_break
            reader.bytes() == b,
            b == old(reader).bytes(),
            start == old(reader).at(),
            names == name_texts(name_map),
            imports == import_names(import_map),
            start <= reader.at(),
            prepend(tags_view(properties@), take_properties(b, reader.at(), names, imports))
                == take_properties(b, start, names, imports),
            !(take_properties(b, start, names, imports) is Aborted),
        ensures
            reader.bytes() == b,
            take_properties(b, start, names, imports) == Parse::Parsed(tags_view(properties@), reader.at()),
        decreases rem(b, reader.at()),
    {
        let ghost cur = reader.at();
        let ghost before = properties@;
        let tag = read_property_tag(reader, name_map, import_map, true)?;
        match tag {
            None => {
                assert(tags_view(before) + Seq::<TagView>::empty() =~= tags_view(before));
                break;
            },
            Some(t) => {
                proof {
                    let rest = take_properties(b, reader.at(), names, imports);
                    lemma_prepend_assoc(tags_view(before), tag_view(t), rest);
                }
                properties.push(t);
                assert(properties@.drop_last() =~= before);
            },
        }
    }
    Ok(properties)
}

impl FStructFallback {
    /// Reads a struct as the tags it holds.
    pub fn new_n(reader: &mut Reader, name_map: &NameMap, import_map: &ImportMap) -> (r: ParserResult<Self>)
        requires
            !(take_properties(old(reader).bytes(), old(reader).at(), name_texts(name_map), import_names(import_map)) is Aborted),
        ensures
            final(reader).bytes() == old(reader).bytes(),
            outcome(
                r,
                take_properties(old(reader).bytes(), old(reader).at(), name_texts(name_map), import_names(import_map)),
                *final(reader),
            ),
        decreases rem(old(reader).bytes(), old(reader).at()), 2nat,
    {
        let properties = read_properties(reader, name_map, import_map)?;
        Ok(FStructFallback { properties })
    }

    /// The tags, in the order read.
    pub fn get_properties(&self) -> (r: &Vec<FPropertyTag>)
        ensures
            tags_view(r@) == self.deep_view(),
    {
        &self.properties
    }
}

impl InlineUStruct {
    /// Reads a struct that names its own type.
    pub fn new_n(reader: &mut Reader, name_map: &NameMap, import_map: &ImportMap) -> (r: ParserResult<Self>)
        requires
            !(take_inline_struct(old(reader).bytes(), old(reader).at(), name_texts(name_map), import_names(import_map)) is Aborted),
        ensures
            final(reader).bytes() == old(reader).bytes(),
            outcome(
                r,
                take_inline_struct(old(reader).bytes(), old(reader).at(), name_texts(name_map), import_names(import_map)),
                *final(reader),
            ),
        decreases rem(old(reader).bytes(), old(reader).at()), 2nat,
    {
        let type_label = read_string(reader)?;
        let data = FStructFallback::new_n(reader, name_map, import_map)?;
        Ok(InlineUStruct { type_label, data })
    }
}

impl FMovieSceneSegment {
    /// Reads a segment and the structs of its evaluation data.
    pub fn new_n(reader: &mut Reader, name_map: &NameMap, import_map: &ImportMap) -> (r: ParserResult<Self>)
        requires
            !(take_segment(old(reader).bytes(), old(reader).at(), name_texts(name_map), import_names(import_map)) is Aborted),
        ensures
            final(reader).bytes() == old(reader).bytes(),
            outcome(
                r,
                take_segment(old(reader).bytes(), old(reader).at(), name_texts(name_map), import_names(import_map)),
                *final(reader),
            ),
        decreases rem(old(reader).bytes(), old(reader).at()), 2nat,
    {
        let ghost b = reader.bytes();
        let ghost names = name_texts(name_map);
        let ghost imports = import_names(import_map);
        let ghost p = reader.at();
        let range = TRange::<i32>::new(reader)?;
        let id = reader.read_i32()?;
        let allow_empty = reader.read_u32()? != 0;
        let num_structs = reader.read_u32()?;
        let ghost q = reader.at();
        let ghost section = "SectionEvaluationData"@;
        let mut impls: Vec<UScriptStruct> = Vec::new();
        let mut i: u32 = 0;
        assert(prepend(script_structs_view(impls@), take_structs(b, q, num_structs as nat, section, names, imports))
            == take_structs(b, q, num_structs as nat, section, names, imports)) by {
            match take_structs(b, q, num_structs as nat, section, names, imports) {
                Parse::Parsed(ys, e) => {
                    assert(script_structs_view(impls@) + ys =~= ys);
                },
                _ => {},
            }
        }
        while i < num_structs
            invariant
                reader.bytes() == b,
                b == old(reader).bytes(),
                p == old(reader).at(),
                names == name_texts(name_map),
                imports == import_names(import_map),
                section == "SectionEvaluationData"@,
                forward(b, p, q),
                q <= reader.at(),
                i <= num_structs,
                prepend(script_structs_view(impls@), take_structs(b, reader.at(), (num_structs - i) as nat, section, names, imports))
                    == take_structs(b, q, num_structs as nat, section, names, imports),
                !(take_structs(b, q, num_structs as nat, section, names, imports) is Aborted),
                take_segment(b, p, names, imports) == lift(
                    take_structs(b, q, num_structs as nat, section, names, imports),
                    |impls| SegmentView { range: range.deep_view(), id, allow_empty, impls },
                ),
            decreases num_structs - i,
        {
            let ghost before = impls@;
            let x = UScriptStruct::new(reader, name_map, import_map, "SectionEvaluationData")?;
            proof {
                let rest = take_structs(b, reader.at(), (num_structs - i - 1) as nat, section, names, imports);
                lemma_prepend_assoc(script_structs_view(before), script_struct_view(x), rest);
            }
            impls.push(x);
            assert(impls@.drop_last() =~= before);
            i = i + 1;
        }
        assert(script_structs_view(impls@) + Seq::<ScriptStructView>::empty() =~= script_structs_view(impls@));
        Ok(FMovieSceneSegment { range, id, allow_empty, impls })
    }
}

impl FSectionEvaluationDataTree {
    /// Reads an evaluation tree whose items are structs of tags.
    pub fn new_n(reader: &mut Reader, name_map: &NameMap, import_map: &ImportMap) -> (r: ParserResult<Self>)
        requires
            !(take_section_tree(old(reader).bytes(), old(reader).at(), name_texts(name_map), import_names(import_map)) is Aborted),
        ensures
            final(reader).bytes() == old(reader).bytes(),
            outcome(
                r,
                take_section_tree(old(reader).bytes(), old(reader).at(), name_texts(name_map), import_names(import_map)),
                *final(reader),
            ),
        decreases rem(old(reader).bytes(), old(reader).at()), 2nat,
    {
        let ghost b = reader.bytes();
        let ghost names = name_texts(name_map);
        let ghost imports = import_names(import_map);
        let ghost p = reader.at();
        let base_tree = FMovieSceneEvaluationTree::new(reader)?;
        let entries = read_tarray::<FEntry>(reader)?;
        let count = reader.read_u32()?;
        let ghost q = reader.at();
        let mut items: Vec<FStructFallback> = Vec::new();
        let mut i: u32 = 0;
        assert(prepend(fallbacks_view(items@), take_fallbacks(b, q, count as nat, names, imports))
            == take_fallbacks(b, q, count as nat, names, imports)) by {
            match take_fallbacks(b, q, count as nat, names, imports) {
                Parse::Parsed(ys, e) => {
                    assert(fallbacks_view(items@) + ys =~= ys);
                },
                _ => {},
            }
        }
        while i < count
            invariant
                reader.bytes() == b,
                b == old(reader).bytes(),
                p == old(reader).at(),
                names == name_texts(name_map),
                imports == import_names(import_map),
                forward(b, p, q),
                q <= reader.at(),
                i <= count,
                prepend(fallbacks_view(items@), take_fallbacks(b, reader.at(), (count - i) as nat, names, imports))
                    == take_fallbacks(b, q, count as nat, names, imports),
                !(take_fallbacks(b, q, count as nat, names, imports) is Aborted),
                take_section_tree(b, p, names, imports) == lift(
                    take_fallbacks(b, q, count as nat, names, imports),
                    |items| SectionTreeView { base_tree: base_tree.deep_view(), entries: entries.deep_view(), items },
                ),
            decreases count - i,
        {
            let ghost before = items@;
            let x = FStructFallback::new_n(reader, name_map, import_map)?;
            proof {
                let rest = take_fallbacks(b, reader.at(), (count - i - 1) as nat, names, imports);
                lemma_prepend_assoc(fallbacks_view(before), tags_view(x.properties@), rest);
            }
            items.push(x);
            assert(items@.drop_last() =~= before);
            i = i + 1;
        }
        assert(fallbacks_view(items@) + Seq::<Seq<TagView>>::empty() =~= fallbacks_view(items@));
        Ok(
            FSectionEvaluationDataTree {
                tree: TMovieSceneEvaluationTree { base_tree, data: TEvaluationTreeEntryContainer { entries, items } },
            },
        )
    }
}

impl StructValue {
    /// The tags of a struct that was read as tags; any other struct is an
    /// error.
    pub fn get_properties(&self) -> (r: ParserResult<&Vec<FPropertyTag>>)
        ensures
            match self {
                StructValue::Fallback(f) => r matches Ok(tags) && *tags == f.properties,
                _ => r matches Err(e) && e@ == seq!["Not implemented for this type"@],
            },
    {
        match self {
            StructValue::Fallback(f) => Ok(&f.properties),
            _ => Err(ParserError::new(text("Not implemented for this type"))),
        }
    }
}

impl UScriptStruct {
    /// Reads a struct value of the named type; an error gains the type's name
    /// as context.
    pub fn new(reader: &mut Reader, name_map: &NameMap, import_map: &ImportMap, struct_name: &str) -> (r:
        ParserResult<Self>)
        requires
            !(take_struct(old(reader).bytes(), old(reader).at(), struct_name@, name_texts(name_map), import_names(import_map)) is Aborted),
        ensures
            final(reader).bytes() == old(reader).bytes(),
            outcome(
                r,
                take_struct(old(reader).bytes(), old(reader).at(), struct_name@, name_texts(name_map), import_names(import_map)),
                *final(reader),
            ),
        decreases rem(old(reader).bytes(), old(reader).at()), 3nat,
    {
        let kind = struct_kind_of(struct_name);
        let value: ParserResult<StructValue> = if kind < 11 {
            read_plain_struct_a(reader, name_map, import_map, kind)
        } else if kind < 21 {
            read_plain_struct_b(reader, name_map, import_map, kind)
        } else if kind == 21 {
            match FSectionEvaluationDataTree::new_n(reader, name_map, import_map) {
                Ok(x) => Ok(StructValue::SectionEvaluationDataTree(x)),
                Err(e) => Err(e),
            }
        } else if kind == 22 {
            match FMovieSceneSegment::new_n(reader, name_map, import_map) {
                Ok(x) => Ok(StructValue::MovieSceneSegment(x)),
                Err(e) => Err(e),
            }
        } else if kind == 23 {
            match InlineUStruct::new_n(reader, name_map, import_map) {
                Ok(x) => Ok(StructValue::InlineStruct(x)),
                Err(e) => Err(e),
            }
        } else {
            match FStructFallback::new_n(reader, name_map, import_map) {
                Ok(x) => Ok(StructValue::Fallback(x)),
                Err(e) => Err(e),
            }
        };
        match value {
            Ok(v) => Ok(UScriptStruct { struct_name: text(struct_name), struct_type: v }),
            Err(e) => Err(ParserError::add(e, join(text("Struct Type: "), struct_name))),
        }
    }

    /// The tags of a struct that was read as tags.
    pub fn get_contents(&self) -> (r: &Vec<FPropertyTag>)
        requires
            self.struct_type is Fallback,
        ensures
            self.deep_view().struct_type == StructValueView::Fallback(tags_view(r@)),
    {
        match &self.struct_type {
            StructValue::Fallback(f) => &f.properties,
            _ => vstd::pervasive::unreached(),
        }
    }
}

/// Reads a value of a property type that holds no nested tags.
#[verifier::spinoff_prover]
fn read_plain_value(
    reader: &mut Reader,
    name_map: &NameMap,
    import_map: &ImportMap,
    property_type: &str,
    tag_data: Option<&FPropertyTagData>,
) -> (r: ParserResult<FPropertyTagType>)
    requires
        !(take_plain_value(
            old(reader).bytes(),
            old(reader).at(),
            property_type@,
            tag_data.deep_view(),
            name_texts(name_map),
            import_names(import_map),
        ) is Aborted),
    ensures
        final(reader).bytes() == old(reader).bytes(),
        outcome(
            r,
            take_plain_value(
                old(reader).bytes(),
                old(reader).at(),
                property_type@,
                tag_data.deep_view(),
                name_texts(name_map),
                import_names(import_map),
            ),
            *final(reader),
        ),
{
    reveal(take_plain_value);
    if same_text(property_type, "ObjectProperty") {
        Ok(FPropertyTagType::ObjectProperty(FPackageIndex::new_n(reader, name_map, import_map)?))
    } else if same_text(property_type, "InterfaceProperty") {
        Ok(FPropertyTagType::InterfaceProperty(UInterfaceProperty::new_n(reader, name_map, import_map)?))
    } else if same_text(property_type, "FloatProperty") {
        Ok(FPropertyTagType::FloatProperty(reader.read_u32()?))
    } else if same_text(property_type, "TextProperty") {
        Ok(FPropertyTagType::TextProperty(FText::new(reader)?))
    } else if same_text(property_type, "StrProperty") {
        Ok(FPropertyTagType::StrProperty(read_string(reader)?))
    } else if same_text(property_type, "NameProperty") {
        Ok(FPropertyTagType::NameProperty(read_fname(reader, name_map)?))
    } else if same_text(property_type, "IntProperty") {
        Ok(FPropertyTagType::IntProperty(reader.read_i32()?))
    } else if same_text(property_type, "UInt16Property") {
        Ok(FPropertyTagType::UInt16Property(reader.read_u16()?))
    } else if same_text(property_type, "UInt32Property") {
        Ok(FPropertyTagType::UInt32Property(reader.read_u32()?))
    } else if same_text(property_type, "UInt64Property") {
        Ok(FPropertyTagType::UInt64Property(reader.read_u64()?))
    } else if same_text(property_type, "ByteProperty") {
        match tag_data {
            Some(FPropertyTagData::ByteProperty(name)) => {
                if same_text(name.as_str(), "None") {
                    Ok(FPropertyTagType::ByteProperty(reader.read_u8()?))
                } else {
                    Ok(FPropertyTagType::NameProperty(read_fname(reader, name_map)?))
                }
            },
            _ => vstd::pervasive::unreached(),
        }
    } else if same_text(property_type, "EnumProperty") {
        match tag_data {
            Some(FPropertyTagData::EnumProperty(val)) => {
                if same_text(val.as_str(), "None") {
                    Ok(FPropertyTagType::EnumProperty(None))
                } else {
                    Ok(FPropertyTagType::EnumProperty(Some(read_fname(reader, name_map)?)))
                }
            },
            _ => vstd::pervasive::unreached(),
        }
    } else if same_text(property_type, "SoftObjectProperty") {
        Ok(FPropertyTagType::SoftObjectProperty(FSoftObjectPath::new_n(reader, name_map, import_map)?))
    } else {
        let msg = join(
            join(join(text("Could not read property type: "), property_type), " at pos "),
            decimal_text(reader.position() as i128).as_str(),
        );
        Err(ParserError::new(msg))
    }
}

impl FPropertyTagType {
    /// Reads a value of the named property type, given the tag's type
    /// parameters.
    #[verifier::spinoff_prover]
    #[verifier::rlimit(100)]
    pub fn new(
        reader: &mut Reader,
        name_map: &NameMap,
        import_map: &ImportMap,
        property_type: &str,
        tag_data: Option<&FPropertyTagData>,
    ) -> (r: ParserResult<Self>)
        requires
            !(take_value(
                old(reader).bytes(),
                old(reader).at(),
                property_type@,
                tag_data.deep_view(),
                name_texts(name_map),
                import_names(import_map),
            ) is Aborted),
        ensures
            final(reader).bytes() == old(reader).bytes(),
            outcome(
                r,
                take_value(
                    old(reader).bytes(),
                    old(reader).at(),
                    property_type@,
                    tag_data.deep_view(),
                    name_texts(name_map),
                    import_names(import_map),
                ),
                *final(reader),
            ),
        decreases rem(old(reader).bytes(), old(reader).at()), 4nat,
    {
        if same_text(property_type, "BoolProperty") {
            match tag_data {
                Some(FPropertyTagData::BoolProperty(v)) => Ok(FPropertyTagType::BoolProperty(*v)),
                _ => vstd::pervasive::unreached(),
            }
        } else if same_text(property_type, "StructProperty") {
            match tag_data {
                Some(FPropertyTagData::StructProperty(name, _guid)) => {
                    let s = UScriptStruct::new(reader, name_map, import_map, name.as_str())?;
                    Ok(FPropertyTagType::StructProperty(s))
                },
                _ => vstd::pervasive::unreached(),
            }
        } else if same_text(property_type, "ArrayProperty") {
            match tag_data {
                Some(FPropertyTagData::ArrayProperty(inner_type)) => {
                    let a = UScriptArray::new(reader, inner_type.as_str(), name_map, import_map)?;
                    Ok(FPropertyTagType::ArrayProperty(a))
                },
                _ => vstd::pervasive::unreached(),
            }
        } else if same_text(property_type, "MapProperty") {
            match tag_data {
                Some(FPropertyTagData::MapProperty(key_type, value_type)) => {
                    let m = UScriptMap::new(reader, name_map, import_map, key_type.as_str(), value_type.as_str())?;
                    Ok(FPropertyTagType::MapProperty(m))
                },
                _ => vstd::pervasive::unreached(),
            }
        } else {
            read_plain_value(reader, name_map, import_map, property_type, tag_data)
        }
    }
}

impl UScriptArray {
    /// Reads an array value whose elements have the named type.
    pub fn new(reader: &mut Reader, inner_type: &str, name_map: &NameMap, import_map: &ImportMap) -> (r: ParserResult<
        Self,
    >)
        requires
            !(take_array(old(reader).bytes(), old(reader).at(), inner_type@, name_texts(name_map), import_names(import_map)) is Aborted),
        ensures
            final(reader).bytes() == old(reader).bytes(),
            outcome(
                r,
                take_array(old(reader).bytes(), old(reader).at(), inner_type@, name_texts(name_map), import_names(import_map)),
                *final(reader),
            ),
        decreases rem(old(reader).bytes(), old(reader).at()), 3nat,
    {
        let ghost b = reader.bytes();
        let ghost names = name_texts(name_map);
        let ghost imports = import_names(import_map);
        let ghost p = reader.at();
        let element_count = reader.read_u32()?;
        let mut array_tag: Option<Box<FPropertyTag>> = None;
        if same_text(inner_type, "StructProperty") || same_text(inner_type, "ArrayProperty") {
            array_tag = match read_property_tag(reader, name_map, import_map, false)? {
                Some(data) => Some(Box::new(data)),
                None => vstd::pervasive::unreached(),
            };
        }
        let ghost q = reader.at();
        let inner_tag_data: Option<&FPropertyTagData> = match &array_tag {
            Some(data) => Some(&data.tag_data),
            None => None,
        };
        let ghost td = inner_tag_data.deep_view();
        let ghost tag_v = boxed_tag_view(array_tag);
        let mut contents: Vec<FPropertyTagType> = Vec::new();
        let mut i: u32 = 0;
        assert(prepend(tag_types_view(contents@), take_elements(b, q, element_count as nat, inner_type@, td, names, imports))
            == take_elements(b, q, element_count as nat, inner_type@, td, names, imports)) by {
            match take_elements(b, q, element_count as nat, inner_type@, td, names, imports) {
                Parse::Parsed(ys, e) => {
                    assert(tag_types_view(contents@) + ys =~= ys);
                },
                _ => {},
            }
        }
        while i < element_count
            invariant
                reader.bytes() == b,
                b == old(reader).bytes(),
                p == old(reader).at(),
                names == name_texts(name_map),
                imports == import_names(import_map),
                forward(b, p, q),
                q <= reader.at(),
                i <= element_count,
                td == inner_tag_data.deep_view(),
                prepend(tag_types_view(contents@), take_elements(b, reader.at(), (element_count - i) as nat, inner_type@, td, names, imports))
                    == take_elements(b, q, element_count as nat, inner_type@, td, names, imports),
                !(take_elements(b, q, element_count as nat, inner_type@, td, names, imports) is Aborted),
                take_array(b, p, inner_type@, names, imports) == lift(
                    take_elements(b, q, element_count as nat, inner_type@, td, names, imports),
                    |data| ArrayView { tag: tag_v, data },
                ),
            decreases element_count - i,
        {
            let ghost before = contents@;
            let x = if same_text(inner_type, "BoolProperty") {
                FPropertyTagType::BoolProperty(reader.read_u8()? != 0)
            } else if same_text(inner_type, "ByteProperty") {
                FPropertyTagType::ByteProperty(reader.read_u8()?)
            } else {
                FPropertyTagType::new(reader, name_map, import_map, inner_type, inner_tag_data)?
            };
            proof {
                let rest = take_elements(b, reader.at(), (element_count - i - 1) as nat, inner_type@, td, names, imports);
                lemma_prepend_assoc(tag_types_view(before), tag_type_view(x), rest);
            }
            contents.push(x);
            assert(contents@.drop_last() =~= before);
            i = i + 1;
        }
        assert(tag_types_view(contents@) + Seq::<TagTypeView>::empty() =~= tag_types_view(contents@));
        Ok(UScriptArray { tag: array_tag, data: contents })
    }

    /// The elements, in the order read.
    pub fn get_data(&self) -> (r: &Vec<FPropertyTagType>)
        ensures
            tag_types_view(r@) == self.deep_view().data,
    {
        &self.data
    }
}

/// Reads a key or value of a map.
pub fn read_map_value(
    reader: &mut Reader,
    inner_type: &str,
    struct_type: &str,
    name_map: &NameMap,
    import_map: &ImportMap,
) -> (r: ParserResult<FPropertyTagType>)
    requires
        !(take_map_value(old(reader).bytes(), old(reader).at(), inner_type@, struct_type@, name_texts(name_map), import_names(import_map)) is Aborted),
    ensures
        final(reader).bytes() == old(reader).bytes(),
        outcome(
            r,
            take_map_value(old(reader).bytes(), old(reader).at(), inner_type@, struct_type@, name_texts(name_map), import_names(import_map)),
            *final(reader),
        ),
    decreases rem(old(reader).bytes(), old(reader).at()), 4nat,
{
    if same_text(inner_type, "BoolProperty") {
        Ok(FPropertyTagType::BoolProperty(reader.read_u8()? != 1))
    } else if same_text(inner_type, "EnumProperty") {
        Ok(FPropertyTagType::EnumProperty(Some(read_fname(reader, name_map)?)))
    } else if same_text(inner_type, "UInt32Property") {
        Ok(FPropertyTagType::UInt32Property(reader.read_u32()?))
    } else if same_text(inner_type, "StructProperty") {
        Ok(FPropertyTagType::StructProperty(UScriptStruct::new(reader, name_map, import_map, struct_type)?))
    } else if same_text(inner_type, "NameProperty") {
        Ok(FPropertyTagType::NameProperty(read_fname(reader, name_map)?))
    } else {
        Ok(FPropertyTagType::StructProperty(UScriptStruct::new(reader, name_map, import_map, inner_type)?))
    }
}

impl UScriptMap {
    /// Reads a map value whose keys and values have the named types.
    pub fn new(reader: &mut Reader, name_map: &NameMap, import_map: &ImportMap, key_type: &str, value_type: &str) -> (r:
        ParserResult<Self>)
        requires
            !(take_map(old(reader).bytes(), old(reader).at(), key_type@, value_type@, name_texts(name_map), import_names(import_map)) is Aborted),
        ensures
            final(reader).bytes() == old(reader).bytes(),
            outcome(
                r,
                take_map(old(reader).bytes(), old(reader).at(), key_type@, value_type@, name_texts(name_map), import_names(import_map)),
                *final(reader),
            ),
        decreases rem(old(reader).bytes(), old(reader).at()), 3nat,
    {
        let ghost b = reader.bytes();
        let ghost names = name_texts(name_map);
        let ghost imports = import_names(import_map);
        let ghost p = reader.at();
        let ghost st = "StructProperty"@;
        let num_keys_to_remove = reader.read_i32()?;
        if num_keys_to_remove != 0 {
            let msg = join(
                join(join(text("Could not read MapProperty with types: "), key_type), " "),
                value_type,
            );
            return Err(ParserError::new(msg));
        }
        let num = reader.read_i32()?;
        let count: u32 = if num < 0 {
            0
        } else {
            num as u32
        };
        let ghost q = reader.at();
        let ghost kt = key_type@;
        let ghost vt = value_type@;
        let mut map_data: Vec<(FPropertyTagType, FPropertyTagType)> = Vec::new();
        let mut i: u32 = 0;
        assert(prepend(pairs_view(map_data@), take_entries(b, q, count as nat, kt, vt, names, imports))
            == take_entries(b, q, count as nat, kt, vt, names, imports)) by {
            match take_entries(b, q, count as nat, kt, vt, names, imports) {
                Parse::Parsed(ys, e) => {
                    assert(pairs_view(map_data@) + ys =~= ys);
                },
                _ => {},
            }
        }
        while i < count
            invariant
                reader.bytes() == b,
                b == old(reader).bytes(),
                p == old(reader).at(),
                names == name_texts(name_map),
                imports == import_names(import_map),
                kt == key_type@,
                vt == value_type@,
                st == "StructProperty"@,
                forward(b, p, q),
                q <= reader.at(),
                i <= count,
                prepend(pairs_view(map_data@), take_entries(b, reader.at(), (count - i) as nat, kt, vt, names, imports))
                    == take_entries(b, q, count as nat, kt, vt, names, imports),
                !(take_entries(b, q, count as nat, kt, vt, names, imports) is Aborted),
                take_map(b, p, kt, vt, names, imports) == take_entries(b, q, count as nat, kt, vt, names, imports),
            decreases count - i,
        {
            let ghost before = map_data@;
            let k = match read_map_value(reader, key_type, "StructProperty", name_map, import_map) {
                Ok(x) => x,
                Err(e) => {
                    let ctx = join(join(join(text("MapProperty error, types: "), key_type), " "), value_type);
                    return Err(ParserError::add(e, ctx));
                },
            };
            let v = match read_map_value(reader, value_type, "StructProperty", name_map, import_map) {
                Ok(x) => x,
                Err(e) => {
                    let ctx = join(join(join(text("MapProperty error, types: "), key_type), " "), value_type);
                    return Err(ParserError::add(e, ctx));
                },
            };
            proof {
                let rest = take_entries(b, reader.at(), (count - i - 1) as nat, kt, vt, names, imports);
                lemma_prepend_assoc(pairs_view(before), (tag_type_view(k), tag_type_view(v)), rest);
            }
            map_data.push((k, v));
            assert(map_data@.drop_last() =~= before);
            i = i + 1;
        }
        assert(pairs_view(map_data@) + Seq::<(TagTypeView, TagTypeView)>::empty() =~= pairs_view(map_data@));
        Ok(UScriptMap { map_data })
    }
}


impl FPropertyTag {
    pub fn get_name(&self) -> (r: &str)
        ensures
            r@ == self.name@,
    {
        self.name.as_str()
    }

    /// The value, which every tag read with its data has.
    pub fn get_data(&self) -> (r: &FPropertyTagType)
        requires
            self.tag is Some,
        ensures
            *r == self.tag->0,
    {
        match &self.tag {
            Some(data) => data,
            None => vstd::pervasive::unreached(),
        }
    }
}

/// The views of tags, one for one.
pub proof fn lemma_tags_view_index(s: Seq<FPropertyTag>)
    ensures
        tags_view(s).len() == s.len(),
        forall|i: int| 0 <= i < s.len() ==> #[trigger] tags_view(s)[i] == tag_view(s[i]),
    decreases s.len(),
{
    if s.len() > 0 {
        lemma_tags_view_index(s.drop_last());
        assert forall|i: int| 0 <= i < s.len() implies #[trigger] tags_view(s)[i] == tag_view(s[i]) by {
            if i < s.len() - 1 {
                assert(s.drop_last()[i] == s[i]);
            }
        }
    }
}

/// Every tag in a list has its value.
pub open spec fn all_valued(tags: Seq<TagView>) -> bool {
    forall|i: int| 0 <= i < tags.len() ==> (#[trigger] tags[i]).tag is Some
}

/// A list of properties, as read, holds the value of each tag.
pub proof fn lemma_properties_valued(b: Seq<u8>, p: int, names: Seq<Seq<char>>, imports: Seq<Seq<char>>)
    ensures
        take_properties(b, p, names, imports) matches Parse::Parsed(tags, _) ==> all_valued(tags),
    decreases rem(b, p),
{
    match take_tag(b, p, names, imports, true) {
        Parse::Parsed(Some(t), e) => {
            if forward(b, p, e) {
                lemma_properties_valued(b, e, names, imports);
                match take_properties(b, e, names, imports) {
                    Parse::Parsed(rest, _) => {
                        let all = seq![t] + rest;
                        assert forall|i: int| 0 <= i < all.len() implies (#[trigger] all[i]).tag is Some by {
                            if i > 0 {
                                assert(all[i] == rest[i - 1]);
                            }
                        }
                    },
                    _ => {},
                }
            }
        },
        _ => {},
    }
}


/// A tag's type parameters never lie before where they start.
proof fn lemma_tag_data_forward(b: Seq<u8>, p: int, ptype: Seq<char>, names: Seq<Seq<char>>)
    ensures
        take_tag_data(b, p, ptype, names) matches Parse::Parsed(_, e) ==> p <= e,
{
}

/// Reading a tag header that does not end the list moves forward from a
/// position inside the input: the guard `forward` of [`take_tag`] always
/// holds there, and a tag that was read ends after where it started.
pub proof fn lemma_tag_moves_forward(
    b: Seq<u8>,
    p: int,
    names: Seq<Seq<char>>,
    imports: Seq<Seq<char>>,
    read_data: bool,
)
    ensures
        take_tag_header(b, p, names) matches Parse::Parsed(Some(_), q) ==> forward(b, p, q),
        take_tag(b, p, names, imports, read_data) matches Parse::Parsed(Some(_), e) ==> forward(b, p, e),
{
    match take_fname(b, p, names) {
        Parse::Parsed(name, q) => {
            if name != "None"@ {
                match take_fname(b, q, names) {
                    Parse::Parsed(raw_type, q1) => {
                        match take_i32(b, q1) {
                            Parse::Parsed(_, q2) => match take_i32(b, q2) {
                                Parse::Parsed(_, q3) => {
                                    lemma_tag_data_forward(b, q3, trimmed(raw_type), names);
                                },
                                _ => {},
                            },
                            _ => {},
                        }
                    },
                    _ => {},
                }
            }
        },
        _ => {},
    }
}


/// A tag's header: the FName of its name at `p` (the name "None" ends the
/// list there, eight bytes on), the FName of its type at `p + 8` (trimmed),
/// the value's size and the array index as `i32`s at `p + 16` and `p + 20`,
/// then the type parameters from `p + 24`: a bool property's value byte; a
/// struct property's struct name and GUID; the inner type's FName of enum,
/// byte, array and set properties; and a map property's key and value types
/// (those of the maps that are listed by name taking the listed types).
pub proof fn lemma_tag_header_layout(b: Seq<u8>, p: int, names: Seq<Seq<char>>)
    requires
        take_tag_header(b, p, names) is Parsed,
    ensures
        ({
            let name = names[signed32(le_u32(b, p)) as int];
            let r = take_tag_header(b, p, names);
            &&& name == "None"@ ==> r == Parse::Parsed(Option::<TagHeaderView>::None, p + 8)
            &&& name != "None"@ ==> ({
                let h = r.value()->Some_0;
                let ptype = trimmed(names[signed32(le_u32(b, p + 8)) as int]);
                let n24 = names[signed32(le_u32(b, p + 24)) as int];
                &&& r.value() is Some
                &&& h.name == name
                &&& h.property_type == ptype
                &&& h.size == signed32(le_u32(b, p + 16))
                &&& h.array_index == signed32(le_u32(b, p + 20))
                &&& ptype == "BoolProperty"@ ==> h.tag_data == TagDataView::BoolProperty(b[p + 24] != 0)
                &&& ptype == "StructProperty"@ ==> h.tag_data == TagDataView::StructProperty(
                    n24,
                    FGuid {
                        a: le_u32(b, p + 32),
                        b: le_u32(b, p + 36),
                        c: le_u32(b, p + 40),
                        d: le_u32(b, p + 44),
                    },
                )
                &&& ptype == "EnumProperty"@ ==> h.tag_data == TagDataView::EnumProperty(n24)
                &&& ptype == "ByteProperty"@ ==> h.tag_data == TagDataView::ByteProperty(n24)
                &&& ptype == "ArrayProperty"@ ==> h.tag_data == TagDataView::ArrayProperty(n24)
                &&& ptype == "SetProperty"@ ==> h.tag_data == TagDataView::SetProperty(n24)
                &&& ptype == "MapProperty"@ && overrides(name) is None ==> h.tag_data == TagDataView::MapProperty(
                    n24,
                    names[signed32(le_u32(b, p + 32)) as int],
                )
                &&& ptype == "MapProperty"@ && overrides(name) is Some ==> h.tag_data == overrides(name)->Some_0
            })
        }),
{
    reveal_strlit("BoolProperty");
    reveal_strlit("StructProperty");
    reveal_strlit("EnumProperty");
    reveal_strlit("ByteProperty");
    reveal_strlit("ArrayProperty");
    reveal_strlit("SetProperty");
    reveal_strlit("MapProperty");
    assert("BoolProperty"@ != "EnumProperty"@) by {
        assert("BoolProperty"@[0] != "EnumProperty"@[0]);
    }
    assert("BoolProperty"@ != "ByteProperty"@) by {
        assert("BoolProperty"@[1] != "ByteProperty"@[1]);
    }
    assert("EnumProperty"@ != "ByteProperty"@) by {
        assert("EnumProperty"@[0] != "ByteProperty"@[0]);
    }
    assert("MapProperty"@ != "SetProperty"@) by {
        assert("MapProperty"@[0] != "SetProperty"@[0]);
    }
    assert("StructProperty"@.len() != "BoolProperty"@.len());
    assert("ArrayProperty"@.len() != "MapProperty"@.len());
    assert("SetProperty"@ != "EnumProperty"@ && "SetProperty"@ != "ByteProperty"@) by {
        reveal_strlit("SetProperty");
        reveal_strlit("EnumProperty");
        reveal_strlit("ByteProperty");
        assert("SetProperty"@.len() == 11);
        assert("EnumProperty"@.len() == 12);
        assert("ByteProperty"@.len() == 12);
    }
}


/// A value by its tag's type: an int property is a little-endian `i32`.
pub proof fn lemma_int_value(
    b: Seq<u8>,
    p: int,
    tag_data: Option<TagDataView>,
    names: Seq<Seq<char>>,
    imports: Seq<Seq<char>>,
)
    requires
        fits(b, p, 4),
    ensures
        take_value(b, p, "IntProperty"@, tag_data, names, imports) == Parse::Parsed(TagTypeView::IntProperty(signed32(le_u32(b, p))), p + 4),
{
    assert("IntProperty"@ != "BoolProperty"@) by {
        reveal_strlit("IntProperty");
        reveal_strlit("BoolProperty");
        assert("IntProperty"@.len() == 11 && "BoolProperty"@.len() == 12);
    }
    assert("IntProperty"@ != "StructProperty"@) by {
        reveal_strlit("IntProperty");
        reveal_strlit("StructProperty");
        assert("IntProperty"@.len() == 11 && "StructProperty"@.len() == 14);
    }
    assert("IntProperty"@ != "ArrayProperty"@) by {
        reveal_strlit("IntProperty");
        reveal_strlit("ArrayProperty");
        assert("IntProperty"@.len() == 11 && "ArrayProperty"@.len() == 13);
    }
    assert("IntProperty"@ != "MapProperty"@) by {
        reveal_strlit("IntProperty");
        reveal_strlit("MapProperty");
        assert("IntProperty"@[0] != "MapProperty"@[0]);
    }
    assert("IntProperty"@ != "ObjectProperty"@) by {
        reveal_strlit("IntProperty");
        reveal_strlit("ObjectProperty");
        assert("IntProperty"@.len() == 11 && "ObjectProperty"@.len() == 14);
    }
    assert("IntProperty"@ != "InterfaceProperty"@) by {
        reveal_strlit("IntProperty");
        reveal_strlit("InterfaceProperty");
        assert("IntProperty"@.len() == 11 && "InterfaceProperty"@.len() == 17);
    }
    assert("IntProperty"@ != "FloatProperty"@) by {
        reveal_strlit("IntProperty");
        reveal_strlit("FloatProperty");
        assert("IntProperty"@.len() == 11 && "FloatProperty"@.len() == 13);
    }
    assert("IntProperty"@ != "TextProperty"@) by {
        reveal_strlit("IntProperty");
        reveal_strlit("TextProperty");
        assert("IntProperty"@.len() == 11 && "TextProperty"@.len() == 12);
    }
    assert("IntProperty"@ != "StrProperty"@) by {
        reveal_strlit("IntProperty");
        reveal_strlit("StrProperty");
        assert("IntProperty"@[0] != "StrProperty"@[0]);
    }
    assert("IntProperty"@ != "NameProperty"@) by {
        reveal_strlit("IntProperty");
        reveal_strlit("NameProperty");
        assert("IntProperty"@.len() == 11 && "NameProperty"@.len() == 12);
    }
    reveal(take_plain_value);
}

/// A value by its tag's type: a float property is the bits of a little-endian `f32`.
pub proof fn lemma_float_value(
    b: Seq<u8>,
    p: int,
    tag_data: Option<TagDataView>,
    names: Seq<Seq<char>>,
    imports: Seq<Seq<char>>,
)
    requires
        fits(b, p, 4),
    ensures
        take_value(b, p, "FloatProperty"@, tag_data, names, imports) == Parse::Parsed(TagTypeView::FloatProperty(le_u32(b, p)), p + 4),
{
    assert("FloatProperty"@ != "BoolProperty"@) by {
        reveal_strlit("FloatProperty");
        reveal_strlit("BoolProperty");
        assert("FloatProperty"@.len() == 13 && "BoolProperty"@.len() == 12);
    }
    assert("FloatProperty"@ != "StructProperty"@) by {
        reveal_strlit("FloatProperty");
        reveal_strlit("StructProperty");
        assert("FloatProperty"@.len() == 13 && "StructProperty"@.len() == 14);
    }
    assert("FloatProperty"@ != "ArrayProperty"@) by {
        reveal_strlit("FloatProperty");
        reveal_strlit("ArrayProperty");
        assert("FloatProperty"@[0] != "ArrayProperty"@[0]);
    }
    assert("FloatProperty"@ != "MapProperty"@) by {
        reveal_strlit("FloatProperty");
        reveal_strlit("MapProperty");
        assert("FloatProperty"@.len() == 13 && "MapProperty"@.len() == 11);
    }
    assert("FloatProperty"@ != "ObjectProperty"@) by {
        reveal_strlit("FloatProperty");
        reveal_strlit("ObjectProperty");
        assert("FloatProperty"@.len() == 13 && "ObjectProperty"@.len() == 14);
    }
    assert("FloatProperty"@ != "InterfaceProperty"@) by {
        reveal_strlit("FloatProperty");
        reveal_strlit("InterfaceProperty");
        assert("FloatProperty"@.len() == 13 && "InterfaceProperty"@.len() == 17);
    }
    reveal(take_plain_value);
}

/// A value by its tag's type: a `u16` property is a little-endian `u16`.
pub proof fn lemma_uint16_value(
    b: Seq<u8>,
    p: int,
    tag_data: Option<TagDataView>,
    names: Seq<Seq<char>>,
    imports: Seq<Seq<char>>,
)
    requires
        fits(b, p, 2),
    ensures
        take_value(b, p, "UInt16Property"@, tag_data, names, imports) == Parse::Parsed(TagTypeView::UInt16Property(le_u16(b, p)), p + 2),
{
    assert("UInt16Property"@ != "BoolProperty"@) by {
        reveal_strlit("UInt16Property");
        reveal_strlit("BoolProperty");
        assert("UInt16Property"@.len() == 14 && "BoolProperty"@.len() == 12);
    }
    assert("UInt16Property"@ != "StructProperty"@) by {
        reveal_strlit("UInt16Property");
        reveal_strlit("StructProperty");
        assert("UInt16Property"@[0] != "StructProperty"@[0]);
    }
    assert("UInt16Property"@ != "ArrayProperty"@) by {
        reveal_strlit("UInt16Property");
        reveal_strlit("ArrayProperty");
        assert("UInt16Property"@.len() == 14 && "ArrayProperty"@.len() == 13);
    }
    assert("UInt16Property"@ != "MapProperty"@) by {
        reveal_strlit("UInt16Property");
        reveal_strlit("MapProperty");
        assert("UInt16Property"@.len() == 14 && "MapProperty"@.len() == 11);
    }
    assert("UInt16Property"@ != "ObjectProperty"@) by {
        reveal_strlit("UInt16Property");
        reveal_strlit("ObjectProperty");
        assert("UInt16Property"@[0] != "ObjectProperty"@[0]);
    }
    assert("UInt16Property"@ != "InterfaceProperty"@) by {
        reveal_strlit("UInt16Property");
        reveal_strlit("InterfaceProperty");
        assert("UInt16Property"@.len() == 14 && "InterfaceProperty"@.len() == 17);
    }
    assert("UInt16Property"@ != "FloatProperty"@) by {
        reveal_strlit("UInt16Property");
        reveal_strlit("FloatProperty");
        assert("UInt16Property"@.len() == 14 && "FloatProperty"@.len() == 13);
    }
    assert("UInt16Property"@ != "TextProperty"@) by {
        reveal_strlit("UInt16Property");
        reveal_strlit("TextProperty");
        assert("UInt16Property"@.len() == 14 && "TextProperty"@.len() == 12);
    }
    assert("UInt16Property"@ != "StrProperty"@) by {
        reveal_strlit("UInt16Property");
        reveal_strlit("StrProperty");
        assert("UInt16Property"@.len() == 14 && "StrProperty"@.len() == 11);
    }
    assert("UInt16Property"@ != "NameProperty"@) by {
        reveal_strlit("UInt16Property");
        reveal_strlit("NameProperty");
        assert("UInt16Property"@.len() == 14 && "NameProperty"@.len() == 12);
    }
    assert("UInt16Property"@ != "IntProperty"@) by {
        reveal_strlit("UInt16Property");
        reveal_strlit("IntProperty");
        assert("UInt16Property"@.len() == 14 && "IntProperty"@.len() == 11);
    }
    reveal(take_plain_value);
}

/// A value by its tag's type: a `u32` property is a little-endian `u32`.
pub proof fn lemma_uint32_value(
    b: Seq<u8>,
    p: int,
    tag_data: Option<TagDataView>,
    names: Seq<Seq<char>>,
    imports: Seq<Seq<char>>,
)
    requires
        fits(b, p, 4),
    ensures
        take_value(b, p, "UInt32Property"@, tag_data, names, imports) == Parse::Parsed(TagTypeView::UInt32Property(le_u32(b, p)), p + 4),
{
    assert("UInt32Property"@ != "BoolProperty"@) by {
        reveal_strlit("UInt32Property");
        reveal_strlit("BoolProperty");
        assert("UInt32Property"@.len() == 14 && "BoolProperty"@.len() == 12);
    }
    assert("UInt32Property"@ != "StructProperty"@) by {
        reveal_strlit("UInt32Property");
        reveal_strlit("StructProperty");
        assert("UInt32Property"@[0] != "StructProperty"@[0]);
    }
    assert("UInt32Property"@ != "ArrayProperty"@) by {
        reveal_strlit("UInt32Property");
        reveal_strlit("ArrayProperty");
        assert("UInt32Property"@.len() == 14 && "ArrayProperty"@.len() == 13);
    }
    assert("UInt32Property"@ != "MapProperty"@) by {
        reveal_strlit("UInt32Property");
        reveal_strlit("MapProperty");
        assert("UInt32Property"@.len() == 14 && "MapProperty"@.len() == 11);
    }
    assert("UInt32Property"@ != "ObjectProperty"@) by {
        reveal_strlit("UInt32Property");
        reveal_strlit("ObjectProperty");
        assert("UInt32Property"@[0] != "ObjectProperty"@[0]);
    }
    assert("UInt32Property"@ != "InterfaceProperty"@) by {
        reveal_strlit("UInt32Property");
        reveal_strlit("InterfaceProperty");
        assert("UInt32Property"@.len() == 14 && "InterfaceProperty"@.len() == 17);
    }
    assert("UInt32Property"@ != "FloatProperty"@) by {
        reveal_strlit("UInt32Property");
        reveal_strlit("FloatProperty");
        assert("UInt32Property"@.len() == 14 && "FloatProperty"@.len() == 13);
    }
    assert("UInt32Property"@ != "TextProperty"@) by {
        reveal_strlit("UInt32Property");
        reveal_strlit("TextProperty");
        assert("UInt32Property"@.len() == 14 && "TextProperty"@.len() == 12);
    }
    assert("UInt32Property"@ != "StrProperty"@) by {
        reveal_strlit("UInt32Property");
        reveal_strlit("StrProperty");
        assert("UInt32Property"@.len() == 14 && "StrProperty"@.len() == 11);
    }
    assert("UInt32Property"@ != "NameProperty"@) by {
        reveal_strlit("UInt32Property");
        reveal_strlit("NameProperty");
        assert("UInt32Property"@.len() == 14 && "NameProperty"@.len() == 12);
    }
    assert("UInt32Property"@ != "IntProperty"@) by {
        reveal_strlit("UInt32Property");
        reveal_strlit("IntProperty");
        assert("UInt32Property"@.len() == 14 && "IntProperty"@.len() == 11);
    }
    assert("UInt32Property"@ != "UInt16Property"@) by {
        reveal_strlit("UInt32Property");
        reveal_strlit("UInt16Property");
        assert("UInt32Property"@[4] != "UInt16Property"@[4]);
    }
    reveal(take_plain_value);
}

/// A value by its tag's type: a `u64` property is a little-endian `u64`.
pub proof fn lemma_uint64_value(
    b: Seq<u8>,
    p: int,
    tag_data: Option<TagDataView>,
    names: Seq<Seq<char>>,
    imports: Seq<Seq<char>>,
)
    requires
        fits(b, p, 8),
    ensures
        take_value(b, p, "UInt64Property"@, tag_data, names, imports) == Parse::Parsed(TagTypeView::UInt64Property(le_u64(b, p)), p + 8),
{
    assert("UInt64Property"@ != "BoolProperty"@) by {
        reveal_strlit("UInt64Property");
        reveal_strlit("BoolProperty");
        assert("UInt64Property"@.len() == 14 && "BoolProperty"@.len() == 12);
    }
    assert("UInt64Property"@ != "StructProperty"@) by {
        reveal_strlit("UInt64Property");
        reveal_strlit("StructProperty");
        assert("UInt64Property"@[0] != "StructProperty"@[0]);
    }
    assert("UInt64Property"@ != "ArrayProperty"@) by {
        reveal_strlit("UInt64Property");
        reveal_strlit("ArrayProperty");
        assert("UInt64Property"@.len() == 14 && "ArrayProperty"@.len() == 13);
    }
    assert("UInt64Property"@ != "MapProperty"@) by {
        reveal_strlit("UInt64Property");
        reveal_strlit("MapProperty");
        assert("UInt64Property"@.len() == 14 && "MapProperty"@.len() == 11);
    }
    assert("UInt64Property"@ != "ObjectProperty"@) by {
        reveal_strlit("UInt64Property");
        reveal_strlit("ObjectProperty");
        assert("UInt64Property"@[0] != "ObjectProperty"@[0]);
    }
    assert("UInt64Property"@ != "InterfaceProperty"@) by {
        reveal_strlit("UInt64Property");
        reveal_strlit("InterfaceProperty");
        assert("UInt64Property"@.len() == 14 && "InterfaceProperty"@.len() == 17);
    }
    assert("UInt64Property"@ != "FloatProperty"@) by {
        reveal_strlit("UInt64Property");
        reveal_strlit("FloatProperty");
        assert("UInt64Property"@.len() == 14 && "FloatProperty"@.len() == 13);
    }
    assert("UInt64Property"@ != "TextProperty"@) by {
        reveal_strlit("UInt64Property");
        reveal_strlit("TextProperty");
        assert("UInt64Property"@.len() == 14 && "TextProperty"@.len() == 12);
    }
    assert("UInt64Property"@ != "StrProperty"@) by {
        reveal_strlit("UInt64Property");
        reveal_strlit("StrProperty");
        assert("UInt64Property"@.len() == 14 && "StrProperty"@.len() == 11);
    }
    assert("UInt64Property"@ != "NameProperty"@) by {
        reveal_strlit("UInt64Property");
        reveal_strlit("NameProperty");
        assert("UInt64Property"@.len() == 14 && "NameProperty"@.len() == 12);
    }
    assert("UInt64Property"@ != "IntProperty"@) by {
        reveal_strlit("UInt64Property");
        reveal_strlit("IntProperty");
        assert("UInt64Property"@.len() == 14 && "IntProperty"@.len() == 11);
    }
    assert("UInt64Property"@ != "UInt16Property"@) by {
        reveal_strlit("UInt64Property");
        reveal_strlit("UInt16Property");
        assert("UInt64Property"@[4] != "UInt16Property"@[4]);
    }
    assert("UInt64Property"@ != "UInt32Property"@) by {
        reveal_strlit("UInt64Property");
        reveal_strlit("UInt32Property");
        assert("UInt64Property"@[4] != "UInt32Property"@[4]);
    }
    reveal(take_plain_value);
}

/// A value by its tag's type: a name property is an FName.
pub proof fn lemma_name_value(
    b: Seq<u8>,
    p: int,
    tag_data: Option<TagDataView>,
    names: Seq<Seq<char>>,
    imports: Seq<Seq<char>>,
)
    requires
        fits(b, p, 8) && 0 <= signed32(le_u32(b, p)) < names.len(),
    ensures
        take_value(b, p, "NameProperty"@, tag_data, names, imports) == Parse::Parsed(TagTypeView::NameProperty(names[signed32(le_u32(b, p)) as int]), p + 8),
{
    assert("NameProperty"@ != "BoolProperty"@) by {
        reveal_strlit("NameProperty");
        reveal_strlit("BoolProperty");
        assert("NameProperty"@[0] != "BoolProperty"@[0]);
    }
    assert("NameProperty"@ != "StructProperty"@) by {
        reveal_strlit("NameProperty");
        reveal_strlit("StructProperty");
        assert("NameProperty"@.len() == 12 && "StructProperty"@.len() == 14);
    }
    assert("NameProperty"@ != "ArrayProperty"@) by {
        reveal_strlit("NameProperty");
        reveal_strlit("ArrayProperty");
        assert("NameProperty"@.len() == 12 && "ArrayProperty"@.len() == 13);
    }
    assert("NameProperty"@ != "MapProperty"@) by {
        reveal_strlit("NameProperty");
        reveal_strlit("MapProperty");
        assert("NameProperty"@.len() == 12 && "MapProperty"@.len() == 11);
    }
    assert("NameProperty"@ != "ObjectProperty"@) by {
        reveal_strlit("NameProperty");
        reveal_strlit("ObjectProperty");
        assert("NameProperty"@.len() == 12 && "ObjectProperty"@.len() == 14);
    }
    assert("NameProperty"@ != "InterfaceProperty"@) by {
        reveal_strlit("NameProperty");
        reveal_strlit("InterfaceProperty");
        assert("NameProperty"@.len() == 12 && "InterfaceProperty"@.len() == 17);
    }
    assert("NameProperty"@ != "FloatProperty"@) by {
        reveal_strlit("NameProperty");
        reveal_strlit("FloatProperty");
        assert("NameProperty"@.len() == 12 && "FloatProperty"@.len() == 13);
    }
    assert("NameProperty"@ != "TextProperty"@) by {
        reveal_strlit("NameProperty");
        reveal_strlit("TextProperty");
        assert("NameProperty"@[0] != "TextProperty"@[0]);
    }
    assert("NameProperty"@ != "StrProperty"@) by {
        reveal_strlit("NameProperty");
        reveal_strlit("StrProperty");
        assert("NameProperty"@.len() == 12 && "StrProperty"@.len() == 11);
    }
    reveal(take_plain_value);
}

/// A value by its tag's type: a byte property whose enum is "None" is one
/// byte, and one with an enum is an FName, read as a name property.
pub proof fn lemma_byte_value(
    b: Seq<u8>,
    p: int,
    enum_name: Seq<char>,
    names: Seq<Seq<char>>,
    imports: Seq<Seq<char>>,
)
    requires
        fits(b, p, 8),
        0 <= signed32(le_u32(b, p)) < names.len(),
    ensures
        enum_name == "None"@ ==> take_value(b, p, "ByteProperty"@, Some(TagDataView::ByteProperty(enum_name)), names, imports)
            == Parse::Parsed(TagTypeView::ByteProperty(b[p]), p + 1),
        enum_name != "None"@ ==> take_value(b, p, "ByteProperty"@, Some(TagDataView::ByteProperty(enum_name)), names, imports)
            == Parse::Parsed(TagTypeView::NameProperty(names[signed32(le_u32(b, p)) as int]), p + 8),
{
    assert("ByteProperty"@ != "BoolProperty"@) by {
        reveal_strlit("ByteProperty");
        reveal_strlit("BoolProperty");
        assert("ByteProperty"@[1] != "BoolProperty"@[1]);
    }
    assert("ByteProperty"@ != "StructProperty"@) by {
        reveal_strlit("ByteProperty");
        reveal_strlit("StructProperty");
        assert("ByteProperty"@.len() == 12 && "StructProperty"@.len() == 14);
    }
    assert("ByteProperty"@ != "ArrayProperty"@) by {
        reveal_strlit("ByteProperty");
        reveal_strlit("ArrayProperty");
        assert("ByteProperty"@.len() == 12 && "ArrayProperty"@.len() == 13);
    }
    assert("ByteProperty"@ != "MapProperty"@) by {
        reveal_strlit("ByteProperty");
        reveal_strlit("MapProperty");
        assert("ByteProperty"@.len() == 12 && "MapProperty"@.len() == 11);
    }
    assert("ByteProperty"@ != "ObjectProperty"@) by {
        reveal_strlit("ByteProperty");
        reveal_strlit("ObjectProperty");
        assert("ByteProperty"@.len() == 12 && "ObjectProperty"@.len() == 14);
    }
    assert("ByteProperty"@ != "InterfaceProperty"@) by {
        reveal_strlit("ByteProperty");
        reveal_strlit("InterfaceProperty");
        assert("ByteProperty"@.len() == 12 && "InterfaceProperty"@.len() == 17);
    }
    assert("ByteProperty"@ != "FloatProperty"@) by {
        reveal_strlit("ByteProperty");
        reveal_strlit("FloatProperty");
        assert("ByteProperty"@.len() == 12 && "FloatProperty"@.len() == 13);
    }
    assert("ByteProperty"@ != "TextProperty"@) by {
        reveal_strlit("ByteProperty");
        reveal_strlit("TextProperty");
        assert("ByteProperty"@[0] != "TextProperty"@[0]);
    }
    assert("ByteProperty"@ != "StrProperty"@) by {
        reveal_strlit("ByteProperty");
        reveal_strlit("StrProperty");
        assert("ByteProperty"@.len() == 12 && "StrProperty"@.len() == 11);
    }
    assert("ByteProperty"@ != "NameProperty"@) by {
        reveal_strlit("ByteProperty");
        reveal_strlit("NameProperty");
        assert("ByteProperty"@[0] != "NameProperty"@[0]);
    }
    assert("ByteProperty"@ != "IntProperty"@) by {
        reveal_strlit("ByteProperty");
        reveal_strlit("IntProperty");
        assert("ByteProperty"@.len() == 12 && "IntProperty"@.len() == 11);
    }
    assert("ByteProperty"@ != "UInt16Property"@) by {
        reveal_strlit("ByteProperty");
        reveal_strlit("UInt16Property");
        assert("ByteProperty"@.len() == 12 && "UInt16Property"@.len() == 14);
    }
    assert("ByteProperty"@ != "UInt32Property"@) by {
        reveal_strlit("ByteProperty");
        reveal_strlit("UInt32Property");
        assert("ByteProperty"@.len() == 12 && "UInt32Property"@.len() == 14);
    }
    assert("ByteProperty"@ != "UInt64Property"@) by {
        reveal_strlit("ByteProperty");
        reveal_strlit("UInt64Property");
        assert("ByteProperty"@.len() == 12 && "UInt64Property"@.len() == 14);
    }
    reveal(take_plain_value);
}

/// A value by its tag's type: an enum property whose enum is "None" reads
/// nothing and holds none; one with an enum is an FName.
pub proof fn lemma_enum_value(
    b: Seq<u8>,
    p: int,
    enum_name: Seq<char>,
    names: Seq<Seq<char>>,
    imports: Seq<Seq<char>>,
)
    requires
        fits(b, p, 8),
        0 <= signed32(le_u32(b, p)) < names.len(),
    ensures
        enum_name == "None"@ ==> take_value(b, p, "EnumProperty"@, Some(TagDataView::EnumProperty(enum_name)), names, imports)
            == Parse::Parsed(TagTypeView::EnumProperty(None), p),
        enum_name != "None"@ ==> take_value(b, p, "EnumProperty"@, Some(TagDataView::EnumProperty(enum_name)), names, imports)
            == Parse::Parsed(TagTypeView::EnumProperty(Some(names[signed32(le_u32(b, p)) as int])), p + 8),
{
    assert("EnumProperty"@ != "BoolProperty"@) by {
        reveal_strlit("EnumProperty");
        reveal_strlit("BoolProperty");
        assert("EnumProperty"@[0] != "BoolProperty"@[0]);
    }
    assert("EnumProperty"@ != "StructProperty"@) by {
        reveal_strlit("EnumProperty");
        reveal_strlit("StructProperty");
        assert("EnumProperty"@.len() == 12 && "StructProperty"@.len() == 14);
    }
    assert("EnumProperty"@ != "ArrayProperty"@) by {
        reveal_strlit("EnumProperty");
        reveal_strlit("ArrayProperty");
        assert("EnumProperty"@.len() == 12 && "ArrayProperty"@.len() == 13);
    }
    assert("EnumProperty"@ != "MapProperty"@) by {
        reveal_strlit("EnumProperty");
        reveal_strlit("MapProperty");
        assert("EnumProperty"@.len() == 12 && "MapProperty"@.len() == 11);
    }
    assert("EnumProperty"@ != "ObjectProperty"@) by {
        reveal_strlit("EnumProperty");
        reveal_strlit("ObjectProperty");
        assert("EnumProperty"@.len() == 12 && "ObjectProperty"@.len() == 14);
    }
    assert("EnumProperty"@ != "InterfaceProperty"@) by {
        reveal_strlit("EnumProperty");
        reveal_strlit("InterfaceProperty");
        assert("EnumProperty"@.len() == 12 && "InterfaceProperty"@.len() == 17);
    }
    assert("EnumProperty"@ != "FloatProperty"@) by {
        reveal_strlit("EnumProperty");
        reveal_strlit("FloatProperty");
        assert("EnumProperty"@.len() == 12 && "FloatProperty"@.len() == 13);
    }
    assert("EnumProperty"@ != "TextProperty"@) by {
        reveal_strlit("EnumProperty");
        reveal_strlit("TextProperty");
        assert("EnumProperty"@[0] != "TextProperty"@[0]);
    }
    assert("EnumProperty"@ != "StrProperty"@) by {
        reveal_strlit("EnumProperty");
        reveal_strlit("StrProperty");
        assert("EnumProperty"@.len() == 12 && "StrProperty"@.len() == 11);
    }
    assert("EnumProperty"@ != "NameProperty"@) by {
        reveal_strlit("EnumProperty");
        reveal_strlit("NameProperty");
        assert("EnumProperty"@[0] != "NameProperty"@[0]);
    }
    assert("EnumProperty"@ != "IntProperty"@) by {
        reveal_strlit("EnumProperty");
        reveal_strlit("IntProperty");
        assert("EnumProperty"@.len() == 12 && "IntProperty"@.len() == 11);
    }
    assert("EnumProperty"@ != "UInt16Property"@) by {
        reveal_strlit("EnumProperty");
        reveal_strlit("UInt16Property");
        assert("EnumProperty"@.len() == 12 && "UInt16Property"@.len() == 14);
    }
    assert("EnumProperty"@ != "UInt32Property"@) by {
        reveal_strlit("EnumProperty");
        reveal_strlit("UInt32Property");
        assert("EnumProperty"@.len() == 12 && "UInt32Property"@.len() == 14);
    }
    assert("EnumProperty"@ != "UInt64Property"@) by {
        reveal_strlit("EnumProperty");
        reveal_strlit("UInt64Property");
        assert("EnumProperty"@.len() == 12 && "UInt64Property"@.len() == 14);
    }
    assert("EnumProperty"@ != "ByteProperty"@) by {
        reveal_strlit("EnumProperty");
        reveal_strlit("ByteProperty");
        assert("EnumProperty"@[0] != "ByteProperty"@[0]);
    }
    reveal(take_plain_value);
}

/// A value by its tag's type: a bool property's value is the one in its
/// tag, and it reads nothing.
pub proof fn lemma_bool_value(
    b: Seq<u8>,
    p: int,
    v: bool,
    names: Seq<Seq<char>>,
    imports: Seq<Seq<char>>,
)
    ensures
        take_value(b, p, "BoolProperty"@, Some(TagDataView::BoolProperty(v)), names, imports)
            == Parse::Parsed(TagTypeView::BoolProperty(v), p),
{
}


/// A struct value named "Vector2D" is read as that type.
pub proof fn lemma_struct_vector2_d(b: Seq<u8>, p: int, names: Seq<Seq<char>>, imports: Seq<Seq<char>>)
    requires
        <FVector2D as NewableWithNameMap>::parse_n(b, p, names, imports) is Parsed,
    ensures
        take_struct(b, p, "Vector2D"@, names, imports) == Parse::Parsed(
            ScriptStructView { struct_name: "Vector2D"@, struct_type: StructValueView::Vector2D(<FVector2D as NewableWithNameMap>::parse_n(b, p, names, imports).value()) },
            <FVector2D as NewableWithNameMap>::parse_n(b, p, names, imports)->Parsed_1,
        ),
{
}

/// A struct value named "LinearColor" is read as that type.
pub proof fn lemma_struct_linear_color(b: Seq<u8>, p: int, names: Seq<Seq<char>>, imports: Seq<Seq<char>>)
    requires
        <FLinearColor as NewableWithNameMap>::parse_n(b, p, names, imports) is Parsed,
    ensures
        take_struct(b, p, "LinearColor"@, names, imports) == Parse::Parsed(
            ScriptStructView { struct_name: "LinearColor"@, struct_type: StructValueView::LinearColor(<FLinearColor as NewableWithNameMap>::parse_n(b, p, names, imports).value()) },
            <FLinearColor as NewableWithNameMap>::parse_n(b, p, names, imports)->Parsed_1,
        ),
{
    assert("LinearColor"@ != "Vector2D"@) by {
        reveal_strlit("LinearColor");
        reveal_strlit("Vector2D");
        assert("LinearColor"@.len() == 11 && "Vector2D"@.len() == 8);
    }
}

/// A struct value named "Color" is read as that type.
pub proof fn lemma_struct_color(b: Seq<u8>, p: int, names: Seq<Seq<char>>, imports: Seq<Seq<char>>)
    requires
        <FColor as NewableWithNameMap>::parse_n(b, p, names, imports) is Parsed,
    ensures
        take_struct(b, p, "Color"@, names, imports) == Parse::Parsed(
            ScriptStructView { struct_name: "Color"@, struct_type: StructValueView::Color(<FColor as NewableWithNameMap>::parse_n(b, p, names, imports).value()) },
            <FColor as NewableWithNameMap>::parse_n(b, p, names, imports)->Parsed_1,
        ),
{
    assert("Color"@ != "Vector2D"@) by {
        reveal_strlit("Color");
        reveal_strlit("Vector2D");
        assert("Color"@.len() == 5 && "Vector2D"@.len() == 8);
    }
    assert("Color"@ != "LinearColor"@) by {
        reveal_strlit("Color");
        reveal_strlit("LinearColor");
        assert("Color"@.len() == 5 && "LinearColor"@.len() == 11);
    }
}

/// A struct value named "IntPoint" is read as that type.
pub proof fn lemma_struct_int_point(b: Seq<u8>, p: int, names: Seq<Seq<char>>, imports: Seq<Seq<char>>)
    requires
        <FIntPoint as NewableWithNameMap>::parse_n(b, p, names, imports) is Parsed,
    ensures
        take_struct(b, p, "IntPoint"@, names, imports) == Parse::Parsed(
            ScriptStructView { struct_name: "IntPoint"@, struct_type: StructValueView::IntPoint(<FIntPoint as NewableWithNameMap>::parse_n(b, p, names, imports).value()) },
            <FIntPoint as NewableWithNameMap>::parse_n(b, p, names, imports)->Parsed_1,
        ),
{
    assert("IntPoint"@ != "Vector2D"@) by {
        reveal_strlit("IntPoint");
        reveal_strlit("Vector2D");
        assert("IntPoint"@[0] != "Vector2D"@[0]);
    }
    assert("IntPoint"@ != "LinearColor"@) by {
        reveal_strlit("IntPoint");
        reveal_strlit("LinearColor");
        assert("IntPoint"@.len() == 8 && "LinearColor"@.len() == 11);
    }
    assert("IntPoint"@ != "Color"@) by {
        reveal_strlit("IntPoint");
        reveal_strlit("Color");
        assert("IntPoint"@.len() == 8 && "Color"@.len() == 5);
    }
    assert("IntPoint"@ != "GameplayTagContainer"@) by {
        reveal_strlit("IntPoint");
        reveal_strlit("GameplayTagContainer");
        assert("IntPoint"@.len() == 8 && "GameplayTagContainer"@.len() == 20);
    }
}

/// A struct value named "Guid" is read as that type.
pub proof fn lemma_struct_guid(b: Seq<u8>, p: int, names: Seq<Seq<char>>, imports: Seq<Seq<char>>)
    requires
        <FGuid as Newable>::parse(b, p) is Parsed,
    ensures
        take_struct(b, p, "Guid"@, names, imports) == Parse::Parsed(
            ScriptStructView { struct_name: "Guid"@, struct_type: StructValueView::Guid(<FGuid as Newable>::parse(b, p).value()) },
            <FGuid as Newable>::parse(b, p)->Parsed_1,
        ),
{
    assert("Guid"@ != "Vector2D"@) by {
        reveal_strlit("Guid");
        reveal_strlit("Vector2D");
        assert("Guid"@.len() == 4 && "Vector2D"@.len() == 8);
    }
    assert("Guid"@ != "LinearColor"@) by {
        reveal_strlit("Guid");
        reveal_strlit("LinearColor");
        assert("Guid"@.len() == 4 && "LinearColor"@.len() == 11);
    }
    assert("Guid"@ != "Color"@) by {
        reveal_strlit("Guid");
        reveal_strlit("Color");
        assert("Guid"@.len() == 4 && "Color"@.len() == 5);
    }
    assert("Guid"@ != "GameplayTagContainer"@) by {
        reveal_strlit("Guid");
        reveal_strlit("GameplayTagContainer");
        assert("Guid"@.len() == 4 && "GameplayTagContainer"@.len() == 20);
    }
    assert("Guid"@ != "IntPoint"@) by {
        reveal_strlit("Guid");
        reveal_strlit("IntPoint");
        assert("Guid"@.len() == 4 && "IntPoint"@.len() == 8);
    }
}

/// A struct value named "Quat" is read as that type.
pub proof fn lemma_struct_quat(b: Seq<u8>, p: int, names: Seq<Seq<char>>, imports: Seq<Seq<char>>)
    requires
        <FQuat as NewableWithNameMap>::parse_n(b, p, names, imports) is Parsed,
    ensures
        take_struct(b, p, "Quat"@, names, imports) == Parse::Parsed(
            ScriptStructView { struct_name: "Quat"@, struct_type: StructValueView::Quat(<FQuat as NewableWithNameMap>::parse_n(b, p, names, imports).value()) },
            <FQuat as NewableWithNameMap>::parse_n(b, p, names, imports)->Parsed_1,
        ),
{
    assert("Quat"@ != "Vector2D"@) by {
        reveal_strlit("Quat");
        reveal_strlit("Vector2D");
        assert("Quat"@.len() == 4 && "Vector2D"@.len() == 8);
    }
    assert("Quat"@ != "LinearColor"@) by {
        reveal_strlit("Quat");
        reveal_strlit("LinearColor");
        assert("Quat"@.len() == 4 && "LinearColor"@.len() == 11);
    }
    assert("Quat"@ != "Color"@) by {
        reveal_strlit("Quat");
        reveal_strlit("Color");
        assert("Quat"@.len() == 4 && "Color"@.len() == 5);
    }
    assert("Quat"@ != "GameplayTagContainer"@) by {
        reveal_strlit("Quat");
        reveal_strlit("GameplayTagContainer");
        assert("Quat"@.len() == 4 && "GameplayTagContainer"@.len() == 20);
    }
    assert("Quat"@ != "IntPoint"@) by {
        reveal_strlit("Quat");
        reveal_strlit("IntPoint");
        assert("Quat"@.len() == 4 && "IntPoint"@.len() == 8);
    }
    assert("Quat"@ != "Guid"@) by {
        reveal_strlit("Quat");
        reveal_strlit("Guid");
        assert("Quat"@[0] != "Guid"@[0]);
    }
}

/// A struct value named "Vector" is read as that type.
pub proof fn lemma_struct_vector(b: Seq<u8>, p: int, names: Seq<Seq<char>>, imports: Seq<Seq<char>>)
    requires
        <FVector as NewableWithNameMap>::parse_n(b, p, names, imports) is Parsed,
    ensures
        take_struct(b, p, "Vector"@, names, imports) == Parse::Parsed(
            ScriptStructView { struct_name: "Vector"@, struct_type: StructValueView::Vector(<FVector as NewableWithNameMap>::parse_n(b, p, names, imports).value()) },
            <FVector as NewableWithNameMap>::parse_n(b, p, names, imports)->Parsed_1,
        ),
{
    assert("Vector"@ != "Vector2D"@) by {
        reveal_strlit("Vector");
        reveal_strlit("Vector2D");
        assert("Vector"@.len() == 6 && "Vector2D"@.len() == 8);
    }
    assert("Vector"@ != "LinearColor"@) by {
        reveal_strlit("Vector");
        reveal_strlit("LinearColor");
        assert("Vector"@.len() == 6 && "LinearColor"@.len() == 11);
    }
    assert("Vector"@ != "Color"@) by {
        reveal_strlit("Vector");
        reveal_strlit("Color");
        assert("Vector"@.len() == 6 && "Color"@.len() == 5);
    }
    assert("Vector"@ != "GameplayTagContainer"@) by {
        reveal_strlit("Vector");
        reveal_strlit("GameplayTagContainer");
        assert("Vector"@.len() == 6 && "GameplayTagContainer"@.len() == 20);
    }
    assert("Vector"@ != "IntPoint"@) by {
        reveal_strlit("Vector");
        reveal_strlit("IntPoint");
        assert("Vector"@.len() == 6 && "IntPoint"@.len() == 8);
    }
    assert("Vector"@ != "Guid"@) by {
        reveal_strlit("Vector");
        reveal_strlit("Guid");
        assert("Vector"@.len() == 6 && "Guid"@.len() == 4);
    }
    assert("Vector"@ != "Quat"@) by {
        reveal_strlit("Vector");
        reveal_strlit("Quat");
        assert("Vector"@.len() == 6 && "Quat"@.len() == 4);
    }
}

/// A struct value named "Rotator" is read as that type.
pub proof fn lemma_struct_rotator(b: Seq<u8>, p: int, names: Seq<Seq<char>>, imports: Seq<Seq<char>>)
    requires
        <FRotator as NewableWithNameMap>::parse_n(b, p, names, imports) is Parsed,
    ensures
        take_struct(b, p, "Rotator"@, names, imports) == Parse::Parsed(
            ScriptStructView { struct_name: "Rotator"@, struct_type: StructValueView::Rotator(<FRotator as NewableWithNameMap>::parse_n(b, p, names, imports).value()) },
            <FRotator as NewableWithNameMap>::parse_n(b, p, names, imports)->Parsed_1,
        ),
{
    assert("Rotator"@ != "Vector2D"@) by {
        reveal_strlit("Rotator");
        reveal_strlit("Vector2D");
        assert("Rotator"@.len() == 7 && "Vector2D"@.len() == 8);
    }
    assert("Rotator"@ != "LinearColor"@) by {
        reveal_strlit("Rotator");
        reveal_strlit("LinearColor");
        assert("Rotator"@.len() == 7 && "LinearColor"@.len() == 11);
    }
    assert("Rotator"@ != "Color"@) by {
        reveal_strlit("Rotator");
        reveal_strlit("Color");
        assert("Rotator"@.len() == 7 && "Color"@.len() == 5);
    }
    assert("Rotator"@ != "GameplayTagContainer"@) by {
        reveal_strlit("Rotator");
        reveal_strlit("GameplayTagContainer");
        assert("Rotator"@.len() == 7 && "GameplayTagContainer"@.len() == 20);
    }
    assert("Rotator"@ != "IntPoint"@) by {
        reveal_strlit("Rotator");
        reveal_strlit("IntPoint");
        assert("Rotator"@.len() == 7 && "IntPoint"@.len() == 8);
    }
    assert("Rotator"@ != "Guid"@) by {
        reveal_strlit("Rotator");
        reveal_strlit("Guid");
        assert("Rotator"@.len() == 7 && "Guid"@.len() == 4);
    }
    assert("Rotator"@ != "Quat"@) by {
        reveal_strlit("Rotator");
        reveal_strlit("Quat");
        assert("Rotator"@.len() == 7 && "Quat"@.len() == 4);
    }
    assert("Rotator"@ != "Vector"@) by {
        reveal_strlit("Rotator");
        reveal_strlit("Vector");
        assert("Rotator"@.len() == 7 && "Vector"@.len() == 6);
    }
}

/// A struct value named "RichCurveKey" is read as that type.
pub proof fn lemma_struct_rich_curve_key(b: Seq<u8>, p: int, names: Seq<Seq<char>>, imports: Seq<Seq<char>>)
    requires
        <FRichCurveKey as NewableWithNameMap>::parse_n(b, p, names, imports) is Parsed,
    ensures
        take_struct(b, p, "RichCurveKey"@, names, imports) == Parse::Parsed(
            ScriptStructView { struct_name: "RichCurveKey"@, struct_type: StructValueView::RichCurveKey(<FRichCurveKey as NewableWithNameMap>::parse_n(b, p, names, imports).value()) },
            <FRichCurveKey as NewableWithNameMap>::parse_n(b, p, names, imports)->Parsed_1,
        ),
{
    assert("RichCurveKey"@ != "Vector2D"@) by {
        reveal_strlit("RichCurveKey");
        reveal_strlit("Vector2D");
        assert("RichCurveKey"@.len() == 12 && "Vector2D"@.len() == 8);
    }
    assert("RichCurveKey"@ != "LinearColor"@) by {
        reveal_strlit("RichCurveKey");
        reveal_strlit("LinearColor");
        assert("RichCurveKey"@.len() == 12 && "LinearColor"@.len() == 11);
    }
    assert("RichCurveKey"@ != "Color"@) by {
        reveal_strlit("RichCurveKey");
        reveal_strlit("Color");
        assert("RichCurveKey"@.len() == 12 && "Color"@.len() == 5);
    }
    assert("RichCurveKey"@ != "GameplayTagContainer"@) by {
        reveal_strlit("RichCurveKey");
        reveal_strlit("GameplayTagContainer");
        assert("RichCurveKey"@.len() == 12 && "GameplayTagContainer"@.len() == 20);
    }
    assert("RichCurveKey"@ != "IntPoint"@) by {
        reveal_strlit("RichCurveKey");
        reveal_strlit("IntPoint");
        assert("RichCurveKey"@.len() == 12 && "IntPoint"@.len() == 8);
    }
    assert("RichCurveKey"@ != "Guid"@) by {
        reveal_strlit("RichCurveKey");
        reveal_strlit("Guid");
        assert("RichCurveKey"@.len() == 12 && "Guid"@.len() == 4);
    }
    assert("RichCurveKey"@ != "Quat"@) by {
        reveal_strlit("RichCurveKey");
        reveal_strlit("Quat");
        assert("RichCurveKey"@.len() == 12 && "Quat"@.len() == 4);
    }
    assert("RichCurveKey"@ != "Vector"@) by {
        reveal_strlit("RichCurveKey");
        reveal_strlit("Vector");
        assert("RichCurveKey"@.len() == 12 && "Vector"@.len() == 6);
    }
    assert("RichCurveKey"@ != "Rotator"@) by {
        reveal_strlit("RichCurveKey");
        reveal_strlit("Rotator");
        assert("RichCurveKey"@.len() == 12 && "Rotator"@.len() == 7);
    }
    assert("RichCurveKey"@ != "PerPlatformFloat"@) by {
        reveal_strlit("RichCurveKey");
        reveal_strlit("PerPlatformFloat");
        assert("RichCurveKey"@.len() == 12 && "PerPlatformFloat"@.len() == 16);
    }
    assert("RichCurveKey"@ != "PerPlatformInt"@) by {
        reveal_strlit("RichCurveKey");
        reveal_strlit("PerPlatformInt");
        assert("RichCurveKey"@.len() == 12 && "PerPlatformInt"@.len() == 14);
    }
    assert("RichCurveKey"@ != "SkeletalMeshSamplingLODBuiltData"@) by {
        reveal_strlit("RichCurveKey");
        reveal_strlit("SkeletalMeshSamplingLODBuiltData");
        assert("RichCurveKey"@.len() == 12 && "SkeletalMeshSamplingLODBuiltData"@.len() == 32);
    }
    assert("RichCurveKey"@ != "SoftObjectPath"@) by {
        reveal_strlit("RichCurveKey");
        reveal_strlit("SoftObjectPath");
        assert("RichCurveKey"@.len() == 12 && "SoftObjectPath"@.len() == 14);
    }
    assert("RichCurveKey"@ != "LevelSequenceObjectReferenceMap"@) by {
        reveal_strlit("RichCurveKey");
        reveal_strlit("LevelSequenceObjectReferenceMap");
        assert("RichCurveKey"@.len() == 12 && "LevelSequenceObjectReferenceMap"@.len() == 31);
    }
    assert("RichCurveKey"@ != "FrameNumber"@) by {
        reveal_strlit("RichCurveKey");
        reveal_strlit("FrameNumber");
        assert("RichCurveKey"@.len() == 12 && "FrameNumber"@.len() == 11);
    }
    assert("RichCurveKey"@ != "MovieSceneTrackIdentifier"@) by {
        reveal_strlit("RichCurveKey");
        reveal_strlit("MovieSceneTrackIdentifier");
        assert("RichCurveKey"@.len() == 12 && "MovieSceneTrackIdentifier"@.len() == 25);
    }
    assert("RichCurveKey"@ != "MovieSceneSegmentIdentifier"@) by {
        reveal_strlit("RichCurveKey");
        reveal_strlit("MovieSceneSegmentIdentifier");
        assert("RichCurveKey"@.len() == 12 && "MovieSceneSegmentIdentifier"@.len() == 27);
    }
    assert("RichCurveKey"@ != "MovieSceneFrameRange"@) by {
        reveal_strlit("RichCurveKey");
        reveal_strlit("MovieSceneFrameRange");
        assert("RichCurveKey"@.len() == 12 && "MovieSceneFrameRange"@.len() == 20);
    }
    assert("RichCurveKey"@ != "MovieSceneSequenceID"@) by {
        reveal_strlit("RichCurveKey");
        reveal_strlit("MovieSceneSequenceID");
        assert("RichCurveKey"@.len() == 12 && "MovieSceneSequenceID"@.len() == 20);
    }
    assert("RichCurveKey"@ != "MovieSceneEvaluationKey"@) by {
        reveal_strlit("RichCurveKey");
        reveal_strlit("MovieSceneEvaluationKey");
        assert("RichCurveKey"@.len() == 12 && "MovieSceneEvaluationKey"@.len() == 23);
    }
    assert("RichCurveKey"@ != "SmartName"@) by {
        reveal_strlit("RichCurveKey");
        reveal_strlit("SmartName");
        assert("RichCurveKey"@.len() == 12 && "SmartName"@.len() == 9);
    }
}

/// A struct value named "SimpleCurveKey" is read as that type.
pub proof fn lemma_struct_simple_curve_key(b: Seq<u8>, p: int, names: Seq<Seq<char>>, imports: Seq<Seq<char>>)
    requires
        <FSimpleCurveKey as NewableWithNameMap>::parse_n(b, p, names, imports) is Parsed,
    ensures
        take_struct(b, p, "SimpleCurveKey"@, names, imports) == Parse::Parsed(
            ScriptStructView { struct_name: "SimpleCurveKey"@, struct_type: StructValueView::SimpleCurveKey(<FSimpleCurveKey as NewableWithNameMap>::parse_n(b, p, names, imports).value()) },
            <FSimpleCurveKey as NewableWithNameMap>::parse_n(b, p, names, imports)->Parsed_1,
        ),
{
    assert("SimpleCurveKey"@ != "Vector2D"@) by {
        reveal_strlit("SimpleCurveKey");
        reveal_strlit("Vector2D");
        assert("SimpleCurveKey"@.len() == 14 && "Vector2D"@.len() == 8);
    }
    assert("SimpleCurveKey"@ != "LinearColor"@) by {
        reveal_strlit("SimpleCurveKey");
        reveal_strlit("LinearColor");
        assert("SimpleCurveKey"@.len() == 14 && "LinearColor"@.len() == 11);
    }
    assert("SimpleCurveKey"@ != "Color"@) by {
        reveal_strlit("SimpleCurveKey");
        reveal_strlit("Color");
        assert("SimpleCurveKey"@.len() == 14 && "Color"@.len() == 5);
    }
    assert("SimpleCurveKey"@ != "GameplayTagContainer"@) by {
        reveal_strlit("SimpleCurveKey");
        reveal_strlit("GameplayTagContainer");
        assert("SimpleCurveKey"@.len() == 14 && "GameplayTagContainer"@.len() == 20);
    }
    assert("SimpleCurveKey"@ != "IntPoint"@) by {
        reveal_strlit("SimpleCurveKey");
        reveal_strlit("IntPoint");
        assert("SimpleCurveKey"@.len() == 14 && "IntPoint"@.len() == 8);
    }
    assert("SimpleCurveKey"@ != "Guid"@) by {
        reveal_strlit("SimpleCurveKey");
        reveal_strlit("Guid");
        assert("SimpleCurveKey"@.len() == 14 && "Guid"@.len() == 4);
    }
    assert("SimpleCurveKey"@ != "Quat"@) by {
        reveal_strlit("SimpleCurveKey");
        reveal_strlit("Quat");
        assert("SimpleCurveKey"@.len() == 14 && "Quat"@.len() == 4);
    }
    assert("SimpleCurveKey"@ != "Vector"@) by {
        reveal_strlit("SimpleCurveKey");
        reveal_strlit("Vector");
        assert("SimpleCurveKey"@.len() == 14 && "Vector"@.len() == 6);
    }
    assert("SimpleCurveKey"@ != "Rotator"@) by {
        reveal_strlit("SimpleCurveKey");
        reveal_strlit("Rotator");
        assert("SimpleCurveKey"@.len() == 14 && "Rotator"@.len() == 7);
    }
    assert("SimpleCurveKey"@ != "PerPlatformFloat"@) by {
        reveal_strlit("SimpleCurveKey");
        reveal_strlit("PerPlatformFloat");
        assert("SimpleCurveKey"@.len() == 14 && "PerPlatformFloat"@.len() == 16);
    }
    assert("SimpleCurveKey"@ != "PerPlatformInt"@) by {
        reveal_strlit("SimpleCurveKey");
        reveal_strlit("PerPlatformInt");
        assert("SimpleCurveKey"@[0] != "PerPlatformInt"@[0]);
    }
    assert("SimpleCurveKey"@ != "SkeletalMeshSamplingLODBuiltData"@) by {
        reveal_strlit("SimpleCurveKey");
        reveal_strlit("SkeletalMeshSamplingLODBuiltData");
        assert("SimpleCurveKey"@.len() == 14 && "SkeletalMeshSamplingLODBuiltData"@.len() == 32);
    }
    assert("SimpleCurveKey"@ != "SoftObjectPath"@) by {
        reveal_strlit("SimpleCurveKey");
        reveal_strlit("SoftObjectPath");
        assert("SimpleCurveKey"@[1] != "SoftObjectPath"@[1]);
    }
    assert("SimpleCurveKey"@ != "LevelSequenceObjectReferenceMap"@) by {
        reveal_strlit("SimpleCurveKey");
        reveal_strlit("LevelSequenceObjectReferenceMap");
        assert("SimpleCurveKey"@.len() == 14 && "LevelSequenceObjectReferenceMap"@.len() == 31);
    }
    assert("SimpleCurveKey"@ != "FrameNumber"@) by {
        reveal_strlit("SimpleCurveKey");
        reveal_strlit("FrameNumber");
        assert("SimpleCurveKey"@.len() == 14 && "FrameNumber"@.len() == 11);
    }
    assert("SimpleCurveKey"@ != "MovieSceneTrackIdentifier"@) by {
        reveal_strlit("SimpleCurveKey");
        reveal_strlit("MovieSceneTrackIdentifier");
        assert("SimpleCurveKey"@.len() == 14 && "MovieSceneTrackIdentifier"@.len() == 25);
    }
    assert("SimpleCurveKey"@ != "MovieSceneSegmentIdentifier"@) by {
        reveal_strlit("SimpleCurveKey");
        reveal_strlit("MovieSceneSegmentIdentifier");
        assert("SimpleCurveKey"@.len() == 14 && "MovieSceneSegmentIdentifier"@.len() == 27);
    }
    assert("SimpleCurveKey"@ != "MovieSceneFrameRange"@) by {
        reveal_strlit("SimpleCurveKey");
        reveal_strlit("MovieSceneFrameRange");
        assert("SimpleCurveKey"@.len() == 14 && "MovieSceneFrameRange"@.len() == 20);
    }
    assert("SimpleCurveKey"@ != "MovieSceneSequenceID"@) by {
        reveal_strlit("SimpleCurveKey");
        reveal_strlit("MovieSceneSequenceID");
        assert("SimpleCurveKey"@.len() == 14 && "MovieSceneSequenceID"@.len() == 20);
    }
    assert("SimpleCurveKey"@ != "MovieSceneEvaluationKey"@) by {
        reveal_strlit("SimpleCurveKey");
        reveal_strlit("MovieSceneEvaluationKey");
        assert("SimpleCurveKey"@.len() == 14 && "MovieSceneEvaluationKey"@.len() == 23);
    }
    assert("SimpleCurveKey"@ != "SmartName"@) by {
        reveal_strlit("SimpleCurveKey");
        reveal_strlit("SmartName");
        assert("SimpleCurveKey"@.len() == 14 && "SmartName"@.len() == 9);
    }
    assert("SimpleCurveKey"@ != "RichCurveKey"@) by {
        reveal_strlit("SimpleCurveKey");
        reveal_strlit("RichCurveKey");
        assert("SimpleCurveKey"@.len() == 14 && "RichCurveKey"@.len() == 12);
    }
}

/// A struct value of any other name is read as tags, up to "None".
pub proof fn lemma_struct_fallback(
    b: Seq<u8>,
    p: int,
    struct_name: Seq<char>,
    names: Seq<Seq<char>>,
    imports: Seq<Seq<char>>,
)
    requires
        take_properties(b, p, names, imports) is Parsed,
        struct_name != "Vector2D"@,
        struct_name != "LinearColor"@,
        struct_name != "Color"@,
        struct_name != "GameplayTagContainer"@,
        struct_name != "IntPoint"@,
        struct_name != "Guid"@,
        struct_name != "Quat"@,
        struct_name != "Vector"@,
        struct_name != "Rotator"@,
        struct_name != "PerPlatformFloat"@,
        struct_name != "PerPlatformInt"@,
        struct_name != "SkeletalMeshSamplingLODBuiltData"@,
        struct_name != "SoftObjectPath"@,
        struct_name != "LevelSequenceObjectReferenceMap"@,
        struct_name != "FrameNumber"@,
        struct_name != "MovieSceneTrackIdentifier"@,
        struct_name != "MovieSceneSegmentIdentifier"@,
        struct_name != "MovieSceneFrameRange"@,
        struct_name != "MovieSceneSequenceID"@,
        struct_name != "MovieSceneEvaluationKey"@,
        struct_name != "SmartName"@,
        struct_name != "RichCurveKey"@,
        struct_name != "SimpleCurveKey"@,
        struct_name != "SectionEvaluationDataTree"@,
        struct_name != "MovieSceneSegment"@,
        struct_name != "MovieSceneEvalTemplatePtr"@,
        struct_name != "MovieSceneTrackImplementationPtr"@,
        struct_name != "MovieSceneSequenceInstanceDataPtr"@,
    ensures
        take_struct(b, p, struct_name, names, imports) == Parse::Parsed(
            ScriptStructView {
                struct_name,
                struct_type: StructValueView::Fallback(take_properties(b, p, names, imports).value()),
            },
            take_properties(b, p, names, imports)->Parsed_1,
        ),
{
}


/// `n` array elements read are `n` of them; bool and byte elements are one
/// byte each, a bool set when the byte is not zero.
pub proof fn lemma_elements_read(
    b: Seq<u8>,
    p: int,
    n: nat,
    inner_type: Seq<char>,
    tag_data: Option<TagDataView>,
    names: Seq<Seq<char>>,
    imports: Seq<Seq<char>>,
)
    requires
        take_elements(b, p, n, inner_type, tag_data, names, imports) is Parsed,
    ensures
        take_elements(b, p, n, inner_type, tag_data, names, imports).value().len() == n,
        inner_type == "BoolProperty"@ ==> take_elements(b, p, n, inner_type, tag_data, names, imports)->Parsed_1
            == p + n && forall|i: int|
            0 <= i < n ==> #[trigger] take_elements(b, p, n, inner_type, tag_data, names, imports).value()[i]
                == TagTypeView::BoolProperty(b[p + i] != 0),
        inner_type == "ByteProperty"@ ==> take_elements(b, p, n, inner_type, tag_data, names, imports)->Parsed_1
            == p + n && forall|i: int|
            0 <= i < n ==> #[trigger] take_elements(b, p, n, inner_type, tag_data, names, imports).value()[i]
                == TagTypeView::ByteProperty(b[p + i]),
    decreases n,
{
    assert("ByteProperty"@ != "BoolProperty"@) by {
        reveal_strlit("ByteProperty");
        reveal_strlit("BoolProperty");
        assert("ByteProperty"@[1] != "BoolProperty"@[1]);
    }
    if n > 0 {
        let first: Parse<TagTypeView> = if inner_type == "BoolProperty"@ {
            lift(take_u8(b, p), |x: u8| TagTypeView::BoolProperty(x != 0))
        } else if inner_type == "ByteProperty"@ {
            lift(take_u8(b, p), |x| TagTypeView::ByteProperty(x))
        } else {
            take_value(b, p, inner_type, tag_data, names, imports)
        };
        let e = first->Parsed_1;
        lemma_elements_read(b, e, (n - 1) as nat, inner_type, tag_data, names, imports);
        let all = take_elements(b, p, n, inner_type, tag_data, names, imports).value();
        let rest = take_elements(b, e, (n - 1) as nat, inner_type, tag_data, names, imports).value();
        assert(all == seq![first.value()] + rest);
        if inner_type == "BoolProperty"@ || inner_type == "ByteProperty"@ {
            assert(e == p + 1);
            assert forall|i: int| 0 < i < n implies #[trigger] all[i] == rest[i - 1] by {}
        }
    }
}

/// An array value: a `u32` element count (its elements all read), and for
/// struct and array elements a tag that describes them.
pub proof fn lemma_array_count(
    b: Seq<u8>,
    p: int,
    inner_type: Seq<char>,
    names: Seq<Seq<char>>,
    imports: Seq<Seq<char>>,
)
    requires
        take_array(b, p, inner_type, names, imports) is Parsed,
    ensures
        take_array(b, p, inner_type, names, imports).value().data.len() == le_u32(b, p),
        (take_array(b, p, inner_type, names, imports).value().tag is Some) == array_has_tag(inner_type),
{
    let q = p + 4;
    let head: Parse<Option<TagView>> = if array_has_tag(inner_type) {
        take_tag(b, q, names, imports, false)
    } else {
        Parse::Parsed(None, q)
    };
    let t = head.value();
    let tag_data = match t {
        Some(tv) => Some(tv.tag_data),
        None => None,
    };
    lemma_elements_read(b, head->Parsed_1, le_u32(b, p) as nat, inner_type, tag_data, names, imports);
}


/// `n` map entries read are `n` of them.
proof fn lemma_entries_len(
    b: Seq<u8>,
    p: int,
    n: nat,
    key_type: Seq<char>,
    value_type: Seq<char>,
    names: Seq<Seq<char>>,
    imports: Seq<Seq<char>>,
)
    requires
        take_entries(b, p, n, key_type, value_type, names, imports) is Parsed,
    ensures
        take_entries(b, p, n, key_type, value_type, names, imports).value().len() == n,
    decreases n,
{
    if n > 0 {
        let k = take_map_value(b, p, key_type, "StructProperty"@, names, imports).context(
            map_entry_message(key_type, value_type),
        );
        let v = take_map_value(b, k->Parsed_1, value_type, "StructProperty"@, names, imports).context(
            map_entry_message(key_type, value_type),
        );
        lemma_entries_len(b, v->Parsed_1, (n - 1) as nat, key_type, value_type, names, imports);
    }
}

/// A map value: an `i32` count of keys to remove, which must be zero (else
/// the map cannot be read, and the error names the key and value types),
/// then an `i32` count of entries and that many entries (none when it is
/// negative).
pub proof fn lemma_map_count(
    b: Seq<u8>,
    p: int,
    key_type: Seq<char>,
    value_type: Seq<char>,
    names: Seq<Seq<char>>,
    imports: Seq<Seq<char>>,
)
    requires
        fits(b, p, 4),
        !(take_map(b, p, key_type, value_type, names, imports) is Aborted),
    ensures
        le_u32(b, p) != 0 ==> take_map(b, p, key_type, value_type, names, imports) == Parse::<
            Seq<(TagTypeView, TagTypeView)>,
        >::Failed(seq![map_message(key_type, value_type)], p + 4),
        take_map(b, p, key_type, value_type, names, imports) is Parsed ==> ({
            let num = signed32(le_u32(b, p + 4));
            take_map(b, p, key_type, value_type, names, imports).value().len() == (if num < 0 {
                0
            } else {
                num as int
            })
        }),
{
    if take_map(b, p, key_type, value_type, names, imports) is Parsed {
        let num = signed32(le_u32(b, p + 4));
        lemma_entries_len(
            b,
            p + 8,
            if num < 0 {
                0
            } else {
                num as nat
            },
            key_type,
            value_type,
            names,
            imports,
        );
    }
}


/// A tag read with its value ends exactly `size` bytes (its header's size,
/// taken as a `u64`) after its header, however much of them the value used,
/// and holds the value of its type read right after the header; read
/// without its value it ends right after the header and holds none. Either
/// way it keeps its header's name, type, size, array index and GUID.
pub proof fn lemma_tag_extent(b: Seq<u8>, p: int, names: Seq<Seq<char>>, imports: Seq<Seq<char>>, read_data: bool)
    requires
        take_tag(b, p, names, imports, read_data) is Parsed,
        take_tag(b, p, names, imports, read_data).value() is Some,
    ensures
        ({
            let r = take_tag(b, p, names, imports, read_data);
            let t = r.value()->Some_0;
            let hr = take_tag_header(b, p, names);
            let h = hr.value()->Some_0;
            let q = hr->Parsed_1;
            &&& hr is Parsed && hr.value() is Some
            &&& t.name == h.name && t.property_type == h.property_type && t.tag_data == h.tag_data
            &&& t.size == h.size && t.array_index == h.array_index && t.property_guid == h.property_guid
            &&& read_data ==> r->Parsed_1 == q + (if h.size >= 0 { h.size as int } else { h.size + 0x1_0000_0000_0000_0000 })
                && take_value(b, q, h.property_type, Some(h.tag_data), names, imports) is Parsed
                && t.tag == Some(Box::new(take_value(b, q, h.property_type, Some(h.tag_data), names, imports).value()))
            &&& !read_data ==> r->Parsed_1 == q && t.tag is None
        }),
{
}

} // verus!
