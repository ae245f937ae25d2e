//! The objects that a package exports: plain objects of tagged properties,
//! and the classes whose own data follows their properties.

use vstd::prelude::*;
use crate::error::{ParserError, ParserResult};
use crate::mesh::{
    take_render_data, FBoxSphereBounds, FReferencePose, FReferenceSkeleton, FSkeletalMaterial,
    FSkeletalMeshRenderData, FStripDataFlags, ReferencePoseView, ReferenceSkeletonView, RenderDataView,
    SkeletalMaterialView,
};
use crate::names::{
    import_names, name_texts, read_fname, read_tarray_n, take_fname, take_tarray_n, ImportMap, NameMap,
    NewableWithNameMap,
};
use crate::newable::{lemma_prepend_assoc, prepend, Newable};
use crate::properties::{
    lemma_properties_valued, lemma_tags_view_index, read_properties, tag_view, tags_view,
    take_properties, FPropertyTag, FPropertyTagType, TagTypeView, TagView,
};
use crate::reader::{fits, le_u32, outcome, signed32, take_i32, take_u32, take_u8, Parse, Reader};
use crate::summary::FGuid;
use crate::text::{join, same_text, text};

verus! {

/// The message that names the export whose properties could not be read.
pub open spec fn export_message(export_type: Seq<char>) -> Seq<char> {
    "Export type: "@ + export_type
}

/// An object: its export type and its tagged properties.
#[derive(Debug)]
pub struct UObject {
    pub export_type: String,
    pub properties: Vec<FPropertyTag>,
}

/// What a [`UObject`] holds, as plain values.
pub struct ObjectView {
    pub export_type: Seq<char>,
    pub properties: Seq<TagView>,
}

impl DeepView for UObject {
    type V = ObjectView;

    open spec fn deep_view(&self) -> ObjectView {
        ObjectView { export_type: self.export_type@, properties: tags_view(self.properties@) }
    }
}

/// Where reading stands after the GUID that may follow an object's
/// properties: sixteen bytes on, or at the end of the input when they are
/// not all there (a GUID that cannot be read is ignored).
pub open spec fn after_guid(b: Seq<u8>, e: int) -> int {
    if fits(b, e, 16) {
        e + 16
    } else {
        b.len() as int
    }
}

/// The tags (with the export type as context of a failure), then a `u32`
/// flag, after which a GUID follows when it is not zero.
pub open spec fn take_object(
    b: Seq<u8>,
    p: int,
    names: Seq<Seq<char>>,
    imports: Seq<Seq<char>>,
    export_type: Seq<char>,
) -> Parse<ObjectView> {
    match take_properties(b, p, names, imports).context(export_message(export_type)) {
        Parse::Parsed(properties, q) => match take_u32(b, q) {
            Parse::Parsed(flag, e) => Parse::Parsed(
                ObjectView { export_type, properties },
                if flag != 0 {
                    after_guid(b, e)
                } else {
                    e
                },
            ),
            other => other.pass(),
        },
        other => other.pass(),
    }
}

/// An object is its tags up to "None", typed with the given export type,
/// then a `u32` flag: reading ends right after the flag when it is zero,
/// and 16 bytes (a GUID that is not kept) later otherwise.
pub proof fn lemma_object_layout(
    b: Seq<u8>,
    p: int,
    names: Seq<Seq<char>>,
    imports: Seq<Seq<char>>,
    export_type: Seq<char>,
)
    requires
        take_object(b, p, names, imports, export_type) is Parsed,
    ensures
        ({
            let o = take_object(b, p, names, imports, export_type);
            let props = take_properties(b, p, names, imports);
            let q = props->Parsed_1;
            &&& props is Parsed
            &&& o.value().export_type == export_type
            &&& o.value().properties == props.value()
            &&& fits(b, q, 4)
            &&& le_u32(b, q) == 0 ==> o->Parsed_1 == q + 4
            &&& le_u32(b, q) != 0 && fits(b, q + 4, 16) ==> o->Parsed_1 == q + 20
        }),
{
}

/// When an object's tags cannot be read, the error ends with a message
/// that names the export type.
pub proof fn lemma_object_failure_names_export(
    b: Seq<u8>,
    p: int,
    names: Seq<Seq<char>>,
    imports: Seq<Seq<char>>,
    export_type: Seq<char>,
)
    ensures
        take_properties(b, p, names, imports) matches Parse::Failed(m, e) ==> take_object(
            b,
            p,
            names,
            imports,
            export_type,
        ) == Parse::<ObjectView>::Failed(m.push(export_message(export_type)), e),
{
}

/// The position of the last of `names` equal to `name`.
pub open spec fn last_index_of(names: Seq<Seq<char>>, name: Seq<char>) -> Option<int>
    decreases names.len(),
{
    if names.len() == 0 {
        None
    } else if names.last() == name {
        Some(names.len() - 1)
    } else {
        last_index_of(names.drop_last(), name)
    }
}

/// The position found is that of an equal name, and no later name is equal.
pub proof fn lemma_last_index_of(names: Seq<Seq<char>>, name: Seq<char>)
    ensures
        match last_index_of(names, name) {
            Some(i) => 0 <= i < names.len() && names[i] == name && forall|j: int|
                i < j < names.len() ==> names[j] != name,
            None => forall|j: int| 0 <= j < names.len() ==> names[j] != name,
        },
    decreases names.len(),
{
    if names.len() > 0 && names.last() != name {
        lemma_last_index_of(names.drop_last(), name);
        assert forall|j: int| 0 <= j < names.len() - 1 implies names[j] == names.drop_last()[j] by {}
    }
}

/// The names of tags, in order.
pub open spec fn tag_names(tags: Seq<FPropertyTag>) -> Seq<Seq<char>> {
    tags.map_values(|t: FPropertyTag| t.name@)
}

/// Reads a GUID that is not kept; when it cannot be read the reader is left
/// at the end of the input and the failure is ignored.
fn skip_guid(reader: &mut Reader)
    ensures
        final(reader).bytes() == old(reader).bytes(),
        final(reader).at() == after_guid(old(reader).bytes(), old(reader).at()),
{
    if reader.has(16) {
        let _object_guid = FGuid::new(reader);
    } else {
        let len = reader.len();
        reader.seek_to(len as u64);
    }
}

impl UObject {
    /// Reads an object of the given export type.
    pub fn new(reader: &mut Reader, name_map: &NameMap, import_map: &ImportMap, export_type: &str) -> (r:
        ParserResult<Self>)
        requires
            !(take_object(
                old(reader).bytes(),
                old(reader).at(),
                name_texts(name_map),
                import_names(import_map),
                export_type@,
            ) is Aborted),
        ensures
            final(reader).bytes() == old(reader).bytes(),
            outcome(
                r,
                take_object(
                    old(reader).bytes(),
                    old(reader).at(),
                    name_texts(name_map),
                    import_names(import_map),
                    export_type@,
                ),
                *final(reader),
            ),
            r matches Ok(o) ==> o.valued(),
    {
        let ghost b = reader.bytes();
        let ghost p = reader.at();
        let properties = match read_properties(reader, name_map, import_map) {
            Ok(properties) => properties,
            Err(e) => {
                return Err(ParserError::add(e, join(text("Export type: "), export_type)));
            },
        };
        proof {
            lemma_properties_valued(b, p, name_texts(name_map), import_names(import_map));
            lemma_tags_view_index(properties@);
            assert forall|i: int| 0 <= i < properties@.len() implies (#[trigger] properties@[i]).tag is Some by {
                assert(tags_view(properties@)[i].tag is Some);
            }
        }
        let serialize_guid = reader.read_u32()? != 0;
        if serialize_guid {
            skip_guid(reader);
        }
        Ok(UObject { export_type: text(export_type), properties })
    }

    /// Every tag holds its value.
    pub open spec fn valued(&self) -> bool {
        forall|i: int| 0 <= i < self.properties@.len() ==> (#[trigger] self.properties@[i]).tag is Some
    }

    pub fn get_properties(&self) -> (r: &Vec<FPropertyTag>)
        ensures
            *r == self.properties,
    {
        &self.properties
    }

    /// The value of the last tag with the given name, if there is one.
    pub fn get_property(&self, name: &str) -> (r: Option<&FPropertyTagType>)
        requires
            forall|i: int|
                0 <= i < self.properties@.len() && (#[trigger] self.properties@[i]).name@ == name@
                    ==> self.properties@[i].tag is Some,
        ensures
            match last_index_of(tag_names(self.properties@), name@) {
                Some(i) => r matches Some(v) && *v == self.properties@[i].tag->0,
                None => r is None,
            },
    {
        let ghost names = tag_names(self.properties@);
        let mut found: Option<&FPropertyTagType> = None;
        let mut i: usize = 0;
        while i < self.properties.len()
            invariant
                i <= self.properties@.len(),
                names == tag_names(self.properties@),
                forall|j: int|
                    0 <= j < self.properties@.len() && (#[trigger] self.properties@[j]).name@ == name@
                        ==> self.properties@[j].tag is Some,
                match last_index_of(names.take(i as int), name@) {
                    Some(k) => found matches Some(v) && *v == self.properties@[k].tag->0,
                    None => found is None,
                },
            decreases self.properties@.len() - i,
        {
            assert(names.take(i as int + 1).drop_last() =~= names.take(i as int));
            assert(names.take(i as int + 1).last() == self.properties@[i as int].name@);
            if same_text(self.properties[i].name.as_str(), name) {
                found = Some(self.properties[i].get_data());
            }
            i = i + 1;
        }
        assert(names.take(i as int) =~= names);
        found
    }
}

/// An object that a package exports, which can say what type it is.
pub trait PackageExport {
    /// The type that [`PackageExport::get_export_type`] reports.
    spec fn export_type_text(&self) -> Seq<char>;

    fn get_export_type(&self) -> (r: &str)
        ensures
            r@ == self.export_type_text(),
    ;
}

impl PackageExport for UObject {
    open spec fn export_type_text(&self) -> Seq<char> {
        self.export_type@
    }

    fn get_export_type(&self) -> (r: &str) {
        self.export_type.as_str()
    }
}


/// The count of a loop over `0..n` for an `i32` bound: none when negative.
pub open spec fn count_of(n: i32) -> nat {
    if n < 0 {
        0
    } else {
        n as nat
    }
}

/// `n` rows: each an FName, then the tags of a row object of type
/// `row_type` (with no GUID after them).
pub open spec fn take_rows(
    b: Seq<u8>,
    p: int,
    n: nat,
    names: Seq<Seq<char>>,
    imports: Seq<Seq<char>>,
    row_type: Seq<char>,
) -> Parse<Seq<(Seq<char>, ObjectView)>>
    decreases n,
{
    if n == 0 {
        Parse::Parsed(Seq::empty(), p)
    } else {
        match take_fname(b, p, names) {
            Parse::Parsed(row_name, q) => match take_properties(b, q, names, imports) {
                Parse::Parsed(properties, e) => prepend(
                    seq![(row_name, ObjectView { export_type: row_type, properties })],
                    take_rows(b, e, (n - 1) as nat, names, imports, row_type),
                ),
                other => other.pass(),
            },
            other => other.pass(),
        }
    }
}

/// Rows read as `n` rows of type `row_type` are `n` rows, each an object of
/// that type.
pub proof fn lemma_rows_typed(
    b: Seq<u8>,
    p: int,
    n: nat,
    names: Seq<Seq<char>>,
    imports: Seq<Seq<char>>,
    row_type: Seq<char>,
)
    requires
        take_rows(b, p, n, names, imports, row_type) is Parsed,
    ensures
        take_rows(b, p, n, names, imports, row_type).value().len() == n,
        forall|i: int|
            0 <= i < n ==> (#[trigger] take_rows(b, p, n, names, imports, row_type).value()[i]).1.export_type
                == row_type,
    decreases n,
{
    if n > 0 {
        let q = take_fname(b, p, names)->Parsed_1;
        let e = take_properties(b, q, names, imports)->Parsed_1;
        lemma_rows_typed(b, e, (n - 1) as nat, names, imports, row_type);
        let rest = take_rows(b, e, (n - 1) as nat, names, imports, row_type).value();
        let all = take_rows(b, p, n, names, imports, row_type).value();
        assert forall|i: int| 0 <= i < n implies (#[trigger] all[i]).1.export_type == row_type by {
            if i > 0 {
                assert(all[i] == rest[i - 1]);
            }
        }
    }
}

/// Reads `count` rows (none when it is negative).
fn read_rows(reader: &mut Reader, name_map: &NameMap, import_map: &ImportMap, count: i32, row_type: &str) -> (r:
    ParserResult<Vec<(String, UObject)>>)
    requires
        !(take_rows(
            old(reader).bytes(),
            old(reader).at(),
            count_of(count),
            name_texts(name_map),
            import_names(import_map),
            row_type@,
        ) is Aborted),
    ensures
        final(reader).bytes() == old(reader).bytes(),
        outcome(
            r,
            take_rows(
                old(reader).bytes(),
                old(reader).at(),
                count_of(count),
                name_texts(name_map),
                import_names(import_map),
                row_type@,
            ),
            *final(reader),
        ),
{
    let ghost b = reader.bytes();
    let ghost q = reader.at();
    let ghost names = name_texts(name_map);
    let ghost imports = import_names(import_map);
    let ghost total = count_of(count);
    let mut rows: Vec<(String, UObject)> = Vec::new();
    assert(prepend(rows.deep_view(), take_rows(b, q, total, names, imports, row_type@)) == take_rows(
        b,
        q,
        total,
        names,
        imports,
        row_type@,
    )) by {
        match take_rows(b, q, total, names, imports, row_type@) {
            Parse::Parsed(ys, e) => {
                assert(rows.deep_view() + ys =~= ys);
            },
            _ => {},
        }
    }
    let mut i: i32 = 0;
    while i < count
        invariant
            reader.bytes() == b,
            b == old(reader).bytes(),
            q == old(reader).at(),
            names == name_texts(name_map),
            imports == import_names(import_map),
            0 <= i,
            count >= 0 ==> i <= count,
            total == count_of(count),
            prepend(rows.deep_view(), take_rows(b, reader.at(), (total - i) as nat, names, imports, row_type@))
                == take_rows(b, q, total, names, imports, row_type@),
            !(take_rows(b, q, total, names, imports, row_type@) is Aborted),
        decreases count - i,
    {
        let ghost before = rows.deep_view();
        let row_name = read_fname(reader, name_map)?;
        let properties = read_properties(reader, name_map, import_map)?;
        let row = (row_name, UObject { export_type: text(row_type), properties });
        proof {
            lemma_prepend_assoc(
                before,
                row.deep_view(),
                take_rows(b, reader.at(), (total - i - 1) as nat, names, imports, row_type@),
            );
        }
        rows.push(row);
        assert(rows.deep_view() =~= before.push(row.deep_view()));
        i = i + 1;
    }
    assert(rows.deep_view() + Seq::empty() =~= rows.deep_view());
    Ok(rows)
}

/// A data table: an object, then rows of tagged properties.
#[derive(Debug)]
pub struct UDataTable {
    pub super_object: UObject,
    pub rows: Vec<(String, UObject)>,
}

/// What a [`UDataTable`] holds, as plain values.
pub struct DataTableView {
    pub super_object: ObjectView,
    pub rows: Seq<(Seq<char>, ObjectView)>,
}

impl DeepView for UDataTable {
    type V = DataTableView;

    open spec fn deep_view(&self) -> DataTableView {
        DataTableView { super_object: self.super_object.deep_view(), rows: self.rows.deep_view() }
    }
}

/// An object of type "RowStruct", an `i32` row count, then the rows.
pub open spec fn take_data_table(b: Seq<u8>, p: int, names: Seq<Seq<char>>, imports: Seq<Seq<char>>) -> Parse<
    DataTableView,
> {
    match take_object(b, p, names, imports, "RowStruct"@) {
        Parse::Parsed(super_object, p0) => match take_i32(b, p0) {
            Parse::Parsed(n, p1) => match take_rows(b, p1, count_of(n), names, imports, "RowStruct"@) {
                Parse::Parsed(rows, e) => Parse::Parsed(DataTableView { super_object, rows }, e),
                other => other.pass(),
            },
            other => other.pass(),
        },
        other => other.pass(),
    }
}

/// A data table is its object (typed "RowStruct"), then an `i32` row count
/// and that many rows (none when negative), each a row name's FName and an
/// object of type "RowStruct" whose tags follow it.
pub proof fn lemma_data_table_rows(b: Seq<u8>, p: int, names: Seq<Seq<char>>, imports: Seq<Seq<char>>)
    requires
        take_data_table(b, p, names, imports) is Parsed,
    ensures
        ({
            let t = take_data_table(b, p, names, imports).value();
            let o = take_object(b, p, names, imports, "RowStruct"@);
            let p0 = o->Parsed_1;
            &&& o is Parsed && t.super_object == o.value()
            &&& t.rows.len() == count_of(signed32(le_u32(b, p0)))
            &&& t.rows == take_rows(b, p0 + 4, count_of(signed32(le_u32(b, p0))), names, imports, "RowStruct"@).value()
            &&& forall|i: int| 0 <= i < t.rows.len() ==> (#[trigger] t.rows[i]).1.export_type == "RowStruct"@
        }),
{
    let o = take_object(b, p, names, imports, "RowStruct"@);
    let p0 = o->Parsed_1;
    lemma_rows_typed(b, p0 + 4, count_of(signed32(le_u32(b, p0))), names, imports, "RowStruct"@);
}

impl UDataTable {
    pub fn new(reader: &mut Reader, name_map: &NameMap, import_map: &ImportMap) -> (r: ParserResult<Self>)
        requires
            !(take_data_table(old(reader).bytes(), old(reader).at(), name_texts(name_map), import_names(import_map))
                is Aborted),
        ensures
            final(reader).bytes() == old(reader).bytes(),
            outcome(
                r,
                take_data_table(old(reader).bytes(), old(reader).at(), name_texts(name_map), import_names(import_map)),
                *final(reader),
            ),
    {
        let super_object = UObject::new(reader, name_map, import_map, "RowStruct")?;
        let num_rows = reader.read_i32()?;
        let rows = read_rows(reader, name_map, import_map, num_rows, "RowStruct")?;
        Ok(UDataTable { super_object, rows })
    }
}

impl PackageExport for UDataTable {
    open spec fn export_type_text(&self) -> Seq<char> {
        "DataTable"@
    }

    fn get_export_type(&self) -> (r: &str) {
        "DataTable"
    }
}

/// What the rows of a curve table hold.
#[derive(Debug, Clone, Copy, PartialEq, Eq)]
pub enum ECurveTableMode {
    Empty,
    SimpleCurves,
    RichCurves,
}

/// The type that rows of a curve table of the given mode are given, as the
/// format writes it.
pub open spec fn curve_row_type(mode: u8) -> Seq<char> {
    if mode == 0 {
        "Empty"@
    } else if mode == 1 {
        "SimpleCurveKey"@
    } else {
        "RichCurveKey,"@
    }
}

/// A curve table: an object, then rows of curves.
#[derive(Debug)]
pub struct UCurveTable {
    pub super_object: UObject,
    pub curve_table_mode: ECurveTableMode,
    pub row_map: Vec<(String, UObject)>,
}

/// What a [`UCurveTable`] holds, as plain values.
pub struct CurveTableView {
    pub super_object: ObjectView,
    pub curve_table_mode: ECurveTableMode,
    pub row_map: Seq<(Seq<char>, ObjectView)>,
}

impl DeepView for UCurveTable {
    type V = CurveTableView;

    open spec fn deep_view(&self) -> CurveTableView {
        CurveTableView {
            super_object: self.super_object.deep_view(),
            curve_table_mode: self.curve_table_mode,
            row_map: self.row_map.deep_view(),
        }
    }
}

/// The curve table modes by their byte: 0, 1 and 2.
pub open spec fn curve_mode_of(mode: u8) -> ECurveTableMode {
    if mode == 0 {
        ECurveTableMode::Empty
    } else if mode == 1 {
        ECurveTableMode::SimpleCurves
    } else {
        ECurveTableMode::RichCurves
    }
}

/// An object of type "CurveTable", an `i32` row count, a `u8` mode (a mode
/// above 2 is where the format gives up), then the rows.
pub open spec fn take_curve_table(b: Seq<u8>, p: int, names: Seq<Seq<char>>, imports: Seq<Seq<char>>) -> Parse<
    CurveTableView,
> {
    match take_object(b, p, names, imports, "CurveTable"@) {
        Parse::Parsed(super_object, p0) => match take_i32(b, p0) {
            Parse::Parsed(n, p1) => match take_u8(b, p1) {
                Parse::Parsed(mode, p2) => {
                    if mode > 2 {
                        Parse::Aborted
                    } else {
                        match take_rows(b, p2, count_of(n), names, imports, curve_row_type(mode)) {
                            Parse::Parsed(row_map, e) => Parse::Parsed(
                                CurveTableView { super_object, curve_table_mode: curve_mode_of(mode), row_map },
                                e,
                            ),
                            other => other.pass(),
                        }
                    }
                },
                other => other.pass(),
            },
            other => other.pass(),
        },
        other => other.pass(),
    }
}

/// A curve table's mode is read from the byte after its object and row
/// count: byte 0 is `Empty`, byte 1 `SimpleCurves` and byte 2 `RichCurves`;
/// it has as many rows as the count says (none when negative), and every row
/// is an object of type "Empty", "SimpleCurveKey" or "RichCurveKey," by the
/// same byte.
pub proof fn lemma_curve_table_modes(b: Seq<u8>, p: int, names: Seq<Seq<char>>, imports: Seq<Seq<char>>)
    requires
        take_curve_table(b, p, names, imports) is Parsed,
    ensures
        take_object(b, p, names, imports, "CurveTable"@) is Parsed,
        ({
            let p0 = take_object(b, p, names, imports, "CurveTable"@)->Parsed_1;
            let t = take_curve_table(b, p, names, imports).value();
            let m = b[p0 + 4];
            &&& t.super_object == take_object(b, p, names, imports, "CurveTable"@)->Parsed_0
            &&& m <= 2
            &&& t.row_map.len() == count_of(signed32(le_u32(b, p0)))
            &&& (m == 0 ==> t.curve_table_mode == ECurveTableMode::Empty)
            &&& (m == 1 ==> t.curve_table_mode == ECurveTableMode::SimpleCurves)
            &&& (m == 2 ==> t.curve_table_mode == ECurveTableMode::RichCurves)
            &&& forall|i: int|
                0 <= i < t.row_map.len() ==> (#[trigger] t.row_map[i]).1.export_type == (if m == 0 {
                    "Empty"@
                } else if m == 1 {
                    "SimpleCurveKey"@
                } else {
                    "RichCurveKey,"@
                })
        }),
{
    let p0 = take_object(b, p, names, imports, "CurveTable"@)->Parsed_1;
    let n = take_i32(b, p0)->Parsed_0;
    let m = b[p0 + 4];
    lemma_rows_typed(b, p0 + 5, count_of(n), names, imports, curve_row_type(m));
}

impl UCurveTable {
    pub fn new(reader: &mut Reader, name_map: &NameMap, import_map: &ImportMap) -> (r: ParserResult<Self>)
        requires
            !(take_curve_table(old(reader).bytes(), old(reader).at(), name_texts(name_map), import_names(import_map))
                is Aborted),
        ensures
            final(reader).bytes() == old(reader).bytes(),
            outcome(
                r,
                take_curve_table(old(reader).bytes(), old(reader).at(), name_texts(name_map), import_names(import_map)),
                *final(reader),
            ),
    {
        let super_object = UObject::new(reader, name_map, import_map, "CurveTable")?;
        let num_rows = reader.read_i32()?;
        let mode = reader.read_u8()?;
        let (curve_table_mode, row_type) = if mode == 0 {
            (ECurveTableMode::Empty, "Empty")
        } else if mode == 1 {
            (ECurveTableMode::SimpleCurves, "SimpleCurveKey")
        } else if mode == 2 {
            (ECurveTableMode::RichCurves, "RichCurveKey,")
        } else {
            return vstd::pervasive::unreached();
        };
        let row_map = read_rows(reader, name_map, import_map, num_rows, row_type)?;
        Ok(UCurveTable { super_object, curve_table_mode, row_map })
    }
}

/// A skeleton: an object, the reference skeleton, and named retarget poses.
#[derive(Debug)]
pub struct USkeleton {
    pub super_object: UObject,
    pub reference_skeleton: FReferenceSkeleton,
    pub anim_retarget_sources: Vec<(String, FReferencePose)>,
}

/// What a [`USkeleton`] holds, as plain values.
pub struct SkeletonView {
    pub super_object: ObjectView,
    pub reference_skeleton: ReferenceSkeletonView,
    pub anim_retarget_sources: Seq<(Seq<char>, ReferencePoseView)>,
}

impl DeepView for USkeleton {
    type V = SkeletonView;

    open spec fn deep_view(&self) -> SkeletonView {
        SkeletonView {
            super_object: self.super_object.deep_view(),
            reference_skeleton: self.reference_skeleton.deep_view(),
            anim_retarget_sources: self.anim_retarget_sources.deep_view(),
        }
    }
}

/// An object of type "Skeleton", the reference skeleton, then a `u32`
/// count of (FName, pose) pairs.
pub open spec fn take_skeleton(b: Seq<u8>, p: int, names: Seq<Seq<char>>, imports: Seq<Seq<char>>) -> Parse<
    SkeletonView,
> {
    match take_object(b, p, names, imports, "Skeleton"@) {
        Parse::Parsed(super_object, p0) => match FReferenceSkeleton::parse_n(b, p0, names, imports) {
            Parse::Parsed(reference_skeleton, p1) => match take_tarray_n::<(String, FReferencePose)>(
                b,
                p1,
                names,
                imports,
            ) {
                Parse::Parsed(anim_retarget_sources, e) => Parse::Parsed(
                    SkeletonView { super_object, reference_skeleton, anim_retarget_sources },
                    e,
                ),
                other => other.pass(),
            },
            other => other.pass(),
        },
        other => other.pass(),
    }
}

impl USkeleton {
    pub fn new(reader: &mut Reader, name_map: &NameMap, import_map: &ImportMap) -> (r: ParserResult<Self>)
        requires
            !(take_skeleton(old(reader).bytes(), old(reader).at(), name_texts(name_map), import_names(import_map))
                is Aborted),
        ensures
            final(reader).bytes() == old(reader).bytes(),
            outcome(
                r,
                take_skeleton(old(reader).bytes(), old(reader).at(), name_texts(name_map), import_names(import_map)),
                *final(reader),
            ),
    {
        let super_object = UObject::new(reader, name_map, import_map, "Skeleton")?;
        let reference_skeleton = FReferenceSkeleton::new_n(reader, name_map, import_map)?;
        let anim_retarget_sources = read_tarray_n::<(String, FReferencePose)>(reader, name_map, import_map)?;
        Ok(USkeleton { super_object, reference_skeleton, anim_retarget_sources })
    }

    pub fn get_reference(&self) -> (r: &FReferenceSkeleton)
        ensures
            *r == self.reference_skeleton,
    {
        &self.reference_skeleton
    }
}

impl PackageExport for USkeleton {
    open spec fn export_type_text(&self) -> Seq<char> {
        "Skeleton"@
    }

    fn get_export_type(&self) -> (r: &str) {
        "Skeleton"
    }
}


/// Whether an object's tags say that a mesh has vertex colours: the value of
/// the last tag named "bHasVertexColors" when it holds a bool, and false
/// otherwise.
pub open spec fn vertex_colors_flag(properties: Seq<TagView>) -> bool {
    match last_index_of(properties.map_values(|t: TagView| t.name), "bHasVertexColors"@) {
        Some(i) => match properties[i].tag {
            Some(v) => match *v {
                TagTypeView::BoolProperty(x) => x,
                _ => false,
            },
            None => false,
        },
        None => false,
    }
}

/// A skeletal mesh has vertex colours as its object's last tag named
/// "bHasVertexColors" says: the value of that tag when it is a bool
/// property, and none when there is no such tag or it holds anything else.
pub proof fn lemma_vertex_colors_flag(properties: Seq<TagView>, i: int)
    requires
        0 <= i < properties.len(),
        properties[i].name == "bHasVertexColors"@,
        forall|j: int| i < j < properties.len() ==> #[trigger] properties[j].name != "bHasVertexColors"@,
    ensures
        vertex_colors_flag(properties) == (properties[i].tag matches Some(v) && *v matches TagTypeView::BoolProperty(
            x,
        ) && x),
{
    let ns = properties.map_values(|t: TagView| t.name);
    lemma_last_index_of(ns, "bHasVertexColors"@);
    match last_index_of(ns, "bHasVertexColors"@) {
        Some(k) => {
            if k < i {
                assert(ns[i] == "bHasVertexColors"@);
            } else if k > i {
                assert(properties[k].name == ns[k]);
            }
        },
        None => {
            assert(ns[i] == "bHasVertexColors"@);
        },
    }
}

/// Without a tag named "bHasVertexColors", a skeletal mesh has no vertex
/// colours.
pub proof fn lemma_no_vertex_colors_flag(properties: Seq<TagView>)
    requires
        forall|j: int| 0 <= j < properties.len() ==> #[trigger] properties[j].name != "bHasVertexColors"@,
    ensures
        !vertex_colors_flag(properties),
{
    let ns = properties.map_values(|t: TagView| t.name);
    lemma_last_index_of(ns, "bHasVertexColors"@);
    match last_index_of(ns, "bHasVertexColors"@) {
        Some(k) => {
            assert(properties[k].name == ns[k]);
        },
        None => {},
    }
}

/// `n` levels of detail, one after another.
pub open spec fn take_lods(
    b: Seq<u8>,
    p: int,
    n: nat,
    names: Seq<Seq<char>>,
    imports: Seq<Seq<char>>,
    has_vertex_colors: bool,
) -> Parse<Seq<RenderDataView>>
    decreases n,
{
    if n == 0 {
        Parse::Parsed(Seq::empty(), p)
    } else {
        match take_render_data(b, p, names, imports, has_vertex_colors) {
            Parse::Parsed(x, q) => prepend(seq![x], take_lods(b, q, (n - 1) as nat, names, imports, has_vertex_colors)),
            other => other.pass(),
        }
    }
}

/// A skeletal mesh: an object, its bounds, materials, skeleton and levels
/// of detail.
#[derive(Debug)]
pub struct USkeletalMesh {
    pub super_object: UObject,
    pub imported_bounds: FBoxSphereBounds,
    pub materials: Vec<FSkeletalMaterial>,
    pub ref_skeleton: FReferenceSkeleton,
    pub lod_models: Vec<FSkeletalMeshRenderData>,
}

/// What a [`USkeletalMesh`] holds, as plain values.
pub struct SkeletalMeshView {
    pub super_object: ObjectView,
    pub imported_bounds: FBoxSphereBounds,
    pub materials: Seq<SkeletalMaterialView>,
    pub ref_skeleton: ReferenceSkeletonView,
    pub lod_models: Seq<RenderDataView>,
}

impl DeepView for USkeletalMesh {
    type V = SkeletalMeshView;

    open spec fn deep_view(&self) -> SkeletalMeshView {
        SkeletalMeshView {
            super_object: self.super_object.deep_view(),
            imported_bounds: self.imported_bounds,
            materials: self.materials.deep_view(),
            ref_skeleton: self.ref_skeleton.deep_view(),
            lod_models: self.lod_models.deep_view(),
        }
    }
}

/// An object of type "SkeletalMesh", strip flags, bounds, materials, the
/// reference skeleton, a `u32` cooked flag (zero is an error), a `u32`
/// count of levels of detail (read with vertex colours as the object's
/// tags say), then a `u32` that is not kept.
pub open spec fn take_skeletal_mesh(b: Seq<u8>, p: int, names: Seq<Seq<char>>, imports: Seq<Seq<char>>) -> Parse<
    SkeletalMeshView,
> {
    match take_object(b, p, names, imports, "SkeletalMesh"@) {
        Parse::Parsed(super_object, p0) => match FStripDataFlags::parse(b, p0) {
            Parse::Parsed(_, p1) => match FBoxSphereBounds::parse(b, p1) {
                Parse::Parsed(imported_bounds, p2) => match take_tarray_n::<FSkeletalMaterial>(b, p2, names, imports) {
                    Parse::Parsed(materials, p3) => match FReferenceSkeleton::parse_n(b, p3, names, imports) {
                        Parse::Parsed(ref_skeleton, p4) => match take_u32(b, p4) {
                            Parse::Parsed(cooked, p5) => {
                                if cooked == 0 {
                                    Parse::Failed(seq!["Asset does not contain cooked data."@], p5)
                                } else {
                                    match take_u32(b, p5) {
                                        Parse::Parsed(n, p6) => match take_lods(
                                            b,
                                            p6,
                                            n as nat,
                                            names,
                                            imports,
                                            vertex_colors_flag(super_object.properties),
                                        ) {
                                            Parse::Parsed(lod_models, p7) => match take_u32(b, p7) {
                                                Parse::Parsed(_, e) => Parse::Parsed(
                                                    SkeletalMeshView {
                                                        super_object,
                                                        imported_bounds,
                                                        materials,
                                                        ref_skeleton,
                                                        lod_models,
                                                    },
                                                    e,
                                                ),
                                                other => other.pass(),
                                            },
                                            other => other.pass(),
                                        },
                                        other => other.pass(),
                                    }
                                }
                            },
                            other => other.pass(),
                        },
                        other => other.pass(),
                    },
                    other => other.pass(),
                },
                other => other.pass(),
            },
            other => other.pass(),
        },
        other => other.pass(),
    }
}

/// Reads `count` levels of detail.
fn read_lods(reader: &mut Reader, name_map: &NameMap, import_map: &ImportMap, count: u32, has_vertex_colors: bool) -> (r:
    ParserResult<Vec<FSkeletalMeshRenderData>>)
    requires
        !(take_lods(
            old(reader).bytes(),
            old(reader).at(),
            count as nat,
            name_texts(name_map),
            import_names(import_map),
            has_vertex_colors,
        ) is Aborted),
    ensures
        final(reader).bytes() == old(reader).bytes(),
        outcome(
            r,
            take_lods(
                old(reader).bytes(),
                old(reader).at(),
                count as nat,
                name_texts(name_map),
                import_names(import_map),
                has_vertex_colors,
            ),
            *final(reader),
        ),
{
    let ghost b = reader.bytes();
    let ghost q = reader.at();
    let ghost names = name_texts(name_map);
    let ghost imports = import_names(import_map);
    let mut lods: Vec<FSkeletalMeshRenderData> = Vec::new();
    assert(prepend(lods.deep_view(), take_lods(b, q, count as nat, names, imports, has_vertex_colors)) == take_lods(
        b,
        q,
        count as nat,
        names,
        imports,
        has_vertex_colors,
    )) by {
        match take_lods(b, q, count as nat, names, imports, has_vertex_colors) {
            Parse::Parsed(ys, e) => {
                assert(lods.deep_view() + ys =~= ys);
            },
            _ => {},
        }
    }
    let mut i: u32 = 0;
    while i < count
        invariant
            reader.bytes() == b,
            b == old(reader).bytes(),
            q == old(reader).at(),
            names == name_texts(name_map),
            imports == import_names(import_map),
            i <= count,
            prepend(lods.deep_view(), take_lods(b, reader.at(), (count - i) as nat, names, imports, has_vertex_colors))
                == take_lods(b, q, count as nat, names, imports, has_vertex_colors),
            !(take_lods(b, q, count as nat, names, imports, has_vertex_colors) is Aborted),
        decreases count - i,
    {
        let ghost before = lods.deep_view();
        let lod = FSkeletalMeshRenderData::new(reader, name_map, import_map, has_vertex_colors)?;
        proof {
            lemma_prepend_assoc(
                before,
                lod.deep_view(),
                take_lods(b, reader.at(), (count - i - 1) as nat, names, imports, has_vertex_colors),
            );
        }
        lods.push(lod);
        assert(lods.deep_view() =~= before.push(lod.deep_view()));
        i = i + 1;
    }
    assert(lods.deep_view() + Seq::empty() =~= lods.deep_view());
    Ok(lods)
}

/// Whether a mesh object's tags say that it has vertex colours.
fn has_vertex_colors(object: &UObject) -> (r: bool)
    requires
        object.valued(),
    ensures
        r == vertex_colors_flag(object.deep_view().properties),
{
    proof {
        lemma_tags_view_index(object.properties@);
        assert(tags_view(object.properties@).map_values(|t: TagView| t.name) =~= tag_names(object.properties@));
    }
    let value = object.get_property("bHasVertexColors");
    proof {
        lemma_last_index_of(tag_names(object.properties@), "bHasVertexColors"@);
        match last_index_of(tag_names(object.properties@), "bHasVertexColors"@) {
            Some(i) => {
                assert(tags_view(object.properties@)[i] == tag_view(object.properties@[i]));
            },
            None => {},
        }
    }
    match value {
        Some(FPropertyTagType::BoolProperty(v)) => *v,
        _ => false,
    }
}

impl USkeletalMesh {
    #[verifier::rlimit(60)]
    pub fn new(reader: &mut Reader, name_map: &NameMap, import_map: &ImportMap) -> (r: ParserResult<Self>)
        requires
            !(take_skeletal_mesh(old(reader).bytes(), old(reader).at(), name_texts(name_map), import_names(import_map))
                is Aborted),
        ensures
            final(reader).bytes() == old(reader).bytes(),
            outcome(
                r,
                take_skeletal_mesh(old(reader).bytes(), old(reader).at(), name_texts(name_map), import_names(import_map)),
                *final(reader),
            ),
    {
        let super_object = UObject::new(reader, name_map, import_map, "SkeletalMesh")?;
        let has_vertex_colors = has_vertex_colors(&super_object);
        let _flags = FStripDataFlags::new(reader)?;
        let imported_bounds = FBoxSphereBounds::new(reader)?;
        let materials = read_tarray_n::<FSkeletalMaterial>(reader, name_map, import_map)?;
        let ref_skeleton = FReferenceSkeleton::new_n(reader, name_map, import_map)?;
        let cooked = reader.read_u32()? != 0;
        if !cooked {
            return Err(ParserError::new(text("Asset does not contain cooked data.")));
        }
        let num_models = reader.read_u32()?;
        let lod_models = read_lods(reader, name_map, import_map, num_models, has_vertex_colors)?;
        let _serialize_guid = reader.read_u32()?;
        Ok(USkeletalMesh { super_object, imported_bounds, materials, ref_skeleton, lod_models })
    }

    /// The first level of detail, which must be there.
    pub fn get_first_lod(&self) -> (r: &FSkeletalMeshRenderData)
        requires
            self.lod_models.len() > 0,
        ensures
            *r == self.lod_models@[0],
    {
        &self.lod_models[0]
    }

    pub fn get_materials(&self) -> (r: &Vec<FSkeletalMaterial>)
        ensures
            *r == self.materials,
    {
        &self.materials
    }

    pub fn get_skeleton(&self) -> (r: &FReferenceSkeleton)
        ensures
            *r == self.ref_skeleton,
    {
        &self.ref_skeleton
    }
}

impl PackageExport for USkeletalMesh {
    /// The text that this export type reports, as the format's reader has it.
    open spec fn export_type_text(&self) -> Seq<char> {
        "get_export_type"@
    }

    fn get_export_type(&self) -> (r: &str) {
        "get_export_type"
    }
}


/// A skeleton is its object, then its reference skeleton, then the retarget
/// poses by name, one after another.
pub proof fn lemma_skeleton_parts(b: Seq<u8>, p: int, names: Seq<Seq<char>>, imports: Seq<Seq<char>>)
    requires
        take_skeleton(b, p, names, imports) is Parsed,
    ensures
        ({
            let v = take_skeleton(b, p, names, imports).value();
            let o = take_object(b, p, names, imports, "Skeleton"@);
            let r = FReferenceSkeleton::parse_n(b, o->Parsed_1, names, imports);
            &&& o is Parsed && v.super_object == o.value()
            &&& r is Parsed && v.reference_skeleton == r.value()
            &&& v.anim_retarget_sources == take_tarray_n::<(String, FReferencePose)>(
                b,
                r->Parsed_1,
                names,
                imports,
            ).value()
        }),
{
}

/// A skeletal mesh is its object; two bytes of strip flags; its bounds (28
/// bytes); its materials; its reference skeleton; a cooked flag, which is
/// not zero; the count of levels of detail, and that many of them, read
/// with vertex colours exactly when the object's tags say so.
#[verifier::spinoff_prover]
#[verifier::rlimit(100)]
pub proof fn lemma_skeletal_mesh_parts(b: Seq<u8>, p: int, names: Seq<Seq<char>>, imports: Seq<Seq<char>>)
    requires
        take_skeletal_mesh(b, p, names, imports) is Parsed,
    ensures
        ({
            let v = take_skeletal_mesh(b, p, names, imports).value();
            let o = take_object(b, p, names, imports, "SkeletalMesh"@);
            let p0 = o->Parsed_1;
            let m = take_tarray_n::<FSkeletalMaterial>(b, p0 + 30, names, imports);
            let r = FReferenceSkeleton::parse_n(b, m->Parsed_1, names, imports);
            let q = r->Parsed_1;
            &&& o is Parsed && v.super_object == o.value()
            &&& v.imported_bounds == FBoxSphereBounds::parse(b, p0 + 2).value()
            &&& m is Parsed && v.materials == m.value()
            &&& r is Parsed && v.ref_skeleton == r.value()
            &&& le_u32(b, q) != 0
            &&& v.lod_models.len() == le_u32(b, q + 4)
            &&& v.lod_models == take_lods(
                b,
                q + 8,
                le_u32(b, q + 4) as nat,
                names,
                imports,
                vertex_colors_flag(o.value().properties),
            ).value()
        }),
{
    let v = take_skeletal_mesh(b, p, names, imports).value();
    let o = take_object(b, p, names, imports, "SkeletalMesh"@);
    let p0 = o->Parsed_1;
    let m = take_tarray_n::<FSkeletalMaterial>(b, p0 + 30, names, imports);
    let r = FReferenceSkeleton::parse_n(b, m->Parsed_1, names, imports);
    let q = r->Parsed_1;
    assert(o is Parsed);
    assert(FStripDataFlags::parse(b, p0) is Parsed && FStripDataFlags::parse(b, p0)->Parsed_1 == p0 + 2);
    assert(FBoxSphereBounds::parse(b, p0 + 2) is Parsed && FBoxSphereBounds::parse(b, p0 + 2)->Parsed_1 == p0 + 30);
    assert(m is Parsed);
    assert(r is Parsed);
    assert(take_u32(b, q) is Parsed && take_u32(b, q + 4) is Parsed);
    lemma_lods_len(b, q + 8, le_u32(b, q + 4) as nat, names, imports, vertex_colors_flag(o.value().properties));
}

/// `n` levels of detail read are `n` of them.
proof fn lemma_lods_len(
    b: Seq<u8>,
    p: int,
    n: nat,
    names: Seq<Seq<char>>,
    imports: Seq<Seq<char>>,
    has_vertex_colors: bool,
)
    requires
        take_lods(b, p, n, names, imports, has_vertex_colors) is Parsed,
    ensures
        take_lods(b, p, n, names, imports, has_vertex_colors).value().len() == n,
    decreases n,
{
    if n > 0 {
        let q = take_render_data(b, p, names, imports, has_vertex_colors)->Parsed_1;
        lemma_lods_len(b, q, (n - 1) as nat, names, imports, has_vertex_colors);
    }
}

} // verus!
