//! A package: the `.uasset` tables and the exports that the `.uexp` holds.

use vstd::prelude::*;
use crate::anim::{take_anim_sequence, AnimSequenceView, UAnimSequence};
use crate::error::{ParserError, ParserResult};
use crate::names::{
    import_names, name_texts, take_items_n, FObjectExport, FObjectExportView, FObjectImport, FObjectImportView,
    ImportMap, NameMap, NewableWithNameMap,
};
use crate::newable::{lemma_prepend_assoc, prepend, read_items, take_items, Newable};
use crate::objects::{
    count_of, take_curve_table, take_data_table, take_object, take_skeletal_mesh, take_skeleton, CurveTableView,
    DataTableView, ObjectView, SkeletalMeshView, SkeletonView, UCurveTable, UDataTable, UObject, USkeletalMesh,
    USkeleton,
};
use crate::reader::{outcome, Parse, Reader};
use crate::summary::{FNameEntrySerialized, FNameEntryView, FPackageFileSummary, FPackageFileSummaryView};
use crate::text::{decimal, decimal_text, join, same_text, text};
use crate::texture::{take_texture, ubulk_bytes, wrap_u64, Texture2D, TextureView};

verus! {

/// An exported object, by the class it was read as.
#[derive(Debug)]
pub enum Export {
    Texture(Texture2D),
    DataTable(UDataTable),
    SkeletalMesh(USkeletalMesh),
    AnimSequence(UAnimSequence),
    Skeleton(USkeleton),
    CurveTable(UCurveTable),
    Object(UObject),
}

/// What an [`Export`] holds, as plain values.
pub enum ExportView {
    Texture(TextureView),
    DataTable(DataTableView),
    SkeletalMesh(SkeletalMeshView),
    AnimSequence(AnimSequenceView),
    Skeleton(SkeletonView),
    CurveTable(CurveTableView),
    Object(ObjectView),
}

impl DeepView for Export {
    type V = ExportView;

    open spec fn deep_view(&self) -> ExportView {
        match self {
            Export::Texture(x) => ExportView::Texture(x.deep_view()),
            Export::DataTable(x) => ExportView::DataTable(x.deep_view()),
            Export::SkeletalMesh(x) => ExportView::SkeletalMesh(x.deep_view()),
            Export::AnimSequence(x) => ExportView::AnimSequence(x.deep_view()),
            Export::Skeleton(x) => ExportView::Skeleton(x.deep_view()),
            Export::CurveTable(x) => ExportView::CurveTable(x.deep_view()),
            Export::Object(x) => ExportView::Object(x.deep_view()),
        }
    }
}

/// An export read as the class "Texture2D".
#[verifier::opaque]
pub open spec fn texture_export(
    b: Seq<u8>,
    p: int,
    names: Seq<Seq<char>>,
    imports: Seq<Seq<char>>,
    asset_length: i32,
    export_size: i64,
    ubulk: Option<Seq<u8>>,
    export_type: Seq<char>,
) -> Parse<ExportView> {
    crate::properties::lift(take_texture(b, p, names, imports, asset_length, export_size, ubulk), |x: TextureView| ExportView::Texture(x))
}

fn read_texture_export(
    reader: &mut Reader,
    name_map: &NameMap,
    import_map: &ImportMap,
    asset_length: i32,
    export_size: i64,
    ubulk: &mut Option<Reader>,
    export_type: &str,
) -> (r: ParserResult<Export>)
    requires
        !(texture_export(
                old(reader).bytes(),
                old(reader).at(),
                name_texts(name_map),
                import_names(import_map),
                asset_length,
                export_size,
                ubulk_bytes(*old(ubulk)),
                export_type@,
        ) is Aborted),
    ensures
        final(reader).bytes() == old(reader).bytes(),
        ubulk_bytes(*final(ubulk)) == ubulk_bytes(*old(ubulk)),
        outcome(
            r,
            texture_export(
                old(reader).bytes(),
                    old(reader).at(),
                    name_texts(name_map),
                    import_names(import_map),
                    asset_length,
                    export_size,
                    ubulk_bytes(*old(ubulk)),
                    export_type@,
            ),
            *final(reader),
        ),
{
    reveal(texture_export);
    Ok(Export::Texture(Texture2D::new(reader, name_map, import_map, asset_length, export_size, ubulk)?))
}

/// An export read as the class "DataTable".
#[verifier::opaque]
pub open spec fn data_table_export(
    b: Seq<u8>,
    p: int,
    names: Seq<Seq<char>>,
    imports: Seq<Seq<char>>,
    asset_length: i32,
    export_size: i64,
    ubulk: Option<Seq<u8>>,
    export_type: Seq<char>,
) -> Parse<ExportView> {
    crate::properties::lift(take_data_table(b, p, names, imports), |x: DataTableView| ExportView::DataTable(x))
}

fn read_data_table_export(
    reader: &mut Reader,
    name_map: &NameMap,
    import_map: &ImportMap,
    asset_length: i32,
    export_size: i64,
    ubulk: &mut Option<Reader>,
    export_type: &str,
) -> (r: ParserResult<Export>)
    requires
        !(data_table_export(
                old(reader).bytes(),
                old(reader).at(),
                name_texts(name_map),
                import_names(import_map),
                asset_length,
                export_size,
                ubulk_bytes(*old(ubulk)),
                export_type@,
        ) is Aborted),
    ensures
        final(reader).bytes() == old(reader).bytes(),
        ubulk_bytes(*final(ubulk)) == ubulk_bytes(*old(ubulk)),
        outcome(
            r,
            data_table_export(
                old(reader).bytes(),
                    old(reader).at(),
                    name_texts(name_map),
                    import_names(import_map),
                    asset_length,
                    export_size,
                    ubulk_bytes(*old(ubulk)),
                    export_type@,
            ),
            *final(reader),
        ),
{
    reveal(data_table_export);
    Ok(Export::DataTable(UDataTable::new(reader, name_map, import_map)?))
}

/// An export read as the class "SkeletalMesh".
#[verifier::opaque]
pub open spec fn skeletal_mesh_export(
    b: Seq<u8>,
    p: int,
    names: Seq<Seq<char>>,
    imports: Seq<Seq<char>>,
    asset_length: i32,
    export_size: i64,
    ubulk: Option<Seq<u8>>,
    export_type: Seq<char>,
) -> Parse<ExportView> {
    crate::properties::lift(take_skeletal_mesh(b, p, names, imports), |x: SkeletalMeshView| ExportView::SkeletalMesh(x))
}

fn read_skeletal_mesh_export(
    reader: &mut Reader,
    name_map: &NameMap,
    import_map: &ImportMap,
    asset_length: i32,
    export_size: i64,
    ubulk: &mut Option<Reader>,
    export_type: &str,
) -> (r: ParserResult<Export>)
    requires
        !(skeletal_mesh_export(
                old(reader).bytes(),
                old(reader).at(),
                name_texts(name_map),
                import_names(import_map),
                asset_length,
                export_size,
                ubulk_bytes(*old(ubulk)),
                export_type@,
        ) is Aborted),
    ensures
        final(reader).bytes() == old(reader).bytes(),
        ubulk_bytes(*final(ubulk)) == ubulk_bytes(*old(ubulk)),
        outcome(
            r,
            skeletal_mesh_export(
                old(reader).bytes(),
                    old(reader).at(),
                    name_texts(name_map),
                    import_names(import_map),
                    asset_length,
                    export_size,
                    ubulk_bytes(*old(ubulk)),
                    export_type@,
            ),
            *final(reader),
        ),
{
    reveal(skeletal_mesh_export);
    Ok(Export::SkeletalMesh(USkeletalMesh::new(reader, name_map, import_map)?))
}

/// An export read as the class "AnimSequence".
#[verifier::opaque]
pub open spec fn anim_sequence_export(
    b: Seq<u8>,
    p: int,
    names: Seq<Seq<char>>,
    imports: Seq<Seq<char>>,
    asset_length: i32,
    export_size: i64,
    ubulk: Option<Seq<u8>>,
    export_type: Seq<char>,
) -> Parse<ExportView> {
    crate::properties::lift(take_anim_sequence(b, p, names, imports), |x: AnimSequenceView| ExportView::AnimSequence(x))
}

fn read_anim_sequence_export(
    reader: &mut Reader,
    name_map: &NameMap,
    import_map: &ImportMap,
    asset_length: i32,
    export_size: i64,
    ubulk: &mut Option<Reader>,
    export_type: &str,
) -> (r: ParserResult<Export>)
    requires
        !(anim_sequence_export(
                old(reader).bytes(),
                old(reader).at(),
                name_texts(name_map),
                import_names(import_map),
                asset_length,
                export_size,
                ubulk_bytes(*old(ubulk)),
                export_type@,
        ) is Aborted),
    ensures
        final(reader).bytes() == old(reader).bytes(),
        ubulk_bytes(*final(ubulk)) == ubulk_bytes(*old(ubulk)),
        outcome(
            r,
            anim_sequence_export(
                old(reader).bytes(),
                    old(reader).at(),
                    name_texts(name_map),
                    import_names(import_map),
                    asset_length,
                    export_size,
                    ubulk_bytes(*old(ubulk)),
                    export_type@,
            ),
            *final(reader),
        ),
{
    reveal(anim_sequence_export);
    Ok(Export::AnimSequence(UAnimSequence::new(reader, name_map, import_map)?))
}

/// An export read as the class "Skeleton".
#[verifier::opaque]
pub open spec fn skeleton_export(
    b: Seq<u8>,
    p: int,
    names: Seq<Seq<char>>,
    imports: Seq<Seq<char>>,
    asset_length: i32,
    export_size: i64,
    ubulk: Option<Seq<u8>>,
    export_type: Seq<char>,
) -> Parse<ExportView> {
    crate::properties::lift(take_skeleton(b, p, names, imports), |x: SkeletonView| ExportView::Skeleton(x))
}

fn read_skeleton_export(
    reader: &mut Reader,
    name_map: &NameMap,
    import_map: &ImportMap,
    asset_length: i32,
    export_size: i64,
    ubulk: &mut Option<Reader>,
    export_type: &str,
) -> (r: ParserResult<Export>)
    requires
        !(skeleton_export(
                old(reader).bytes(),
                old(reader).at(),
                name_texts(name_map),
                import_names(import_map),
                asset_length,
                export_size,
                ubulk_bytes(*old(ubulk)),
                export_type@,
        ) is Aborted),
    ensures
        final(reader).bytes() == old(reader).bytes(),
        ubulk_bytes(*final(ubulk)) == ubulk_bytes(*old(ubulk)),
        outcome(
            r,
            skeleton_export(
                old(reader).bytes(),
                    old(reader).at(),
                    name_texts(name_map),
                    import_names(import_map),
                    asset_length,
                    export_size,
                    ubulk_bytes(*old(ubulk)),
                    export_type@,
            ),
            *final(reader),
        ),
{
    reveal(skeleton_export);
    Ok(Export::Skeleton(USkeleton::new(reader, name_map, import_map)?))
}

/// An export read as the class "CurveTable".
#[verifier::opaque]
pub open spec fn curve_table_export(
    b: Seq<u8>,
    p: int,
    names: Seq<Seq<char>>,
    imports: Seq<Seq<char>>,
    asset_length: i32,
    export_size: i64,
    ubulk: Option<Seq<u8>>,
    export_type: Seq<char>,
) -> Parse<ExportView> {
    crate::properties::lift(take_curve_table(b, p, names, imports), |x: CurveTableView| ExportView::CurveTable(x))
}

fn read_curve_table_export(
    reader: &mut Reader,
    name_map: &NameMap,
    import_map: &ImportMap,
    asset_length: i32,
    export_size: i64,
    ubulk: &mut Option<Reader>,
    export_type: &str,
) -> (r: ParserResult<Export>)
    requires
        !(curve_table_export(
                old(reader).bytes(),
                old(reader).at(),
                name_texts(name_map),
                import_names(import_map),
                asset_length,
                export_size,
                ubulk_bytes(*old(ubulk)),
                export_type@,
        ) is Aborted),
    ensures
        final(reader).bytes() == old(reader).bytes(),
        ubulk_bytes(*final(ubulk)) == ubulk_bytes(*old(ubulk)),
        outcome(
            r,
            curve_table_export(
                old(reader).bytes(),
                    old(reader).at(),
                    name_texts(name_map),
                    import_names(import_map),
                    asset_length,
                    export_size,
                    ubulk_bytes(*old(ubulk)),
                    export_type@,
            ),
            *final(reader),
        ),
{
    reveal(curve_table_export);
    Ok(Export::CurveTable(UCurveTable::new(reader, name_map, import_map)?))
}

/// An export read as a plain object of its own type.
#[verifier::opaque]
pub open spec fn object_export(
    b: Seq<u8>,
    p: int,
    names: Seq<Seq<char>>,
    imports: Seq<Seq<char>>,
    asset_length: i32,
    export_size: i64,
    ubulk: Option<Seq<u8>>,
    export_type: Seq<char>,
) -> Parse<ExportView> {
    crate::properties::lift(take_object(b, p, names, imports, export_type), |x: ObjectView| ExportView::Object(x))
}

fn read_object_export(
    reader: &mut Reader,
    name_map: &NameMap,
    import_map: &ImportMap,
    asset_length: i32,
    export_size: i64,
    ubulk: &mut Option<Reader>,
    export_type: &str,
) -> (r: ParserResult<Export>)
    requires
        !(object_export(
                old(reader).bytes(),
                old(reader).at(),
                name_texts(name_map),
                import_names(import_map),
                asset_length,
                export_size,
                ubulk_bytes(*old(ubulk)),
                export_type@,
        ) is Aborted),
    ensures
        final(reader).bytes() == old(reader).bytes(),
        ubulk_bytes(*final(ubulk)) == ubulk_bytes(*old(ubulk)),
        outcome(
            r,
            object_export(
                old(reader).bytes(),
                    old(reader).at(),
                    name_texts(name_map),
                    import_names(import_map),
                    asset_length,
                    export_size,
                    ubulk_bytes(*old(ubulk)),
                    export_type@,
            ),
            *final(reader),
        ),
{
    reveal(object_export);
    Ok(Export::Object(UObject::new(reader, name_map, import_map, export_type)?))
}

/// An export, read at `p` as the class that its record names: a texture,
/// data table, skeletal mesh, animation sequence, skeleton or curve table,
/// and otherwise a plain object of that type.
pub open spec fn take_export(
    b: Seq<u8>,
    p: int,
    names: Seq<Seq<char>>,
    imports: Seq<Seq<char>>,
    asset_length: i32,
    export_size: i64,
    ubulk: Option<Seq<u8>>,
    export_type: Seq<char>,
) -> Parse<ExportView> {
    if export_type == "Texture2D"@ {
        texture_export(b, p, names, imports, asset_length, export_size, ubulk, export_type)
    } else if export_type == "DataTable"@ {
        data_table_export(b, p, names, imports, asset_length, export_size, ubulk, export_type)
    } else if export_type == "SkeletalMesh"@ {
        skeletal_mesh_export(b, p, names, imports, asset_length, export_size, ubulk, export_type)
    } else if export_type == "AnimSequence"@ {
        anim_sequence_export(b, p, names, imports, asset_length, export_size, ubulk, export_type)
    } else if export_type == "Skeleton"@ {
        skeleton_export(b, p, names, imports, asset_length, export_size, ubulk, export_type)
    } else if export_type == "CurveTable"@ {
        curve_table_export(b, p, names, imports, asset_length, export_size, ubulk, export_type)
    } else {
        object_export(b, p, names, imports, asset_length, export_size, ubulk, export_type)
    }
}

/// An export whose record names the class "Texture2D" is read as a texture.
pub proof fn lemma_texture_dispatch(
    b: Seq<u8>,
    p: int,
    names: Seq<Seq<char>>,
    imports: Seq<Seq<char>>,
    asset_length: i32,
    export_size: i64,
    ubulk: Option<Seq<u8>>,
)
    ensures
        take_export(b, p, names, imports, asset_length, export_size, ubulk, "Texture2D"@)
            == crate::properties::lift(take_texture(b, p, names, imports, asset_length, export_size, ubulk), |x: TextureView| ExportView::Texture(x)),
{
    reveal(texture_export);
}

/// An export whose record names the class "DataTable" is read as a data table.
pub proof fn lemma_data_table_dispatch(
    b: Seq<u8>,
    p: int,
    names: Seq<Seq<char>>,
    imports: Seq<Seq<char>>,
    asset_length: i32,
    export_size: i64,
    ubulk: Option<Seq<u8>>,
)
    ensures
        take_export(b, p, names, imports, asset_length, export_size, ubulk, "DataTable"@)
            == crate::properties::lift(take_data_table(b, p, names, imports), |x: DataTableView| ExportView::DataTable(x)),
{
    reveal_strlit("Texture2D");
    reveal_strlit("DataTable");
    assert("DataTable"@ != "Texture2D"@) by {
        assert("DataTable"@[0] != "Texture2D"@[0]);
    }
    reveal(data_table_export);
}

/// An export whose record names the class "SkeletalMesh" is read as a skeletal mesh.
pub proof fn lemma_skeletal_mesh_dispatch(
    b: Seq<u8>,
    p: int,
    names: Seq<Seq<char>>,
    imports: Seq<Seq<char>>,
    asset_length: i32,
    export_size: i64,
    ubulk: Option<Seq<u8>>,
)
    ensures
        take_export(b, p, names, imports, asset_length, export_size, ubulk, "SkeletalMesh"@)
            == crate::properties::lift(take_skeletal_mesh(b, p, names, imports), |x: SkeletalMeshView| ExportView::SkeletalMesh(x)),
{
    reveal_strlit("Texture2D");
    reveal_strlit("DataTable");
    reveal_strlit("SkeletalMesh");
    reveal(skeletal_mesh_export);
}

/// An export whose record names the class "AnimSequence" is read as an animation sequence.
pub proof fn lemma_anim_sequence_dispatch(
    b: Seq<u8>,
    p: int,
    names: Seq<Seq<char>>,
    imports: Seq<Seq<char>>,
    asset_length: i32,
    export_size: i64,
    ubulk: Option<Seq<u8>>,
)
    ensures
        take_export(b, p, names, imports, asset_length, export_size, ubulk, "AnimSequence"@)
            == crate::properties::lift(take_anim_sequence(b, p, names, imports), |x: AnimSequenceView| ExportView::AnimSequence(x)),
{
    reveal_strlit("Texture2D");
    reveal_strlit("DataTable");
    reveal_strlit("SkeletalMesh");
    reveal_strlit("AnimSequence");
    assert("AnimSequence"@ != "SkeletalMesh"@) by {
        assert("AnimSequence"@[0] != "SkeletalMesh"@[0]);
    }
    reveal(anim_sequence_export);
}

/// An export whose record names the class "Skeleton" is read as a skeleton.
pub proof fn lemma_skeleton_dispatch(
    b: Seq<u8>,
    p: int,
    names: Seq<Seq<char>>,
    imports: Seq<Seq<char>>,
    asset_length: i32,
    export_size: i64,
    ubulk: Option<Seq<u8>>,
)
    ensures
        take_export(b, p, names, imports, asset_length, export_size, ubulk, "Skeleton"@)
            == crate::properties::lift(take_skeleton(b, p, names, imports), |x: SkeletonView| ExportView::Skeleton(x)),
{
    reveal_strlit("Texture2D");
    reveal_strlit("DataTable");
    reveal_strlit("SkeletalMesh");
    reveal_strlit("AnimSequence");
    reveal_strlit("Skeleton");
    reveal(skeleton_export);
}

/// An export whose record names the class "CurveTable" is read as a curve table.
pub proof fn lemma_curve_table_dispatch(
    b: Seq<u8>,
    p: int,
    names: Seq<Seq<char>>,
    imports: Seq<Seq<char>>,
    asset_length: i32,
    export_size: i64,
    ubulk: Option<Seq<u8>>,
)
    ensures
        take_export(b, p, names, imports, asset_length, export_size, ubulk, "CurveTable"@)
            == crate::properties::lift(take_curve_table(b, p, names, imports), |x: CurveTableView| ExportView::CurveTable(x)),
{
    reveal_strlit("Texture2D");
    reveal_strlit("DataTable");
    reveal_strlit("SkeletalMesh");
    reveal_strlit("AnimSequence");
    reveal_strlit("Skeleton");
    reveal_strlit("CurveTable");
    reveal(curve_table_export);
}

/// An export whose record names any other class is read as a plain object
/// of that type.
pub proof fn lemma_object_dispatch(
    b: Seq<u8>,
    p: int,
    names: Seq<Seq<char>>,
    imports: Seq<Seq<char>>,
    asset_length: i32,
    export_size: i64,
    ubulk: Option<Seq<u8>>,
    class: Seq<char>,
)
    requires
        class != "Texture2D"@,
        class != "DataTable"@,
        class != "SkeletalMesh"@,
        class != "AnimSequence"@,
        class != "Skeleton"@,
        class != "CurveTable"@,
    ensures
        take_export(b, p, names, imports, asset_length, export_size, ubulk, class)
            == crate::properties::lift(take_object(b, p, names, imports, class), |x: ObjectView| ExportView::Object(x)),
{
    reveal(object_export);
}

fn read_export(
    reader: &mut Reader,
    name_map: &NameMap,
    import_map: &ImportMap,
    asset_length: i32,
    export_size: i64,
    ubulk: &mut Option<Reader>,
    export_type: &str,
) -> (r: ParserResult<Export>)
    requires
        !(take_export(
            old(reader).bytes(),
            old(reader).at(),
            name_texts(name_map),
            import_names(import_map),
            asset_length,
            export_size,
            ubulk_bytes(*old(ubulk)),
            export_type@,
        ) is Aborted),
    ensures
        final(reader).bytes() == old(reader).bytes(),
        ubulk_bytes(*final(ubulk)) == ubulk_bytes(*old(ubulk)),
        outcome(
            r,
            take_export(
                old(reader).bytes(),
                old(reader).at(),
                name_texts(name_map),
                import_names(import_map),
                asset_length,
                export_size,
                ubulk_bytes(*old(ubulk)),
                export_type@,
            ),
            *final(reader),
        ),
{
    if same_text(export_type, "Texture2D") {
        read_texture_export(reader, name_map, import_map, asset_length, export_size, ubulk, export_type)
    } else if same_text(export_type, "DataTable") {
        read_data_table_export(reader, name_map, import_map, asset_length, export_size, ubulk, export_type)
    } else if same_text(export_type, "SkeletalMesh") {
        read_skeletal_mesh_export(reader, name_map, import_map, asset_length, export_size, ubulk, export_type)
    } else if same_text(export_type, "AnimSequence") {
        read_anim_sequence_export(reader, name_map, import_map, asset_length, export_size, ubulk, export_type)
    } else if same_text(export_type, "Skeleton") {
        read_skeleton_export(reader, name_map, import_map, asset_length, export_size, ubulk, export_type)
    } else if same_text(export_type, "CurveTable") {
        read_curve_table_export(reader, name_map, import_map, asset_length, export_size, ubulk, export_type)
    } else {
        read_object_export(reader, name_map, import_map, asset_length, export_size, ubulk, export_type)
    }
}


/// `n` imports, each read with the names and with the imports read before it.
pub open spec fn take_imports(
    b: Seq<u8>,
    p: int,
    n: nat,
    names: Seq<Seq<char>>,
    done: Seq<FObjectImportView>,
) -> Parse<Seq<FObjectImportView>>
    decreases n,
{
    if n == 0 {
        Parse::Parsed(done, p)
    } else {
        match FObjectImport::parse_n(b, p, names, done.map_values(|i: FObjectImportView| i.object_name)) {
            Parse::Parsed(x, q) => take_imports(b, q, (n - 1) as nat, names, done.push(x)),
            other => other.pass(),
        }
    }
}

/// The object names of an import table, from what it holds.
pub proof fn lemma_import_names(import_map: &ImportMap)
    ensures
        import_names(import_map) == import_map.deep_view().map_values(|i: FObjectImportView| i.object_name),
{
    assert(import_names(import_map) =~= import_map.deep_view().map_values(|i: FObjectImportView| i.object_name));
}

/// The texts of a name table, from what it holds.
pub proof fn lemma_name_texts(name_map: &NameMap)
    ensures
        name_texts(name_map) == name_map.deep_view().map_values(|n: FNameEntryView| n.data),
{
    assert(name_texts(name_map) =~= name_map.deep_view().map_values(|n: FNameEntryView| n.data));
}

/// Reads `count` imports (none when it is negative).
fn read_imports(reader: &mut Reader, name_map: &NameMap, count: i32) -> (r: ParserResult<ImportMap>)
    requires
        !(take_imports(old(reader).bytes(), old(reader).at(), count_of(count), name_texts(name_map), Seq::empty())
            is Aborted),
    ensures
        final(reader).bytes() == old(reader).bytes(),
        outcome(
            r,
            take_imports(old(reader).bytes(), old(reader).at(), count_of(count), name_texts(name_map), Seq::empty()),
            *final(reader),
        ),
{
    let ghost b = reader.bytes();
    let ghost q = reader.at();
    let ghost names = name_texts(name_map);
    let ghost total = count_of(count);
    let mut import_map: ImportMap = Vec::new();
    assert(import_map.deep_view() =~= Seq::<FObjectImportView>::empty());
    let mut i: i32 = 0;
    while i < count
        invariant
            reader.bytes() == b,
            b == old(reader).bytes(),
            q == old(reader).at(),
            names == name_texts(name_map),
            total == count_of(count),
            0 <= i,
            count >= 0 ==> i <= count,
            count < 0 ==> i == 0,
            take_imports(b, reader.at(), (total - i) as nat, names, import_map.deep_view()) == take_imports(
                b,
                q,
                total,
                names,
                Seq::empty(),
            ),
            !(take_imports(b, q, total, names, Seq::empty()) is Aborted),
        decreases count - i,
    {
        proof {
            lemma_import_names(&import_map);
        }
        let import = FObjectImport::new_n(reader, name_map, &import_map)?;
        let ghost before = import_map.deep_view();
        import_map.push(import);
        assert(import_map.deep_view() =~= before.push(import.deep_view()));
        i = i + 1;
    }
    Ok(import_map)
}

/// Reads `count` export records (none when it is negative).
fn read_export_records(reader: &mut Reader, name_map: &NameMap, import_map: &ImportMap, count: i32) -> (r:
    ParserResult<Vec<FObjectExport>>)
    requires
        !(take_items_n::<FObjectExport>(
            old(reader).bytes(),
            old(reader).at(),
            count_of(count),
            name_texts(name_map),
            import_names(import_map),
        ) is Aborted),
    ensures
        final(reader).bytes() == old(reader).bytes(),
        outcome(
            r,
            take_items_n::<FObjectExport>(
                old(reader).bytes(),
                old(reader).at(),
                count_of(count),
                name_texts(name_map),
                import_names(import_map),
            ),
            *final(reader),
        ),
{
    let ghost b = reader.bytes();
    let ghost q = reader.at();
    let ghost names = name_texts(name_map);
    let ghost imports = import_names(import_map);
    let ghost total = count_of(count);
    let mut records: Vec<FObjectExport> = Vec::new();
    assert(prepend(records.deep_view(), take_items_n::<FObjectExport>(b, q, total, names, imports))
        == take_items_n::<FObjectExport>(b, q, total, names, imports)) by {
        match take_items_n::<FObjectExport>(b, q, total, names, imports) {
            Parse::Parsed(ys, e) => {
                assert(records.deep_view() + ys =~= ys);
            },
            _ => {},
        }
    }
    let mut i: i32 = 0;
    while i < count
        invariant
            reader.bytes() == b,
            b == old(reader).bytes(),
            q == old(reader).at(),
            names == name_texts(name_map),
            imports == import_names(import_map),
            total == count_of(count),
            0 <= i,
            count >= 0 ==> i <= count,
            prepend(records.deep_view(), take_items_n::<FObjectExport>(b, reader.at(), (total - i) as nat, names, imports))
                == take_items_n::<FObjectExport>(b, q, total, names, imports),
            !(take_items_n::<FObjectExport>(b, q, total, names, imports) is Aborted),
        decreases count - i,
    {
        let ghost before = records.deep_view();
        let record = FObjectExport::new_n(reader, name_map, import_map)?;
        proof {
            lemma_prepend_assoc(
                before,
                record.deep_view(),
                take_items_n::<FObjectExport>(b, reader.at(), (total - i - 1) as nat, names, imports),
            );
        }
        records.push(record);
        assert(records.deep_view() =~= before.push(record.deep_view()));
        i = i + 1;
    }
    assert(records.deep_view() + Seq::empty() =~= records.deep_view());
    Ok(records)
}

/// The sum of the records' serial sizes, added up in order.
pub open spec fn serial_total(records: Seq<FObjectExportView>) -> int
    decreases records.len(),
{
    if records.len() == 0 {
        0
    } else {
        serial_total(records.drop_last()) + records.last().serial_size
    }
}

/// Each partial sum of the serial sizes fits in an `i64`.
pub open spec fn serial_sums_fit(records: Seq<FObjectExportView>) -> bool {
    forall|k: int| 0 <= k <= records.len() ==> i64::MIN <= #[trigger] serial_total(records.take(k)) <= i64::MAX
}

/// The sum of the records' serial sizes.
fn total_serial_size(export_map: &Vec<FObjectExport>) -> (r: i64)
    requires
        serial_sums_fit(export_map.deep_view()),
    ensures
        r == serial_total(export_map.deep_view()),
{
    let ghost records = export_map.deep_view();
    let mut total: i64 = 0;
    let mut i: usize = 0;
    assert(records.take(0) =~= Seq::<FObjectExportView>::empty());
    while i < export_map.len()
        invariant
            records == export_map.deep_view(),
            serial_sums_fit(records),
            i <= export_map.len(),
            total == serial_total(records.take(i as int)),
        decreases export_map.len() - i,
    {
        assert(records.take(i as int + 1).drop_last() =~= records.take(i as int));
        assert(serial_total(records.take(i as int + 1)) <= i64::MAX);
        assert(serial_total(records.take(i as int + 1)) >= i64::MIN);
        total = export_map[i].serial_size + total;
        i = i + 1;
    }
    assert(records.take(i as int) =~= records);
    total
}

/// The exports from record `k` on: each read at its serial offset less the
/// header size, as the class its record names. An offset below the header
/// size, or an end (offset plus serial size) past `u64::MAX`, is where the
/// format's reader gives up.
pub open spec fn take_exports(
    b: Seq<u8>,
    records: Seq<FObjectExportView>,
    k: nat,
    names: Seq<Seq<char>>,
    imports: Seq<Seq<char>>,
    asset_length: i32,
    export_size: i64,
    ubulk: Option<Seq<u8>>,
) -> Parse<Seq<ExportView>>
    decreases records.len() - k,
{
    if k >= records.len() {
        Parse::Parsed(Seq::empty(), 0)
    } else {
        let v = records[k as int];
        let start = wrap_u64(v.serial_offset as int) - wrap_u64(asset_length as int);
        if start < 0 {
            Parse::Aborted
        } else {
            match take_export(b, start, names, imports, asset_length, export_size, ubulk, v.class_index.import) {
                Parse::Parsed(x, _) => {
                    if start + wrap_u64(v.serial_size as int) > u64::MAX {
                        Parse::Aborted
                    } else {
                        prepend(seq![x], take_exports(b, records, k + 1, names, imports, asset_length, export_size, ubulk))
                    }
                },
                other => other.pass(),
            }
        }
    }
}

/// An `i64` as `u64`.
fn wrap_i64(v: i64) -> (r: u64)
    ensures
        r == wrap_u64(v as int),
{
    if v >= 0 {
        v as u64
    } else {
        (v as i128 + 0x1_0000_0000_0000_0000i128) as u64
    }
}

/// Reads the exports that the records describe.
fn read_exports(
    reader: &mut Reader,
    name_map: &NameMap,
    import_map: &ImportMap,
    export_map: &Vec<FObjectExport>,
    asset_length: i32,
    export_size: i64,
    ubulk: &mut Option<Reader>,
) -> (r: ParserResult<Vec<Export>>)
    requires
        !(take_exports(
            old(reader).bytes(),
            export_map.deep_view(),
            0,
            name_texts(name_map),
            import_names(import_map),
            asset_length,
            export_size,
            ubulk_bytes(*old(ubulk)),
        ) is Aborted),
    ensures
        match take_exports(
            old(reader).bytes(),
            export_map.deep_view(),
            0,
            name_texts(name_map),
            import_names(import_map),
            asset_length,
            export_size,
            ubulk_bytes(*old(ubulk)),
        ) {
            Parse::Parsed(v, _) => r matches Ok(x) && x.deep_view() == v,
            Parse::Failed(m, _) => r matches Err(e) && e@ == m,
            Parse::Aborted => true,
        },
{
    let ghost b = reader.bytes();
    let ghost records = export_map.deep_view();
    let ghost names = name_texts(name_map);
    let ghost imports = import_names(import_map);
    let ghost u = ubulk_bytes(*ubulk);
    let mut exports: Vec<Export> = Vec::new();
    assert(prepend(exports.deep_view(), take_exports(b, records, 0, names, imports, asset_length, export_size, u))
        == take_exports(b, records, 0, names, imports, asset_length, export_size, u)) by {
        match take_exports(b, records, 0, names, imports, asset_length, export_size, u) {
            Parse::Parsed(ys, e) => {
                assert(exports.deep_view() + ys =~= ys);
            },
            _ => {},
        }
    }
    let asset_size = wrap_i64(asset_length as i64);
    let mut i: usize = 0;
    while i < export_map.len()
        invariant
            reader.bytes() == b,
            b == old(reader).bytes(),
            records == export_map.deep_view(),
            names == name_texts(name_map),
            imports == import_names(import_map),
            u == ubulk_bytes(*old(ubulk)),
            ubulk_bytes(*ubulk) == u,
            asset_size == wrap_u64(asset_length as int),
            i <= export_map.len(),
            prepend(exports.deep_view(), take_exports(b, records, i as nat, names, imports, asset_length, export_size, u))
                == take_exports(b, records, 0, names, imports, asset_length, export_size, u),
            !(take_exports(b, records, 0, names, imports, asset_length, export_size, u) is Aborted),
        decreases export_map.len() - i,
    {
        let ghost before = exports.deep_view();
        let record = &export_map[i];
        assert(records[i as int] == record.deep_view());
        let offset = wrap_i64(record.serial_offset);
        if offset < asset_size {
            return vstd::pervasive::unreached();
        }
        let position = offset - asset_size;
        reader.seek_to(position);
        let export = read_export(
            reader,
            name_map,
            import_map,
            asset_length,
            export_size,
            ubulk,
            record.class_index.import.as_str(),
        )?;
        let size = wrap_i64(record.serial_size);
        if position > u64::MAX - size {
            return vstd::pervasive::unreached();
        }
        proof {
            lemma_prepend_assoc(
                before,
                export.deep_view(),
                take_exports(b, records, (i + 1) as nat, names, imports, asset_length, export_size, u),
            );
        }
        exports.push(export);
        assert(exports.deep_view() =~= before.push(export.deep_view()));
        i = i + 1;
    }
    assert(exports.deep_view() + Seq::empty() =~= exports.deep_view());
    Ok(exports)
}

/// A package: the summary of the `.uasset`, its name, import and export
/// tables, and the exports read from the `.uexp`.
#[derive(Debug)]
pub struct Package {
    pub summary: FPackageFileSummary,
    pub name_map: NameMap,
    pub import_map: ImportMap,
    pub export_map: Vec<FObjectExport>,
    pub exports: Vec<Export>,
}

/// What a [`Package`] holds, as plain values.
pub struct PackageView {
    pub summary: FPackageFileSummaryView,
    pub name_map: Seq<FNameEntryView>,
    pub import_map: Seq<FObjectImportView>,
    pub export_map: Seq<FObjectExportView>,
    pub exports: Seq<ExportView>,
}

impl DeepView for Package {
    type V = PackageView;

    open spec fn deep_view(&self) -> PackageView {
        PackageView {
            summary: self.summary.deep_view(),
            name_map: self.name_map.deep_view(),
            import_map: self.import_map.deep_view(),
            export_map: self.export_map.deep_view(),
            exports: self.exports.deep_view(),
        }
    }
}

/// The bytes of an optional file.
pub open spec fn optional_bytes(file: Option<Vec<u8>>) -> Option<Seq<u8>> {
    match file {
        Some(v) => Some(v@),
        None => None,
    }
}

/// A package: the summary at the start of the `.uasset`; the names at the
/// name offset, the imports at the import offset and the export records at
/// the export offset (each offset taken as a `u64`, each count as none when
/// negative); then the exports from the `.uexp`, with the serial sizes'
/// total (which must fit in an `i64` as it is added up) as the texture
/// bulk offset.
pub open spec fn take_package(uasset: Seq<u8>, uexp: Seq<u8>, ubulk: Option<Seq<u8>>) -> Parse<PackageView> {
    match FPackageFileSummary::parse(uasset, 0) {
        Parse::Parsed(summary, _) => match take_items::<FNameEntrySerialized>(
            uasset,
            wrap_u64(summary.name_offset as int),
            count_of(summary.name_count),
        ) {
            Parse::Parsed(name_map, _) => {
                let names = name_map.map_values(|n: FNameEntryView| n.data);
                match take_imports(
                    uasset,
                    wrap_u64(summary.import_offset as int),
                    count_of(summary.import_count),
                    names,
                    Seq::empty(),
                ) {
                    Parse::Parsed(import_map, _) => {
                        let imports = import_map.map_values(|i: FObjectImportView| i.object_name);
                        match take_items_n::<FObjectExport>(
                            uasset,
                            wrap_u64(summary.export_offset as int),
                            count_of(summary.export_count),
                            names,
                            imports,
                        ) {
                            Parse::Parsed(export_map, _) => {
                                if !serial_sums_fit(export_map) {
                                    Parse::Aborted
                                } else {
                                    match take_exports(
                                        uexp,
                                        export_map,
                                        0,
                                        names,
                                        imports,
                                        summary.total_header_size,
                                        serial_total(export_map) as i64,
                                        ubulk,
                                    ) {
                                        Parse::Parsed(exports, e) => Parse::Parsed(
                                            PackageView { summary, name_map, import_map, export_map, exports },
                                            e,
                                        ),
                                        other => other.pass(),
                                    }
                                }
                            },
                            other => other.pass(),
                        }
                    },
                    other => other.pass(),
                }
            },
            other => other.pass(),
        },
        other => other.pass(),
    }
}

/// An `i32` offset as `u64`.
fn offset_u64(v: i32) -> (r: u64)
    ensures
        r == wrap_u64(v as int),
{
    wrap_i64(v as i64)
}

/// A count for `0..n`: none when negative.
fn loop_count(n: i32) -> (r: u32)
    ensures
        r == count_of(n),
{
    if n < 0 {
        0
    } else {
        n as u32
    }
}

impl Package {
    /// Reads a package from the bytes of its `.uasset`, `.uexp` and (when
    /// there is one) `.ubulk` files.
    pub fn from_buffer(uasset: Vec<u8>, uexp: Vec<u8>, ubulk: Option<Vec<u8>>) -> (r: ParserResult<Self>)
        requires
            !(take_package(uasset@, uexp@, optional_bytes(ubulk)) is Aborted),
        ensures
            match take_package(uasset@, uexp@, optional_bytes(ubulk)) {
                Parse::Parsed(v, _) => r matches Ok(package) && package.deep_view() == v,
                Parse::Failed(m, _) => r matches Err(e) && e@ == m,
                Parse::Aborted => true,
            },
    {
        let ghost asset_bytes = uasset@;
        let mut cursor = Reader::new(uasset);
        let summary = FPackageFileSummary::new(&mut cursor)?;
        cursor.seek_to(offset_u64(summary.name_offset));
        let name_map = read_items::<FNameEntrySerialized>(&mut cursor, loop_count(summary.name_count))?;
        proof {
            lemma_name_texts(&name_map);
        }
        cursor.seek_to(offset_u64(summary.import_offset));
        let import_map = read_imports(&mut cursor, &name_map, summary.import_count)?;
        proof {
            lemma_import_names(&import_map);
        }
        cursor.seek_to(offset_u64(summary.export_offset));
        let export_map = read_export_records(&mut cursor, &name_map, &import_map, summary.export_count)?;
        let export_size = total_serial_size(&export_map);
        let mut cursor = Reader::new(uexp);
        let mut ubulk_cursor = match ubulk {
            Some(data) => Some(Reader::new(data)),
            None => None,
        };
        let exports = read_exports(
            &mut cursor,
            &name_map,
            &import_map,
            &export_map,
            summary.total_header_size,
            export_size,
            &mut ubulk_cursor,
        )?;
        Ok(Package { summary, name_map, import_map, export_map, exports })
    }

    /// All the exports, in the order of the export table.
    pub fn get_exports(self) -> (r: Vec<Export>)
        ensures
            r == self.exports,
    {
        self.exports
    }

    /// The export at `index`.
    pub fn get_export(&self, index: usize) -> (r: ParserResult<&Export>)
        ensures
            match r {
                Ok(x) => index < self.exports.len() && *x == self.exports@[index as int],
                Err(e) => index >= self.exports.len() && e@ == seq![
                    "index "@ + decimal(index as int) + " out of range"@,
                ],
            },
    {
        if index < self.exports.len() {
            Ok(&self.exports[index])
        } else {
            let msg = join(join(text("index "), decimal_text(index as i128).as_str()), " out of range");
            Err(ParserError::new(msg))
        }
    }

    /// The export at `index`, taken out of the package.
    pub fn get_export_move(self, index: usize) -> (r: ParserResult<Export>)
        ensures
            match r {
                Ok(x) => index < self.exports.len() && x == self.exports@[index as int],
                Err(e) => index >= self.exports.len() && e@ == seq!["No exports found"@],
            },
    {
        let mut exports = self.exports;
        if index < exports.len() {
            Ok(exports.swap_remove(index))
        } else {
            Err(ParserError::new(text("No exports found")))
        }
    }
}


/// The exports from record `k` on are one for each of those records.
proof fn lemma_exports_len(
    b: Seq<u8>,
    records: Seq<FObjectExportView>,
    k: nat,
    names: Seq<Seq<char>>,
    imports: Seq<Seq<char>>,
    asset_length: i32,
    export_size: i64,
    ubulk: Option<Seq<u8>>,
)
    requires
        k <= records.len(),
    ensures
        take_exports(b, records, k, names, imports, asset_length, export_size, ubulk) matches Parse::Parsed(xs, _)
            ==> xs.len() == records.len() - k,
    decreases records.len() - k,
{
    if k < records.len() {
        lemma_exports_len(b, records, k + 1, names, imports, asset_length, export_size, ubulk);
    }
}

/// Where the export of record `i` is read: its serial offset less the header
/// size, both taken as `u64`.
pub open spec fn export_start(record: FObjectExportView, asset_length: i32) -> int {
    wrap_u64(record.serial_offset as int) - wrap_u64(asset_length as int)
}

/// Each export read from the records is what its record's class reads at
/// the record's serial offset less the header size.
pub proof fn lemma_exports_follow_records(
    b: Seq<u8>,
    records: Seq<FObjectExportView>,
    k: nat,
    names: Seq<Seq<char>>,
    imports: Seq<Seq<char>>,
    asset_length: i32,
    export_size: i64,
    ubulk: Option<Seq<u8>>,
)
    requires
        k <= records.len(),
        take_exports(b, records, k, names, imports, asset_length, export_size, ubulk) is Parsed,
    ensures
        take_exports(b, records, k, names, imports, asset_length, export_size, ubulk).value().len() == records.len()
            - k,
        forall|i: int| k <= i < records.len() ==> #[trigger] take_export(
            b,
            export_start(records[i], asset_length),
            names,
            imports,
            asset_length,
            export_size,
            ubulk,
            records[i].class_index.import,
        ) is Parsed,
        forall|i: int|
            k <= i < records.len() ==> #[trigger] take_exports(b, records, k, names, imports, asset_length, export_size, ubulk).value()[i - k]
                == take_export(
            b,
            export_start(records[i], asset_length),
            names,
            imports,
            asset_length,
            export_size,
            ubulk,
            records[i].class_index.import,
        ).value(),
    decreases records.len() - k,
{
    lemma_exports_len(b, records, k, names, imports, asset_length, export_size, ubulk);
    if k < records.len() {
        let v = records[k as int];
        let x = take_export(
            b,
            export_start(v, asset_length),
            names,
            imports,
            asset_length,
            export_size,
            ubulk,
            v.class_index.import,
        );
        assert(x is Parsed);
        lemma_exports_follow_records(b, records, k + 1, names, imports, asset_length, export_size, ubulk);
        let all = take_exports(b, records, k, names, imports, asset_length, export_size, ubulk).value();
        let rest = take_exports(b, records, k + 1, names, imports, asset_length, export_size, ubulk).value();
        assert(all == seq![x.value()] + rest);
        assert forall|i: int| k <= i < records.len() implies #[trigger] take_export(
            b,
            export_start(records[i], asset_length),
            names,
            imports,
            asset_length,
            export_size,
            ubulk,
            records[i].class_index.import,
        ) is Parsed by {
            if i > k {
                assert(rest[i - (k + 1)] == take_export(
            b,
            export_start(records[i], asset_length),
            names,
            imports,
            asset_length,
            export_size,
            ubulk,
            records[i].class_index.import,
        ).value());
            }
        }
        assert forall|i: int| k <= i < records.len() implies #[trigger] all[i - k] == take_export(
            b,
            export_start(records[i], asset_length),
            names,
            imports,
            asset_length,
            export_size,
            ubulk,
            records[i].class_index.import,
        ).value() by {
            if i > k {
                assert(all[i - k] == rest[i - (k + 1)]);
            }
        }
    }
}

/// A package read from its files holds one export for each record of its
/// export table, and as many records as the summary's export count says
/// (none when that count is negative).
pub proof fn lemma_package_exports(uasset: Seq<u8>, uexp: Seq<u8>, ubulk: Option<Seq<u8>>)
    ensures
        take_package(uasset, uexp, ubulk) matches Parse::Parsed(v, _) ==> v.exports.len() == v.export_map.len()
            && v.export_map.len() == count_of(v.summary.export_count),
{
    match FPackageFileSummary::parse(uasset, 0) {
        Parse::Parsed(summary, _) => match take_items::<FNameEntrySerialized>(
            uasset,
            wrap_u64(summary.name_offset as int),
            count_of(summary.name_count),
        ) {
            Parse::Parsed(name_map, _) => {
                let names = name_map.map_values(|n: FNameEntryView| n.data);
                match take_imports(
                    uasset,
                    wrap_u64(summary.import_offset as int),
                    count_of(summary.import_count),
                    names,
                    Seq::empty(),
                ) {
                    Parse::Parsed(import_map, _) => {
                        let imports = import_map.map_values(|i: FObjectImportView| i.object_name);
                        crate::names::lemma_items_n_len::<FObjectExport>(
                            uasset,
                            wrap_u64(summary.export_offset as int),
                            count_of(summary.export_count),
                            names,
                            imports,
                        );
                        match take_items_n::<FObjectExport>(
                            uasset,
                            wrap_u64(summary.export_offset as int),
                            count_of(summary.export_count),
                            names,
                            imports,
                        ) {
                            Parse::Parsed(export_map, _) => {
                                lemma_exports_len(
                                    uexp,
                                    export_map,
                                    0,
                                    names,
                                    imports,
                                    summary.total_header_size,
                                    serial_total(export_map) as i64,
                                    ubulk,
                                );
                            },
                            _ => {},
                        }
                    },
                    _ => {},
                }
            },
            _ => {},
        },
        _ => {},
    }
}


/// The exports of a package are those read from its records, with its own
/// names, imports, header size and serial sizes' total.
proof fn lemma_package_is_exports(uasset: Seq<u8>, uexp: Seq<u8>, ubulk: Option<Seq<u8>>)
    requires
        take_package(uasset, uexp, ubulk) is Parsed,
    ensures
        ({
            let v = take_package(uasset, uexp, ubulk).value();
            let r = take_exports(
                uexp,
                v.export_map,
                0,
                v.name_map.map_values(|n: FNameEntryView| n.data),
                v.import_map.map_values(|m: FObjectImportView| m.object_name),
                v.summary.total_header_size,
                serial_total(v.export_map) as i64,
                ubulk,
            );
            r is Parsed && v.exports == r.value()
        }),
{
}

/// Each export read from the records has the kind that its record's class
/// names; a texture is the one read at the record's start.
proof fn lemma_exports_by_class(
    b: Seq<u8>,
    records: Seq<FObjectExportView>,
    names: Seq<Seq<char>>,
    imports: Seq<Seq<char>>,
    asset_length: i32,
    export_size: i64,
    ubulk: Option<Seq<u8>>,
    i: int,
)
    requires
        take_exports(b, records, 0, names, imports, asset_length, export_size, ubulk) is Parsed,
        0 <= i < records.len(),
    ensures
        ({
            let xs = take_exports(b, records, 0, names, imports, asset_length, export_size, ubulk).value();
            let class = records[i].class_index.import;
            let start = export_start(records[i], asset_length);
            &&& i < xs.len()
            &&& class == "Texture2D"@ ==> take_texture(b, start, names, imports, asset_length, export_size, ubulk)
                is Parsed && xs[i] == ExportView::Texture(
                take_texture(b, start, names, imports, asset_length, export_size, ubulk).value(),
            )
            &&& class == "DataTable"@ ==> xs[i] is DataTable
            &&& class == "SkeletalMesh"@ ==> xs[i] is SkeletalMesh
            &&& class == "AnimSequence"@ ==> xs[i] is AnimSequence
            &&& class == "Skeleton"@ ==> xs[i] is Skeleton
            &&& class == "CurveTable"@ ==> xs[i] is CurveTable
            &&& (class != "Texture2D"@ && class != "DataTable"@ && class != "SkeletalMesh"@ && class
                != "AnimSequence"@ && class != "Skeleton"@ && class != "CurveTable"@) ==> xs[i] is Object
        }),
{
    reveal_strlit("Texture2D");
    reveal_strlit("DataTable");
    reveal_strlit("SkeletalMesh");
    reveal_strlit("AnimSequence");
    reveal_strlit("Skeleton");
    reveal_strlit("CurveTable");
    assert("DataTable"@ != "Texture2D"@) by {
        assert("DataTable"@[0] != "Texture2D"@[0]);
    }
    assert("AnimSequence"@ != "SkeletalMesh"@) by {
        assert("AnimSequence"@[0] != "SkeletalMesh"@[0]);
    }
    lemma_exports_follow_records(b, records, 0, names, imports, asset_length, export_size, ubulk);
    let start = export_start(records[i], asset_length);
    let class = records[i].class_index.import;
    let x = take_export(b, start, names, imports, asset_length, export_size, ubulk, class);
    assert(x is Parsed);
    assert(take_exports(b, records, 0, names, imports, asset_length, export_size, ubulk).value()[i - 0] == x.value());
    if class == "Texture2D"@ {
        lemma_texture_dispatch(b, start, names, imports, asset_length, export_size, ubulk);
    } else if class == "DataTable"@ {
        lemma_data_table_dispatch(b, start, names, imports, asset_length, export_size, ubulk);
    } else if class == "SkeletalMesh"@ {
        lemma_skeletal_mesh_dispatch(b, start, names, imports, asset_length, export_size, ubulk);
    } else if class == "AnimSequence"@ {
        lemma_anim_sequence_dispatch(b, start, names, imports, asset_length, export_size, ubulk);
    } else if class == "Skeleton"@ {
        lemma_skeleton_dispatch(b, start, names, imports, asset_length, export_size, ubulk);
    } else if class == "CurveTable"@ {
        lemma_curve_table_dispatch(b, start, names, imports, asset_length, export_size, ubulk);
    } else {
        lemma_object_dispatch(b, start, names, imports, asset_length, export_size, ubulk, class);
    }
}

/// In a package read from its files, each export is read as the class its
/// record names: a record of class "Texture2D" gives a texture (the one read
/// at the record's serial offset less the header size, with the serial
/// sizes' total as bulk offset), "DataTable" a data table, "SkeletalMesh" a
/// skeletal mesh, "AnimSequence" an animation sequence, "Skeleton" a
/// skeleton, "CurveTable" a curve table, and any other class a plain object.
pub proof fn lemma_package_exports_by_class(uasset: Seq<u8>, uexp: Seq<u8>, ubulk: Option<Seq<u8>>, i: int)
    requires
        take_package(uasset, uexp, ubulk) is Parsed,
        0 <= i < take_package(uasset, uexp, ubulk).value().export_map.len(),
    ensures
        ({
            let v = take_package(uasset, uexp, ubulk).value();
            let class = v.export_map[i].class_index.import;
            let x = v.exports[i];
            let names = v.name_map.map_values(|n: FNameEntryView| n.data);
            let imports = v.import_map.map_values(|m: FObjectImportView| m.object_name);
            let start = export_start(v.export_map[i], v.summary.total_header_size);
            let t = take_texture(uexp, start, names, imports, v.summary.total_header_size, serial_total(v.export_map) as i64, ubulk);
            &&& i < v.exports.len()
            &&& class == "Texture2D"@ ==> t is Parsed && x == ExportView::Texture(t.value())
            &&& class == "DataTable"@ ==> x is DataTable
            &&& class == "SkeletalMesh"@ ==> x is SkeletalMesh
            &&& class == "AnimSequence"@ ==> x is AnimSequence
            &&& class == "Skeleton"@ ==> x is Skeleton
            &&& class == "CurveTable"@ ==> x is CurveTable
            &&& (class != "Texture2D"@ && class != "DataTable"@ && class != "SkeletalMesh"@ && class
                != "AnimSequence"@ && class != "Skeleton"@ && class != "CurveTable"@) ==> x is Object
        }),
{
    lemma_package_is_exports(uasset, uexp, ubulk);
    let v = take_package(uasset, uexp, ubulk).value();
    lemma_exports_by_class(
        uexp,
        v.export_map,
        v.name_map.map_values(|n: FNameEntryView| n.data),
        v.import_map.map_values(|m: FObjectImportView| m.object_name),
        v.summary.total_header_size,
        serial_total(v.export_map) as i64,
        ubulk,
        i,
    );
}


/// A package's tables are where its summary says: the summary at the start
/// of the `.uasset`; the names at the name offset, as many as the name
/// count; the imports at the import offset, as many as the import count;
/// the export records at the export offset, as many as the export count
/// (each offset taken as a `u64`, each count as none when negative).
pub proof fn lemma_package_tables(uasset: Seq<u8>, uexp: Seq<u8>, ubulk: Option<Seq<u8>>)
    requires
        take_package(uasset, uexp, ubulk) is Parsed,
    ensures
        ({
            let v = take_package(uasset, uexp, ubulk).value();
            let names = v.name_map.map_values(|n: FNameEntryView| n.data);
            &&& v.summary == FPackageFileSummary::parse(uasset, 0).value()
            &&& v.name_map == take_items::<FNameEntrySerialized>(
                uasset,
                wrap_u64(v.summary.name_offset as int),
                count_of(v.summary.name_count),
            ).value()
            &&& v.import_map == take_imports(
                uasset,
                wrap_u64(v.summary.import_offset as int),
                count_of(v.summary.import_count),
                names,
                Seq::empty(),
            ).value()
            &&& v.export_map == take_items_n::<FObjectExport>(
                uasset,
                wrap_u64(v.summary.export_offset as int),
                count_of(v.summary.export_count),
                names,
                v.import_map.map_values(|m: FObjectImportView| m.object_name),
            ).value()
            &&& v.export_map.len() == count_of(v.summary.export_count)
        }),
{
    lemma_package_exports(uasset, uexp, ubulk);
}

} // verus!
