//! Names, imports and exports: the tables that the rest of a package refers
//! to by index.

use vstd::prelude::*;
use crate::error::{ParserError, ParserResult};
use crate::newable::{prepend, lemma_prepend_assoc, Newable};
use crate::reader::{fits, le_u32, le_u64, outcome, read_string, signed32, signed64, take_i32, take_i64, take_string, take_u32, Parse, Reader};
use crate::summary::{FGuid, FNameEntrySerialized};
use crate::text::{decimal, decimal_text, join, text};

verus! {

pub type NameMap = Vec<FNameEntrySerialized>;

pub type ImportMap = Vec<FObjectImport>;

/// The texts of the name table, by index.
pub open spec fn name_texts(name_map: &NameMap) -> Seq<Seq<char>> {
    Seq::new(name_map@.len(), |i: int| name_map@[i].data@)
}

/// The object names of the import table, by index.
pub open spec fn import_names(import_map: &ImportMap) -> Seq<Seq<char>> {
    Seq::new(import_map@.len(), |i: int| import_map@[i].object_name@)
}

/// A type whose layout refers to the name and import tables.
pub trait NewableWithNameMap: Sized + DeepView {
    /// What the layout makes of the bytes at `p`, given the texts of the
    /// name table and the object names of the import table.
    spec fn parse_n(b: Seq<u8>, p: int, names: Seq<Seq<char>>, imports: Seq<Seq<char>>) -> Parse<
        <Self as DeepView>::V,
    >;

    /// Reads a value at the reader's position.
    fn new_n(reader: &mut Reader, name_map: &NameMap, import_map: &ImportMap) -> (r: ParserResult<Self>)
        requires
            !(Self::parse_n(
                old(reader).bytes(),
                old(reader).at(),
                name_texts(name_map),
                import_names(import_map),
            ) is Aborted),
        ensures
            final(reader).bytes() == old(reader).bytes(),
            outcome(
                r,
                Self::parse_n(
                    old(reader).bytes(),
                    old(reader).at(),
                    name_texts(name_map),
                    import_names(import_map),
                ),
                *final(reader),
            ),
    ;
}

/// `n` values, one after another.
pub open spec fn take_items_n<S: NewableWithNameMap>(
    b: Seq<u8>,
    p: int,
    n: nat,
    names: Seq<Seq<char>>,
    imports: Seq<Seq<char>>,
) -> Parse<Seq<<S as DeepView>::V>>
    decreases n,
{
    if n == 0 {
        Parse::Parsed(Seq::empty(), p)
    } else {
        match S::parse_n(b, p, names, imports) {
            Parse::Parsed(x, q) => prepend(seq![x], take_items_n::<S>(b, q, (n - 1) as nat, names, imports)),
            other => other.pass(),
        }
    }
}

/// A TArray of values that refer to the tables.
pub open spec fn take_tarray_n<S: NewableWithNameMap>(
    b: Seq<u8>,
    p: int,
    names: Seq<Seq<char>>,
    imports: Seq<Seq<char>>,
) -> Parse<Seq<<S as DeepView>::V>> {
    match take_u32(b, p) {
        Parse::Parsed(n, q) => take_items_n::<S>(b, q, n as nat, names, imports),
        other => other.pass(),
    }
}

/// Reads a TArray of values that refer to the tables.
pub fn read_tarray_n<S: NewableWithNameMap>(
    reader: &mut Reader,
    name_map: &NameMap,
    import_map: &ImportMap,
) -> (r: ParserResult<Vec<S>>)
    requires
        !(take_tarray_n::<S>(
            old(reader).bytes(),
            old(reader).at(),
            name_texts(name_map),
            import_names(import_map),
        ) is Aborted),
    ensures
        final(reader).bytes() == old(reader).bytes(),
        outcome(
            r,
            take_tarray_n::<S>(
                old(reader).bytes(),
                old(reader).at(),
                name_texts(name_map),
                import_names(import_map),
            ),
            *final(reader),
        ),
{
    let ghost b = reader.bytes();
    let ghost names = name_texts(name_map);
    let ghost imports = import_names(import_map);
    let count = reader.read_u32()?;
    let ghost q = reader.at();
    let mut container: Vec<S> = Vec::new();
    let mut i: u32 = 0;
    assert(prepend(container.deep_view(), take_items_n::<S>(b, q, count as nat, names, imports))
        == take_items_n::<S>(b, q, count as nat, names, imports)) by {
        match take_items_n::<S>(b, q, count as nat, names, imports) {
            Parse::Parsed(ys, e) => {
                assert(container.deep_view() + ys =~= ys);
            },
            _ => {},
        }
    }
    while i < count
        invariant
            reader.bytes() == b,
            b == old(reader).bytes(),
            names == name_texts(name_map),
            imports == import_names(import_map),
            i <= count,
            prepend(container.deep_view(), take_items_n::<S>(b, reader.at(), (count - i) as nat, names, imports))
                == take_items_n::<S>(b, q, count as nat, names, imports),
            !(take_items_n::<S>(b, q, count as nat, names, imports) is Aborted),
            take_tarray_n::<S>(b, old(reader).at(), names, imports) == take_items_n::<S>(b, q, count as nat, names, imports),
        decreases count - i,
    {
        let ghost before = container.deep_view();
        let x = S::new_n(reader, name_map, import_map)?;
        proof {
            lemma_prepend_assoc(
                before,
                x.deep_view(),
                take_items_n::<S>(b, reader.at(), (count - i - 1) as nat, names, imports),
            );
        }
        container.push(x);
        assert(container.deep_view() =~= before.push(x.deep_view()));
        i = i + 1;
    }
    assert(container.deep_view() + Seq::empty() =~= container.deep_view());
    Ok(container)
}

/// The message of a name index outside the name table.
pub open spec fn fname_message(pos: int, index: i32) -> Seq<char> {
    "FName could not be read at "@ + decimal(pos) + " "@ + decimal(index as int)
}

/// An FName: an `i32` index into the name table and an `i32` number (which
/// is not used); the name's text.
pub open spec fn take_fname(b: Seq<u8>, p: int, names: Seq<Seq<char>>) -> Parse<Seq<char>> {
    match take_i32(b, p) {
        Parse::Parsed(index, q) => match take_i32(b, q) {
            Parse::Parsed(_, e) => {
                if 0 <= index < names.len() {
                    Parse::Parsed(names[index as int], e)
                } else {
                    Parse::Failed(seq![fname_message(p, index)], e)
                }
            },
            other => other.pass(),
        },
        other => other.pass(),
    }
}

/// Reads an FName and looks up its text.
pub fn read_fname(reader: &mut Reader, name_map: &NameMap) -> (r: ParserResult<String>)
    ensures
        final(reader).bytes() == old(reader).bytes(),
        outcome(r, take_fname(old(reader).bytes(), old(reader).at(), name_texts(name_map)), *final(reader)),
{
    let index_pos = reader.position();
    let name_index = reader.read_i32()?;
    reader.read_i32()?;
    if name_index >= 0 && (name_index as usize) < name_map.len() {
        let data = name_map[name_index as usize].data.clone();
        Ok(data)
    } else {
        let msg = join(
            join(
                join(text("FName could not be read at "), decimal_text(index_pos as i128).as_str()),
                " ",
            ),
            decimal_text(name_index as i128).as_str(),
        );
        Err(ParserError::new(msg))
    }
}

/// The import slot that a package index refers to: `-i - 1` for a negative
/// index, `i - 1` for a positive one, none for zero.
pub open spec fn import_slot(index: i32) -> Option<int> {
    if index < 0 {
        Some(-index - 1)
    } else if index > 0 {
        Some(index - 1)
    } else {
        None
    }
}

/// A reference to an object: an index into the import table (negative) or
/// the export table (positive), with the name of the import it resolves to.
#[derive(Debug, Clone)]
pub struct FPackageIndex {
    pub index: i32,
    /// The imported object's name, or the index in decimal when the index
    /// does not resolve to an import.
    pub import: String,
}

/// What an [`FPackageIndex`] holds, as plain values.
pub struct FPackageIndexView {
    pub index: i32,
    pub import: Seq<char>,
}

impl DeepView for FPackageIndex {
    type V = FPackageIndexView;

    open spec fn deep_view(&self) -> FPackageIndexView {
        FPackageIndexView { index: self.index, import: self.import@ }
    }
}

impl FPackageIndex {
    /// The import that an index refers to, if it lies in the table.
    pub fn get_package(index: i32, import_map: &ImportMap) -> (r: Option<&FObjectImport>)
        requires
            index != i32::MIN,
        ensures
            r matches Some(imp) <==> (import_slot(index) matches Some(k) && k < import_map@.len()),
            r matches Some(imp) ==> imp == import_map@[import_slot(index)->0],
    {
        if index < 0 {
            let k = (-index - 1) as usize;
            if k < import_map.len() {
                return Some(&import_map[k]);
            }
            return None;
        }
        if index > 0 {
            let k = (index - 1) as usize;
            if k < import_map.len() {
                return Some(&import_map[k]);
            }
            return None;
        }
        None
    }

    /// The name that the index resolves to.
    pub fn get_import(&self) -> (r: &str)
        ensures
            r@ == self.import@,
    {
        self.import.as_str()
    }
}

impl NewableWithNameMap for FPackageIndex {
    /// An `i32` index; `i32::MIN`, which has no negation, is where the format
    /// gives up.
    open spec fn parse_n(b: Seq<u8>, p: int, names: Seq<Seq<char>>, imports: Seq<Seq<char>>) -> Parse<
        FPackageIndexView,
    > {
        match take_i32(b, p) {
            Parse::Parsed(index, q) => {
                if index == i32::MIN {
                    Parse::Aborted
                } else {
                    let import = match import_slot(index) {
                        Some(k) => if k < imports.len() {
                            imports[k]
                        } else {
                            decimal(index as int)
                        },
                        None => decimal(index as int),
                    };
                    Parse::Parsed(FPackageIndexView { index, import }, q)
                }
            },
            other => other.pass(),
        }
    }

    fn new_n(reader: &mut Reader, _name_map: &NameMap, import_map: &ImportMap) -> (r: ParserResult<Self>) {
        let index = reader.read_i32()?;
        let import = match FPackageIndex::get_package(index, import_map) {
            Some(data) => data.object_name.clone(),
            None => decimal_text(index as i128),
        };
        Ok(FPackageIndex { index, import })
    }
}

/// An object that the package imports from another package.
#[derive(Debug)]
pub struct FObjectImport {
    pub class_package: String,
    pub class_name: String,
    pub outer_index: FPackageIndex,
    pub object_name: String,
}

/// What a [`FObjectImport`] holds, as plain values.
pub struct FObjectImportView {
    pub class_package: Seq<char>,
    pub class_name: Seq<char>,
    pub outer_index: FPackageIndexView,
    pub object_name: Seq<char>,
}

impl DeepView for FObjectImport {
    type V = FObjectImportView;

    open spec fn deep_view(&self) -> FObjectImportView {
        FObjectImportView {
            class_package: self.class_package@,
            class_name: self.class_name@,
            outer_index: self.outer_index.deep_view(),
            object_name: self.object_name@,
        }
    }
}

impl NewableWithNameMap for FObjectImport {
    open spec fn parse_n(b: Seq<u8>, p: int, names: Seq<Seq<char>>, imports: Seq<Seq<char>>) -> Parse<FObjectImportView> {
        match take_fname(b, p, names) {
            Parse::Parsed(v0, p0) => {
                match take_fname(b, p0, names) {
                    Parse::Parsed(v1, p1) => {
                        match <FPackageIndex as NewableWithNameMap>::parse_n(b, p1, names, imports) {
                            Parse::Parsed(v2, p2) => {
                                match take_fname(b, p2, names) {
                                    Parse::Parsed(v3, p3) => {
                                        Parse::Parsed(FObjectImportView { class_package: v0, class_name: v1, outer_index: v2, object_name: v3 }, p3)
                                    },
                                    other => other.pass(),
                                }
                            },
                            other => other.pass(),
                        }
                    },
                    other => other.pass(),
                }
            },
            other => other.pass(),
        }
    }

    fn new_n(reader: &mut Reader, name_map: &NameMap, import_map: &ImportMap) -> (r: ParserResult<Self>) {
        let class_package = read_fname(reader, name_map)?;
        let class_name = read_fname(reader, name_map)?;
        let outer_index = FPackageIndex::new_n(reader, name_map, import_map)?;
        let object_name = read_fname(reader, name_map)?;
        Ok(FObjectImport { class_package, class_name, outer_index, object_name })
    }
}

/// An object that the package defines: its class, name, and where its data lies.
#[derive(Debug)]
pub struct FObjectExport {
    pub class_index: FPackageIndex,
    pub super_index: FPackageIndex,
    pub template_index: FPackageIndex,
    pub outer_index: FPackageIndex,
    pub object_name: String,
    pub save: u32,
    pub serial_size: i64,
    pub serial_offset: i64,
    pub forced_export: bool,
    pub not_for_client: bool,
    pub not_for_server: bool,
    pub package_guid: FGuid,
    pub package_flags: u32,
    pub not_always_loaded_for_editor_game: bool,
    pub is_asset: bool,
    pub first_export_dependency: i32,
    pub serialization_before_serialization_dependencies: bool,
    pub create_before_serialization_dependencies: bool,
    pub serialization_before_create_dependencies: bool,
    pub create_before_create_dependencies: bool,
}

/// What a [`FObjectExport`] holds, as plain values.
pub struct FObjectExportView {
    pub class_index: FPackageIndexView,
    pub super_index: FPackageIndexView,
    pub template_index: FPackageIndexView,
    pub outer_index: FPackageIndexView,
    pub object_name: Seq<char>,
    pub save: u32,
    pub serial_size: i64,
    pub serial_offset: i64,
    pub forced_export: bool,
    pub not_for_client: bool,
    pub not_for_server: bool,
    pub package_guid: FGuid,
    pub package_flags: u32,
    pub not_always_loaded_for_editor_game: bool,
    pub is_asset: bool,
    pub first_export_dependency: i32,
    pub serialization_before_serialization_dependencies: bool,
    pub create_before_serialization_dependencies: bool,
    pub serialization_before_create_dependencies: bool,
    pub create_before_create_dependencies: bool,
}

impl DeepView for FObjectExport {
    type V = FObjectExportView;

    open spec fn deep_view(&self) -> FObjectExportView {
        FObjectExportView {
            class_index: self.class_index.deep_view(),
            super_index: self.super_index.deep_view(),
            template_index: self.template_index.deep_view(),
            outer_index: self.outer_index.deep_view(),
            object_name: self.object_name@,
            save: self.save,
            serial_size: self.serial_size,
            serial_offset: self.serial_offset,
            forced_export: self.forced_export,
            not_for_client: self.not_for_client,
            not_for_server: self.not_for_server,
            package_guid: self.package_guid.deep_view(),
            package_flags: self.package_flags,
            not_always_loaded_for_editor_game: self.not_always_loaded_for_editor_game,
            is_asset: self.is_asset,
            first_export_dependency: self.first_export_dependency,
            serialization_before_serialization_dependencies: self.serialization_before_serialization_dependencies,
            create_before_serialization_dependencies: self.create_before_serialization_dependencies,
            serialization_before_create_dependencies: self.serialization_before_create_dependencies,
            create_before_create_dependencies: self.create_before_create_dependencies,
        }
    }
}

impl NewableWithNameMap for FObjectExport {
    open spec fn parse_n(b: Seq<u8>, p: int, names: Seq<Seq<char>>, imports: Seq<Seq<char>>) -> Parse<FObjectExportView> {
        match <FPackageIndex as NewableWithNameMap>::parse_n(b, p, names, imports) {
            Parse::Parsed(v0, p0) => {
                match <FPackageIndex as NewableWithNameMap>::parse_n(b, p0, names, imports) {
                    Parse::Parsed(v1, p1) => {
                        match <FPackageIndex as NewableWithNameMap>::parse_n(b, p1, names, imports) {
                            Parse::Parsed(v2, p2) => {
                                match <FPackageIndex as NewableWithNameMap>::parse_n(b, p2, names, imports) {
                                    Parse::Parsed(v3, p3) => {
                                        match take_fname(b, p3, names) {
                                            Parse::Parsed(v4, p4) => {
                                                match take_u32(b, p4) {
                                                    Parse::Parsed(v5, p5) => {
                                                        match take_i64(b, p5) {
                                                            Parse::Parsed(v6, p6) => {
                                                                match take_i64(b, p6) {
                                                                    Parse::Parsed(v7, p7) => {
                                                                        match take_i32(b, p7) {
                                                                            Parse::Parsed(v8, p8) => {
                                                                                match take_i32(b, p8) {
                                                                                    Parse::Parsed(v9, p9) => {
                                                                                        match take_i32(b, p9) {
                                                                                            Parse::Parsed(v10, p10) => {
                                                                                                match <FGuid as Newable>::parse(b, p10) {
                                                                                                    Parse::Parsed(v11, p11) => {
                                                                                                        match take_u32(b, p11) {
                                                                                                            Parse::Parsed(v12, p12) => {
                                                                                                                match take_i32(b, p12) {
                                                                                                                    Parse::Parsed(v13, p13) => {
                                                                                                                        match take_i32(b, p13) {
                                                                                                                            Parse::Parsed(v14, p14) => {
                                                                                                                                match take_i32(b, p14) {
                                                                                                                                    Parse::Parsed(v15, p15) => {
                                                                                                                                        match take_i32(b, p15) {
                                                                                                                                            Parse::Parsed(v16, p16) => {
                                                                                                                                                match take_i32(b, p16) {
                                                                                                                                                    Parse::Parsed(v17, p17) => {
                                                                                                                                                        match take_i32(b, p17) {
                                                                                                                                                            Parse::Parsed(v18, p18) => {
                                                                                                                                                                match take_i32(b, p18) {
                                                                                                                                                                    Parse::Parsed(v19, p19) => {
                                                                                                                                                                        Parse::Parsed(FObjectExportView { class_index: v0, super_index: v1, template_index: v2, outer_index: v3, object_name: v4, save: v5, serial_size: v6, serial_offset: v7, forced_export: v8 != 0, not_for_client: v9 != 0, not_for_server: v10 != 0, package_guid: v11, package_flags: v12, not_always_loaded_for_editor_game: v13 != 0, is_asset: v14 != 0, first_export_dependency: v15, serialization_before_serialization_dependencies: v16 != 0, create_before_serialization_dependencies: v17 != 0, serialization_before_create_dependencies: v18 != 0, create_before_create_dependencies: v19 != 0 }, p19)
                                                                                                                                                                    },
                                                                                                                                                                    other => other.pass(),
                                                                                                                                                                }
                                                                                                                                                            },
                                                                                                                                                            other => other.pass(),
                                                                                                                                                        }
                                                                                                                                                    },
                                                                                                                                                    other => other.pass(),
                                                                                                                                                }
                                                                                                                                            },
                                                                                                                                            other => other.pass(),
                                                                                                                                        }
                                                                                                                                    },
                                                                                                                                    other => other.pass(),
                                                                                                                                }
                                                                                                                            },
                                                                                                                            other => other.pass(),
                                                                                                                        }
                                                                                                                    },
                                                                                                                    other => other.pass(),
                                                                                                                }
                                                                                                            },
                                                                                                            other => other.pass(),
                                                                                                        }
                                                                                                    },
                                                                                                    other => other.pass(),
                                                                                                }
                                                                                            },
                                                                                            other => other.pass(),
                                                                                        }
                                                                                    },
                                                                                    other => other.pass(),
                                                                                }
                                                                            },
                                                                            other => other.pass(),
                                                                        }
                                                                    },
                                                                    other => other.pass(),
                                                                }
                                                            },
                                                            other => other.pass(),
                                                        }
                                                    },
                                                    other => other.pass(),
                                                }
                                            },
                                            other => other.pass(),
                                        }
                                    },
                                    other => other.pass(),
                                }
                            },
                            other => other.pass(),
                        }
                    },
                    other => other.pass(),
                }
            },
            other => other.pass(),
        }
    }

    #[verifier::rlimit(60)]
    fn new_n(reader: &mut Reader, name_map: &NameMap, import_map: &ImportMap) -> (r: ParserResult<Self>) {
        let class_index = FPackageIndex::new_n(reader, name_map, import_map)?;
        let super_index = FPackageIndex::new_n(reader, name_map, import_map)?;
        let template_index = FPackageIndex::new_n(reader, name_map, import_map)?;
        let outer_index = FPackageIndex::new_n(reader, name_map, import_map)?;
        let object_name = read_fname(reader, name_map)?;
        let save = reader.read_u32()?;
        let serial_size = reader.read_i64()?;
        let serial_offset = reader.read_i64()?;
        let forced_export = reader.read_i32()? != 0;
        let not_for_client = reader.read_i32()? != 0;
        let not_for_server = reader.read_i32()? != 0;
        let package_guid = <FGuid>::new(reader)?;
        let package_flags = reader.read_u32()?;
        let not_always_loaded_for_editor_game = reader.read_i32()? != 0;
        let is_asset = reader.read_i32()? != 0;
        let first_export_dependency = reader.read_i32()?;
        let serialization_before_serialization_dependencies = reader.read_i32()? != 0;
        let create_before_serialization_dependencies = reader.read_i32()? != 0;
        let serialization_before_create_dependencies = reader.read_i32()? != 0;
        let create_before_create_dependencies = reader.read_i32()? != 0;
        Ok(FObjectExport { class_index, super_index, template_index, outer_index, object_name, save, serial_size, serial_offset, forced_export, not_for_client, not_for_server, package_guid, package_flags, not_always_loaded_for_editor_game, is_asset, first_export_dependency, serialization_before_serialization_dependencies, create_before_serialization_dependencies, serialization_before_create_dependencies, create_before_create_dependencies })
    }
}


/// Values read `n` at a time come back `n` of them.
pub proof fn lemma_items_n_len<S: NewableWithNameMap>(
    b: Seq<u8>,
    p: int,
    n: nat,
    names: Seq<Seq<char>>,
    imports: Seq<Seq<char>>,
)
    ensures
        take_items_n::<S>(b, p, n, names, imports) matches Parse::Parsed(xs, _) ==> xs.len() == n,
    decreases n,
{
    if n > 0 {
        match S::parse_n(b, p, names, imports) {
            Parse::Parsed(x, q) => lemma_items_n_len::<S>(b, q, (n - 1) as nat, names, imports),
            _ => {},
        }
    }
}


impl NewableWithNameMap for FGuid {
    open spec fn parse_n(b: Seq<u8>, p: int, names: Seq<Seq<char>>, imports: Seq<Seq<char>>) -> Parse<FGuid> {
        <FGuid as Newable>::parse(b, p)
    }

    fn new_n(reader: &mut Reader, _name_map: &NameMap, _import_map: &ImportMap) -> (r: ParserResult<Self>) {
        FGuid::new(reader)
    }
}

impl NewableWithNameMap for String {
    open spec fn parse_n(b: Seq<u8>, p: int, names: Seq<Seq<char>>, imports: Seq<Seq<char>>) -> Parse<Seq<char>> {
        take_string(b, p)
    }

    fn new_n(reader: &mut Reader, _name_map: &NameMap, _import_map: &ImportMap) -> (r: ParserResult<Self>) {
        read_string(reader)
    }
}


/// A package index is an `i32`; it names the import at `-index - 1` when
/// negative and at `index - 1` when positive, and when there is no such
/// import (or the index is 0) it stands as its own decimal text.
pub proof fn lemma_package_index_resolves(b: Seq<u8>, p: int, names: Seq<Seq<char>>, imports: Seq<Seq<char>>)
    requires
        fits(b, p, 4),
        signed32(le_u32(b, p)) != i32::MIN,
    ensures
        ({
            let index = signed32(le_u32(b, p));
            <FPackageIndex as NewableWithNameMap>::parse_n(b, p, names, imports) == Parse::Parsed(
                FPackageIndexView {
                    index,
                    import: if index < 0 && -index - 1 < imports.len() {
                        imports[-index - 1]
                    } else if index > 0 && index - 1 < imports.len() {
                        imports[index - 1]
                    } else {
                        decimal(index as int)
                    },
                },
                p + 4,
            )
        }),
{
}


/// An FName is two `i32`s, the index into the name table and a number that
/// is not kept; it reads as the name at that index.
pub proof fn lemma_fname_layout(b: Seq<u8>, p: int, names: Seq<Seq<char>>)
    requires
        fits(b, p, 8),
        0 <= signed32(le_u32(b, p)) < names.len(),
    ensures
        take_fname(b, p, names) == Parse::Parsed(names[signed32(le_u32(b, p)) as int], p + 8),
{
}

/// An import record is the class package's and the class's FNames, the
/// outer package index, then the object's FName.
pub proof fn lemma_import_record_layout(b: Seq<u8>, p: int, names: Seq<Seq<char>>, imports: Seq<Seq<char>>)
    requires
        <FObjectImport as NewableWithNameMap>::parse_n(b, p, names, imports) is Parsed,
    ensures
        ({
            let v = <FObjectImport as NewableWithNameMap>::parse_n(b, p, names, imports).value();
            &&& v.class_package == names[signed32(le_u32(b, p)) as int]
            &&& v.class_name == names[signed32(le_u32(b, p + 8)) as int]
            &&& v.outer_index.index == signed32(le_u32(b, p + 16))
            &&& v.object_name == names[signed32(le_u32(b, p + 20)) as int]
        }),
{
}

/// An export record is the class, super, template and outer package
/// indices, the object's FName, the save flags, the serial size and offset
/// (`i64`s), three flags (forced export, not for client, not for server),
/// the package GUID, the package flags, two more flags (not always loaded
/// for editor game, is asset), the first export dependency, then four
/// dependency flags; each flag is an `i32` that is set when non-zero.
#[verifier::rlimit(50)]
pub proof fn lemma_export_record_layout(b: Seq<u8>, p: int, names: Seq<Seq<char>>, imports: Seq<Seq<char>>)
    requires
        <FObjectExport as NewableWithNameMap>::parse_n(b, p, names, imports) is Parsed,
    ensures
        ({
            let v = <FObjectExport as NewableWithNameMap>::parse_n(b, p, names, imports).value();
            &&& v.class_index.index == signed32(le_u32(b, p))
            &&& v.super_index.index == signed32(le_u32(b, p + 4))
            &&& v.template_index.index == signed32(le_u32(b, p + 8))
            &&& v.outer_index.index == signed32(le_u32(b, p + 12))
            &&& v.object_name == names[signed32(le_u32(b, p + 16)) as int]
            &&& v.save == le_u32(b, p + 24)
            &&& v.serial_size == signed64(le_u64(b, p + 28))
            &&& v.serial_offset == signed64(le_u64(b, p + 36))
            &&& v.forced_export == (le_u32(b, p + 44) != 0)
            &&& v.not_for_client == (le_u32(b, p + 48) != 0)
            &&& v.not_for_server == (le_u32(b, p + 52) != 0)
            &&& v.package_guid == (FGuid {
                a: le_u32(b, p + 56),
                b: le_u32(b, p + 60),
                c: le_u32(b, p + 64),
                d: le_u32(b, p + 68),
            })
            &&& v.package_flags == le_u32(b, p + 72)
            &&& v.not_always_loaded_for_editor_game == (le_u32(b, p + 76) != 0)
            &&& v.is_asset == (le_u32(b, p + 80) != 0)
            &&& v.first_export_dependency == signed32(le_u32(b, p + 84))
            &&& v.serialization_before_serialization_dependencies == (le_u32(b, p + 88) != 0)
            &&& v.create_before_serialization_dependencies == (le_u32(b, p + 92) != 0)
            &&& v.serialization_before_create_dependencies == (le_u32(b, p + 96) != 0)
            &&& v.create_before_create_dependencies == (le_u32(b, p + 100) != 0)
        }),
{
}

} // verus!
