//! What a guest module asks of its host, read off its import section.
use vstd::prelude::*;

use crate::text::same_text;
use crate::version::{
    napi_wasmer_extension_version_from_namespace, other_namespaces_are_not_the_extension,
    revision_follows_the_prefix, supported_namespace_is_prefixed, NapiVersion,
    NapiWasmerExtensionVersion, NAPI_MODULE_NAME,
};

verus! {

/// Namespace under which a guest imports its memory and its function table.
pub const ENV_MODULE_NAME: &'static str = "env";

/// Name under which a guest imports its linear memory.
pub const MEMORY_IMPORT_NAME: &'static str = "memory";

/// Name under which a guest imports, or exports, its indirect function table.
pub const TABLE_IMPORT_NAME: &'static str = "__indirect_function_table";

/// What kind of thing an import is; memories and tables come with their type.
pub enum ImportKind {
    Function,
    Global,
    Table(wasmer::TableType),
    Memory(wasmer::MemoryType),
    Tag,
}

/// One entry of a module's import section.
pub struct ModuleImport {
    pub module: String,
    pub name: String,
    pub kind: ImportKind,
}

/// The mathematical value of a [`ModuleImport`].
pub struct ImportView {
    pub module: Seq<char>,
    pub name: Seq<char>,
    pub kind: ImportKind,
}

impl View for ModuleImport {
    type V = ImportView;

    open spec fn view(&self) -> ImportView {
        ImportView { module: self.module@, name: self.name@, kind: self.kind }
    }
}

/// The values of a list of imports.
pub open spec fn import_views(imports: Seq<ModuleImport>) -> Seq<ImportView> {
    imports.map_values(|import: ModuleImport| import@)
}

/// The texts of a list of names.
pub open spec fn name_texts(names: Seq<String>) -> Seq<Seq<char>> {
    names.map_values(|name: String| name@)
}

/// Whether an import is a core N-API function.
pub open spec fn is_core_import(import: ImportView) -> bool {
    import.module == NAPI_MODULE_NAME@
}

/// Whether an import is a core N-API function that `known` does not list.
pub open spec fn is_unknown_core_import(import: ImportView, known: Seq<Seq<char>>) -> bool {
    is_core_import(import) && !known.contains(import.name)
}

/// The extension revision that an import asks for, if it asks for one.
pub open spec fn import_extension(import: ImportView) -> Option<NapiWasmerExtensionVersion> {
    if is_core_import(import) {
        None
    } else {
        crate::version::extension_version_of(import.module)
    }
}

/// The core version that a list of imports needs: none without a core import, an unknown one as
/// soon as one core import is not listed in `known`, and version ten otherwise.
pub open spec fn core_need(imports: Seq<ImportView>, known: Seq<Seq<char>>) -> Option<NapiVersion> {
    if exists|i: int|
        0 <= i < imports.len() && is_unknown_core_import(#[trigger] imports[i], known) {
        Some(NapiVersion::Unknown)
    } else if exists|i: int| 0 <= i < imports.len() && is_core_import(#[trigger] imports[i]) {
        Some(NapiVersion::V10)
    } else {
        None
    }
}

/// The extension revision that a list of imports needs: none without an extension import, the
/// supported one when every extension import asks for it, and an unknown one otherwise.
pub open spec fn extension_need(imports: Seq<ImportView>) -> Option<NapiWasmerExtensionVersion> {
    if exists|i: int|
        0 <= i < imports.len() && import_extension(#[trigger] imports[i]) == Some(
            NapiWasmerExtensionVersion::Unknown,
        ) {
        Some(NapiWasmerExtensionVersion::Unknown)
    } else if exists|i: int|
        0 <= i < imports.len() && import_extension(#[trigger] imports[i]) == Some(
            NapiWasmerExtensionVersion::V0,
        ) {
        Some(NapiWasmerExtensionVersion::V0)
    } else {
        None
    }
}

/// Whether `names` lists `name`.
pub fn is_known_napi_import(names: &Vec<String>, name: &str) -> (known: bool)
    ensures
        known == name_texts(names@).contains(name@),
{
    let mut i: usize = 0;
    while i < names.len()
        invariant
            i <= names@.len(),
            forall|j: int| 0 <= j < i ==> name_texts(names@)[j] != name@,
        decreases names@.len() - i,
    {
        if same_text(names[i].as_str(), name) {
            assert(name_texts(names@)[i as int] == name@);
            return true;
        }
        i += 1;
    }
    false
}

/// The core version and the extension revision that a list of imports needs.
pub fn imports_need_napi(imports: &Vec<ModuleImport>, known: &Vec<String>) -> (need: (
    Option<NapiVersion>,
    Option<NapiWasmerExtensionVersion>,
))
    ensures
        need.0 == core_need(import_views(imports@), name_texts(known@)),
        need.1 == extension_need(import_views(imports@)),
{
    let mut napi_version: Option<NapiVersion> = None;
    let mut napi_extension_version: Option<NapiWasmerExtensionVersion> = None;
    let ghost views = import_views(imports@);
    let ghost names = name_texts(known@);
    assert(views.take(0) =~= Seq::<ImportView>::empty());
    let mut i: usize = 0;
    while i < imports.len()
        invariant
            i <= imports@.len(),
            views == import_views(imports@),
            names == name_texts(known@),
            napi_version == core_need(views.take(i as int), names),
            napi_extension_version == extension_need(views.take(i as int)),
        decreases imports@.len() - i,
    {
        let import = &imports[i];
        proof {
            assert(import@ == views[i as int]);
            needs_step(views, names, i as int);
        }
        if same_text(import.module.as_str(), NAPI_MODULE_NAME) {
            let next = match napi_version {
                Some(NapiVersion::Unknown) => NapiVersion::Unknown,
                _ => if is_known_napi_import(known, import.name.as_str()) {
                    NapiVersion::V10
                } else {
                    NapiVersion::Unknown
                },
            };
            napi_version = Some(next);
        } else {
            match napi_wasmer_extension_version_from_namespace(import.module.as_str()) {
                Some(detected) => {
                    let next = match napi_extension_version {
                        None => detected,
                        Some(existing) => if existing == detected {
                            existing
                        } else {
                            NapiWasmerExtensionVersion::Unknown
                        },
                    };
                    napi_extension_version = Some(next);
                },
                None => {},
            }
        }
        i += 1;
    }
    assert(views.take(imports@.len() as int) =~= views);
    (napi_version, napi_extension_version)
}

/// How the needs of a list of imports change with one more import.
proof fn needs_step(imports: Seq<ImportView>, known: Seq<Seq<char>>, n: int)
    requires
        0 <= n < imports.len(),
    ensures
        core_need(imports.take(n + 1), known) == (if is_unknown_core_import(imports[n], known) {
            Some(NapiVersion::Unknown)
        } else if is_core_import(imports[n]) && core_need(imports.take(n), known) is None {
            Some(NapiVersion::V10)
        } else {
            core_need(imports.take(n), known)
        }),
        extension_need(imports.take(n + 1)) == (match import_extension(imports[n]) {
            Some(NapiWasmerExtensionVersion::Unknown) => Some(NapiWasmerExtensionVersion::Unknown),
            Some(NapiWasmerExtensionVersion::V0) => if extension_need(imports.take(n)) is None {
                Some(NapiWasmerExtensionVersion::V0)
            } else {
                extension_need(imports.take(n))
            },
            None => extension_need(imports.take(n)),
        }),
{
    let shorter = imports.take(n);
    let longer = imports.take(n + 1);
    assert(longer[n] == imports[n]);
    assert(forall|i: int| 0 <= i < n ==> #[trigger] shorter[i] == longer[i]);
    assert(forall|i: int| 0 <= i < n ==> #[trigger] longer[i] == shorter[i]);
}

/// What a module needs does not rest on the order of its imports: two lists with the same entries,
/// however often and in whatever order, need the same.
pub proof fn needs_do_not_rest_on_order(
    one: Seq<ImportView>,
    other: Seq<ImportView>,
    known: Seq<Seq<char>>,
)
    requires
        one.to_set() == other.to_set(),
    ensures
        core_need(one, known) == core_need(other, known),
        extension_need(one) == extension_need(other),
{
    assert forall|i: int| 0 <= i < one.len() implies other.contains(#[trigger] one[i]) by {
        assert(one.to_set().contains(one[i]));
    }
    assert forall|i: int| 0 <= i < other.len() implies one.contains(#[trigger] other[i]) by {
        assert(other.to_set().contains(other[i]));
    }
}

/// The type of the memory that an import brings in as the guest's linear memory.
pub open spec fn memory_of(import: ImportView) -> Option<wasmer::MemoryType> {
    if import.module == ENV_MODULE_NAME@ && import.name == MEMORY_IMPORT_NAME@ {
        match import.kind {
            ImportKind::Memory(ty) => Some(ty),
            _ => None,
        }
    } else {
        None
    }
}

/// The type of the table that an import brings in as the guest's function table.
pub open spec fn table_of(import: ImportView) -> Option<wasmer::TableType> {
    if import.module == ENV_MODULE_NAME@ && import.name == TABLE_IMPORT_NAME@ {
        match import.kind {
            ImportKind::Table(ty) => Some(ty),
            _ => None,
        }
    } else {
        None
    }
}

/// The memory type of the first import that brings in the guest's linear memory.
pub open spec fn imported_memory(imports: Seq<ImportView>) -> Option<wasmer::MemoryType>
    decreases imports.len(),
{
    if imports.len() == 0 {
        None
    } else if memory_of(imports[0]) is Some {
        memory_of(imports[0])
    } else {
        imported_memory(imports.skip(1))
    }
}

/// The table type of the first import that brings in the guest's function table.
pub open spec fn imported_table(imports: Seq<ImportView>) -> Option<wasmer::TableType>
    decreases imports.len(),
{
    if imports.len() == 0 {
        None
    } else if table_of(imports[0]) is Some {
        table_of(imports[0])
    } else {
        imported_table(imports.skip(1))
    }
}

/// Finds the type of the memory that a guest imports.
pub fn find_imported_memory(imports: &Vec<ModuleImport>) -> (ty: Option<wasmer::MemoryType>)
    ensures
        ty == imported_memory(import_views(imports@)),
{
    let ghost views = import_views(imports@);
    assert(views.skip(0) =~= views);
    let mut i: usize = 0;
    while i < imports.len()
        invariant
            i <= imports@.len(),
            views == import_views(imports@),
            imported_memory(views) == imported_memory(views.skip(i as int)),
        decreases imports@.len() - i,
    {
        let import = &imports[i];
        proof {
            assert(views.skip(i as int)[0] == import@);
            assert(views.skip(i as int).skip(1) =~= views.skip(i + 1));
        }
        if same_text(import.module.as_str(), ENV_MODULE_NAME)
            && same_text(import.name.as_str(), MEMORY_IMPORT_NAME) {
            match &import.kind {
                ImportKind::Memory(ty) => {
                    return Some(*ty);
                },
                _ => {},
            }
        }
        i += 1;
    }
    None
}

/// Finds the type of the function table that a guest imports.
pub fn find_imported_table(imports: &Vec<ModuleImport>) -> (ty: Option<wasmer::TableType>)
    ensures
        ty == imported_table(import_views(imports@)),
{
    let ghost views = import_views(imports@);
    assert(views.skip(0) =~= views);
    let mut i: usize = 0;
    while i < imports.len()
        invariant
            i <= imports@.len(),
            views == import_views(imports@),
            imported_table(views) == imported_table(views.skip(i as int)),
        decreases imports@.len() - i,
    {
        let import = &imports[i];
        proof {
            assert(views.skip(i as int)[0] == import@);
            assert(views.skip(i as int).skip(1) =~= views.skip(i + 1));
        }
        if same_text(import.module.as_str(), ENV_MODULE_NAME)
            && same_text(import.name.as_str(), TABLE_IMPORT_NAME) {
            match &import.kind {
                ImportKind::Table(ty) => {
                    return Some(*ty);
                },
                _ => {},
            }
        }
        i += 1;
    }
    None
}

/// Whether an import asks for the core functions or for the extension, by its namespace.
pub open spec fn asks_for_napi(import: ImportView) -> bool {
    import.module == "napi"@ || "napi_extension_wasmer_v"@.is_prefix_of(import.module)
}

/// Only the imports from `napi` decide on the core version, and of those only whether each name is
/// a known one: without any there is no need, with known ones alone it is version ten, and with any
/// other it is unknown.
pub proof fn core_need_is_read_off_the_napi_imports(
    imports: Seq<ImportView>,
    known: Seq<Seq<char>>,
)
    ensures
        core_need(imports, known) is None <==> forall|i: int|
            0 <= i < imports.len() ==> (#[trigger] imports[i]).module != "napi"@,
        core_need(imports, known) == Some(NapiVersion::V10) <==> {
            &&& exists|i: int| 0 <= i < imports.len() && (#[trigger] imports[i]).module == "napi"@
            &&& forall|i: int|
                0 <= i < imports.len() && (#[trigger] imports[i]).module == "napi"@
                    ==> known.contains(imports[i].name)
        },
        core_need(imports, known) == Some(NapiVersion::Unknown) <==> exists|i: int|
            0 <= i < imports.len() && (#[trigger] imports[i]).module == "napi"@ && !known.contains(
                imports[i].name,
            ),
{
}

/// Only the imports from a namespace that starts with `napi_extension_wasmer_v` decide on the
/// extension: without any there is no need, with the supported revision alone it is that one, and
/// with any other it is unknown.
pub proof fn extension_need_is_read_off_the_extension_imports(imports: Seq<ImportView>)
    ensures
        extension_need(imports) is None <==> forall|i: int|
            0 <= i < imports.len() ==> !"napi_extension_wasmer_v"@.is_prefix_of(
                (#[trigger] imports[i]).module,
            ),
        extension_need(imports) == Some(NapiWasmerExtensionVersion::V0) <==> {
            &&& exists|i: int|
                0 <= i < imports.len() && "napi_extension_wasmer_v"@.is_prefix_of(
                    (#[trigger] imports[i]).module,
                )
            &&& forall|i: int|
                0 <= i < imports.len() && "napi_extension_wasmer_v"@.is_prefix_of(
                    (#[trigger] imports[i]).module,
                ) ==> imports[i].module == "napi_extension_wasmer_v0"@
        },
        extension_need(imports) == Some(NapiWasmerExtensionVersion::Unknown) <==> exists|i: int|
            0 <= i < imports.len() && "napi_extension_wasmer_v"@.is_prefix_of(
                (#[trigger] imports[i]).module,
            ) && imports[i].module != "napi_extension_wasmer_v0"@,
{
    assert forall|i: int| 0 <= i < imports.len() implies ({
        let asked = import_extension(#[trigger] imports[i]);
        &&& asked is None <==> !"napi_extension_wasmer_v"@.is_prefix_of(imports[i].module)
        &&& asked == Some(NapiWasmerExtensionVersion::V0) <==> imports[i].module
            == "napi_extension_wasmer_v0"@
    }) by {
        reads_the_revision(imports[i]);
    }
}

/// What one import asks of the extension.
proof fn reads_the_revision(import: ImportView)
    ensures
        import_extension(import) is None <==> !"napi_extension_wasmer_v"@.is_prefix_of(
            import.module,
        ),
        import_extension(import) == Some(NapiWasmerExtensionVersion::V0) <==> import.module
            == "napi_extension_wasmer_v0"@,
{
    let prefix = "napi_extension_wasmer_v"@;
    let suffix = import.module.skip(prefix.len() as int);
    supported_namespace_is_prefixed();
    other_namespaces_are_not_the_extension();
    revision_follows_the_prefix(import.module, suffix);
    revision_follows_the_prefix("napi"@, suffix);
    if prefix.is_prefix_of(import.module) {
        assert(import.module =~= prefix + suffix);
    }
}

/// An import from any other namespace never matters: without it both needs are as they were.
pub proof fn other_imports_never_matter(
    imports: Seq<ImportView>,
    known: Seq<Seq<char>>,
    k: int,
)
    requires
        0 <= k < imports.len(),
        !asks_for_napi(imports[k]),
    ensures
        core_need(imports.remove(k), known) == core_need(imports, known),
        extension_need(imports.remove(k)) == extension_need(imports),
{
    let fewer = imports.remove(k);
    core_need_is_read_off_the_napi_imports(imports, known);
    core_need_is_read_off_the_napi_imports(fewer, known);
    extension_need_is_read_off_the_extension_imports(imports);
    extension_need_is_read_off_the_extension_imports(fewer);
    assert forall|i: int| 0 <= i < fewer.len() implies exists|j: int|
        0 <= j < imports.len() && imports[j] == #[trigger] fewer[i] by {
        assert(imports[if i < k { i } else { i + 1 }] == fewer[i]);
    }
    assert forall|j: int| 0 <= j < imports.len() && asks_for_napi(
        #[trigger] imports[j],
    ) implies exists|i: int| 0 <= i < fewer.len() && #[trigger] fewer[i] == imports[j] by {
        assert(fewer[if j < k { j } else { j - 1 }] == imports[j]);
    }
}

/// The imports that ask for the core functions or for the extension decide alone: with all others
/// taken out, both needs are as they were.
pub proof fn only_napi_imports_matter(imports: Seq<ImportView>, known: Seq<Seq<char>>)
    ensures
        core_need(imports.filter(|import: ImportView| asks_for_napi(import)), known) == core_need(
            imports,
            known,
        ),
        extension_need(imports.filter(|import: ImportView| asks_for_napi(import)))
            == extension_need(imports),
{
    let asks = |import: ImportView| asks_for_napi(import);
    let fewer = imports.filter(asks);
    core_need_is_read_off_the_napi_imports(imports, known);
    core_need_is_read_off_the_napi_imports(fewer, known);
    extension_need_is_read_off_the_extension_imports(imports);
    extension_need_is_read_off_the_extension_imports(fewer);
    assert forall|i: int| 0 <= i < fewer.len() implies imports.contains(#[trigger] fewer[i]) by {
        assert(fewer.contains(fewer[i]));
        imports.lemma_filter_contains_rev(asks, fewer[i]);
    }
    assert forall|j: int| 0 <= j < imports.len() && asks_for_napi(
        #[trigger] imports[j],
    ) implies fewer.contains(imports[j]) by {
        assert(asks(imports[j]));
    }
}

/// The guest's memory is the first import of a memory named `memory` from `env`; there is none
/// exactly when no import is one. An import of that name that is something else is passed over.
pub proof fn the_first_memory_counts(imports: Seq<ImportView>)
    ensures
        imported_memory(imports) is None <==> forall|i: int|
            0 <= i < imports.len() ==> !((#[trigger] imports[i]).module == "env"@
                && imports[i].name == "memory"@ && imports[i].kind is Memory),
        imported_memory(imports) matches Some(ty) ==> exists|i: int|
            {
                &&& 0 <= i < imports.len()
                &&& (#[trigger] imports[i]).module == "env"@
                &&& imports[i].name == "memory"@
                &&& imports[i].kind == ImportKind::Memory(ty)
                &&& forall|j: int|
                    0 <= j < i ==> !((#[trigger] imports[j]).module == "env"@ && imports[j].name
                        == "memory"@ && imports[j].kind is Memory)
            },
    decreases imports.len(),
{
    if imports.len() > 0 {
        let rest = imports.skip(1);
        the_first_memory_counts(rest);
        assert(forall|i: int| 0 <= i < rest.len() ==> #[trigger] rest[i] == imports[i + 1]);
        assert(forall|i: int| 1 <= i < imports.len() ==> #[trigger] imports[i] == rest[i - 1]);
        if imported_memory(imports) is Some && memory_of(imports[0]) is None {
            let ty = imported_memory(imports)->0;
            let i = choose|i: int|
                {
                    &&& 0 <= i < rest.len()
                    &&& (#[trigger] rest[i]).module == "env"@
                    &&& rest[i].name == "memory"@
                    &&& rest[i].kind == ImportKind::Memory(ty)
                    &&& forall|j: int|
                        0 <= j < i ==> !((#[trigger] rest[j]).module == "env"@ && rest[j].name
                            == "memory"@ && rest[j].kind is Memory)
                };
            assert(imports[i + 1] == rest[i]);
        }
    }
}

/// The guest's function table is the first import of a table named `__indirect_function_table` from
/// `env`; there is none exactly when no import is one. An import of that name that is something
/// else is passed over.
pub proof fn the_first_table_counts(imports: Seq<ImportView>)
    ensures
        imported_table(imports) is None <==> forall|i: int|
            0 <= i < imports.len() ==> !((#[trigger] imports[i]).module == "env"@
                && imports[i].name == "__indirect_function_table"@ && imports[i].kind is Table),
        imported_table(imports) matches Some(ty) ==> exists|i: int|
            {
                &&& 0 <= i < imports.len()
                &&& (#[trigger] imports[i]).module == "env"@
                &&& imports[i].name == "__indirect_function_table"@
                &&& imports[i].kind == ImportKind::Table(ty)
                &&& forall|j: int|
                    0 <= j < i ==> !((#[trigger] imports[j]).module == "env"@ && imports[j].name
                        == "__indirect_function_table"@ && imports[j].kind is Table)
            },
    decreases imports.len(),
{
    if imports.len() > 0 {
        let rest = imports.skip(1);
        the_first_table_counts(rest);
        assert(forall|i: int| 0 <= i < rest.len() ==> #[trigger] rest[i] == imports[i + 1]);
        assert(forall|i: int| 1 <= i < imports.len() ==> #[trigger] imports[i] == rest[i - 1]);
        if imported_table(imports) is Some && table_of(imports[0]) is None {
            let ty = imported_table(imports)->0;
            let i = choose|i: int|
                {
                    &&& 0 <= i < rest.len()
                    &&& (#[trigger] rest[i]).module == "env"@
                    &&& rest[i].name == "__indirect_function_table"@
                    &&& rest[i].kind == ImportKind::Table(ty)
                    &&& forall|j: int|
                        0 <= j < i ==> !((#[trigger] rest[j]).module == "env"@ && rest[j].name
                            == "__indirect_function_table"@ && rest[j].kind is Table)
                };
            assert(imports[i + 1] == rest[i]);
        }
    }
}

/// A list of imports stands for its entries one by one: namespace, name and kind of each. So does a
/// list of names.
pub proof fn lists_are_read_entry_by_entry(
    imports: Seq<ModuleImport>,
    names: Seq<String>,
    i: int,
    j: int,
)
    requires
        0 <= i < imports.len(),
        0 <= j < names.len(),
    ensures
        import_views(imports).len() == imports.len(),
        import_views(imports)[i].module == imports[i].module@,
        import_views(imports)[i].name == imports[i].name@,
        import_views(imports)[i].kind == imports[i].kind,
        name_texts(names).len() == names.len(),
        name_texts(names)[j] == names[j]@,
{
}

} // verus!
