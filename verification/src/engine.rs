//! The boundary to the WebAssembly engine: its types, and what is believed of its functions.
use vstd::prelude::*;

use crate::env::{NapiEnv, NapiEnvView};
use crate::import::{import_views, ImportKind, ImportView, ModuleImport};

verus! {

/// A compiled module.
#[verifier::external_type_specification]
#[verifier::external_body]
pub struct ExModule(wasmer::Module);

/// The type of a linear memory.
#[verifier::external_type_specification]
#[verifier::external_body]
pub struct ExMemoryType(wasmer::MemoryType);

/// The type of a table.
#[verifier::external_type_specification]
#[verifier::external_body]
pub struct ExTableType(wasmer::TableType);

/// A handle to a linear memory.
#[verifier::external_type_specification]
#[verifier::external_body]
pub struct ExMemory(wasmer::Memory);

/// A handle to a table.
#[verifier::external_type_specification]
#[verifier::external_body]
pub struct ExTable(wasmer::Table);

/// A handle to a function.
#[verifier::external_type_specification]
#[verifier::external_body]
pub struct ExFunction(wasmer::Function);

/// A handle to a function whose signature has been checked.
#[verifier::external_type_specification]
#[verifier::external_body]
#[verifier::reject_recursive_types(Args)]
#[verifier::reject_recursive_types(Rets)]
pub struct ExTypedFunction<Args, Rets>(wasmer::TypedFunction<Args, Rets>);

/// An instantiated module.
#[verifier::external_type_specification]
#[verifier::external_body]
pub struct ExInstance(wasmer::Instance);

/// What a module is given at instantiation.
#[verifier::external_type_specification]
#[verifier::external_body]
pub struct ExImports(wasmer::Imports);

/// The store that owns memories, tables, functions and function environments.
#[verifier::external_type_specification]
#[verifier::external_body]
pub struct ExStoreMut<'a>(wasmer::StoreMut<'a>);

/// A handle to host state that a store owns.
#[verifier::external_type_specification]
#[verifier::external_body]
#[verifier::reject_recursive_types(T)]
pub struct ExFunctionEnv<T>(wasmer::FunctionEnv<T>);

/// Why a memory could not be made.
#[verifier::external_type_specification]
#[verifier::external_body]
pub struct ExMemoryError(wasmer::MemoryError);

/// Why a table could not be made.
#[verifier::external_type_specification]
#[verifier::external_body]
pub struct ExRuntimeError(wasmer::RuntimeError);

/// Specifies `Clone::clone` of `wasmer::Memory`: a second handle to the same memory.
pub assume_specification[ <wasmer::Memory as Clone>::clone ](memory: &wasmer::Memory) -> (copy:
    wasmer::Memory)
    ensures
        copy == *memory,
;

/// Specifies `Clone::clone` of `wasmer::Table`: a second handle to the same table.
pub assume_specification[ <wasmer::Table as Clone>::clone ](table: &wasmer::Table) -> (copy:
    wasmer::Table)
    ensures
        copy == *table,
;

/// Specifies `Clone::clone` of `wasmer::FunctionEnv`: a second handle to the same state.
pub assume_specification<T>[ <wasmer::FunctionEnv<T> as Clone>::clone ](
    func_env: &wasmer::FunctionEnv<T>,
) -> (copy: wasmer::FunctionEnv<T>)
    ensures
        copy == *func_env,
;

/// The import section of a module, in order: what `wasmer::Module::imports` yields.
pub uninterp spec fn declared_imports(module: wasmer::Module) -> Seq<ImportView>;

/// Calls `wasmer::Module::imports`. The entries come in the order of the module's import section,
/// each with its namespace, its name and its kind; a module always yields the same ones.
#[verifier::external_body]
pub(crate) fn module_imports(module: &wasmer::Module) -> (imports: Vec<ModuleImport>)
    ensures
        import_views(imports@) == declared_imports(*module),
{
    module.imports().map(|import| ModuleImport {
        module: import.module().to_string(),
        name: import.name().to_string(),
        kind: match import.ty() {
            wasmer::ExternType::Function(_) => ImportKind::Function,
            wasmer::ExternType::Global(_) => ImportKind::Global,
            wasmer::ExternType::Table(ty) => ImportKind::Table(*ty),
            wasmer::ExternType::Memory(ty) => ImportKind::Memory(*ty),
            wasmer::ExternType::Tag(_) => ImportKind::Tag,
        },
    }).collect()
}

/// What the elements of a table are.
#[derive(Clone, Copy, Debug, PartialEq, Eq, Structural)]
pub enum ElementType {
    I32,
    I64,
    F32,
    F64,
    V128,
    ExternRef,
    FuncRef,
    ExceptionRef,
}

/// The fields of a table type.
#[derive(Clone, Copy, Debug, PartialEq, Eq, Structural)]
pub struct TableParts {
    pub element: ElementType,
    pub minimum: u32,
    pub maximum: Option<u32>,
}

/// The fields of a `wasmer::TableType`.
pub uninterp spec fn table_parts(ty: wasmer::TableType) -> TableParts;

/// Reads the fields of a `wasmer::TableType`.
#[verifier::external_body]
pub(crate) fn read_table_parts(ty: &wasmer::TableType) -> (parts: TableParts)
    ensures
        parts == table_parts(*ty),
{
    let element = match ty.ty {
        wasmer::Type::I32 => ElementType::I32,
        wasmer::Type::I64 => ElementType::I64,
        wasmer::Type::F32 => ElementType::F32,
        wasmer::Type::F64 => ElementType::F64,
        wasmer::Type::V128 => ElementType::V128,
        wasmer::Type::ExternRef => ElementType::ExternRef,
        wasmer::Type::FuncRef => ElementType::FuncRef,
        wasmer::Type::ExceptionRef => ElementType::ExceptionRef,
    };
    TableParts { element, minimum: ty.minimum, maximum: ty.maximum }
}

/// The guest states that a store owns, each behind the handle that names it.
pub uninterp spec fn store_envs(store: wasmer::StoreMut<'_>) -> Map<
    wasmer::FunctionEnv<NapiEnv>,
    NapiEnvView,
>;

/// What one slot of a table holds.
pub enum TableSlot {
    Function(Option<wasmer::Function>),
    Other,
}

/// What kind of thing one slot of a table holds.
pub enum SlotKind {
    Function,
    Null,
    Other,
}

/// The kind of what a slot holds.
pub open spec fn slot_kind(slot: TableSlot) -> SlotKind {
    match slot {
        TableSlot::Function(Some(_)) => SlotKind::Function,
        TableSlot::Function(None) => SlotKind::Null,
        TableSlot::Other => SlotKind::Other,
    }
}

/// What the slots of a table hold, first to last.
pub uninterp spec fn table_slots(table: wasmer::Table, store: wasmer::StoreMut<'_>) -> Seq<
    SlotKind,
>;

/// Whether a table belongs to a store: what `wasmer::Table::is_from_store` returns.
pub uninterp spec fn table_in_store(table: wasmer::Table, store: wasmer::StoreMut<'_>) -> bool;

/// Whether a table holds a function at an index.
pub open spec fn holds_function(
    table: wasmer::Table,
    store: wasmer::StoreMut<'_>,
    index: u32,
) -> bool {
    index < table_slots(table, store).len() && table_slots(table, store)[index as int]
        == SlotKind::Function
}

/// Whether a function is a handle to the function that a table holds at an index.
pub uninterp spec fn is_function_at(
    function: wasmer::Function,
    table: wasmer::Table,
    store: wasmer::StoreMut<'_>,
    index: u32,
) -> bool;

/// Whether the engine of a store knows the signature of the function that a table holds at an
/// index. An engine knows the functions of the modules that it compiled and those of its host, and
/// does not forget them; a module that another engine compiled can be instantiated in the store all
/// the same, and its functions are then not known.
pub uninterp spec fn signature_known(
    table: wasmer::Table,
    store: wasmer::StoreMut<'_>,
    index: u32,
) -> bool;

/// Whether the slot of a table at an index can be read: what is in it, if it is a function, has a
/// signature that the engine of the store knows.
pub open spec fn is_readable(
    table: wasmer::Table,
    store: wasmer::StoreMut<'_>,
    index: u32,
) -> bool {
    holds_function(table, store, index) ==> signature_known(table, store, index)
}

/// The tables that a store holds.
pub uninterp spec fn store_tables(store: wasmer::StoreMut<'_>) -> Set<wasmer::Table>;

/// Whether a store has the same tables as before, with the same in their slots. Signatures that were
/// known are still known.
pub open spec fn tables_untouched(
    before: wasmer::StoreMut<'_>,
    after: wasmer::StoreMut<'_>,
) -> bool {
    &&& store_tables(after) == store_tables(before)
    &&& forall|t: wasmer::Table| #[trigger] table_in_store(t, after) == table_in_store(t, before)
    &&& forall|t: wasmer::Table| #[trigger] table_slots(t, after) == table_slots(t, before)
    &&& forall|t: wasmer::Table, index: u32|
        signature_known(t, before, index) ==> #[trigger] signature_known(t, after, index)
}

/// Whether a store has one table more than before, and the others are as they were.
pub open spec fn table_added(
    before: wasmer::StoreMut<'_>,
    after: wasmer::StoreMut<'_>,
    made: wasmer::Table,
) -> bool {
    &&& !store_tables(before).contains(made)
    &&& store_tables(after) == store_tables(before).insert(made)
    &&& forall|t: wasmer::Table| #[trigger] table_in_store(t, after) == table_in_store(t, before)
    &&& forall|t: wasmer::Table|
        store_tables(before).contains(t) ==> #[trigger] table_slots(t, after) == table_slots(
            t,
            before,
        )
    &&& forall|t: wasmer::Table, index: u32|
        store_tables(before).contains(t) && signature_known(t, before, index)
            ==> #[trigger] signature_known(t, after, index)
}

/// Calls `wasmer::FunctionEnv::new`, which moves `env` into the store and returns a new handle to
/// it. The states and the tables that the store owned before stay as they were.
#[verifier::external_body]
pub(crate) fn new_function_env(store: &mut wasmer::StoreMut<'_>, env: NapiEnv) -> (func_env:
    wasmer::FunctionEnv<NapiEnv>)
    ensures
        !store_envs(*old(store)).contains_key(func_env),
        store_envs(*final(store)) == store_envs(*old(store)).insert(func_env, env@),
        tables_untouched(*old(store), *final(store)),
{
    wasmer::FunctionEnv::new(store, env)
}

/// Calls `wasmer::FunctionEnv::as_mut`, which lends the state behind a handle. What becomes of the
/// state has no effect on the tables of the store. It panics on a handle of another store, so the
/// store has to own the state.
#[verifier::external_body]
pub(crate) fn function_env_mut<'a>(
    func_env: &wasmer::FunctionEnv<NapiEnv>,
    store: &'a mut wasmer::StoreMut<'_>,
) -> (env: &'a mut NapiEnv)
    requires
        store_envs(*old(store)).contains_key(*func_env),
    ensures
        env@ == store_envs(*old(store))[*func_env],
        store_envs(*final(store)) == store_envs(*old(store)).insert(*func_env, final(env)@),
        tables_untouched(*old(store), *final(store)),
{
    func_env.as_mut(store)
}

/// The type that a memory was made with.
pub uninterp spec fn memory_made_as(memory: wasmer::Memory) -> wasmer::MemoryType;

/// Calls `wasmer::Memory::new`, which adds a memory of type `ty` to the store. Whether it succeeds
/// rests on the machine, and on the limits in `ty`; that is not stated here. It leaves the guest
/// states and the tables of the store alone.
#[verifier::external_body]
pub(crate) fn new_memory(store: &mut wasmer::StoreMut<'_>, ty: wasmer::MemoryType) -> (memory:
    Result<wasmer::Memory, wasmer::MemoryError>)
    ensures
        store_envs(*final(store)) == store_envs(*old(store)),
        tables_untouched(*old(store), *final(store)),
        memory matches Ok(memory) ==> memory_made_as(memory) == ty,
{
    wasmer::Memory::new(store, ty)
}

/// Whether `wasmer::Table::new` takes a function reference as the first element for a table of
/// this type: it panics when it has elements to fill and they are not function references.
pub open spec fn takes_functions(ty: wasmer::TableType) -> bool {
    table_parts(ty).element != ElementType::ExternRef || table_parts(ty).minimum == 0
}

/// The type that a table was made with.
pub uninterp spec fn table_made_as(table: wasmer::Table) -> wasmer::TableType;

/// Calls `wasmer::Table::new`, which adds a table of type `ty` to the store, with `init` in every
/// slot. How many slots there are rests on the tunables of the engine, and whether it succeeds on
/// them, on the machine and on the limits in `ty`; that is not stated here. It leaves the guest
/// states and the other tables of the store alone. It panics on some functions of the host as the
/// first element, so that has to be null. Tunables are code of the host; nothing here keeps those
/// from panicking that do so themselves or make a table of another type.
#[verifier::external_body]
pub(crate) fn new_table(
    store: &mut wasmer::StoreMut<'_>,
    ty: wasmer::TableType,
    init: Option<wasmer::Function>,
) -> (table: Result<wasmer::Table, wasmer::RuntimeError>)
    requires
        takes_functions(ty),
        init is None,
    ensures
        store_envs(*final(store)) == store_envs(*old(store)),
        table matches Ok(table) ==> table_made_as(table) == ty,
        table matches Ok(table) ==> table_in_store(table, *final(store)),
        table matches Ok(table) ==> store_tables(*final(store)).contains(table),
        match table {
            Ok(table) => table_added(*old(store), *final(store), table),
            Err(_) => tables_untouched(*old(store), *final(store)),
        },
        table matches Ok(table) ==> forall|i: int|
            0 <= i < table_slots(table, *final(store)).len() ==> #[trigger] table_slots(
                table,
                *final(store),
            )[i] == SlotKind::Null,
{
    wasmer::Table::new(store, ty, wasmer::Value::FuncRef(init))
}

/// Something that the host gives a guest under a name.
pub enum ImportValue {
    Memory(wasmer::Memory),
    Table(wasmer::Table),
}

/// What an import object holds under a name.
pub enum ImportEntry {
    Memory(wasmer::Memory),
    Table(wasmer::Table),
    /// A function, a global or a tag.
    Other,
}

/// What an import object holds once a value was put into it.
pub open spec fn entry_of(value: ImportValue) -> ImportEntry {
    match value {
        ImportValue::Memory(memory) => ImportEntry::Memory(memory),
        ImportValue::Table(table) => ImportEntry::Table(table),
    }
}

/// Everything that an import object holds, by namespace and name.
pub uninterp spec fn import_entries(imports: wasmer::Imports) -> Map<
    (Seq<char>, Seq<char>),
    ImportEntry,
>;

/// Nothing at all.
pub open spec fn no_entries() -> Map<(Seq<char>, Seq<char>), ImportEntry> {
    Map::empty()
}

/// Calls `wasmer::Imports::new`, which returns an import object that holds nothing.
#[verifier::external_body]
pub(crate) fn new_imports() -> (imports: wasmer::Imports)
    ensures
        import_entries(imports) == no_entries(),
{
    wasmer::Imports::new()
}

/// Calls `wasmer::Imports::define`, which puts one value under a namespace and a name, in place of
/// what was there.
#[verifier::external_body]
pub(crate) fn define_import(
    imports: &mut wasmer::Imports,
    namespace: &str,
    name: &str,
    value: ImportValue,
)
    ensures
        import_entries(*final(imports)) == import_entries(*old(imports)).insert(
            (namespace@, name@),
            entry_of(value),
        ),
{
    let value = match value {
        ImportValue::Memory(memory) => wasmer::Extern::Memory(memory),
        ImportValue::Table(table) => wasmer::Extern::Table(table),
    };
    imports.define(namespace, name, value);
}

/// The functions that an instance exports, by name.
pub uninterp spec fn exported_functions(instance: wasmer::Instance) -> Map<
    Seq<char>,
    wasmer::Function,
>;

/// Calls `wasmer::Exports::get_function` on the exports of an instance: the function exported
/// under `name`, or nothing when nothing, or something else, is exported under it.
#[verifier::external_body]
pub(crate) fn exported_function(instance: &wasmer::Instance, name: &str) -> (function: Option<
    wasmer::Function,
>)
    ensures
        function == exported_functions(*instance).get(name@),
{
    instance.exports.get_function(name).ok().cloned()
}

/// The tables that an instance exports, by name.
pub uninterp spec fn exported_tables(instance: wasmer::Instance) -> Map<Seq<char>, wasmer::Table>;

/// Calls `wasmer::Exports::get_table` on the exports of an instance: the table exported under
/// `name`, or nothing when nothing, or something else, is exported under it.
#[verifier::external_body]
pub(crate) fn exported_table(instance: &wasmer::Instance, name: &str) -> (table: Option<
    wasmer::Table,
>)
    ensures
        table == exported_tables(*instance).get(name@),
{
    instance.exports.get_table(name).ok().cloned()
}

/// Whether a function belongs to a store: what `wasmer::Function::is_from_store` returns.
pub uninterp spec fn function_in_store(
    function: wasmer::Function,
    store: wasmer::StoreMut<'_>,
) -> bool;

/// Calls `wasmer::Function::is_from_store`.
#[verifier::external_body]
pub(crate) fn is_function_in_store(
    function: &wasmer::Function,
    store: &wasmer::StoreMut<'_>,
) -> (belongs: bool)
    ensures
        belongs == function_in_store(*function, *store),
{
    function.is_from_store(store)
}

/// A function as one from an `i32` to an `i32`, if that is its signature: what
/// `wasmer::Function::typed` returns, without its error.
pub uninterp spec fn as_allocator(function: wasmer::Function) -> Option<
    wasmer::TypedFunction<i32, i32>,
>;

/// Calls `wasmer::Function::typed` for a function from an `i32` to an `i32`. What it returns rests
/// on the function's signature, which never changes. It panics on a function of another store.
#[verifier::external_body]
pub(crate) fn typed_allocator(function: &wasmer::Function, store: &wasmer::StoreMut<'_>) -> (typed:
    Option<wasmer::TypedFunction<i32, i32>>)
    requires
        function_in_store(*function, *store),
    ensures
        typed == as_allocator(*function),
{
    function.typed::<i32, i32>(store).ok()
}

/// Calls `wasmer::Table::is_from_store`.
#[verifier::external_body]
pub(crate) fn is_table_in_store(table: &wasmer::Table, store: &wasmer::StoreMut<'_>) -> (belongs:
    bool)
    ensures
        belongs == table_in_store(*table, *store),
{
    table.is_from_store(store)
}

/// Calls `wasmer::Table::get`: what the slot at `index` holds, or nothing beyond the last slot. A
/// function comes as a new handle to it on every call. The tables and the guest states of the store
/// stay as they were. It panics on a table of another store, and where the slot holds a function
/// whose signature the engine of the store does not know.
#[verifier::external_body]
pub(crate) fn table_get(
    table: &wasmer::Table,
    store: &mut wasmer::StoreMut<'_>,
    index: u32,
) -> (slot: Option<TableSlot>)
    requires
        table_in_store(*table, *old(store)),
        is_readable(*table, *old(store), index),
    ensures
        match slot {
            Some(slot) => index < table_slots(*table, *old(store)).len() && table_slots(
                *table,
                *old(store),
            )[index as int] == slot_kind(slot),
            None => index >= table_slots(*table, *old(store)).len(),
        },
        slot matches Some(TableSlot::Function(Some(function))) ==> is_function_at(
            function,
            *table,
            *old(store),
            index,
        ),
        holds_function(*table, *final(store), index) ==> signature_known(
            *table,
            *final(store),
            index,
        ),
        tables_untouched(*old(store), *final(store)),
        store_envs(*final(store)) == store_envs(*old(store)),
{
    table.get(store, index).map(|value| match value {
        wasmer::Value::FuncRef(function) => TableSlot::Function(function),
        _ => TableSlot::Other,
    })
}

} // verus!
