//! One guest instance on its way from its imports to a running instance.
use vstd::prelude::*;

use crate::engine::{
    as_allocator, define_import, exported_function, exported_functions, exported_table,
    exported_tables, function_env_mut, function_in_store, import_entries, is_function_in_store,
    memory_made_as, new_function_env, new_imports, new_memory, new_table, no_entries,
    read_table_parts, store_envs, store_tables, table_added, table_in_store, table_made_as,
    table_parts, table_slots, tables_untouched, takes_functions, typed_allocator, ElementType,
    ImportEntry, ImportValue, SlotKind,
};
use crate::env::{binding_replaces_what_is_given, same_registrations, NapiEnv, NapiEnvView};
use crate::error::NapiError;
use crate::import::{
    find_imported_memory, find_imported_table, import_views, imported_memory, imported_table,
    the_first_memory_counts, the_first_table_counts, ImportKind, ImportView, ModuleImport,
    ENV_MODULE_NAME, MEMORY_IMPORT_NAME, TABLE_IMPORT_NAME,
};

verus! {

/// Name under which a guest exports the allocator that it means the host to use.
pub const GUEST_MALLOC_EXPORT_NAME: &'static str = "unofficial_napi_guest_malloc";

/// Name under which a guest exports its C allocator.
pub const MALLOC_EXPORT_NAME: &'static str = "malloc";

/// One guest instance on its way from its imports to a running instance. It occupies a place among
/// the active sessions of its context until it is released.
pub struct NapiSession {
    imported_memory_type: Option<wasmer::MemoryType>,
    imported_table_type: Option<wasmer::TableType>,
    func_env: Option<wasmer::FunctionEnv<NapiEnv>>,
}

/// The mathematical value of a [`NapiSession`].
#[verifier::ext_equal]
pub struct SessionView {
    pub imported_memory_type: Option<wasmer::MemoryType>,
    pub imported_table_type: Option<wasmer::TableType>,
    pub func_env: Option<wasmer::FunctionEnv<NapiEnv>>,
}

impl View for NapiSession {
    type V = SessionView;

    closed spec fn view(&self) -> SessionView {
        SessionView {
            imported_memory_type: self.imported_memory_type,
            imported_table_type: self.imported_table_type,
            func_env: self.func_env,
        }
    }
}

/// The session of a module with these imports, before it has made any.
pub open spec fn session_for(imports: Seq<ImportView>) -> SessionView {
    SessionView {
        imported_memory_type: imported_memory(imports),
        imported_table_type: imported_table(imports),
        func_env: None,
    }
}

/// What an import object holds that offers a guest this memory and this table.
pub open spec fn entries_for(
    memory: Option<wasmer::Memory>,
    table: Option<wasmer::Table>,
) -> Map<(Seq<char>, Seq<char>), ImportEntry> {
    let with_memory = match memory {
        Some(memory) => no_entries().insert(
            (ENV_MODULE_NAME@, MEMORY_IMPORT_NAME@),
            ImportEntry::Memory(memory),
        ),
        None => no_entries(),
    };
    match table {
        Some(table) => with_memory.insert(
            (ENV_MODULE_NAME@, TABLE_IMPORT_NAME@),
            ImportEntry::Table(table),
        ),
        None => with_memory,
    }
}

/// Whether a memory is there exactly when a type asks for one, and was made with that type.
pub open spec fn memory_fits(
    ty: Option<wasmer::MemoryType>,
    memory: Option<wasmer::Memory>,
) -> bool {
    match ty {
        Some(ty) => memory is Some && memory_made_as(memory->0) == ty,
        None => memory is None,
    }
}

/// Whether a table is there exactly when a type asks for one, and was made with that type.
pub open spec fn table_fits(ty: Option<wasmer::TableType>, table: Option<wasmer::Table>) -> bool {
    match ty {
        Some(ty) => table is Some && table_made_as(table->0) == ty,
        None => table is None,
    }
}

/// What making the imports of a session comes to: the result, and the guest state that it leaves
/// in the store. The guest state knows nothing but the memory and the table. Failure is possible
/// only where the guest asks for one of the two: of the memory first, then of the table.
pub open spec fn imports_made(
    session: SessionView,
    env: NapiEnvView,
    result: Result<wasmer::Imports, NapiError>,
) -> bool {
    &&& env == (NapiEnvView { memory: env.memory, table: env.table, ..NapiEnvView::empty() })
    &&& match result {
        Ok(imports) => {
            &&& memory_fits(session.imported_memory_type, env.memory)
            &&& table_fits(session.imported_table_type, env.table)
            &&& import_entries(imports) == entries_for(env.memory, env.table)
        },
        Err(NapiError::Memory(_)) => {
            &&& session.imported_memory_type is Some
            &&& env.memory is None
            &&& env.table is None
        },
        Err(NapiError::Table(_)) => {
            &&& memory_fits(session.imported_memory_type, env.memory)
            &&& session.imported_table_type is Some
            &&& env.table is None
        },
        Err(_) => false,
    }
}

/// Whether a table of the store holds null function references, and nothing else.
pub open spec fn is_placeholder(table: wasmer::Table, store: wasmer::StoreMut<'_>) -> bool {
    &&& store_tables(store).contains(table)
    &&& table_in_store(table, store)
    &&& forall|i: int|
        0 <= i < table_slots(table, store).len() ==> #[trigger] table_slots(table, store)[i]
            == SlotKind::Null
}

/// What making imports comes to for the tables of a store: at most one is new, the one bound to the
/// new guest state, and all others are as they were.
pub open spec fn only_table_added(
    before: wasmer::StoreMut<'_>,
    after: wasmer::StoreMut<'_>,
    table: Option<wasmer::Table>,
) -> bool {
    match table {
        Some(table) => table_added(before, after, table),
        None => tables_untouched(before, after),
    }
}

/// The placeholder of one guest stays a placeholder when the imports of another are made in the same
/// store, and the two guests do not share it.
pub proof fn placeholders_are_kept_apart(
    table: wasmer::Table,
    other: Option<wasmer::Table>,
    before: wasmer::StoreMut<'_>,
    after: wasmer::StoreMut<'_>,
)
    requires
        is_placeholder(table, before),
        only_table_added(before, after, other),
    ensures
        is_placeholder(table, after),
        other != Some(table),
{
}

/// What a reference that may be missing refers to.
pub open spec fn referent<T>(reference: Option<&T>) -> Option<T> {
    match reference {
        Some(value) => Some(*value),
        None => None,
    }
}

/// The allocator among the exports of an instance under `name`.
pub open spec fn exported_allocator(
    instance: wasmer::Instance,
    name: Seq<char>,
) -> Option<wasmer::TypedFunction<i32, i32>> {
    match exported_functions(instance).get(name) {
        Some(function) => as_allocator(function),
        None => None,
    }
}

/// The allocator that the linker resolved for the guest.
pub open spec fn linked_allocator(imported_malloc: Option<wasmer::Function>) -> Option<
    wasmer::TypedFunction<i32, i32>,
> {
    match imported_malloc {
        Some(function) => as_allocator(function),
        None => None,
    }
}

/// The allocator that the host uses on behalf of the guest: the one that the linker resolved,
/// else the one that the guest exports for the host, else the guest's C allocator. A function that
/// does not have an allocator's signature does not count.
pub open spec fn chosen_allocator(
    instance: wasmer::Instance,
    imported_malloc: Option<wasmer::Function>,
) -> Option<wasmer::TypedFunction<i32, i32>> {
    if linked_allocator(imported_malloc) is Some {
        linked_allocator(imported_malloc)
    } else if exported_allocator(instance, GUEST_MALLOC_EXPORT_NAME@) is Some {
        exported_allocator(instance, GUEST_MALLOC_EXPORT_NAME@)
    } else {
        exported_allocator(instance, MALLOC_EXPORT_NAME@)
    }
}

/// The function table through which the host calls the guest: the one that the linker supplied,
/// else the one that the guest exports.
pub open spec fn chosen_table(
    instance: wasmer::Instance,
    imported_table: Option<wasmer::Table>,
) -> Option<wasmer::Table> {
    if imported_table is Some {
        imported_table
    } else {
        exported_tables(instance).get(TABLE_IMPORT_NAME@)
    }
}

/// Whether a function, if there is one, belongs to the store.
pub open spec fn fits_store(
    function: Option<wasmer::Function>,
    store: wasmer::StoreMut<'_>,
) -> bool {
    function is Some ==> function_in_store(function->0, store)
}

/// Whether every function whose signature is looked at on the way to the allocator belongs to the
/// store.
pub open spec fn allocators_fit(
    instance: wasmer::Instance,
    imported_malloc: Option<wasmer::Function>,
    store: wasmer::StoreMut<'_>,
) -> bool {
    let exports = exported_functions(instance);
    &&& fits_store(imported_malloc, store)
    &&& linked_allocator(imported_malloc) is None ==> {
        &&& fits_store(exports.get(GUEST_MALLOC_EXPORT_NAME@), store)
        &&& exported_allocator(instance, GUEST_MALLOC_EXPORT_NAME@) is None ==> fits_store(
            exports.get(MALLOC_EXPORT_NAME@),
            store,
        )
    }
}

/// Whether there is anything to bind to a guest state.
pub open spec fn has_resources(
    memory: Option<wasmer::Memory>,
    malloc_fn: Option<wasmer::TypedFunction<i32, i32>>,
    table: Option<wasmer::Table>,
) -> bool {
    memory is Some || malloc_fn is Some || table is Some
}

/// What configuring an instance comes to, for a session with this handle to a guest state. Without
/// one it is refused. With one it succeeds, and what there is to bind is bound to the guest state,
/// while the tables of the store stay as they are; where there is nothing, the store is left alone.
pub open spec fn instance_configured(
    func_env: Option<wasmer::FunctionEnv<NapiEnv>>,
    memory: Option<wasmer::Memory>,
    malloc_fn: Option<wasmer::TypedFunction<i32, i32>>,
    table: Option<wasmer::Table>,
    before: wasmer::StoreMut<'_>,
    after: wasmer::StoreMut<'_>,
    result: Result<(), NapiError>,
) -> bool {
    match func_env {
        Some(func_env) => {
            &&& result == Ok::<(), NapiError>(())
            &&& if has_resources(memory, malloc_fn, table) {
                &&& store_envs(after) == store_envs(before).insert(
                    func_env,
                    store_envs(before)[func_env].bind(memory, malloc_fn, table),
                )
                &&& tables_untouched(before, after)
            } else {
                after == before
            }
        },
        None => {
            &&& result == Err::<(), NapiError>(NapiError::MissingFunctionEnv)
            &&& after == before
        },
    }
}

/// Configuring an instance fails exactly for a session that has made no imports, and then changes
/// nothing. With imports made it succeeds, also where there is nothing to bind; the store need not
/// even own the guest state then, and is left alone.
pub proof fn configuring_fails_only_without_imports(
    session: SessionView,
    memory: Option<wasmer::Memory>,
    malloc_fn: Option<wasmer::TypedFunction<i32, i32>>,
    table: Option<wasmer::Table>,
    before: wasmer::StoreMut<'_>,
    after: wasmer::StoreMut<'_>,
    result: Result<(), NapiError>,
)
    requires
        instance_configured(session.func_env, memory, malloc_fn, table, before, after, result),
    ensures
        result is Err <==> session.func_env is None,
        result is Err ==> after == before,
        !has_resources(memory, malloc_fn, table) ==> after == before,
{
}

/// Puts the outcome of making a guest's memory to use: a memory is offered to the guest and bound
/// to its state; an error is handed on, and nothing changes.
pub fn offer_memory(
    imports: &mut wasmer::Imports,
    env: &mut NapiEnv,
    made: Result<wasmer::Memory, wasmer::MemoryError>,
) -> (result: Result<(), NapiError>)
    ensures
        match made {
            Ok(memory) => {
                &&& result == Ok::<(), NapiError>(())
                &&& final(env)@ == (NapiEnvView { memory: Some(memory), ..old(env)@ })
                &&& import_entries(*final(imports)) == import_entries(*old(imports)).insert(
                    (ENV_MODULE_NAME@, MEMORY_IMPORT_NAME@),
                    ImportEntry::Memory(memory),
                )
            },
            Err(error) => {
                &&& result == Err::<(), NapiError>(NapiError::Memory(error))
                &&& *final(env) == *old(env)
                &&& *final(imports) == *old(imports)
            },
        },
{
    match made {
        Ok(memory) => {
            define_import(
                imports,
                ENV_MODULE_NAME,
                MEMORY_IMPORT_NAME,
                ImportValue::Memory(memory.clone()),
            );
            env.memory = Some(memory);
            Ok(())
        },
        Err(error) => Err(NapiError::Memory(error)),
    }
}

/// Puts the outcome of making a guest's function table to use: a table is offered to the guest and
/// bound to its state; an error is handed on, and nothing changes.
pub fn offer_table(
    imports: &mut wasmer::Imports,
    env: &mut NapiEnv,
    made: Result<wasmer::Table, wasmer::RuntimeError>,
) -> (result: Result<(), NapiError>)
    ensures
        match made {
            Ok(table) => {
                &&& result == Ok::<(), NapiError>(())
                &&& final(env)@ == (NapiEnvView { table: Some(table), ..old(env)@ })
                &&& import_entries(*final(imports)) == import_entries(*old(imports)).insert(
                    (ENV_MODULE_NAME@, TABLE_IMPORT_NAME@),
                    ImportEntry::Table(table),
                )
            },
            Err(error) => {
                &&& result == Err::<(), NapiError>(NapiError::Table(error))
                &&& *final(env) == *old(env)
                &&& *final(imports) == *old(imports)
            },
        },
{
    match made {
        Ok(table) => {
            define_import(
                imports,
                ENV_MODULE_NAME,
                TABLE_IMPORT_NAME,
                ImportValue::Table(table.clone()),
            );
            env.table = Some(table);
            Ok(())
        },
        Err(error) => Err(NapiError::Table(error)),
    }
}

/// Tests whether the engine can be asked for a table of this type.
pub(crate) fn can_make(ty: &wasmer::TableType) -> (askable: bool)
    ensures
        askable == takes_functions(*ty),
{
    let parts = read_table_parts(ty);
    parts.element != ElementType::ExternRef || parts.minimum == 0
}

/// Looks for an allocator among the exports of an instance.
fn find_exported_allocator(
    store: &wasmer::StoreMut<'_>,
    instance: &wasmer::Instance,
    name: &str,
) -> (allocator: Option<wasmer::TypedFunction<i32, i32>>)
    requires
        fits_store(exported_functions(*instance).get(name@), *store),
    ensures
        allocator == exported_allocator(*instance, name@),
{
    match exported_function(instance, name) {
        Some(function) => typed_allocator(&function, store),
        None => None,
    }
}

/// Looks for the allocator that the host uses on behalf of the guest.
fn find_allocator(
    store: &wasmer::StoreMut<'_>,
    instance: &wasmer::Instance,
    imported_malloc: Option<&wasmer::Function>,
) -> (allocator: Option<wasmer::TypedFunction<i32, i32>>)
    requires
        allocators_fit(*instance, referent(imported_malloc), *store),
    ensures
        allocator == chosen_allocator(*instance, referent(imported_malloc)),
{
    let linked = match imported_malloc {
        Some(function) => typed_allocator(function, store),
        None => None,
    };
    if linked.is_some() {
        return linked;
    }
    let guest = find_exported_allocator(store, instance, GUEST_MALLOC_EXPORT_NAME);
    if guest.is_some() {
        return guest;
    }
    find_exported_allocator(store, instance, MALLOC_EXPORT_NAME)
}

/// Tests whether every function whose signature has to be looked at belongs to the store, which is
/// what configuring an instance demands.
pub fn allocators_fit_store(
    store: &wasmer::StoreMut<'_>,
    instance: &wasmer::Instance,
    imported_malloc: Option<&wasmer::Function>,
) -> (fit: bool)
    ensures
        fit == allocators_fit(*instance, referent(imported_malloc), *store),
{
    if let Some(function) = imported_malloc {
        if !is_function_in_store(function, store) {
            return false;
        }
        if typed_allocator(function, store).is_some() {
            return true;
        }
    }
    if let Some(function) = exported_function(instance, GUEST_MALLOC_EXPORT_NAME) {
        if !is_function_in_store(&function, store) {
            return false;
        }
        if typed_allocator(&function, store).is_some() {
            return true;
        }
    }
    match exported_function(instance, MALLOC_EXPORT_NAME) {
        Some(function) => is_function_in_store(&function, store),
        None => true,
    }
}

/// Tests whether there is anything to bind to the guest state of an instance, which is when
/// configuring it demands that the store owns that state.
pub fn finds_resources(
    store: &wasmer::StoreMut<'_>,
    instance: &wasmer::Instance,
    imported_memory: Option<&wasmer::Memory>,
    imported_table: Option<&wasmer::Table>,
    imported_malloc: Option<&wasmer::Function>,
) -> (found: bool)
    requires
        allocators_fit(*instance, referent(imported_malloc), *store),
    ensures
        found == has_resources(
            referent(imported_memory),
            chosen_allocator(*instance, referent(imported_malloc)),
            chosen_table(*instance, referent(imported_table)),
        ),
{
    imported_memory.is_some() || imported_table.is_some() || find_allocator(
        store,
        instance,
        imported_malloc,
    ).is_some() || exported_table(instance, TABLE_IMPORT_NAME).is_some()
}

impl NapiSession {
    /// A session for a module with these imports.
    pub(crate) fn for_imports(imports: &Vec<ModuleImport>) -> (session: NapiSession)
        ensures
            session@ == session_for(import_views(imports@)),
    {
        NapiSession {
            imported_memory_type: find_imported_memory(imports),
            imported_table_type: find_imported_table(imports),
            func_env: None,
        }
    }

    /// The type of the memory that the guest imports.
    pub fn imported_memory_type(&self) -> (ty: Option<wasmer::MemoryType>)
        ensures
            ty == self@.imported_memory_type,
    {
        self.imported_memory_type
    }

    /// The type of the function table that the guest imports.
    pub fn imported_table_type(&self) -> (ty: Option<wasmer::TableType>)
        ensures
            ty == self@.imported_table_type,
    {
        self.imported_table_type
    }

    /// The handle to the guest state, once the imports have been made.
    pub fn func_env(&self) -> (func_env: Option<wasmer::FunctionEnv<NapiEnv>>)
        ensures
            func_env == self@.func_env,
    {
        match &self.func_env {
            Some(func_env) => Some(func_env.clone()),
            None => None,
        }
    }

    /// Tests whether the engine can be asked for the function table that the guest imports, which
    /// is what making the imports demands.
    pub fn can_make_table(&self) -> (askable: bool)
        ensures
            askable == (self@.imported_table_type is Some ==> takes_functions(
                self@.imported_table_type->0,
            )),
    {
        match &self.imported_table_type {
            Some(ty) => can_make(ty),
            None => true,
        }
    }

    /// Makes what the guest imports from the engine: a new guest state in the store, and the memory
    /// and the function table, where the guest imports them. The table holds null function
    /// references. The other tables of the store stay as they are. The import object returned holds
    /// these two; the host's functions are not in it.
    pub fn create_imports(&mut self, store: &mut wasmer::StoreMut<'_>) -> (result: Result<
        wasmer::Imports,
        NapiError,
    >)
        requires
            old(self)@.imported_table_type is Some ==> takes_functions(
                old(self)@.imported_table_type->0,
            ),
        ensures
            final(self)@.func_env is Some,
            final(self)@ == (SessionView { func_env: final(self)@.func_env, ..old(self)@ }),
            ({
                let func_env = final(self)@.func_env->0;
                let env = store_envs(*final(store))[func_env];
                &&& !store_envs(*old(store)).contains_key(func_env)
                &&& store_envs(*final(store)) == store_envs(*old(store)).insert(func_env, env)
                &&& imports_made(old(self)@, env, result)
                &&& only_table_added(*old(store), *final(store), env.table)
                &&& result is Ok && env.table is Some ==> is_placeholder(
                    env.table->0,
                    *final(store),
                )
            }),
    {
        let mut imports = new_imports();
        let func_env = new_function_env(store, NapiEnv::default());
        self.func_env = Some(func_env.clone());
        let ghost before = store_envs(*old(store));

        if let Some(memory_type) = self.imported_memory_type {
            let made = new_memory(store, memory_type);
            match offer_memory(&mut imports, function_env_mut(&func_env, store), made) {
                Ok(()) => {},
                Err(error) => {
                    return Err(error);
                },
            }
        }
        assert(store_envs(*store) =~= before.insert(func_env, store_envs(*store)[func_env]));

        if let Some(table_type) = self.imported_table_type {
            let made = new_table(store, table_type, None);
            match offer_table(&mut imports, function_env_mut(&func_env, store), made) {
                Ok(()) => {},
                Err(error) => {
                    return Err(error);
                },
            }
        }
        assert(store_envs(*store) =~= before.insert(func_env, store_envs(*store)[func_env]));

        Ok(imports)
    }

    /// Binds the resources of the running instance to the guest state: the memory that the linker
    /// supplied, if it did, the allocator, and the function table. What is not found stays as it
    /// was made with the imports. The store has to own the guest state where there is anything to
    /// bind.
    pub fn configure_instance(
        &self,
        store: &mut wasmer::StoreMut<'_>,
        instance: &wasmer::Instance,
        imported_memory: Option<&wasmer::Memory>,
        imported_table: Option<&wasmer::Table>,
        imported_malloc: Option<&wasmer::Function>,
    ) -> (result: Result<(), NapiError>)
        requires
            self@.func_env is Some && has_resources(
                referent(imported_memory),
                chosen_allocator(*instance, referent(imported_malloc)),
                chosen_table(*instance, referent(imported_table)),
            ) ==> store_envs(*old(store)).contains_key(self@.func_env->0),
            self@.func_env is Some ==> allocators_fit(
                *instance,
                referent(imported_malloc),
                *old(store),
            ),
        ensures
            instance_configured(
                self@.func_env,
                referent(imported_memory),
                chosen_allocator(*instance, referent(imported_malloc)),
                chosen_table(*instance, referent(imported_table)),
                *old(store),
                *final(store),
                result,
            ),
    {
        let func_env = match &self.func_env {
            Some(func_env) => func_env,
            None => {
                return Err(NapiError::MissingFunctionEnv);
            },
        };
        let memory = match imported_memory {
            Some(memory) => Some(memory.clone()),
            None => None,
        };
        let malloc_fn = find_allocator(store, instance, imported_malloc);
        let table = match imported_table {
            Some(table) => Some(table.clone()),
            None => exported_table(instance, TABLE_IMPORT_NAME),
        };
        if memory.is_some() || malloc_fn.is_some() || table.is_some() {
            function_env_mut(func_env, store).bind(memory, malloc_fn, table);
        }
        Ok(())
    }
}

/// A new session knows the first memory and the first function table that its module imports, as
/// [`the_first_memory_counts`] and [`the_first_table_counts`] say, and has made no imports.
pub proof fn a_session_knows_the_first_imports(imports: Seq<ImportView>)
    ensures
        session_for(imports).func_env is None,
        session_for(imports).imported_memory_type is None <==> forall|i: int|
            0 <= i < imports.len() ==> !((#[trigger] imports[i]).module == "env"@
                && imports[i].name == "memory"@ && imports[i].kind is Memory),
        session_for(imports).imported_memory_type matches Some(ty) ==> exists|i: int|
            {
                &&& 0 <= i < imports.len()
                &&& (#[trigger] imports[i]).module == "env"@
                &&& imports[i].name == "memory"@
                &&& imports[i].kind == ImportKind::Memory(ty)
                &&& forall|j: int|
                    0 <= j < i ==> !((#[trigger] imports[j]).module == "env"@ && imports[j].name
                        == "memory"@ && imports[j].kind is Memory)
            },
        session_for(imports).imported_table_type is None <==> forall|i: int|
            0 <= i < imports.len() ==> !((#[trigger] imports[i]).module == "env"@
                && imports[i].name == "__indirect_function_table"@ && imports[i].kind is Table),
        session_for(imports).imported_table_type matches Some(ty) ==> exists|i: int|
            {
                &&& 0 <= i < imports.len()
                &&& (#[trigger] imports[i]).module == "env"@
                &&& imports[i].name == "__indirect_function_table"@
                &&& imports[i].kind == ImportKind::Table(ty)
                &&& forall|j: int|
                    0 <= j < i ==> !((#[trigger] imports[j]).module == "env"@ && imports[j].name
                        == "__indirect_function_table"@ && imports[j].kind is Table)
            },
{
    the_first_memory_counts(imports);
    the_first_table_counts(imports);
}

/// Where the imports of a session were made, the guest finds its memory under `env` and `memory`,
/// made with the type that it asked for, whether or not it imports a table. It finds its table under
/// `env` and `__indirect_function_table`, whether or not it imports a memory. Both are those of its
/// guest state. What it does not ask for is not there, and nothing else is.
pub proof fn a_guest_finds_what_it_imports(
    session: SessionView,
    env: NapiEnvView,
    imports: wasmer::Imports,
)
    requires
        imports_made(session, env, Ok(imports)),
    ensures
        ({
            let entries = import_entries(imports);
            let memory_key = ("env"@, "memory"@);
            let table_key = ("env"@, "__indirect_function_table"@);
            &&& session.imported_memory_type matches Some(ty) ==> {
                &&& env.memory is Some
                &&& memory_made_as(env.memory->0) == ty
                &&& entries.contains_key(memory_key)
                &&& entries[memory_key] == ImportEntry::Memory(env.memory->0)
            }
            &&& session.imported_table_type matches Some(ty) ==> {
                &&& env.table is Some
                &&& table_made_as(env.table->0) == ty
                &&& entries.contains_key(table_key)
                &&& entries[table_key] == ImportEntry::Table(env.table->0)
            }
            &&& session.imported_memory_type is None ==> env.memory is None
                && !entries.contains_key(memory_key)
            &&& session.imported_table_type is None ==> env.table is None
                && !entries.contains_key(table_key)
            &&& forall|key: (Seq<char>, Seq<char>)| #[trigger]
                entries.contains_key(key) ==> key == memory_key || key == table_key
        }),
{
    reveal_strlit("memory");
    reveal_strlit("__indirect_function_table");
    assert("memory"@.len() != "__indirect_function_table"@.len());
}

/// The guest state made with the imports holds nothing but the memory and the table: no allocator,
/// no buffers, no callbacks and no handles.
pub proof fn imports_begin_with_a_new_state(
    session: SessionView,
    env: NapiEnvView,
    result: Result<wasmer::Imports, NapiError>,
)
    requires
        imports_made(session, env, result),
    ensures
        env.malloc_fn is None,
        env.default_napi_env_id is None,
        forall|handle: u32| !(#[trigger] env.guest_data_ptrs.contains_key(handle)),
        forall|token: u64| !(#[trigger] env.guest_data_backing_stores.contains_key(token)),
        env.host_buffer_copies.len() == 0,
        env.host_buffer_copy_frames.len() == 0,
        env.host_buffer_method_frames.len() == 0,
        forall|id: u32| !(#[trigger] env.napi_envs.contains_key(id)),
        forall|state: usize| !(#[trigger] env.napi_state_to_guest_env.contains_key(state)),
        forall|scope: u32| !(#[trigger] env.napi_scopes.contains_key(scope)),
{
}

/// Making imports fails only where the engine was asked for something: with the memory's error only
/// for a guest that imports a memory, and with the table's only for one that imports a table. A
/// guest that imports neither never fails.
pub proof fn imports_fail_only_with_the_engine(
    session: SessionView,
    env: NapiEnvView,
    result: Result<wasmer::Imports, NapiError>,
)
    requires
        imports_made(session, env, result),
    ensures
        session.imported_memory_type is None && session.imported_table_type is None ==> result
            is Ok,
        result matches Err(error) ==> {
            ||| error is Memory && session.imported_memory_type is Some && env.memory is None
                && env.table is None
            ||| error is Table && session.imported_table_type is Some && env.table is None
                && env.memory is Some == session.imported_memory_type is Some
        },
{
}

/// Every slot of a table that is still as it was made with the imports holds a null function
/// reference, and the table is one of the store.
pub proof fn a_placeholder_is_filled_with_null(
    table: wasmer::Table,
    store: wasmer::StoreMut<'_>,
    i: int,
)
    requires
        is_placeholder(table, store),
        0 <= i < table_slots(table, store).len(),
    ensures
        table_slots(table, store)[i] == SlotKind::Null,
        table_in_store(table, store),
        store_tables(store).contains(table),
{
}

/// Making the imports of a guest leaves every table that the store had as it was, slot for slot, and
/// adds no table but the one for the guest.
pub proof fn imports_leave_other_tables(
    before: wasmer::StoreMut<'_>,
    after: wasmer::StoreMut<'_>,
    made: Option<wasmer::Table>,
    other: wasmer::Table,
)
    requires
        only_table_added(before, after, made),
    ensures
        store_tables(before).contains(other) ==> {
            &&& store_tables(after).contains(other)
            &&& made != Some(other)
            &&& table_slots(other, after) == table_slots(other, before)
        },
        store_tables(after).contains(other) ==> store_tables(before).contains(other) || made
            == Some(other),
        made is Some ==> store_tables(after).contains(made->0),
        table_in_store(other, after) == table_in_store(other, before),
{
}

/// The engine cannot be asked for a table of foreign references with slots in it, and can be asked
/// for any other.
pub proof fn only_filled_foreign_tables_are_refused(ty: wasmer::TableType)
    ensures
        takes_functions(ty) <==> !(table_parts(ty).element == ElementType::ExternRef && table_parts(
            ty,
        ).minimum > 0),
{
}

/// An allocator that the linker supplies comes first, whatever the instance exports, even if it
/// exports none: a linker's function with an allocator's signature is the one chosen.
pub proof fn the_linkers_allocator_comes_first(
    instance: wasmer::Instance,
    malloc: wasmer::Function,
)
    requires
        as_allocator(malloc) is Some,
    ensures
        chosen_allocator(instance, Some(malloc)) == as_allocator(malloc),
{
}

/// Where the linker supplies no allocator, or a function that is none, the one that the guest
/// exports for the host comes next; where that is missing or none, the guest's `malloc`; and where
/// that is missing or none too, there is no allocator.
pub proof fn exported_allocators_come_next(
    instance: wasmer::Instance,
    imported_malloc: Option<wasmer::Function>,
)
    requires
        imported_malloc is Some ==> as_allocator(imported_malloc->0) is None,
    ensures
        ({
            let exports = exported_functions(instance);
            let host = "unofficial_napi_guest_malloc"@;
            let own = "malloc"@;
            let for_host = exports.contains_key(host) && as_allocator(exports[host]) is Some;
            let chosen = chosen_allocator(instance, imported_malloc);
            &&& for_host ==> chosen == as_allocator(exports[host])
            &&& !for_host && exports.contains_key(own) ==> chosen == as_allocator(exports[own])
            &&& !for_host && !exports.contains_key(own) ==> chosen is None
        }),
{
}

/// A table that the linker supplies comes first, whatever the instance exports; without one it is
/// the table exported as `__indirect_function_table`, if there is one.
pub proof fn the_linkers_table_comes_first(instance: wasmer::Instance, table: wasmer::Table)
    ensures
        chosen_table(instance, Some(table)) == Some(table),
        exported_tables(instance).contains_key("__indirect_function_table"@) ==> chosen_table(
            instance,
            None,
        ) == Some(exported_tables(instance)["__indirect_function_table"@]),
        !exported_tables(instance).contains_key("__indirect_function_table"@) ==> chosen_table(
            instance,
            None,
        ) is None,
{
}

/// Configuring asks that a function belongs to the store only where its signature is looked at: the
/// linker's always; those that the instance exports only as long as no allocator was found before.
pub proof fn only_functions_looked_at_have_to_fit(
    instance: wasmer::Instance,
    imported_malloc: Option<wasmer::Function>,
    store: wasmer::StoreMut<'_>,
)
    ensures
        ({
            let exports = exported_functions(instance);
            let host = "unofficial_napi_guest_malloc"@;
            let own = "malloc"@;
            let linked = imported_malloc is Some && as_allocator(imported_malloc->0) is Some;
            let for_host = exports.contains_key(host) && as_allocator(exports[host]) is Some;
            allocators_fit(instance, imported_malloc, store) <==> {
                &&& imported_malloc is Some ==> function_in_store(imported_malloc->0, store)
                &&& !linked && exports.contains_key(host) ==> function_in_store(
                    exports[host],
                    store,
                )
                &&& !linked && !for_host && exports.contains_key(own) ==> function_in_store(
                    exports[own],
                    store,
                )
            }
        }),
{
}

/// What the guest state holds once an instance is configured: of memory, allocator and table each
/// the one that was found, and where none was found the one that was there before. Nothing else in
/// it changes, no other guest state does, and neither do the tables of the store.
pub proof fn configuring_binds_what_was_found(
    func_env: wasmer::FunctionEnv<NapiEnv>,
    memory: Option<wasmer::Memory>,
    malloc_fn: Option<wasmer::TypedFunction<i32, i32>>,
    table: Option<wasmer::Table>,
    before: wasmer::StoreMut<'_>,
    after: wasmer::StoreMut<'_>,
    result: Result<(), NapiError>,
    other: wasmer::FunctionEnv<NapiEnv>,
    other_table: wasmer::Table,
)
    requires
        instance_configured(Some(func_env), memory, malloc_fn, table, before, after, result),
        store_envs(before).contains_key(func_env),
        other != func_env,
    ensures
        result is Ok,
        ({
            let old_env = store_envs(before)[func_env];
            let new_env = store_envs(after)[func_env];
            &&& store_envs(after).contains_key(func_env)
            &&& memory is Some ==> new_env.memory == memory
            &&& memory is None ==> new_env.memory == old_env.memory
            &&& malloc_fn is Some ==> new_env.malloc_fn == malloc_fn
            &&& malloc_fn is None ==> new_env.malloc_fn == old_env.malloc_fn
            &&& table is Some ==> new_env.table == table
            &&& table is None ==> new_env.table == old_env.table
            &&& new_env.guest_data_ptrs == old_env.guest_data_ptrs
            &&& new_env.guest_data_backing_stores == old_env.guest_data_backing_stores
            &&& new_env.host_buffer_copies == old_env.host_buffer_copies
            &&& new_env.host_buffer_copy_frames == old_env.host_buffer_copy_frames
            &&& new_env.host_buffer_method_frames == old_env.host_buffer_method_frames
            &&& same_registrations(new_env, old_env)
        }),
        store_envs(after).get(other) == store_envs(before).get(other),
        table_slots(other_table, after) == table_slots(other_table, before),
        table_in_store(other_table, after) == table_in_store(other_table, before),
{
    binding_replaces_what_is_given(store_envs(before)[func_env], memory, malloc_fn, table);
}

/// Without a guest state nothing can be configured, and that is the error.
pub proof fn configuring_without_imports_is_refused(
    memory: Option<wasmer::Memory>,
    malloc_fn: Option<wasmer::TypedFunction<i32, i32>>,
    table: Option<wasmer::Table>,
    before: wasmer::StoreMut<'_>,
    after: wasmer::StoreMut<'_>,
    result: Result<(), NapiError>,
)
    requires
        instance_configured(None, memory, malloc_fn, table, before, after, result),
    ensures
        result == Err::<(), NapiError>(NapiError::MissingFunctionEnv),
        after == before,
{
}

/// There is something to bind exactly when a memory, an allocator or a table was found; and what a
/// reference refers to is what it was made from.
pub proof fn anything_found_is_a_resource<T>(
    memory: Option<wasmer::Memory>,
    malloc_fn: Option<wasmer::TypedFunction<i32, i32>>,
    table: Option<wasmer::Table>,
    value: T,
)
    ensures
        !has_resources(memory, malloc_fn, table) <==> memory is None && malloc_fn is None && table
            is None,
        referent(Some(&value)) == Some(value),
        referent(None::<&T>) is None,
{
}

} // verus!
