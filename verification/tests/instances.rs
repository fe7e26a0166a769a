use napi_wasmer::dispatch::{call_guest_callback, callback_answer, CallbackOutcome};
use napi_wasmer::session::{allocators_fit_store, finds_resources, offer_memory, offer_table};
use napi_wasmer::{GuestImports, NapiCtx, NapiEnv, NapiError, NapiRuntimeHooks, NapiSession};
use wasmer::sys::{BaseTunables, NativeEngineExt};
use wasmer::{
    AsStoreMut, Engine, Extern, Function, Imports, Instance, Memory, MemoryType, Module, Store, Table,
    TableType, Type, Value,
};
use wat::parse_str;

/// A store whose memories reserve no more address space than they use.
fn small_store() -> Store {
    let mut engine = Engine::default();
    engine.set_tunables(BaseTunables {
        static_memory_bound: 0.into(),
        static_memory_offset_guard_size: 0x1_0000,
        dynamic_memory_offset_guard_size: 0x1_0000,
    });
    Store::new(engine)
}

fn compile_wat(store: &Store, wat: &str) -> Module {
    let wasm = parse_str(wat).expect("wat module parses");
    Module::new(store, wasm).expect("wat module compiles")
}

fn known() -> Vec<String> {
    vec![String::from("napi_get_undefined")]
}

/// A module that imports a core function, its memory and its table, and exports two allocators.
fn guest_module(store: &Store) -> Module {
    compile_wat(
        store,
        r#"(module
            (import "napi" "napi_get_undefined" (func))
            (import "env" "memory" (memory 2 7))
            (import "env" "__indirect_function_table" (table 5 funcref))
            (func (export "malloc") (param i32) (result i32) (i32.const 100))
            (func (export "unofficial_napi_guest_malloc") (param i32) (result i32)
                (i32.const 200))
        )"#,
    )
}

fn open(ctx: &mut NapiCtx, module: &Module) -> NapiSession {
    match ctx.new_session(module) {
        Ok(session) => session,
        Err(_) => panic!("the session limit leaves room"),
    }
}

fn given(result: Result<GuestImports, NapiError>) -> GuestImports {
    match result {
        Ok(given) => given,
        Err(_) => panic!("the imports can be made"),
    }
}

/// Adds the host function that the guest module imports.
fn with_host_function(store: &mut Store, imports: &mut Imports) {
    let function = Function::new_typed(store, || {});
    imports.define("napi", "napi_get_undefined", function);
}

#[test]
fn imports_hold_what_the_module_asks_for() {
    let mut store = small_store();
    let module = guest_module(&store);
    let mut ctx = NapiCtx::default();
    let mut session = open(&mut ctx, &module);

    let imports = match session.create_imports(&mut store.as_store_mut()) {
        Ok(imports) => imports,
        Err(_) => panic!("memory and table can be made"),
    };
    let memory = match imports.get_export("env", "memory") {
        Some(Extern::Memory(memory)) => memory,
        _ => panic!("the memory is defined"),
    };
    assert_eq!(memory.ty(&store), MemoryType::new(2, Some(7), false));
    let table = match imports.get_export("env", "__indirect_function_table") {
        Some(Extern::Table(table)) => table,
        _ => panic!("the table is defined"),
    };
    assert_eq!(table.ty(&store), TableType::new(Type::FuncRef, 5, None));
    assert!(matches!(table.get(&mut store, 4), Some(Value::FuncRef(None))));

    let func_env = session.func_env().expect("the guest state is in the store");
    let env = func_env.as_ref(&store);
    assert_eq!(env.memory, Some(memory));
    assert_eq!(env.table, Some(table));
    assert!(env.malloc_fn.is_none());
}

#[test]
fn a_module_without_memory_and_table_is_given_neither() {
    let mut store = small_store();
    let module = compile_wat(&store, r#"(module (import "napi" "napi_get_undefined" (func)))"#);
    let mut ctx = NapiCtx::default();
    let mut session = open(&mut ctx, &module);
    let imports = match session.create_imports(&mut store.as_store_mut()) {
        Ok(imports) => imports,
        Err(_) => panic!("there is nothing to make"),
    };
    assert!(!imports.exists("env", "memory"));
    assert!(!imports.exists("env", "__indirect_function_table"));
    let func_env = session.func_env().expect("the guest state is in the store");
    assert!(func_env.as_ref(&store).memory.is_none());
    assert!(func_env.as_ref(&store).table.is_none());
}

#[test]
fn a_memory_that_cannot_be_made_is_an_error() {
    let mut store = small_store();
    let imports = vec![napi_wasmer::import::ModuleImport {
        module: String::from("env"),
        name: String::from("memory"),
        kind: napi_wasmer::import::ImportKind::Memory(MemoryType::new(9, Some(3), false)),
    }];
    let mut ctx = NapiCtx::default();
    let mut session = match ctx.new_session_for(&imports) {
        Ok(session) => session,
        Err(_) => panic!("no limit is set"),
    };
    let result = session.create_imports(&mut store.as_store_mut());
    match result {
        Err(error) => {
            assert!(matches!(error, NapiError::Memory(_)));
            assert!(error.message().is_none());
        }
        Ok(_) => panic!("the minimum is above the maximum"),
    }
    let func_env = session.func_env().expect("the guest state is in the store");
    assert!(func_env.as_ref(&store).memory.is_none());
}

#[test]
fn a_table_that_cannot_be_made_is_an_error() {
    let mut store = small_store();
    let imports = vec![napi_wasmer::import::ModuleImport {
        module: String::from("env"),
        name: String::from("__indirect_function_table"),
        kind: napi_wasmer::import::ImportKind::Table(TableType::new(Type::FuncRef, 9, Some(3))),
    }];
    let mut ctx = NapiCtx::default();
    let mut session = match ctx.new_session_for(&imports) {
        Ok(session) => session,
        Err(_) => panic!("no limit is set"),
    };
    let result = session.create_imports(&mut store.as_store_mut());
    assert!(matches!(result, Err(NapiError::Table(_))));
}

#[test]
fn tables_of_foreign_references_are_told_apart() {
    let store = Store::default();
    let module = compile_wat(
        &store,
        r#"(module (import "env" "__indirect_function_table" (table 1 externref)))"#,
    );
    assert!(!NapiRuntimeHooks::can_make_table(&module));
    let empty = compile_wat(
        &store,
        r#"(module (import "env" "__indirect_function_table" (table 0 externref)))"#,
    );
    assert!(NapiRuntimeHooks::can_make_table(&empty));
    assert!(NapiRuntimeHooks::can_make_table(&guest_module(&store)));
}

#[test]
fn an_instance_is_configured_from_its_exports() {
    let mut store = small_store();
    let module = guest_module(&store);
    let mut ctx = NapiCtx::default();
    let mut hooks = ctx.runtime_hooks();
    let mut given = given(hooks.additional_imports(
        &mut ctx,
        1,
        &module,
        &known(),
        &mut store.as_store_mut(),
    ));
    assert_eq!(ctx.active_sessions(), 1);
    with_host_function(&mut store, &mut given.imports);
    let instance = Instance::new(&mut store, &module, &given.imports).expect("instantiates");
    let func_env = given.func_env.expect("the guest state is in the store");
    let made = func_env.as_ref(&store).memory.clone();

    assert!(allocators_fit_store(&store.as_store_mut(), &instance, None));
    let result = hooks.configure_instance(
        &mut ctx,
        1,
        &module,
        &known(),
        &mut store.as_store_mut(),
        &instance,
        None,
        None,
        None,
    );
    assert!(result.is_ok());
    assert_eq!(ctx.active_sessions(), 0);

    // The allocator exported for the host comes before the C allocator.
    let malloc = func_env.as_ref(&store).malloc_fn.clone().expect("an allocator is exported");
    assert_eq!(malloc.call(&mut store, 8).unwrap(), 200);
    assert_eq!(func_env.as_ref(&store).memory, made);
    assert!(func_env.as_ref(&store).table.is_some());
}

#[test]
fn what_the_linker_supplies_comes_first() {
    let mut store = small_store();
    let module = guest_module(&store);
    let mut ctx = NapiCtx::default();
    let mut session = open(&mut ctx, &module);
    let mut imports = match session.create_imports(&mut store.as_store_mut()) {
        Ok(imports) => imports,
        Err(_) => panic!("memory and table can be made"),
    };
    with_host_function(&mut store, &mut imports);
    let instance = Instance::new(&mut store, &module, &imports).expect("instantiates");

    let memory = Memory::new(&mut store, MemoryType::new(1, None, false)).unwrap();
    let table_type = TableType::new(Type::FuncRef, 1, None);
    let table = Table::new(&mut store, table_type, Value::FuncRef(None)).unwrap();
    let malloc = Function::new_typed(&mut store, |size: i32| size + 300);
    let result = session.configure_instance(
        &mut store.as_store_mut(),
        &instance,
        Some(&memory),
        Some(&table),
        Some(&malloc),
    );
    assert!(result.is_ok());
    let func_env = session.func_env().expect("the guest state is in the store");
    assert_eq!(func_env.as_ref(&store).memory, Some(memory));
    assert_eq!(func_env.as_ref(&store).table, Some(table));
    let bound = func_env.as_ref(&store).malloc_fn.clone().expect("the linker's allocator");
    assert_eq!(bound.call(&mut store, 8).unwrap(), 308);

    // A function of another signature is no allocator: the exports come next.
    let other = Function::new_typed(&mut store, |_: i64| {});
    let result =
        session.configure_instance(&mut store.as_store_mut(), &instance, None, None, Some(&other));
    assert!(result.is_ok());
    let bound = func_env.as_ref(&store).malloc_fn.clone().expect("the exported allocator");
    assert_eq!(bound.call(&mut store, 8).unwrap(), 200);
}

#[test]
fn exports_of_the_instance_stand_in_for_the_linker() {
    let mut store = small_store();
    let module = compile_wat(
        &store,
        r#"(module
            (import "napi" "napi_get_undefined" (func))
            (table (export "__indirect_function_table") 3 funcref)
            (func (export "unofficial_napi_guest_malloc") (param i64))
            (func (export "malloc") (param i32) (result i32) (i32.const 100))
        )"#,
    );
    let mut ctx = NapiCtx::default();
    let mut session = open(&mut ctx, &module);
    let mut imports = match session.create_imports(&mut store.as_store_mut()) {
        Ok(imports) => imports,
        Err(_) => panic!("there is nothing to make"),
    };
    with_host_function(&mut store, &mut imports);
    let instance = Instance::new(&mut store, &module, &imports).expect("instantiates");
    let result =
        session.configure_instance(&mut store.as_store_mut(), &instance, None, None, None);
    assert!(result.is_ok());
    let func_env = session.func_env().expect("the guest state is in the store");
    let exported = instance.exports.get_table("__indirect_function_table").unwrap();
    assert_eq!(func_env.as_ref(&store).table.as_ref(), Some(exported));
    let malloc = func_env.as_ref(&store).malloc_fn.clone().expect("the C allocator");
    assert_eq!(malloc.call(&mut store, 8).unwrap(), 100);
}

#[test]
fn allocators_of_another_store_do_not_fit() {
    let mut store = small_store();
    let module = compile_wat(&store, "(module)");
    let instance = Instance::new(&mut store, &module, &Imports::new()).expect("instantiates");
    let mut other = Store::default();
    let malloc = Function::new_typed(&mut other, |size: i32| size);
    assert!(!allocators_fit_store(&store.as_store_mut(), &instance, Some(&malloc)));
    assert!(allocators_fit_store(&store.as_store_mut(), &instance, None));
}

#[test]
fn a_session_without_imports_cannot_be_configured() {
    let mut store = small_store();
    let module = compile_wat(&store, "(module)");
    let instance = Instance::new(&mut store, &module, &Imports::new()).expect("instantiates");
    let mut ctx = NapiCtx::default();
    let session = open(&mut ctx, &module);
    let result =
        session.configure_instance(&mut store.as_store_mut(), &instance, None, None, None);
    assert!(matches!(result, Err(NapiError::MissingFunctionEnv)));
}

#[test]
fn a_module_without_needs_passes_through_the_hooks() {
    let mut store = small_store();
    let module = compile_wat(&store, "(module)");
    let mut ctx = NapiCtx::builder().max_sessions(0).build();
    let mut hooks = ctx.runtime_hooks();
    let given = given(hooks.additional_imports(
        &mut ctx,
        1,
        &module,
        &known(),
        &mut store.as_store_mut(),
    ));
    assert!(given.func_env.is_none());
    assert_eq!(given.imports.iter().count(), 0);
    let instance = Instance::new(&mut store, &module, &Imports::new()).expect("instantiates");
    let result = hooks.configure_instance(
        &mut ctx,
        1,
        &module,
        &known(),
        &mut store.as_store_mut(),
        &instance,
        None,
        None,
        None,
    );
    assert!(result.is_ok());
    assert_eq!(ctx.active_sessions(), 0);
}

#[test]
fn unsupported_modules_are_turned_away() {
    let mut store = small_store();
    let mut ctx = NapiCtx::default();
    let mut hooks = ctx.runtime_hooks();
    let core = compile_wat(&store, r#"(module (import "napi" "napi_future_function" (func)))"#);
    let result =
        hooks.additional_imports(&mut ctx, 1, &core, &known(), &mut store.as_store_mut());
    match result {
        Err(error) => assert_eq!(
            error.message().as_deref(),
            Some("unsupported N-API import version: Unknown")
        ),
        Ok(_) => panic!("the core function is not known"),
    }
    let extension =
        compile_wat(&store, r#"(module (import "napi_extension_wasmer_v1" "f" (func)))"#);
    let result =
        hooks.additional_imports(&mut ctx, 1, &extension, &known(), &mut store.as_store_mut());
    match result {
        Err(error) => assert_eq!(
            error.message().as_deref(),
            Some("unsupported Wasmer N-API extension version: Unknown")
        ),
        Ok(_) => panic!("the revision is not known"),
    }
    assert_eq!(ctx.active_sessions(), 0);
}

#[test]
fn a_refused_module_leaves_no_session() {
    let mut store = small_store();
    let module = guest_module(&store);
    let mut ctx = NapiCtx::builder().max_sessions(1).build();
    let mut hooks = ctx.runtime_hooks();
    assert!(hooks
        .additional_imports(&mut ctx, 1, &module, &known(), &mut store.as_store_mut())
        .is_ok());
    let result =
        hooks.additional_imports(&mut ctx, 1, &module, &known(), &mut store.as_store_mut());
    assert!(matches!(result, Err(NapiError::TooManySessions(1))));
    assert_eq!(ctx.active_sessions(), 1);
}

#[test]
fn sessions_are_configured_in_the_order_of_their_imports() {
    let mut store = small_store();
    let module = guest_module(&store);
    let mut ctx = NapiCtx::default();
    let mut hooks = ctx.runtime_hooks();
    let mut first = given(hooks.additional_imports(
        &mut ctx,
        1,
        &module,
        &known(),
        &mut store.as_store_mut(),
    ));
    let second = given(hooks.additional_imports(
        &mut ctx,
        1,
        &module,
        &known(),
        &mut store.as_store_mut(),
    ));
    assert_eq!(ctx.active_sessions(), 2);
    with_host_function(&mut store, &mut first.imports);
    let instance = Instance::new(&mut store, &module, &first.imports).expect("instantiates");

    // Another key has a queue of its own.
    let result = hooks.configure_instance(
        &mut ctx,
        2,
        &module,
        &known(),
        &mut store.as_store_mut(),
        &instance,
        None,
        None,
        None,
    );
    assert!(matches!(result, Err(NapiError::MissingPendingSession)));
    assert_eq!(ctx.active_sessions(), 2);

    let first_env = first.func_env.unwrap();
    let second_env = second.func_env.unwrap();
    assert!(hooks
        .configure_instance(
            &mut ctx,
            1,
            &module,
            &known(),
            &mut store.as_store_mut(),
            &instance,
            None,
            None,
            None,
        )
        .is_ok());
    assert!(first_env.as_ref(&store).malloc_fn.is_some());
    assert!(second_env.as_ref(&store).malloc_fn.is_none());
    assert!(hooks
        .configure_instance(
            &mut ctx,
            1,
            &module,
            &known(),
            &mut store.as_store_mut(),
            &instance,
            None,
            None,
            None,
        )
        .is_ok());
    assert!(second_env.as_ref(&store).malloc_fn.is_some());
    assert_eq!(ctx.active_sessions(), 0);

    let result = hooks.configure_instance(
        &mut ctx,
        1,
        &module,
        &known(),
        &mut store.as_store_mut(),
        &instance,
        None,
        None,
        None,
    );
    assert!(matches!(result, Err(NapiError::MissingPendingSession)));
}

#[test]
fn a_placeholder_table_is_answered_with_zero() {
    let mut store = small_store();
    let module = guest_module(&store);
    let mut ctx = NapiCtx::default();
    let mut session = open(&mut ctx, &module);
    assert!(session.create_imports(&mut store.as_store_mut()).is_ok());
    let func_env = session.func_env().expect("the guest state is in the store");
    let table = func_env.as_ref(&store).table.clone().expect("the table is made");
    assert_eq!(table.size(&store), 5);
    for index in [0u32, 4, 5, u32::MAX] {
        match call_guest_callback(&table, &mut store.as_store_mut(), 1, index, 0) {
            Err(outcome) => {
                assert!(matches!(outcome, CallbackOutcome::NoFunction));
                assert_eq!(callback_answer(&outcome), 0);
            }
            Ok(_) => panic!("the table holds no function"),
        }
    }
}

#[test]
fn imports_that_fail_leave_no_session() {
    let mut store = small_store();
    let module = compile_wat(
        &store,
        r#"(module
            (import "napi" "napi_get_undefined" (func))
            (import "env" "__indirect_function_table" (table 200000000 funcref))
        )"#,
    );
    let mut ctx = NapiCtx::builder().max_sessions(1).build();
    let mut hooks = ctx.runtime_hooks();
    for _ in 0..3 {
        let result =
            hooks.additional_imports(&mut ctx, 1, &module, &known(), &mut store.as_store_mut());
        assert!(matches!(result, Err(NapiError::Table(_))));
        assert_eq!(ctx.active_sessions(), 0);
    }
}

#[test]
fn a_made_memory_is_offered_and_bound() {
    let mut store = small_store();
    let mut imports = Imports::new();
    let mut env = NapiEnv::default();
    let memory = Memory::new(&mut store, MemoryType::new(1, None, false)).unwrap();
    assert!(offer_memory(&mut imports, &mut env, Ok(memory.clone())).is_ok());
    assert_eq!(env.memory, Some(memory.clone()));
    assert!(env.table.is_none());
    assert!(matches!(imports.get_export("env", "memory"), Some(Extern::Memory(m)) if m == memory));

    let failed = Memory::new(&mut store, MemoryType::new(9, Some(3), false));
    let mut untouched = NapiEnv::default();
    let mut empty = Imports::new();
    let result = offer_memory(&mut empty, &mut untouched, failed);
    assert!(matches!(result, Err(NapiError::Memory(_))));
    assert!(untouched.memory.is_none());
    assert_eq!(empty.iter().count(), 0);
}

#[test]
fn a_made_table_is_offered_and_bound() {
    let mut store = small_store();
    let mut imports = Imports::new();
    let mut env = NapiEnv::default();
    let ty = TableType::new(Type::FuncRef, 2, None);
    let table = Table::new(&mut store, ty, Value::FuncRef(None)).unwrap();
    assert!(offer_table(&mut imports, &mut env, Ok(table.clone())).is_ok());
    assert_eq!(env.table, Some(table.clone()));
    assert!(env.memory.is_none());
    let offered = imports.get_export("env", "__indirect_function_table");
    assert!(matches!(offered, Some(Extern::Table(t)) if t == table));

    let refused = TableType::new(Type::FuncRef, 9, Some(3));
    let failed = Table::new(&mut store, refused, Value::FuncRef(None));
    let mut untouched = NapiEnv::default();
    let mut empty = Imports::new();
    let result = offer_table(&mut empty, &mut untouched, failed);
    assert!(matches!(result, Err(NapiError::Table(_))));
    assert!(untouched.table.is_none());
    assert_eq!(empty.iter().count(), 0);
}

#[test]
fn outcomes_of_imports_are_settled() {
    let mut store = small_store();
    let module = guest_module(&store);
    let mut ctx = NapiCtx::builder().max_sessions(1).build();
    let mut hooks = ctx.runtime_hooks();

    let session = open(&mut ctx, &module);
    let result = hooks.settle_imports(&mut ctx, 7, session, Err(NapiError::MissingQueuedSession));
    assert!(matches!(result, Err(NapiError::MissingQueuedSession)));
    assert_eq!(ctx.active_sessions(), 0);
    assert!(hooks.next_func_env(7).is_none());

    let mut session = open(&mut ctx, &module);
    let created = session.create_imports(&mut store.as_store_mut());
    let func_env = session.func_env();
    let given = given(hooks.settle_imports(&mut ctx, 7, session, created));
    assert!(given.imports.exists("env", "memory"));
    let handed = given.func_env.expect("the guest state is in the store").into_sys();
    assert!(handed == func_env.expect("the guest state is in the store").into_sys());
    assert_eq!(ctx.active_sessions(), 1);
    assert!(hooks.next_func_env(7).is_some());
    assert!(hooks.next_func_env(8).is_none());

    match hooks.take_session(7) {
        Ok(session) => ctx.release_session(session),
        Err(_) => panic!("a session is queued"),
    }
    assert_eq!(ctx.active_sessions(), 0);
    assert!(matches!(hooks.take_session(7), Err(NapiError::MissingPendingSession)));
}

#[test]
fn with_nothing_to_bind_any_store_will_do() {
    let mut store = small_store();
    let module = compile_wat(&store, r#"(module (import "napi" "napi_get_undefined" (func)))"#);
    let mut ctx = NapiCtx::default();
    let mut session = open(&mut ctx, &module);
    assert!(session.can_make_table());
    assert!(session.create_imports(&mut store.as_store_mut()).is_ok());

    let mut other = small_store();
    let bare = compile_wat(&other, "(module)");
    let instance = Instance::new(&mut other, &bare, &Imports::new()).expect("instantiates");
    assert!(!finds_resources(&other.as_store_mut(), &instance, None, None, None));
    let result =
        session.configure_instance(&mut other.as_store_mut(), &instance, None, None, None);
    assert!(result.is_ok());

    let memory = Memory::new(&mut other, MemoryType::new(1, None, false)).unwrap();
    assert!(finds_resources(&other.as_store_mut(), &instance, Some(&memory), None, None));
}

#[test]
fn exports_count_as_resources() {
    let mut store = small_store();
    let exports = [
        r#"(module (table (export "__indirect_function_table") 1 funcref))"#,
        r#"(module (func (export "malloc") (param i32) (result i32) (i32.const 1)))"#,
    ];
    for text in exports {
        let module = compile_wat(&store, text);
        let instance = Instance::new(&mut store, &module, &Imports::new()).expect("instantiates");
        assert!(finds_resources(&store.as_store_mut(), &instance, None, None, None));
    }
    let module = compile_wat(&store, r#"(module (func (export "malloc") (param i64)))"#);
    let instance = Instance::new(&mut store, &module, &Imports::new()).expect("instantiates");
    assert!(!finds_resources(&store.as_store_mut(), &instance, None, None, None));
}

#[test]
fn a_place_is_free_again_after_configuring() {
    let mut store = small_store();
    let module = guest_module(&store);
    let mut ctx = NapiCtx::builder().max_sessions(1).build();
    let mut hooks = ctx.runtime_hooks();
    for _ in 0..2 {
        let mut given = given(hooks.additional_imports(
            &mut ctx,
            1,
            &module,
            &known(),
            &mut store.as_store_mut(),
        ));
        assert_eq!(ctx.active_sessions(), 1);
        with_host_function(&mut store, &mut given.imports);
        let instance = Instance::new(&mut store, &module, &given.imports).expect("instantiates");
        assert!(hooks
            .configure_instance(
                &mut ctx,
                1,
                &module,
                &known(),
                &mut store.as_store_mut(),
                &instance,
                None,
                None,
                None,
            )
            .is_ok());
        assert_eq!(ctx.active_sessions(), 0);
    }
}

#[test]
fn guests_of_one_store_have_tables_of_their_own() {
    let mut store = small_store();
    let module = guest_module(&store);
    let mut ctx = NapiCtx::default();
    let mut first = open(&mut ctx, &module);
    assert!(first.create_imports(&mut store.as_store_mut()).is_ok());
    let first_env = first.func_env().expect("the guest state is in the store");
    let first_table = first_env.as_ref(&store).table.clone().expect("the table is made");
    let function = Function::new_typed(&mut store, || {});
    first_table.set(&mut store, 2, Value::FuncRef(Some(function))).unwrap();

    let mut second = open(&mut ctx, &module);
    assert!(second.create_imports(&mut store.as_store_mut()).is_ok());
    let second_env = second.func_env().expect("the guest state is in the store");
    let second_table = second_env.as_ref(&store).table.clone().expect("the table is made");
    assert!(first_table != second_table);
    assert!(matches!(first_table.get(&mut store, 2), Some(Value::FuncRef(Some(_)))));
    assert!(matches!(second_table.get(&mut store, 2), Some(Value::FuncRef(None))));
}
