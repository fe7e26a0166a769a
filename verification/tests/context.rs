use napi_wasmer::import::{ImportKind, ModuleImport};
use napi_wasmer::{NapiCtx, NapiError, NapiLimits, NapiVersion, NapiWasmerExtensionVersion};
use wasmer::{MemoryType, Module, Store, TableType, Type};
use wat::parse_str;

const EMPTY_WASM_MODULE: &[u8] = b"\0asm\x01\0\0\0";

fn compile_wat(store: &Store, wat: &str) -> Module {
    let wasm = parse_str(wat).expect("wat module parses");
    Module::new(store, wasm).expect("wat module compiles")
}

/// Core functions of the host in these tests.
fn known() -> Vec<String> {
    vec![
        String::from("napi_create_object"),
        String::from("napi_get_undefined"),
    ]
}

#[test]
fn max_sessions_limit_is_enforced() {
    let store = Store::default();
    let module = Module::new(&store, EMPTY_WASM_MODULE).expect("empty wasm module compiles");
    let mut ctx = NapiCtx::builder().max_sessions(1).build();

    let first = match ctx.prepare_module(&module) {
        Ok(session) => session,
        Err(_) => panic!("first session should be created"),
    };
    assert_eq!(ctx.active_sessions(), 1);
    assert!(ctx.prepare_module(&module).is_err());

    ctx.release_session(first);
    assert_eq!(ctx.active_sessions(), 0);

    let _second = match ctx.prepare_module(&module) {
        Ok(session) => session,
        Err(_) => panic!("session slot should be released after drop"),
    };
    assert_eq!(ctx.active_sessions(), 1);
}

#[test]
fn module_needs_napi_detects_none() {
    let store = Store::default();
    let module = Module::new(&store, EMPTY_WASM_MODULE).expect("empty wasm module compiles");

    assert_eq!(NapiCtx::module_needs_napi(&module, &known()), (None, None));
}

#[test]
fn module_needs_napi_detects_core_napi_v10() {
    let store = Store::default();
    let module = compile_wat(
        &store,
        r#"(module
            (import "napi" "napi_get_undefined" (func))
        )"#,
    );

    assert_eq!(
        NapiCtx::module_needs_napi(&module, &known()),
        (Some(NapiVersion::V10), None)
    );
}

#[test]
fn module_needs_napi_detects_unknown_core_napi() {
    let store = Store::default();
    let module = compile_wat(
        &store,
        r#"(module
            (import "napi" "napi_future_function" (func))
        )"#,
    );

    assert_eq!(
        NapiCtx::module_needs_napi(&module, &known()),
        (Some(NapiVersion::Unknown), None)
    );
}

#[test]
fn module_needs_napi_detects_extension_v0() {
    let store = Store::default();
    let module = compile_wat(
        &store,
        r#"(module
            (import "napi_extension_wasmer_v0" "unofficial_napi_get_hash_seed" (func))
        )"#,
    );

    assert_eq!(
        NapiCtx::module_needs_napi(&module, &known()),
        (None, Some(NapiWasmerExtensionVersion::V0))
    );
}

#[test]
fn module_needs_napi_detects_unknown_extension_version() {
    let store = Store::default();
    let module = compile_wat(
        &store,
        r#"(module
            (import "napi_extension_wasmer_v1" "unofficial_napi_get_hash_seed" (func))
        )"#,
    );

    assert_eq!(
        NapiCtx::module_needs_napi(&module, &known()),
        (None, Some(NapiWasmerExtensionVersion::Unknown))
    );
}

#[test]
fn module_needs_napi_detects_mixed_namespaces() {
    let store = Store::default();
    let module = compile_wat(
        &store,
        r#"(module
            (import "napi" "napi_get_undefined" (func))
            (import "napi_extension_wasmer_v0" "unofficial_napi_get_hash_seed" (func))
        )"#,
    );

    assert_eq!(
        NapiCtx::module_needs_napi(&module, &known()),
        (Some(NapiVersion::V10), Some(NapiWasmerExtensionVersion::V0))
    );
}

#[test]
fn one_unknown_core_function_makes_the_version_unknown() {
    let store = Store::default();
    let module = compile_wat(
        &store,
        r#"(module
            (import "napi" "napi_future_function" (func))
            (import "napi" "napi_get_undefined" (func))
            (import "env" "napi_future_function" (func))
        )"#,
    );
    assert_eq!(
        NapiCtx::module_needs_napi(&module, &known()),
        (Some(NapiVersion::Unknown), None)
    );
}

#[test]
fn mixed_extension_revisions_are_unknown() {
    let store = Store::default();
    let module = compile_wat(
        &store,
        r#"(module
            (import "napi_extension_wasmer_v0" "a" (func))
            (import "napi_extension_wasmer_v2" "b" (func))
            (import "napi_extension_wasmer_v0" "c" (func))
        )"#,
    );
    assert_eq!(
        NapiCtx::module_needs_napi(&module, &known()),
        (None, Some(NapiWasmerExtensionVersion::Unknown))
    );
}

#[test]
fn a_builder_collects_the_limits() {
    let ctx = NapiCtx::builder()
        .max_sessions(2)
        .max_envs(3)
        .max_total_external_memory(1 << 40)
        .max_total_heap_bytes(5)
        .build();
    let limits = NapiLimits {
        max_sessions: Some(2),
        max_envs: Some(3),
        max_total_external_memory: Some(1 << 40),
        max_total_heap_bytes: Some(5),
    };
    assert_eq!(*ctx.limits(), limits);
    assert_eq!(ctx.active_sessions(), 0);
    assert_eq!(*NapiCtx::default().limits(), NapiLimits::default());
}

#[test]
fn a_limit_of_zero_admits_no_session() {
    let mut ctx = NapiCtx::builder().max_sessions(0).build();
    match ctx.new_session_for(&vec![]) {
        Err(error) => assert_eq!(
            error.message().as_deref(),
            Some("refusing to create more than 0 active N-API sessions")
        ),
        Ok(_) => panic!("no session fits"),
    }
    assert_eq!(ctx.active_sessions(), 0);
}

#[test]
fn without_a_limit_sessions_are_only_counted() {
    let mut ctx = NapiCtx::default();
    for count in 1..=100usize {
        assert!(ctx.new_session_for(&vec![]).is_ok());
        assert_eq!(ctx.active_sessions(), count);
    }
}

#[test]
fn errors_have_their_words() {
    let words = |error: NapiError| error.message().unwrap();
    assert_eq!(
        words(NapiError::TooManySessions(1205)),
        "refusing to create more than 1205 active N-API sessions"
    );
    assert_eq!(
        words(NapiError::UnsupportedNapiVersion(NapiVersion::Unknown)),
        "unsupported N-API import version: Unknown"
    );
    assert_eq!(
        words(NapiError::UnsupportedExtensionVersion(NapiWasmerExtensionVersion::Unknown)),
        "unsupported Wasmer N-API extension version: Unknown"
    );
    assert_eq!(
        words(NapiError::MissingPendingSession),
        "missing pending N-API session for module instance setup"
    );
    assert_eq!(
        words(NapiError::MissingQueuedSession),
        "missing queued N-API session for module instance setup"
    );
    assert_eq!(
        words(NapiError::MissingFunctionEnv),
        "missing runtime function env during instance setup"
    );
}

#[test]
fn a_session_knows_the_imported_memory_and_table() {
    let store = Store::default();
    let module = compile_wat(
        &store,
        r#"(module
            (import "env" "memory" (memory 2 7))
            (import "env" "__indirect_function_table" (table 5 funcref))
        )"#,
    );
    let mut ctx = NapiCtx::default();
    let session = match ctx.new_session(&module) {
        Ok(session) => session,
        Err(_) => panic!("no limit is set"),
    };
    assert_eq!(session.imported_memory_type(), Some(MemoryType::new(2, Some(7), false)));
    assert_eq!(
        session.imported_table_type(),
        Some(TableType::new(Type::FuncRef, 5, None))
    );
    assert!(session.func_env().is_none());
}

#[test]
fn the_first_matching_import_counts() {
    let import = |module: &str, name: &str, kind| ModuleImport {
        module: String::from(module),
        name: String::from(name),
        kind,
    };
    let imports = vec![
        import("other", "memory", ImportKind::Memory(MemoryType::new(1, None, false))),
        import("env", "heap", ImportKind::Memory(MemoryType::new(2, None, false))),
        import("env", "memory", ImportKind::Global),
        import("env", "memory", ImportKind::Memory(MemoryType::new(3, None, false))),
        import("env", "memory", ImportKind::Memory(MemoryType::new(4, None, false))),
        import("env", "__indirect_function_table", ImportKind::Function),
    ];
    let mut ctx = NapiCtx::default();
    let session = match ctx.new_session_for(&imports) {
        Ok(session) => session,
        Err(_) => panic!("no limit is set"),
    };
    assert_eq!(session.imported_memory_type(), Some(MemoryType::new(3, None, false)));
    assert_eq!(session.imported_table_type(), None);
}

#[test]
fn needs_do_not_rest_on_the_order_of_imports() {
    let store = Store::default();
    let forth = compile_wat(
        &store,
        r#"(module
            (import "napi" "napi_get_undefined" (func))
            (import "napi_extension_wasmer_v1" "b" (func))
            (import "napi_extension_wasmer_v0" "a" (func))
            (import "napi" "napi_future_function" (func))
        )"#,
    );
    let back = compile_wat(
        &store,
        r#"(module
            (import "napi" "napi_future_function" (func))
            (import "napi_extension_wasmer_v0" "a" (func))
            (import "napi_extension_wasmer_v1" "b" (func))
            (import "napi" "napi_get_undefined" (func))
        )"#,
    );
    let need = (Some(NapiVersion::Unknown), Some(NapiWasmerExtensionVersion::Unknown));
    assert_eq!(NapiCtx::module_needs_napi(&forth, &known()), need);
    assert_eq!(NapiCtx::module_needs_napi(&back, &known()), need);
}

#[test]
fn a_context_says_whether_it_has_room() {
    let mut ctx = NapiCtx::builder().max_sessions(2).build();
    assert!(ctx.admits());
    let first = match ctx.new_session_for(&vec![]) {
        Ok(session) => session,
        Err(_) => panic!("the limit leaves room"),
    };
    assert!(ctx.admits());
    assert!(ctx.new_session_for(&vec![]).is_ok());
    assert!(!ctx.admits());
    ctx.release_session(first);
    assert!(ctx.admits());
    assert!(!NapiCtx::builder().max_sessions(0).build().admits());
    assert!(NapiCtx::default().admits());
}
