use napi_wasmer::{NapiCtx, NapiEnv, NapiHandleIds};

/// Registers `env` and immediately closes its scope again.
fn register_then_unregister(
    env: &mut NapiEnv,
    ids: &mut NapiHandleIds,
    dummy: usize,
) -> (u32, u32) {
    let (env_id, scope_id) = env.register_napi_env(ids, dummy);
    let _ = env.unregister_napi_scope(scope_id);
    (env_id, scope_id)
}

#[test]
fn handle_ids_start_at_one() {
    let mut ids = NapiHandleIds::default();
    assert_eq!(ids.next_env_id(), 1, "first env handle must be 1");
    assert_eq!(ids.next_scope_id(), 1, "first scope handle must be 1");
}

#[test]
fn handle_ids_are_monotonic() {
    let mut ids = NapiHandleIds::default();
    assert_eq!(ids.next_env_id(), 1);
    assert_eq!(ids.next_env_id(), 2);
    assert_eq!(ids.next_env_id(), 3);
    // env and scope counters advance independently.
    assert_eq!(ids.next_scope_id(), 1);
    assert_eq!(ids.next_scope_id(), 2);
}

#[test]
fn shared_counter_yields_unique_env_handles_across_envs() {
    let mut ids = NapiHandleIds::default();
    let dummy = 0x1usize;

    let mut parent = NapiEnv::default();
    let mut worker = NapiEnv::default();

    let (parent_env_id, _) = register_then_unregister(&mut parent, &mut ids, dummy);
    let (worker_env_id, _) = register_then_unregister(&mut worker, &mut ids, dummy);

    assert_eq!(parent_env_id, 1, "parent env handle");
    assert_eq!(worker_env_id, 2, "worker env handle");
    assert_ne!(
        parent_env_id, worker_env_id,
        "parent and worker must not collide on the same napi_env handle"
    );
}

#[test]
fn registered_env_resolves_locally() {
    let mut ids = NapiHandleIds::default();
    let dummy = 0x42usize;

    let mut env = NapiEnv::default();
    let (env_id, scope_id) = env.register_napi_env(&mut ids, dummy);

    assert_eq!(
        env.resolve_napi_env(env_id as i32),
        dummy,
        "the registering thread must resolve its own env handle"
    );
    // A foreign handle the local map never registered resolves to null.
    assert!(
        env.resolve_napi_env((env_id + 1) as i32) == 0,
        "an unregistered handle resolves to null on this thread"
    );

    let _ = env.unregister_napi_scope(scope_id);
}

#[test]
fn non_positive_handles_resolve_to_null() {
    let env = NapiEnv::default();
    assert!(env.resolve_napi_env(0) == 0);
    assert!(env.resolve_napi_env(-1) == 0);
}

#[test]
fn closing_a_scope_gives_up_its_environment_once() {
    let mut ids = NapiHandleIds::default();
    let mut env = NapiEnv::default();
    let (env_id, scope_id) = env.register_napi_env(&mut ids, 0x1000);
    let (other_env_id, other_scope_id) = env.register_napi_env(&mut ids, 0x2000);
    env.default_napi_env_id = Some(env_id);

    assert_eq!(env.napi_state_to_guest_env.get(&0x1000), Some(&env_id));
    assert_eq!(env.unregister_napi_scope(scope_id), Some(0x1000));
    assert_eq!(env.default_napi_env_id, None);
    assert_eq!(env.resolve_napi_env(env_id as i32), 0);
    assert_eq!(env.napi_state_to_guest_env.get(&0x1000), None);
    assert_eq!(env.unregister_napi_scope(scope_id), None);

    env.default_napi_env_id = Some(77);
    assert_eq!(env.resolve_napi_env(other_env_id as i32), 0x2000);
    assert_eq!(env.unregister_napi_scope(other_scope_id), Some(0x2000));
    assert_eq!(env.default_napi_env_id, Some(77));
}

#[test]
fn a_scope_without_environment_gives_up_nothing() {
    let mut env = NapiEnv::default();
    env.napi_scopes.insert(5, 9);
    env.default_napi_env_id = Some(9);
    assert_eq!(env.unregister_napi_scope(5), None);
    assert!(env.napi_scopes.is_empty());
    assert_eq!(env.default_napi_env_id, None);
}

#[test]
fn closing_all_scopes_releases_every_environment() {
    let mut ids = NapiHandleIds::default();
    let mut env = NapiEnv::default();
    let (_, first) = env.register_napi_env(&mut ids, 0x10);
    env.register_napi_env(&mut ids, 0x20);
    env.register_napi_env(&mut ids, 0x30);
    assert_eq!(env.unregister_napi_scope(first), Some(0x10));

    let mut released = env.unregister_all_scopes();
    released.sort();
    assert_eq!(released, vec![0x20, 0x30]);
    assert!(env.napi_envs.is_empty());
    assert!(env.napi_scopes.is_empty());
    assert!(env.napi_state_to_guest_env.is_empty());
    assert_eq!(env.unregister_all_scopes(), Vec::<usize>::new());
}

#[test]
fn guests_of_one_context_draw_from_its_counters() {
    let mut ctx = NapiCtx::default();
    let mut parent = NapiEnv::default();
    let mut worker = NapiEnv::default();
    assert_eq!(ctx.register_napi_env(&mut parent, 0x10), (1, 1));
    assert_eq!(ctx.register_napi_env(&mut worker, 0x20), (2, 2));
    assert_eq!(worker.unregister_napi_scope(2), Some(0x20));
    assert_eq!(ctx.register_napi_env(&mut parent, 0x30), (3, 3));
    assert_eq!(ctx.register_napi_env(&mut worker, 0x40), (4, 4));
    assert_eq!(parent.resolve_napi_env(1), 0x10);
    assert_eq!(parent.resolve_napi_env(3), 0x30);
    assert_eq!(parent.resolve_napi_env(4), 0);
    assert_eq!(worker.resolve_napi_env(4), 0x40);
    assert_eq!(worker.resolve_napi_env(1), 0);

    let mut separate = NapiCtx::default();
    assert_eq!(separate.register_napi_env(&mut NapiEnv::default(), 0x50), (1, 1));
    assert_eq!(ctx.register_napi_env(&mut parent, 0x60), (5, 5));
}
