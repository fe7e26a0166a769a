//! The host's state for one guest instance.
use std::collections::HashMap;
use vstd::prelude::*;

use crate::handle::{handle_after, HandleIdsView, NapiHandleIds};

verus! {

broadcast use vstd::std_specs::hash::group_hash_axioms;

/// A host buffer that was copied into guest memory, to be written back later.
#[derive(Clone, Copy, Debug, PartialEq, Eq, Structural)]
pub struct HostBufferCopy {
    pub handle_id: u32,
    pub backing_store_token: u64,
    pub guest_ptr: u32,
    pub byte_len: usize,
}

/// Where in guest memory a host backing store is mapped.
#[derive(Clone, Copy, Debug, PartialEq, Eq, Structural)]
pub struct GuestBackingStoreMapping {
    pub host_addr: u64,
    pub guest_ptr: u32,
    pub byte_len: usize,
}

/// The host's state for one guest instance.
///
/// A native environment is named by its address; zero is the null address.
pub struct NapiEnv {
    pub memory: Option<wasmer::Memory>,
    pub malloc_fn: Option<wasmer::TypedFunction<i32, i32>>,
    pub table: Option<wasmer::Table>,
    /// Guest pointer of each value handle whose bytes lie in guest memory.
    pub guest_data_ptrs: HashMap<u32, u32>,
    /// Guest mapping of each host backing store, by its token. A buffer keeps its guest address
    /// when the same backing store turns up behind another value handle.
    pub guest_data_backing_stores: HashMap<u64, GuestBackingStoreMapping>,
    /// Host buffers copied into guest memory while callbacks are active, oldest first.
    pub host_buffer_copies: Vec<HostBufferCopy>,
    /// For each active callback, how many copies were pending when it began.
    pub host_buffer_copy_frames: Vec<usize>,
    /// For each active binding invocation, how many copies were pending when it began.
    pub host_buffer_method_frames: Vec<usize>,
    pub default_napi_env_id: Option<u32>,
    /// Native environment of each environment handle.
    pub napi_envs: HashMap<u32, usize>,
    /// Environment handle last registered for each native environment.
    pub napi_state_to_guest_env: HashMap<usize, u32>,
    /// Environment handle of each scope handle.
    pub napi_scopes: HashMap<u32, u32>,
}

/// The mathematical value of a [`NapiEnv`].
#[verifier::ext_equal]
pub struct NapiEnvView {
    pub memory: Option<wasmer::Memory>,
    pub malloc_fn: Option<wasmer::TypedFunction<i32, i32>>,
    pub table: Option<wasmer::Table>,
    pub guest_data_ptrs: Map<u32, u32>,
    pub guest_data_backing_stores: Map<u64, GuestBackingStoreMapping>,
    pub host_buffer_copies: Seq<HostBufferCopy>,
    pub host_buffer_copy_frames: Seq<usize>,
    pub host_buffer_method_frames: Seq<usize>,
    pub default_napi_env_id: Option<u32>,
    pub napi_envs: Map<u32, usize>,
    pub napi_state_to_guest_env: Map<usize, u32>,
    pub napi_scopes: Map<u32, u32>,
}

impl View for NapiEnv {
    type V = NapiEnvView;

    open spec fn view(&self) -> NapiEnvView {
        NapiEnvView {
            memory: self.memory,
            malloc_fn: self.malloc_fn,
            table: self.table,
            guest_data_ptrs: self.guest_data_ptrs@,
            guest_data_backing_stores: self.guest_data_backing_stores@,
            host_buffer_copies: self.host_buffer_copies@,
            host_buffer_copy_frames: self.host_buffer_copy_frames@,
            host_buffer_method_frames: self.host_buffer_method_frames@,
            default_napi_env_id: self.default_napi_env_id,
            napi_envs: self.napi_envs@,
            napi_state_to_guest_env: self.napi_state_to_guest_env@,
            napi_scopes: self.napi_scopes@,
        }
    }
}

impl NapiEnvView {
    /// The state of an instance about which nothing is known yet.
    pub open spec fn empty() -> NapiEnvView {
        NapiEnvView {
            memory: None,
            malloc_fn: None,
            table: None,
            guest_data_ptrs: Map::empty(),
            guest_data_backing_stores: Map::empty(),
            host_buffer_copies: Seq::empty(),
            host_buffer_copy_frames: Seq::empty(),
            host_buffer_method_frames: Seq::empty(),
            default_napi_env_id: None,
            napi_envs: Map::empty(),
            napi_state_to_guest_env: Map::empty(),
            napi_scopes: Map::empty(),
        }
    }

    /// The state with the native environment `state` registered under `env_id`, held by the scope
    /// `scope_id`.
    pub open spec fn register(self, env_id: u32, scope_id: u32, state: usize) -> NapiEnvView {
        NapiEnvView {
            napi_envs: self.napi_envs.insert(env_id, state),
            napi_state_to_guest_env: self.napi_state_to_guest_env.insert(state, env_id),
            napi_scopes: self.napi_scopes.insert(scope_id, env_id),
            ..self
        }
    }

    /// The native environment that closing the scope `scope_id` gives up.
    pub open spec fn scope_state(self, scope_id: u32) -> Option<usize> {
        if self.napi_scopes.contains_key(scope_id) && self.napi_envs.contains_key(
            self.napi_scopes[scope_id],
        ) {
            Some(self.napi_envs[self.napi_scopes[scope_id]])
        } else {
            None
        }
    }

    /// The state with the scope `scope_id` closed.
    pub open spec fn unregister(self, scope_id: u32) -> NapiEnvView {
        if self.napi_scopes.contains_key(scope_id) {
            let env_id = self.napi_scopes[scope_id];
            NapiEnvView {
                napi_scopes: self.napi_scopes.remove(scope_id),
                napi_envs: self.napi_envs.remove(env_id),
                napi_state_to_guest_env: match self.scope_state(scope_id) {
                    Some(state) => self.napi_state_to_guest_env.remove(state),
                    None => self.napi_state_to_guest_env,
                },
                default_napi_env_id: if self.default_napi_env_id == Some(env_id) {
                    None
                } else {
                    self.default_napi_env_id
                },
                ..self
            }
        } else {
            self
        }
    }

    /// The native environment behind a handle that came from the guest; null for a handle that is
    /// not positive or not registered here.
    pub open spec fn resolve(self, guest_env: i32) -> usize {
        if guest_env > 0 && self.napi_envs.contains_key(guest_env as u32) {
            self.napi_envs[guest_env as u32]
        } else {
            0
        }
    }

    /// The state after closing the scopes of `order`, first to last.
    pub open spec fn unregister_all(self, order: Seq<u32>) -> NapiEnvView
        decreases order.len(),
    {
        if order.len() == 0 {
            self
        } else {
            self.unregister_all(order.drop_last()).unregister(order.last())
        }
    }

    /// The native environments that closing the scopes of `order` gives up, first to last.
    pub open spec fn released_by(self, order: Seq<u32>) -> Seq<usize>
        decreases order.len(),
    {
        if order.len() == 0 {
            Seq::empty()
        } else {
            let before = self.unregister_all(order.drop_last());
            match before.scope_state(order.last()) {
                Some(state) => self.released_by(order.drop_last()).push(state),
                None => self.released_by(order.drop_last()),
            }
        }
    }

    /// The state with the resources of an instance bound; what an argument lacks stays as it was.
    pub open spec fn bind(
        self,
        memory: Option<wasmer::Memory>,
        malloc_fn: Option<wasmer::TypedFunction<i32, i32>>,
        table: Option<wasmer::Table>,
    ) -> NapiEnvView {
        NapiEnvView {
            memory: if memory is Some {
                memory
            } else {
                self.memory
            },
            malloc_fn: if malloc_fn is Some {
                malloc_fn
            } else {
                self.malloc_fn
            },
            table: if table is Some {
                table
            } else {
                self.table
            },
            ..self
        }
    }

    /// Scopes and environments belong together one to one: every scope holds a registered
    /// environment, no two scopes hold the same one, and every environment is held by a scope.
    pub open spec fn well_formed(self) -> bool {
        &&& forall|scope: u32| #[trigger]
            self.napi_scopes.contains_key(scope) ==> self.napi_envs.contains_key(
                self.napi_scopes[scope],
            )
        &&& forall|a: u32, b: u32|
            #![trigger self.napi_scopes[a], self.napi_scopes[b]]
            self.napi_scopes.contains_key(a) && self.napi_scopes.contains_key(b) && a != b
                ==> self.napi_scopes[a] != self.napi_scopes[b]
        &&& forall|env: u32| #[trigger]
            self.napi_envs.contains_key(env) ==> exists|scope: u32|
                self.napi_scopes.contains_key(scope) && #[trigger] self.napi_scopes[scope] == env
    }

    /// Every handle in use was drawn from counters that stand at `ids` and have not turned over.
    pub open spec fn drawn_from(self, ids: HandleIdsView) -> bool {
        &&& forall|env: u32| #[trigger]
            self.napi_envs.contains_key(env) ==> 1 <= env <= ids.last_env_id
        &&& forall|scope: u32| #[trigger]
            self.napi_scopes.contains_key(scope) ==> 1 <= scope <= ids.last_scope_id
    }
}

impl Default for NapiEnv {
    fn default() -> (env: Self)
        ensures
            env@ == NapiEnvView::empty(),
    {
        NapiEnv {
            memory: None,
            malloc_fn: None,
            table: None,
            guest_data_ptrs: HashMap::new(),
            guest_data_backing_stores: HashMap::new(),
            host_buffer_copies: Vec::new(),
            host_buffer_copy_frames: Vec::new(),
            host_buffer_method_frames: Vec::new(),
            default_napi_env_id: None,
            napi_envs: HashMap::new(),
            napi_state_to_guest_env: HashMap::new(),
            napi_scopes: HashMap::new(),
        }
    }
}

impl NapiEnv {
    /// Registers a native environment under handles drawn from `ids`, and returns the environment
    /// handle and the scope handle.
    pub fn register_napi_env(&mut self, ids: &mut NapiHandleIds, env: usize) -> (handles: (
        u32,
        u32,
    ))
        ensures
            handles.0 == handle_after(old(ids)@.last_env_id),
            handles.1 == handle_after(old(ids)@.last_scope_id),
            final(ids)@ == old(ids)@.env_drawn().scope_drawn(),
            final(self)@ == old(self)@.register(handles.0, handles.1, env),
    {
        let env_id: u32 = ids.next_env_id();
        let scope_id: u32 = ids.next_scope_id();

        self.napi_envs.insert(env_id, env);
        self.napi_state_to_guest_env.insert(env, env_id);
        self.napi_scopes.insert(scope_id, env_id);
        (env_id, scope_id)
    }

    /// Closes a scope and returns the native environment that it held.
    pub fn unregister_napi_scope(&mut self, scope_id: u32) -> (env: Option<usize>)
        ensures
            env == old(self)@.scope_state(scope_id),
            final(self)@ == old(self)@.unregister(scope_id),
    {
        let env_id: u32 = match self.napi_scopes.remove(&scope_id) {
            Some(env_id) => env_id,
            None => {
                assert(self@ =~= old(self)@);
                return None;
            },
        };
        if let Some(default_id) = self.default_napi_env_id {
            if default_id == env_id {
                self.default_napi_env_id = None;
            }
        }
        match self.napi_envs.remove(&env_id) {
            Some(env) => {
                self.napi_state_to_guest_env.remove(&env);
                assert(self@ =~= old(self)@.unregister(scope_id));
                Some(env)
            },
            None => {
                assert(self@ =~= old(self)@.unregister(scope_id));
                None
            },
        }
    }

    /// Looks up a handle that came from the guest.
    pub fn resolve_napi_env(&self, guest_env: i32) -> (env: usize)
        ensures
            env == self@.resolve(guest_env),
    {
        if guest_env <= 0 {
            return 0;
        }
        let env_id: u32 = guest_env as u32;
        match self.napi_envs.get(&env_id) {
            Some(env) => *env,
            None => 0,
        }
    }

    /// Closes every open scope, in no particular order, and returns the native environments that
    /// they held, for the caller to release.
    pub fn unregister_all_scopes(&mut self) -> (released: Vec<usize>)
        ensures
            exists|order: Seq<u32>|
                order.no_duplicates() && order.to_set() == old(self)@.napi_scopes.dom()
                    && final(self)@ == #[trigger] old(self)@.unregister_all(order) && released@
                    == old(self)@.released_by(order),
            final(self)@.napi_scopes == Map::<u32, u32>::empty(),
    {
        let ghost start = self@;
        let mut scope_ids: Vec<u32> = Vec::new();
        for scope_id in keys: self.napi_scopes.keys()
            invariant
                scope_ids@ == keys.seq().unref().take(keys.index() as int),
                keys.index() == keys.seq().len() ==> scope_ids@ == keys.seq().unref(),
                keys.seq().no_duplicates(),
                keys.seq().unref().to_set() == start.napi_scopes.dom(),
                self@ == start,
        {
            scope_ids.push(*scope_id);
        }
        let ghost order = scope_ids@;
        assert(order.no_duplicates());
        assert(order.to_set() =~= start.napi_scopes.dom());

        let mut released: Vec<usize> = Vec::new();
        let mut i: usize = 0;
        assert(order.take(0) =~= Seq::<u32>::empty());
        while i < scope_ids.len()
            invariant
                i <= scope_ids@.len(),
                scope_ids@ == order,
                self@ == start.unregister_all(order.take(i as int)),
                released@ == start.released_by(order.take(i as int)),
            decreases scope_ids@.len() - i,
        {
            assert(order.take(i + 1).drop_last() =~= order.take(i as int));
            match self.unregister_napi_scope(scope_ids[i]) {
                Some(env) => released.push(env),
                None => {},
            }
            i += 1;
        }
        proof {
            assert(order.take(order.len() as int) =~= order);
            closed_scopes_are_gone(start, order);
            assert forall|scope: u32| !self@.napi_scopes.contains_key(scope) by {
                if start.napi_scopes.contains_key(scope) {
                    assert(order.to_set().contains(scope));
                }
            }
            assert(self@.napi_scopes =~= Map::<u32, u32>::empty());
        }
        released
    }

    /// Binds the resources of an instance; what is `None` stays as it was.
    pub fn bind(
        &mut self,
        memory: Option<wasmer::Memory>,
        malloc_fn: Option<wasmer::TypedFunction<i32, i32>>,
        table: Option<wasmer::Table>,
    )
        ensures
            final(self)@ == old(self)@.bind(memory, malloc_fn, table),
    {
        if memory.is_some() {
            self.memory = memory;
        }
        if malloc_fn.is_some() {
            self.malloc_fn = malloc_fn;
        }
        if table.is_some() {
            self.table = table;
        }
    }
}

/// Closing scopes leaves the ones that are not among them, as they were.
proof fn closed_scopes_are_gone(env: NapiEnvView, order: Seq<u32>)
    ensures
        env.unregister_all(order).napi_scopes == env.napi_scopes.remove_keys(order.to_set()),
    decreases order.len(),
{
    if order.len() == 0 {
        assert(env.napi_scopes.remove_keys(order.to_set()) =~= env.napi_scopes);
    } else {
        let rest = order.drop_last();
        closed_scopes_are_gone(env, rest);
        assert forall|scope: u32|
            order.to_set().contains(scope) <==> rest.to_set().contains(scope) || scope
                == order.last() by {
            if order.contains(scope) {
                let k = choose|k: int| 0 <= k < order.len() && order[k] == scope;
                if k < rest.len() {
                    assert(rest[k] == scope);
                }
            }
            if rest.contains(scope) {
                let k = choose|k: int| 0 <= k < rest.len() && rest[k] == scope;
                assert(order[k] == scope);
            }
            assert(order[order.len() - 1] == order.last());
        }
        assert(env.unregister_all(order).napi_scopes =~= env.napi_scopes.remove_keys(
            order.to_set(),
        ));
    }
}

/// An instance without registrations is well formed, and uses no handle at all.
pub proof fn empty_env_is_well_formed(ids: HandleIdsView)
    ensures
        NapiEnvView::empty().well_formed(),
        NapiEnvView::empty().drawn_from(ids),
{
}

/// While the counters have not turned over, the handles drawn for a registration are new to every
/// environment that draws from them: neither handle is zero, neither is in use, and what is in use
/// afterwards was again drawn from the counters.
pub proof fn drawn_handles_are_fresh(env: NapiEnvView, ids: HandleIdsView, state: usize)
    requires
        env.drawn_from(ids),
        ids.last_env_id < u32::MAX,
        ids.last_scope_id < u32::MAX,
    ensures
        ({
            let env_id = handle_after(ids.last_env_id);
            let scope_id = handle_after(ids.last_scope_id);
            &&& env_id >= 1
            &&& scope_id >= 1
            &&& !env.napi_envs.contains_key(env_id)
            &&& !env.napi_scopes.contains_key(scope_id)
            &&& env.drawn_from(ids.env_drawn().scope_drawn())
            &&& env.register(env_id, scope_id, state).drawn_from(ids.env_drawn().scope_drawn())
        }),
{
}

/// Two instances that draw from the same counters never share an environment handle or a scope
/// handle: if they share none, they share none after either of them registers another environment.
pub proof fn shared_counters_keep_handles_apart(
    parent: NapiEnvView,
    worker: NapiEnvView,
    ids: HandleIdsView,
    state: usize,
)
    requires
        parent.drawn_from(ids),
        worker.drawn_from(ids),
        ids.last_env_id < u32::MAX,
        ids.last_scope_id < u32::MAX,
        parent.napi_envs.dom().disjoint(worker.napi_envs.dom()),
        parent.napi_scopes.dom().disjoint(worker.napi_scopes.dom()),
    ensures
        ({
            let after = worker.register(
                handle_after(ids.last_env_id),
                handle_after(ids.last_scope_id),
                state,
            );
            &&& parent.napi_envs.dom().disjoint(after.napi_envs.dom())
            &&& parent.napi_scopes.dom().disjoint(after.napi_scopes.dom())
        }),
{
}

/// A registration under new handles keeps scopes and environments one to one.
pub proof fn register_keeps_well_formed(
    env: NapiEnvView,
    env_id: u32,
    scope_id: u32,
    state: usize,
)
    requires
        env.well_formed(),
        !env.napi_envs.contains_key(env_id),
        !env.napi_scopes.contains_key(scope_id),
    ensures
        env.register(env_id, scope_id, state).well_formed(),
{
    let after = env.register(env_id, scope_id, state);
    assert forall|e: u32| #[trigger] after.napi_envs.contains_key(e) implies exists|scope: u32|
        after.napi_scopes.contains_key(scope) && #[trigger] after.napi_scopes[scope] == e by {
        if e == env_id {
            assert(after.napi_scopes[scope_id] == e);
        } else {
            let scope = choose|scope: u32|
                env.napi_scopes.contains_key(scope) && #[trigger] env.napi_scopes[scope] == e;
            assert(after.napi_scopes[scope] == e);
        }
    }
}

/// Closing a scope keeps scopes and environments one to one, whether the scope was open or not.
pub proof fn unregister_keeps_well_formed(env: NapiEnvView, scope_id: u32)
    requires
        env.well_formed(),
    ensures
        env.unregister(scope_id).well_formed(),
{
    let after = env.unregister(scope_id);
    assert forall|e: u32| #[trigger] after.napi_envs.contains_key(e) implies exists|scope: u32|
        after.napi_scopes.contains_key(scope) && #[trigger] after.napi_scopes[scope] == e by {
        let scope = choose|scope: u32|
            env.napi_scopes.contains_key(scope) && #[trigger] env.napi_scopes[scope] == e;
        assert(after.napi_scopes.contains_key(scope));
        assert(after.napi_scopes[scope] == e);
    }
}

/// Closing a scope uses no new handle.
pub proof fn unregister_keeps_handles_drawn(env: NapiEnvView, ids: HandleIdsView, scope_id: u32)
    requires
        env.drawn_from(ids),
    ensures
        env.unregister(scope_id).drawn_from(ids),
{
}

/// The instance that registered an environment resolves its handle, as long as the handle is one
/// that the guest can hold as a positive integer.
pub proof fn registered_env_resolves(env: NapiEnvView, env_id: u32, scope_id: u32, state: usize)
    requires
        0 < env_id <= i32::MAX,
    ensures
        env.register(env_id, scope_id, state).resolve(env_id as i32) == state,
{
}

/// A registration changes what its own handle resolves to, and nothing else.
pub proof fn register_leaves_other_handles(
    env: NapiEnvView,
    env_id: u32,
    scope_id: u32,
    state: usize,
    guest_env: i32,
)
    requires
        guest_env <= 0 || guest_env as u32 != env_id,
    ensures
        env.register(env_id, scope_id, state).resolve(guest_env) == env.resolve(guest_env),
{
}

/// Handles that are not positive resolve to null, whatever is registered.
pub proof fn non_positive_handles_are_null(env: NapiEnvView, guest_env: i32)
    requires
        guest_env <= 0,
    ensures
        env.resolve(guest_env) == 0,
{
}

/// Closing a scope gives back the environment registered with it, and undoes the registration:
/// handles and scopes are as before, the handle resolves to null, and a second closing finds
/// nothing.
pub proof fn unregister_undoes_register(
    env: NapiEnvView,
    env_id: u32,
    scope_id: u32,
    state: usize,
)
    requires
        !env.napi_envs.contains_key(env_id),
        !env.napi_scopes.contains_key(scope_id),
    ensures
        ({
            let registered = env.register(env_id, scope_id, state);
            let closed = registered.unregister(scope_id);
            &&& registered.scope_state(scope_id) == Some(state)
            &&& closed.napi_envs == env.napi_envs
            &&& closed.napi_scopes == env.napi_scopes
            &&& closed.napi_state_to_guest_env == env.napi_state_to_guest_env.remove(state)
            &&& env_id <= i32::MAX ==> closed.resolve(env_id as i32) == 0
            &&& closed.scope_state(scope_id) is None
            &&& closed.unregister(scope_id) == closed
        }),
{
    let closed = env.register(env_id, scope_id, state).unregister(scope_id);
    assert(closed.napi_envs =~= env.napi_envs);
    assert(closed.napi_scopes =~= env.napi_scopes);
    assert(closed.napi_state_to_guest_env =~= env.napi_state_to_guest_env.remove(state));
}

/// In a well-formed state an open scope always has an environment to give up, and closing it never
/// touches what other handles resolve to.
pub proof fn open_scope_gives_up_its_env(env: NapiEnvView, scope_id: u32, guest_env: i32)
    requires
        env.well_formed(),
        env.napi_scopes.contains_key(scope_id),
    ensures
        env.scope_state(scope_id) is Some,
        guest_env <= 0 || guest_env as u32 != env.napi_scopes[scope_id] ==> env.unregister(
            scope_id,
        ).resolve(guest_env) == env.resolve(guest_env),
{
}

/// Closing every scope of a well-formed state, in whatever order, gives up every environment once,
/// in that order, and leaves none behind.
pub proof fn closing_all_releases_every_env(env: NapiEnvView, order: Seq<u32>)
    requires
        env.well_formed(),
        order.no_duplicates(),
        order.to_set() == env.napi_scopes.dom(),
    ensures
        env.released_by(order) == order.map_values(
            |scope: u32| env.napi_envs[env.napi_scopes[scope]],
        ),
        env.unregister_all(order).napi_envs == Map::<u32, usize>::empty(),
        env.unregister_all(order).napi_scopes == Map::<u32, u32>::empty(),
{
    assert forall|i: int| 0 <= i < order.len() implies env.napi_scopes.contains_key(
        #[trigger] order[i],
    ) by {
        assert(order.to_set().contains(order[i]));
    }
    closing_some_releases_their_envs(env, order);
    closed_scopes_are_gone(env, order);
    let after = env.unregister_all(order);
    assert(after.napi_scopes =~= Map::<u32, u32>::empty());
    assert forall|e: u32| !after.napi_envs.contains_key(e) by {
        if env.napi_envs.contains_key(e) {
            let scope = choose|scope: u32|
                env.napi_scopes.contains_key(scope) && #[trigger] env.napi_scopes[scope] == e;
            assert(order.to_set().contains(scope));
            let k = choose|k: int| 0 <= k < order.len() && order[k] == scope;
            assert(env.napi_scopes[order[k]] == e);
        }
    }
    assert(after.napi_envs =~= Map::<u32, usize>::empty());
}

/// Closing distinct open scopes of a well-formed state gives up their environments, and no other.
proof fn closing_some_releases_their_envs(env: NapiEnvView, order: Seq<u32>)
    requires
        env.well_formed(),
        order.no_duplicates(),
        forall|i: int| 0 <= i < order.len() ==> env.napi_scopes.contains_key(#[trigger] order[i]),
    ensures
        env.released_by(order) == order.map_values(
            |scope: u32| env.napi_envs[env.napi_scopes[scope]],
        ),
        forall|e: u32| #[trigger]
            env.unregister_all(order).napi_envs.contains_key(e) <==> env.napi_envs.contains_key(e)
                && forall|i: int| 0 <= i < order.len() ==> env.napi_scopes[#[trigger] order[i]] != e,
        forall|e: u32| #[trigger]
            env.unregister_all(order).napi_envs.contains_key(e) ==> env.unregister_all(
                order,
            ).napi_envs[e] == env.napi_envs[e],
    decreases order.len(),
{
    let state_of = |scope: u32| env.napi_envs[env.napi_scopes[scope]];
    if order.len() == 0 {
        assert(env.released_by(order) =~= order.map_values(state_of));
    } else {
        let rest = order.drop_last();
        let last = order.last();
        closing_some_releases_their_envs(env, rest);
        closed_scopes_are_gone(env, rest);
        let before = env.unregister_all(rest);
        assert(!rest.to_set().contains(last)) by {
            if rest.contains(last) {
                let k = choose|k: int| 0 <= k < rest.len() && rest[k] == last;
                assert(order[k] == order[order.len() - 1]);
            }
        }
        assert(before.napi_scopes.contains_key(last));
        assert(before.napi_scopes[last] == env.napi_scopes[last]);
        assert forall|i: int| 0 <= i < rest.len() implies env.napi_scopes[#[trigger] rest[i]]
            != env.napi_scopes[last] by {
            assert(order[i] == rest[i]);
            assert(order[i] != order[order.len() - 1]);
        }
        assert(before.scope_state(last) == Some(state_of(last)));
        assert(env.released_by(order) =~= order.map_values(state_of));
        assert forall|e: u32| #[trigger]
            env.unregister_all(order).napi_envs.contains_key(e) <==> env.napi_envs.contains_key(e)
                && forall|i: int| 0 <= i < order.len() ==> env.napi_scopes[#[trigger] order[i]]
            != e by {
            if before.napi_envs.contains_key(e) && env.napi_scopes[last] != e {
                assert forall|i: int| 0 <= i < order.len() implies env.napi_scopes[#[trigger] order[i]]
                    != e by {
                    if i < rest.len() {
                        assert(rest[i] == order[i]);
                    }
                }
            }
            if env.napi_envs.contains_key(e) && (forall|i: int|
                0 <= i < order.len() ==> env.napi_scopes[#[trigger] order[i]] != e) {
                assert forall|i: int| 0 <= i < rest.len() implies env.napi_scopes[#[trigger] rest[i]]
                    != e by {
                    assert(rest[i] == order[i]);
                }
                assert(env.napi_scopes[order[order.len() - 1]] != e);
            }
        }
    }
}

/// A new instance has no memory, no allocator, no table, no buffers, no callbacks and no handles.
pub proof fn a_new_state_knows_nothing()
    ensures
        ({
            let env = NapiEnvView::empty();
            &&& env.memory is None
            &&& env.malloc_fn is None
            &&& env.table is None
            &&& forall|handle: u32| !(#[trigger] env.guest_data_ptrs.contains_key(handle))
            &&& forall|token: u64| !(#[trigger] env.guest_data_backing_stores.contains_key(token))
            &&& env.host_buffer_copies.len() == 0
            &&& env.host_buffer_copy_frames.len() == 0
            &&& env.host_buffer_method_frames.len() == 0
            &&& env.default_napi_env_id is None
            &&& forall|id: u32| !(#[trigger] env.napi_envs.contains_key(id))
            &&& forall|state: usize| !(#[trigger] env.napi_state_to_guest_env.contains_key(state))
            &&& forall|scope: u32| !(#[trigger] env.napi_scopes.contains_key(scope))
        }),
{
}

/// Whether two states agree on everything but registrations: on the resources of the instance, on
/// buffers and on callbacks.
pub open spec fn same_but_for_registrations(one: NapiEnvView, other: NapiEnvView) -> bool {
    &&& one.memory == other.memory
    &&& one.malloc_fn == other.malloc_fn
    &&& one.table == other.table
    &&& one.guest_data_ptrs == other.guest_data_ptrs
    &&& one.guest_data_backing_stores == other.guest_data_backing_stores
    &&& one.host_buffer_copies == other.host_buffer_copies
    &&& one.host_buffer_copy_frames == other.host_buffer_copy_frames
    &&& one.host_buffer_method_frames == other.host_buffer_method_frames
}

/// Whether two states agree on registrations.
pub open spec fn same_registrations(one: NapiEnvView, other: NapiEnvView) -> bool {
    &&& one.default_napi_env_id == other.default_napi_env_id
    &&& one.napi_envs == other.napi_envs
    &&& one.napi_state_to_guest_env == other.napi_state_to_guest_env
    &&& one.napi_scopes == other.napi_scopes
}

/// A registration is found again under its environment handle, its scope handle and its native
/// environment. Every other handle, scope and native environment is as it was, and so is all that
/// has nothing to do with registrations.
pub proof fn register_adds_exactly_one(
    env: NapiEnvView,
    env_id: u32,
    scope_id: u32,
    state: usize,
    other_id: u32,
    other_scope: u32,
    other_state: usize,
)
    requires
        other_id != env_id,
        other_scope != scope_id,
        other_state != state,
    ensures
        ({
            let after = env.register(env_id, scope_id, state);
            &&& after.napi_envs.contains_key(env_id) && after.napi_envs[env_id] == state
            &&& after.napi_scopes.contains_key(scope_id) && after.napi_scopes[scope_id] == env_id
            &&& after.napi_state_to_guest_env.contains_key(state)
            &&& after.napi_state_to_guest_env[state] == env_id
            &&& after.napi_envs.get(other_id) == env.napi_envs.get(other_id)
            &&& after.napi_scopes.get(other_scope) == env.napi_scopes.get(other_scope)
            &&& after.napi_state_to_guest_env.get(other_state) == env.napi_state_to_guest_env.get(
                other_state,
            )
            &&& after.default_napi_env_id == env.default_napi_env_id
            &&& same_but_for_registrations(after, env)
        }),
{
}

/// Closing an open scope takes it away, the environment handle that it held, and what was registered
/// under that handle, which is what is given back; the default environment goes if it was that one.
/// Every other handle, scope and native environment is as it was, and so is all that has nothing to
/// do with registrations.
pub proof fn unregister_takes_exactly_one(
    env: NapiEnvView,
    scope_id: u32,
    env_id: u32,
    other_id: u32,
    other_scope: u32,
    other_state: usize,
)
    requires
        env.napi_scopes.contains_key(scope_id),
        env.napi_scopes[scope_id] == env_id,
        other_id != env_id,
        other_scope != scope_id,
        env.napi_envs.contains_key(env_id) ==> other_state != env.napi_envs[env_id],
    ensures
        ({
            let after = env.unregister(scope_id);
            &&& env.scope_state(scope_id) == env.napi_envs.get(env_id)
            &&& !after.napi_scopes.contains_key(scope_id)
            &&& !after.napi_envs.contains_key(env_id)
            &&& env.napi_envs.contains_key(env_id) ==> !after.napi_state_to_guest_env.contains_key(
                env.napi_envs[env_id],
            )
            &&& after.napi_envs.get(other_id) == env.napi_envs.get(other_id)
            &&& after.napi_scopes.get(other_scope) == env.napi_scopes.get(other_scope)
            &&& after.napi_state_to_guest_env.get(other_state) == env.napi_state_to_guest_env.get(
                other_state,
            )
            &&& env.default_napi_env_id == Some(env_id) ==> after.default_napi_env_id is None
            &&& env.default_napi_env_id != Some(env_id) ==> after.default_napi_env_id
                == env.default_napi_env_id
            &&& same_but_for_registrations(after, env)
        }),
{
}

/// Closing a scope that is not open gives nothing back, and changes nothing.
pub proof fn a_closed_scope_gives_nothing(env: NapiEnvView, scope_id: u32)
    requires
        !env.napi_scopes.contains_key(scope_id),
    ensures
        env.scope_state(scope_id) is None,
        env.unregister(scope_id) == env,
{
}

/// A positive handle from the guest stands for the native environment that is registered under the
/// same number, and for null where none is. Every other handle stands for null.
pub proof fn handles_resolve_by_their_number(env: NapiEnvView, guest_env: i32, env_id: u32)
    requires
        env_id as int == guest_env as int || guest_env <= 0,
    ensures
        guest_env <= 0 ==> env.resolve(guest_env) == 0,
        guest_env > 0 && env.napi_envs.contains_key(env_id) ==> env.resolve(guest_env)
            == env.napi_envs[env_id],
        guest_env > 0 && !env.napi_envs.contains_key(env_id) ==> env.resolve(guest_env) == 0,
{
}

/// Binding the resources of an instance replaces each one that is given, keeps each one that is not,
/// and changes nothing else.
pub proof fn binding_replaces_what_is_given(
    env: NapiEnvView,
    memory: Option<wasmer::Memory>,
    malloc_fn: Option<wasmer::TypedFunction<i32, i32>>,
    table: Option<wasmer::Table>,
)
    ensures
        ({
            let after = env.bind(memory, malloc_fn, table);
            &&& memory is Some ==> after.memory == memory
            &&& memory is None ==> after.memory == env.memory
            &&& malloc_fn is Some ==> after.malloc_fn == malloc_fn
            &&& malloc_fn is None ==> after.malloc_fn == env.malloc_fn
            &&& table is Some ==> after.table == table
            &&& table is None ==> after.table == env.table
            &&& after.guest_data_ptrs == env.guest_data_ptrs
            &&& after.guest_data_backing_stores == env.guest_data_backing_stores
            &&& after.host_buffer_copies == env.host_buffer_copies
            &&& after.host_buffer_copy_frames == env.host_buffer_copy_frames
            &&& after.host_buffer_method_frames == env.host_buffer_method_frames
            &&& same_registrations(after, env)
        }),
{
}

/// Closing scopes one after the other is closing the first ones and then the rest; what is given up
/// comes in the order in which the scopes are closed, each time what that scope held by then.
pub proof fn scopes_are_closed_one_by_one(env: NapiEnvView, order: Seq<u32>, scope_id: u32)
    ensures
        env.unregister_all(Seq::empty()) == env,
        env.released_by(Seq::empty()) == Seq::<usize>::empty(),
        env.unregister_all(order.push(scope_id)) == env.unregister_all(order).unregister(scope_id),
        env.unregister_all(order).scope_state(scope_id) is None ==> env.released_by(
            order.push(scope_id),
        ) == env.released_by(order),
        env.unregister_all(order).scope_state(scope_id) matches Some(state) ==> env.released_by(
            order.push(scope_id),
        ) == env.released_by(order).push(state),
{
    assert(order.push(scope_id).drop_last() =~= order);
}

/// Closing scopes touches nothing but registrations, and a scope that is not among them stays.
pub proof fn closing_touches_only_registrations(env: NapiEnvView, order: Seq<u32>, other: u32)
    requires
        !order.contains(other),
    ensures
        same_but_for_registrations(env.unregister_all(order), env),
        env.unregister_all(order).napi_scopes.get(other) == env.napi_scopes.get(other),
    decreases order.len(),
{
    if order.len() > 0 {
        let rest = order.drop_last();
        assert(!rest.contains(other)) by {
            if rest.contains(other) {
                let k = choose|k: int| 0 <= k < rest.len() && rest[k] == other;
                assert(order[k] == other);
            }
        }
        assert(order[order.len() - 1] != other);
        closing_touches_only_registrations(env, rest, other);
    }
}

/// The value of a state is that of its fields, each for itself.
pub proof fn a_state_is_read_field_by_field(env: NapiEnv)
    ensures
        env@.memory == env.memory,
        env@.malloc_fn == env.malloc_fn,
        env@.table == env.table,
        env@.guest_data_ptrs == env.guest_data_ptrs@,
        env@.guest_data_backing_stores == env.guest_data_backing_stores@,
        env@.host_buffer_copies == env.host_buffer_copies@,
        env@.host_buffer_copy_frames == env.host_buffer_copy_frames@,
        env@.host_buffer_method_frames == env.host_buffer_method_frames@,
        env@.default_napi_env_id == env.default_napi_env_id,
        env@.napi_envs == env.napi_envs@,
        env@.napi_state_to_guest_env == env.napi_state_to_guest_env@,
        env@.napi_scopes == env.napi_scopes@,
{
}

} // verus!
