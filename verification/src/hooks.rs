//! What a WebAssembly runtime calls around the instantiation of a module.
use std::collections::{HashMap, VecDeque};
use vstd::prelude::*;

use crate::ctx::{release_undoes_open, CtxView, NapiCtx};
use crate::engine::{
    declared_imports, import_entries, module_imports, new_imports, no_entries, store_envs,
    table_parts, takes_functions, ElementType,
};
use crate::env::NapiEnv;
use crate::error::NapiError;
use crate::import::{
    core_need, core_need_is_read_off_the_napi_imports, extension_need,
    extension_need_is_read_off_the_extension_imports, find_imported_table, imported_table,
    name_texts, ImportView,
};
use crate::session::{
    allocators_fit, can_make, chosen_allocator, chosen_table, has_resources, imports_made,
    instance_configured, is_placeholder, only_table_added, referent, session_for, NapiSession,
    SessionView,
};
use crate::version::{NapiVersion, NapiWasmerExtensionVersion};

verus! {

broadcast use vstd::std_specs::hash::group_hash_axioms;

/// Sessions on their way from the imports of a module to its instance.
///
/// Every module has a queue of its own, under a key that the caller chooses.
pub struct NapiRuntimeHooks {
    sessions: HashMap<usize, VecDeque<NapiSession>>,
}

/// The values of a queue of sessions.
spec fn queue_view(queue: VecDeque<NapiSession>) -> Seq<SessionView> {
    queue@.map_values(|session: NapiSession| session@)
}

impl View for NapiRuntimeHooks {
    type V = Map<usize, Seq<SessionView>>;

    closed spec fn view(&self) -> Map<usize, Seq<SessionView>> {
        self.sessions@.map_values(|queue: VecDeque<NapiSession>| queue_view(queue))
    }
}

/// What a module is given at instantiation.
pub struct GuestImports {
    /// The memory and the table that the module imports, where it imports them.
    pub imports: wasmer::Imports,
    /// The handle to the guest state that the host's functions are to work on; none for a module
    /// that needs no host functions.
    pub func_env: Option<wasmer::FunctionEnv<NapiEnv>>,
}

/// Whether a module asks for neither the core functions nor the extension.
pub open spec fn needs_nothing(imports: Seq<ImportView>, known: Seq<Seq<char>>) -> bool {
    core_need(imports, known) is None && extension_need(imports) is None
}

/// Why the host cannot serve a module, if it cannot.
pub open spec fn unsupported(imports: Seq<ImportView>, known: Seq<Seq<char>>) -> Option<NapiError> {
    if core_need(imports, known) == Some(NapiVersion::Unknown) {
        Some(NapiError::UnsupportedNapiVersion(NapiVersion::Unknown))
    } else if extension_need(imports) == Some(NapiWasmerExtensionVersion::Unknown) {
        Some(NapiError::UnsupportedExtensionVersion(NapiWasmerExtensionVersion::Unknown))
    } else {
        None
    }
}

/// Whether the engine can be asked for the function table that a module imports.
pub open spec fn table_is_askable(imports: Seq<ImportView>) -> bool {
    imported_table(imports) is Some ==> takes_functions(imported_table(imports)->0)
}

/// The queues with one more session at the end of the queue of `key`.
pub open spec fn queued(
    queues: Map<usize, Seq<SessionView>>,
    key: usize,
    session: SessionView,
) -> Map<usize, Seq<SessionView>> {
    if queues.contains_key(key) {
        queues.insert(key, queues[key].push(session))
    } else {
        queues.insert(key, seq![session])
    }
}

/// The queues without the first session of the queue of `key`; a queue that becomes empty goes.
pub open spec fn dequeued(queues: Map<usize, Seq<SessionView>>, key: usize) -> Map<
    usize,
    Seq<SessionView>,
> {
    if queues[key].len() == 1 {
        queues.remove(key)
    } else {
        queues.insert(key, queues[key].skip(1))
    }
}

/// Whether there are finitely many queues, and none is empty.
pub open spec fn queues_are_well_formed(queues: Map<usize, Seq<SessionView>>) -> bool {
    &&& queues.dom().finite()
    &&& forall|key: usize| #[trigger] queues.contains_key(key) ==> queues[key].len() > 0
}

/// How many sessions are waiting, in all queues together.
pub open spec fn waiting(queues: Map<usize, Seq<SessionView>>) -> nat
    decreases queues.dom().len(),
    when queues.dom().finite()
{
    if queues.dom().len() == 0 {
        0
    } else {
        let key = queues.dom().choose();
        queues[key].len() + waiting(queues.remove(key))
    }
}

impl NapiRuntimeHooks {
    /// Hooks with no session queued.
    pub(crate) fn new() -> (hooks: NapiRuntimeHooks)
        ensures
            hooks@ == Map::<usize, Seq<SessionView>>::empty(),
    {
        let hooks = NapiRuntimeHooks { sessions: HashMap::new() };
        assert(hooks@ =~= Map::<usize, Seq<SessionView>>::empty());
        hooks
    }

    /// Puts a session at the end of the queue of `key`.
    fn push_session(&mut self, key: usize, session: NapiSession)
        ensures
            final(self)@ == queued(old(self)@, key, session@),
    {
        let mut queue = match self.sessions.remove(&key) {
            Some(queue) => queue,
            None => VecDeque::new(),
        };
        let ghost before = queue;
        queue.push_back(session);
        assert(queue_view(queue) =~= queue_view(before).push(session@));
        assert(!old(self)@.contains_key(key) ==> queue_view(queue) =~= seq![session@]);
        self.sessions.insert(key, queue);
        assert(self@ =~= queued(old(self)@, key, session@));
    }

    /// The handle to the guest state of the session first queued under `key`; none where no session
    /// is queued, or it has made no imports.
    pub fn next_func_env(&self, key: usize) -> (func_env: Option<wasmer::FunctionEnv<NapiEnv>>)
        ensures
            func_env == (if self@.contains_key(key) && self@[key].len() > 0 {
                self@[key][0].func_env
            } else {
                None
            }),
    {
        match self.sessions.get(&key) {
            Some(queue) => {
                assert(queue_view(*queue) == self@[key]);
                if queue.len() > 0 {
                    queue[0].func_env()
                } else {
                    None
                }
            },
            None => None,
        }
    }

    /// Takes the first session of the queue of `key`.
    pub fn take_session(&mut self, key: usize) -> (result: Result<NapiSession, NapiError>)
        ensures
            if !old(self)@.contains_key(key) {
                &&& result == Err::<NapiSession, NapiError>(NapiError::MissingPendingSession)
                &&& final(self)@ == old(self)@
            } else if old(self)@[key].len() == 0 {
                &&& result == Err::<NapiSession, NapiError>(NapiError::MissingQueuedSession)
                &&& final(self)@ == old(self)@
            } else {
                &&& result is Ok
                &&& result->Ok_0@ == old(self)@[key][0]
                &&& final(self)@ == dequeued(old(self)@, key)
            },
    {
        let mut queue = match self.sessions.remove(&key) {
            Some(queue) => queue,
            None => {
                assert(self@ =~= old(self)@);
                return Err(NapiError::MissingPendingSession);
            },
        };
        let ghost before = queue;
        match queue.pop_front() {
            Some(session) => {
                assert(queue_view(queue) =~= queue_view(before).skip(1));
                if queue.len() > 0 {
                    self.sessions.insert(key, queue);
                }
                assert(self@ =~= dequeued(old(self)@, key));
                Ok(session)
            },
            None => {
                self.sessions.insert(key, queue);
                assert(self@ =~= old(self)@);
                Err(NapiError::MissingQueuedSession)
            },
        }
    }

    /// Tests whether the engine can be asked for the function table that a module imports, which
    /// is what making its imports demands.
    pub fn can_make_table(module: &wasmer::Module) -> (askable: bool)
        ensures
            askable == table_is_askable(declared_imports(*module)),
    {
        match find_imported_table(&module_imports(module)) {
            Some(ty) => can_make(&ty),
            None => true,
        }
    }

    /// Puts the outcome of making a session's imports to use: with imports, the session is queued
    /// under `key`, and the imports come with the handle to its guest state; an error is handed on,
    /// and the session is given up.
    pub fn settle_imports(
        &mut self,
        ctx: &mut NapiCtx,
        key: usize,
        session: NapiSession,
        created: Result<wasmer::Imports, NapiError>,
    ) -> (result: Result<GuestImports, NapiError>)
        ensures
            match created {
                Ok(imports) => {
                    &&& result == Ok::<GuestImports, NapiError>(
                        (GuestImports { imports, func_env: session@.func_env }),
                    )
                    &&& final(self)@ == queued(old(self)@, key, session@)
                    &&& final(ctx)@ == old(ctx)@
                },
                Err(error) => {
                    &&& result == Err::<GuestImports, NapiError>(error)
                    &&& final(self)@ == old(self)@
                    &&& final(ctx)@ == old(ctx)@.released()
                },
            },
    {
        match created {
            Ok(imports) => {
                let func_env = session.func_env();
                self.push_session(key, session);
                Ok(GuestImports { imports, func_env })
            },
            Err(error) => {
                ctx.release_session(session);
                Err(error)
            },
        }
    }

    /// Makes what a module is given at instantiation, and queues the session that did it under
    /// `key`. The host knows the core functions that `known` lists. A module that needs no host
    /// functions is given nothing, and no session is opened for it.
    pub fn additional_imports(
        &mut self,
        ctx: &mut NapiCtx,
        key: usize,
        module: &wasmer::Module,
        known: &Vec<String>,
        store: &mut wasmer::StoreMut<'_>,
    ) -> (result: Result<GuestImports, NapiError>)
        requires
            !needs_nothing(declared_imports(*module), name_texts(known@)) && unsupported(
                declared_imports(*module),
                name_texts(known@),
            ) is None && old(ctx)@.admits() ==> table_is_askable(declared_imports(*module)),
        ensures
            ({
                let imports = declared_imports(*module);
                let names = name_texts(known@);
                if needs_nothing(imports, names) {
                    &&& result is Ok
                    &&& import_entries(result->Ok_0.imports) == no_entries()
                    &&& result->Ok_0.func_env is None
                    &&& final(self)@ == old(self)@
                    &&& final(ctx)@ == old(ctx)@
                    &&& *final(store) == *old(store)
                } else if unsupported(imports, names) is Some {
                    &&& result == Err::<GuestImports, NapiError>(unsupported(imports, names)->0)
                    &&& final(self)@ == old(self)@
                    &&& final(ctx)@ == old(ctx)@
                    &&& *final(store) == *old(store)
                } else if !old(ctx)@.admits() {
                    &&& result == Err::<GuestImports, NapiError>(old(ctx)@.refusal())
                    &&& final(self)@ == old(self)@
                    &&& final(ctx)@ == old(ctx)@
                    &&& *final(store) == *old(store)
                } else {
                    exists|func_env: wasmer::FunctionEnv<NapiEnv>|
                        {
                            let env = store_envs(*final(store))[func_env];
                            &&& !#[trigger] store_envs(*old(store)).contains_key(func_env)
                            &&& store_envs(*final(store)) == store_envs(*old(store)).insert(
                                func_env,
                                env,
                            )
                            &&& only_table_added(*old(store), *final(store), env.table)
                            &&& match result {
                                Ok(given) => {
                                    &&& imports_made(session_for(imports), env, Ok(given.imports))
                                    &&& given.func_env == Some(func_env)
                                    &&& env.table is Some ==> is_placeholder(
                                        env.table->0,
                                        *final(store),
                                    )
                                    &&& final(ctx)@ == old(ctx)@.opened()
                                    &&& final(self)@ == queued(
                                        old(self)@,
                                        key,
                                        SessionView {
                                            func_env: Some(func_env),
                                            ..session_for(imports)
                                        },
                                    )
                                },
                                Err(error) => {
                                    &&& imports_made(session_for(imports), env, Err(error))
                                    &&& final(ctx)@ == old(ctx)@
                                    &&& final(self)@ == old(self)@
                                },
                            }
                        }
                }
            }),
    {
        let (napi_version, napi_extension_version) = NapiCtx::module_needs_napi(module, known);
        if napi_version.is_none() && napi_extension_version.is_none() {
            return Ok(GuestImports { imports: new_imports(), func_env: None });
        }
        if let Some(version) = napi_version {
            if !NapiVersion::V10.is_compatible_with(version) {
                return Err(NapiError::UnsupportedNapiVersion(version));
            }
        }
        if let Some(version) = napi_extension_version {
            if !NapiWasmerExtensionVersion::V0.is_compatible_with(version) {
                return Err(NapiError::UnsupportedExtensionVersion(version));
            }
        }
        let mut session = match ctx.prepare_module(module) {
            Ok(session) => session,
            Err(error) => {
                return Err(error);
            },
        };
        let created = session.create_imports(store);
        proof {
            assert(!store_envs(*old(store)).contains_key(session@.func_env->0));
            release_undoes_open(old(ctx)@);
        }
        self.settle_imports(ctx, key, session, created)
    }

    /// Takes the session first queued under `key`, binds the resources of the instance to its guest
    /// state, and gives the session up, whether that succeeds or not. Nothing is done for a module
    /// that needs no host functions.
    pub fn configure_instance(
        &mut self,
        ctx: &mut NapiCtx,
        key: usize,
        module: &wasmer::Module,
        known: &Vec<String>,
        store: &mut wasmer::StoreMut<'_>,
        instance: &wasmer::Instance,
        imported_memory: Option<&wasmer::Memory>,
        imported_table: Option<&wasmer::Table>,
        imported_malloc: Option<&wasmer::Function>,
    ) -> (result: Result<(), NapiError>)
        requires
            !needs_nothing(declared_imports(*module), name_texts(known@)) && old(
                self,
            )@.contains_key(key) && old(self)@[key].len() > 0 && old(self)@[key][0].func_env
                is Some ==> {
                &&& allocators_fit(*instance, referent(imported_malloc), *old(store))
                &&& has_resources(
                    referent(imported_memory),
                    chosen_allocator(*instance, referent(imported_malloc)),
                    chosen_table(*instance, referent(imported_table)),
                ) ==> store_envs(*old(store)).contains_key(old(self)@[key][0].func_env->0)
            },
        ensures
            if needs_nothing(declared_imports(*module), name_texts(known@)) {
                &&& result == Ok::<(), NapiError>(())
                &&& final(self)@ == old(self)@
                &&& final(ctx)@ == old(ctx)@
                &&& *final(store) == *old(store)
            } else if !old(self)@.contains_key(key) {
                &&& result == Err::<(), NapiError>(NapiError::MissingPendingSession)
                &&& final(self)@ == old(self)@
                &&& final(ctx)@ == old(ctx)@
                &&& *final(store) == *old(store)
            } else if old(self)@[key].len() == 0 {
                &&& result == Err::<(), NapiError>(NapiError::MissingQueuedSession)
                &&& final(self)@ == old(self)@
                &&& final(ctx)@ == old(ctx)@
                &&& *final(store) == *old(store)
            } else {
                &&& final(self)@ == dequeued(old(self)@, key)
                &&& final(ctx)@ == old(ctx)@.released()
                &&& instance_configured(
                    old(self)@[key][0].func_env,
                    referent(imported_memory),
                    chosen_allocator(*instance, referent(imported_malloc)),
                    chosen_table(*instance, referent(imported_table)),
                    *old(store),
                    *final(store),
                    result,
                )
            },
    {
        let (napi_version, napi_extension_version) = NapiCtx::module_needs_napi(module, known);
        if napi_version.is_none() && napi_extension_version.is_none() {
            return Ok(());
        }
        let session = match self.take_session(key) {
            Ok(session) => session,
            Err(error) => {
                return Err(error);
            },
        };
        let result = session.configure_instance(
            store,
            instance,
            imported_memory,
            imported_table,
            imported_malloc,
        );
        ctx.release_session(session);
        result
    }
}

/// The queues of new hooks are in order, and stay in order: queueing a session and taking one keep
/// every queue from being empty.
pub proof fn queues_stay_well_formed(
    queues: Map<usize, Seq<SessionView>>,
    key: usize,
    session: SessionView,
)
    requires
        queues_are_well_formed(queues),
    ensures
        queues_are_well_formed(Map::empty()),
        queues_are_well_formed(queued(queues, key, session)),
        queues.contains_key(key) ==> queues_are_well_formed(dequeued(queues, key)),
{
}

/// Sessions are configured in the order in which they were queued: behind sessions that are
/// waiting, a new one changes nothing about which comes next, and it comes next itself only on an
/// empty queue, which is gone again once it is taken.
pub proof fn sessions_are_taken_in_order(
    queues: Map<usize, Seq<SessionView>>,
    key: usize,
    session: SessionView,
)
    requires
        queues_are_well_formed(queues),
    ensures
        queues.contains_key(key) ==> {
            &&& queued(queues, key, session)[key][0] == queues[key][0]
            &&& dequeued(queued(queues, key, session), key) == queued(
                dequeued(queues, key),
                key,
                session,
            )
        },
        !queues.contains_key(key) ==> {
            &&& queued(queues, key, session)[key][0] == session
            &&& dequeued(queued(queues, key, session), key) == queues
        },
{
    let more = queued(queues, key, session);
    if queues.contains_key(key) {
        assert(more[key].skip(1) =~= queues[key].skip(1).push(session));
        if queues[key].len() == 1 {
            assert(more[key].skip(1) =~= seq![session]);
        }
        assert(dequeued(more, key) =~= queued(dequeued(queues, key), key, session));
    } else {
        assert(dequeued(more, key) =~= queues);
    }
}

/// How many sessions are waiting does not depend on the order in which the queues are counted.
proof fn waiting_in_one_and_the_rest(queues: Map<usize, Seq<SessionView>>, key: usize)
    requires
        queues.dom().finite(),
        queues.contains_key(key),
    ensures
        waiting(queues) == queues[key].len() + waiting(queues.remove(key)),
    decreases queues.dom().len(),
{
    let first = queues.dom().choose();
    if first != key {
        waiting_in_one_and_the_rest(queues.remove(first), key);
        waiting_in_one_and_the_rest(queues.remove(key), first);
        assert(queues.remove(first).remove(key) =~= queues.remove(key).remove(first));
    }
}

/// Queueing a session makes one more wait, and taking one makes one less wait; in new hooks none
/// does.
pub proof fn waiting_sessions_are_counted(
    queues: Map<usize, Seq<SessionView>>,
    key: usize,
    session: SessionView,
)
    requires
        queues_are_well_formed(queues),
    ensures
        waiting(Map::empty()) == 0,
        waiting(queued(queues, key, session)) == waiting(queues) + 1,
        queues.contains_key(key) ==> waiting(dequeued(queues, key)) + 1 == waiting(queues),
{
    let more = queued(queues, key, session);
    waiting_in_one_and_the_rest(more, key);
    if queues.contains_key(key) {
        let less = dequeued(queues, key);
        waiting_in_one_and_the_rest(queues, key);
        assert(more.remove(key) =~= queues.remove(key));
        if less.contains_key(key) {
            waiting_in_one_and_the_rest(less, key);
            assert(less.remove(key) =~= queues.remove(key));
        }
    } else {
        assert(more.remove(key) =~= queues);
    }
}

/// Every waiting session has its place among the active ones: where that holds, it holds after a
/// session was opened and queued, as long as the count does not turn over, and after one was taken
/// and given up, which never makes the count turn over.
pub proof fn waiting_sessions_are_active(
    ctx: CtxView,
    queues: Map<usize, Seq<SessionView>>,
    key: usize,
    session: SessionView,
)
    requires
        queues_are_well_formed(queues),
        waiting(queues) <= ctx.active_sessions,
    ensures
        ctx.active_sessions < usize::MAX ==> waiting(queued(queues, key, session))
            <= ctx.opened().active_sessions,
        queues.contains_key(key) ==> {
            &&& ctx.active_sessions > 0
            &&& waiting(dequeued(queues, key)) <= ctx.released().active_sessions
        },
{
    waiting_sessions_are_counted(queues, key, session);
}

/// A session that is opened and queued, and one that is taken for the same module and given up,
/// leave as many sessions active as before and as many waiting, so that a limit that had room
/// before has room again.
pub proof fn configuring_frees_the_place(
    ctx: CtxView,
    queues: Map<usize, Seq<SessionView>>,
    key: usize,
    session: SessionView,
)
    requires
        queues_are_well_formed(queues),
    ensures
        queued(queues, key, session).contains_key(key),
        ctx.opened().released() == ctx,
        ctx.admits() ==> ctx.opened().released().admits(),
        waiting(dequeued(queued(queues, key, session), key)) == waiting(queues),
{
    release_undoes_open(ctx);
    queues_stay_well_formed(queues, key, session);
    waiting_sessions_are_counted(queues, key, session);
    waiting_sessions_are_counted(queued(queues, key, session), key, session);
}

/// What happens to hooks: the imports of a module are made and its session queued, or an instance
/// of it is configured.
pub enum HookStep {
    Import { key: usize, session: SessionView },
    Configure { key: usize },
}

/// The queues of new hooks after these steps. Configuring an instance takes a session where one is
/// queued, and changes nothing otherwise.
pub open spec fn queues_after(steps: Seq<HookStep>) -> Map<usize, Seq<SessionView>>
    decreases steps.len(),
{
    if steps.len() == 0 {
        Map::empty()
    } else {
        let before = queues_after(steps.drop_last());
        match steps.last() {
            HookStep::Import { key, session } => queued(before, key, session),
            HookStep::Configure { key } => if before.contains_key(key) {
                dequeued(before, key)
            } else {
                before
            },
        }
    }
}

/// The sessions queued under `key` in these steps, first to last.
pub open spec fn imported_for(steps: Seq<HookStep>, key: usize) -> Seq<SessionView>
    decreases steps.len(),
{
    if steps.len() == 0 {
        Seq::empty()
    } else {
        let before = imported_for(steps.drop_last(), key);
        match steps.last() {
            HookStep::Import { key: other, session } => if other == key {
                before.push(session)
            } else {
                before
            },
            HookStep::Configure { .. } => before,
        }
    }
}

/// The sessions taken under `key` in these steps, first to last.
pub open spec fn configured_for(steps: Seq<HookStep>, key: usize) -> Seq<SessionView>
    decreases steps.len(),
{
    if steps.len() == 0 {
        Seq::empty()
    } else {
        let before = configured_for(steps.drop_last(), key);
        let queues = queues_after(steps.drop_last());
        match steps.last() {
            HookStep::Configure { key: other } => if other == key && queues.contains_key(key) {
                before.push(queues[key][0])
            } else {
                before
            },
            HookStep::Import { .. } => before,
        }
    }
}

/// The sessions that are waiting under `key`, first to last.
pub open spec fn pending(queues: Map<usize, Seq<SessionView>>, key: usize) -> Seq<SessionView> {
    if queues.contains_key(key) {
        queues[key]
    } else {
        Seq::empty()
    }
}

/// Sessions come out of hooks first in, first out, module by module, whatever happens to other
/// modules in between: those taken for a module and then those still waiting for it are exactly
/// those queued for it, in their order. So the n-th one taken is the n-th one queued, and as long as
/// fewer were taken than queued, the next one is there, and is the first of the rest.
pub proof fn sessions_are_first_in_first_out(steps: Seq<HookStep>, key: usize)
    ensures
        queues_are_well_formed(queues_after(steps)),
        imported_for(steps, key) == configured_for(steps, key) + pending(queues_after(steps), key),
        forall|n: int|
            0 <= n < configured_for(steps, key).len() ==> #[trigger] configured_for(steps, key)[n]
                == imported_for(steps, key)[n],
        configured_for(steps, key).len() < imported_for(steps, key).len() ==> {
            &&& queues_after(steps).contains_key(key)
            &&& queues_after(steps)[key][0] == imported_for(steps, key)[configured_for(
                steps,
                key,
            ).len() as int]
        },
    decreases steps.len(),
{
    let all = imported_for(steps, key);
    let taken = configured_for(steps, key);
    if steps.len() > 0 {
        let rest = steps.drop_last();
        let queues = queues_after(rest);
        sessions_are_first_in_first_out(rest, key);
        match steps.last() {
            HookStep::Import { key: other, session } => {
                queues_stay_well_formed(queues, other, session);
            },
            HookStep::Configure { key: other } => {
                if queues.contains_key(other) {
                    queues_stay_well_formed(queues, other, queues[other][0]);
                }
            },
        }
    }
    assert(all =~= taken + pending(queues_after(steps), key));
}

/// The queue of one module is untouched by what happens to the queue of another.
pub proof fn queues_are_independent(
    queues: Map<usize, Seq<SessionView>>,
    key: usize,
    other: usize,
    session: SessionView,
)
    requires
        key != other,
    ensures
        queued(queues, key, session).contains_key(other) == queues.contains_key(other),
        queued(queues, key, session)[other] == queues[other],
        dequeued(queues, key).contains_key(other) == queues.contains_key(other),
        dequeued(queues, key)[other] == queues[other],
{
}

/// A module needs nothing exactly when it imports neither from `napi` nor from a namespace of the
/// extension, whatever else it imports.
pub proof fn modules_without_napi_need_nothing(imports: Seq<ImportView>, known: Seq<Seq<char>>)
    ensures
        needs_nothing(imports, known) <==> forall|i: int|
            0 <= i < imports.len() ==> (#[trigger] imports[i]).module != "napi"@
                && !"napi_extension_wasmer_v"@.is_prefix_of(imports[i].module),
{
    core_need_is_read_off_the_napi_imports(imports, known);
    extension_need_is_read_off_the_extension_imports(imports);
}

/// A module is turned away exactly when it imports an unknown name from `napi`, or from a namespace
/// of the extension other than the supported one; the core functions are looked at first.
pub proof fn only_unknown_imports_are_turned_away(imports: Seq<ImportView>, known: Seq<Seq<char>>)
    ensures
        ({
            let unknown_name = exists|i: int|
                0 <= i < imports.len() && (#[trigger] imports[i]).module == "napi"@
                    && !known.contains(imports[i].name);
            let unknown_revision = exists|i: int|
                0 <= i < imports.len() && "napi_extension_wasmer_v"@.is_prefix_of(
                    (#[trigger] imports[i]).module,
                ) && imports[i].module != "napi_extension_wasmer_v0"@;
            &&& unsupported(imports, known) is None <==> !unknown_name && !unknown_revision
            &&& unknown_name ==> unsupported(imports, known) == Some(
                NapiError::UnsupportedNapiVersion(NapiVersion::Unknown),
            )
            &&& !unknown_name && unknown_revision ==> unsupported(imports, known) == Some(
                NapiError::UnsupportedExtensionVersion(NapiWasmerExtensionVersion::Unknown),
            )
        }),
{
    core_need_is_read_off_the_napi_imports(imports, known);
    extension_need_is_read_off_the_extension_imports(imports);
}

/// Only a module whose function table is one of foreign references with slots in it is one whose
/// table the engine cannot be asked for.
pub proof fn only_filled_foreign_tables_are_not_askable(imports: Seq<ImportView>)
    ensures
        table_is_askable(imports) <==> !(imported_table(imports) is Some && table_parts(
            imported_table(imports)->0,
        ).element == ElementType::ExternRef && table_parts(imported_table(imports)->0).minimum > 0),
{
}

/// A queued session is the last of its queue, behind those that were waiting, in their order; taking
/// one takes the first of its queue, and leaves the others in their order.
pub proof fn queues_grow_behind_and_shrink_in_front(
    queues: Map<usize, Seq<SessionView>>,
    key: usize,
    session: SessionView,
)
    requires
        queues_are_well_formed(queues),
    ensures
        pending(queued(queues, key, session), key) == pending(queues, key) + seq![session],
        queues.contains_key(key) ==> seq![queues[key][0]] + pending(dequeued(queues, key), key)
            == pending(queues, key),
{
    assert(pending(queued(queues, key, session), key) =~= pending(queues, key) + seq![session]);
    if queues.contains_key(key) {
        assert(seq![queues[key][0]] + pending(dequeued(queues, key), key) =~= pending(queues, key));
    }
}

} // verus!
