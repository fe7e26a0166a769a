//! The context that all guest instances of a process share.
use vstd::prelude::*;

use crate::engine::{declared_imports, module_imports};
use crate::env::NapiEnv;
use crate::error::NapiError;
use crate::handle::{handle_after, HandleIdsView, NapiHandleIds};
use crate::hooks::NapiRuntimeHooks;
use crate::import::{
    core_need, extension_need, import_views, imports_need_napi, name_texts, ImportView,
    ModuleImport,
};
use crate::session::{session_for, NapiSession, SessionView};
use crate::version::{NapiVersion, NapiWasmerExtensionVersion};

verus! {

/// What a context allows its guests; `None` stands for no limit.
#[derive(Clone, Copy, Debug, PartialEq, Eq)]
pub struct NapiLimits {
    pub max_sessions: Option<usize>,
    pub max_envs: Option<usize>,
    pub max_total_external_memory: Option<u64>,
    pub max_total_heap_bytes: Option<u64>,
}

impl NapiLimits {
    /// The limits that limit nothing.
    pub open spec fn unlimited() -> NapiLimits {
        NapiLimits {
            max_sessions: None,
            max_envs: None,
            max_total_external_memory: None,
            max_total_heap_bytes: None,
        }
    }
}

impl Default for NapiLimits {
    fn default() -> (limits: Self)
        ensures
            limits == NapiLimits::unlimited(),
    {
        NapiLimits {
            max_sessions: None,
            max_envs: None,
            max_total_external_memory: None,
            max_total_heap_bytes: None,
        }
    }
}

/// Collects the limits of a context to be built.
#[derive(Debug)]
pub struct NapiCtxBuilder {
    limits: NapiLimits,
}

impl View for NapiCtxBuilder {
    type V = NapiLimits;

    closed spec fn view(&self) -> NapiLimits {
        self.limits
    }
}

impl Default for NapiCtxBuilder {
    fn default() -> (builder: Self)
        ensures
            builder@ == NapiLimits::unlimited(),
    {
        NapiCtxBuilder { limits: NapiLimits::default() }
    }
}

impl NapiCtxBuilder {
    /// Limits how many sessions may be active at a time.
    pub fn max_sessions(self, max_sessions: usize) -> (builder: Self)
        ensures
            builder@ == (NapiLimits { max_sessions: Some(max_sessions), ..self@ }),
    {
        let mut limits = self.limits;
        limits.max_sessions = Some(max_sessions);
        NapiCtxBuilder { limits }
    }

    /// Limits how many environments there may be.
    pub fn max_envs(self, max_envs: usize) -> (builder: Self)
        ensures
            builder@ == (NapiLimits { max_envs: Some(max_envs), ..self@ }),
    {
        let mut limits = self.limits;
        limits.max_envs = Some(max_envs);
        NapiCtxBuilder { limits }
    }

    /// Limits the external memory of all guests together.
    pub fn max_total_external_memory(self, bytes: u64) -> (builder: Self)
        ensures
            builder@ == (NapiLimits { max_total_external_memory: Some(bytes), ..self@ }),
    {
        let mut limits = self.limits;
        limits.max_total_external_memory = Some(bytes);
        NapiCtxBuilder { limits }
    }

    /// Limits the heap of all guests together.
    pub fn max_total_heap_bytes(self, bytes: u64) -> (builder: Self)
        ensures
            builder@ == (NapiLimits { max_total_heap_bytes: Some(bytes), ..self@ }),
    {
        let mut limits = self.limits;
        limits.max_total_heap_bytes = Some(bytes);
        NapiCtxBuilder { limits }
    }

    /// Builds a context with these limits. No session is active in it, and no handle was drawn.
    pub fn build(self) -> (ctx: NapiCtx)
        ensures
            ctx@ == CtxView::new(self@),
    {
        NapiCtx {
            limits: self.limits,
            active_sessions: 0,
            handle_ids: NapiHandleIds::default(),
        }
    }
}

/// The context that all guest instances of a process share: the limits, the number of active
/// sessions, and the counters for handles.
#[derive(Debug)]
pub struct NapiCtx {
    limits: NapiLimits,
    active_sessions: usize,
    handle_ids: NapiHandleIds,
}

/// The mathematical value of a [`NapiCtx`].
#[verifier::ext_equal]
pub struct CtxView {
    pub limits: NapiLimits,
    pub active_sessions: usize,
    pub handle_ids: HandleIdsView,
}

impl View for NapiCtx {
    type V = CtxView;

    closed spec fn view(&self) -> CtxView {
        CtxView {
            limits: self.limits,
            active_sessions: self.active_sessions,
            handle_ids: self.handle_ids@,
        }
    }
}

impl CtxView {
    /// A context in which nothing has happened.
    pub open spec fn new(limits: NapiLimits) -> CtxView {
        CtxView {
            limits,
            active_sessions: 0,
            handle_ids: HandleIdsView { last_env_id: 0, last_scope_id: 0 },
        }
    }

    /// Whether there is room for another session.
    pub open spec fn admits(self) -> bool {
        self.limits.max_sessions is Some ==> self.active_sessions < self.limits.max_sessions->0
    }

    /// The context with one more active session. The count turns over behind the largest number.
    pub open spec fn opened(self) -> CtxView {
        CtxView {
            active_sessions: if self.active_sessions == usize::MAX {
                0
            } else {
                (self.active_sessions + 1) as usize
            },
            ..self
        }
    }

    /// The context with one active session less. The count turns over below zero.
    pub open spec fn released(self) -> CtxView {
        CtxView {
            active_sessions: if self.active_sessions == 0 {
                usize::MAX
            } else {
                (self.active_sessions - 1) as usize
            },
            ..self
        }
    }

    /// The environment handle and the scope handle of the next registration.
    pub open spec fn next_handles(self) -> (u32, u32) {
        (handle_after(self.handle_ids.last_env_id), handle_after(self.handle_ids.last_scope_id))
    }

    /// The context with the handles of one more registration drawn.
    pub open spec fn drawn(self) -> CtxView {
        CtxView { handle_ids: self.handle_ids.env_drawn().scope_drawn(), ..self }
    }

    /// Whether the number of active sessions keeps to the limit.
    pub open spec fn within_limits(self) -> bool {
        self.limits.max_sessions is Some ==> self.active_sessions <= self.limits.max_sessions->0
    }

    /// Why there is no room for another session.
    pub open spec fn refusal(self) -> NapiError {
        NapiError::TooManySessions(self.limits.max_sessions->0)
    }
}

impl Default for NapiCtx {
    /// A context without limits.
    fn default() -> (ctx: Self)
        ensures
            ctx@ == CtxView::new(NapiLimits::unlimited()),
    {
        NapiCtx::builder().build()
    }
}

impl NapiCtx {
    /// Starts to build a context.
    pub fn builder() -> (builder: NapiCtxBuilder)
        ensures
            builder@ == NapiLimits::unlimited(),
    {
        NapiCtxBuilder::default()
    }

    /// The limits of the context.
    pub fn limits(&self) -> (limits: &NapiLimits)
        ensures
            *limits == self@.limits,
    {
        &self.limits
    }

    /// How many sessions are active.
    pub fn active_sessions(&self) -> (active: usize)
        ensures
            active == self@.active_sessions,
    {
        self.active_sessions
    }

    /// Whether there is room for another session.
    pub fn admits(&self) -> (room: bool)
        ensures
            room == self@.admits(),
    {
        match self.limits.max_sessions {
            Some(max_sessions) => self.active_sessions < max_sessions,
            None => true,
        }
    }

    /// Registers a native environment with the state of a guest, under handles of this context, and
    /// returns the environment handle and the scope handle. All guests of the context draw from the
    /// same counters.
    pub fn register_napi_env(&mut self, env: &mut NapiEnv, state: usize) -> (handles: (u32, u32))
        ensures
            handles == old(self)@.next_handles(),
            final(self)@ == old(self)@.drawn(),
            final(env)@ == old(env)@.register(handles.0, handles.1, state),
    {
        env.register_napi_env(&mut self.handle_ids, state)
    }

    /// Opens a session for a module.
    pub fn prepare_module(&mut self, module: &wasmer::Module) -> (result: Result<
        NapiSession,
        NapiError,
    >)
        ensures
            session_opened(old(self)@, final(self)@, declared_imports(*module), result),
    {
        self.new_session(module)
    }

    /// The core version and the extension revision that a module needs, when the host knows the
    /// core functions that `known` lists.
    pub fn module_needs_napi(module: &wasmer::Module, known: &Vec<String>) -> (need: (
        Option<NapiVersion>,
        Option<NapiWasmerExtensionVersion>,
    ))
        ensures
            need.0 == core_need(declared_imports(*module), name_texts(known@)),
            need.1 == extension_need(declared_imports(*module)),
    {
        imports_need_napi(&module_imports(module), known)
    }

    /// Hooks for a runtime, with no session queued.
    pub fn runtime_hooks(&self) -> (hooks: NapiRuntimeHooks)
        ensures
            hooks@ == Map::<usize, Seq<SessionView>>::empty(),
    {
        NapiRuntimeHooks::new()
    }

    /// Opens a session for a module, if the limit leaves room for it.
    pub fn new_session(&mut self, module: &wasmer::Module) -> (result: Result<
        NapiSession,
        NapiError,
    >)
        ensures
            session_opened(old(self)@, final(self)@, declared_imports(*module), result),
    {
        self.new_session_for(&module_imports(module))
    }

    /// Opens a session for a module with these imports, if the limit leaves room for it.
    pub fn new_session_for(&mut self, imports: &Vec<ModuleImport>) -> (result: Result<
        NapiSession,
        NapiError,
    >)
        ensures
            session_opened(old(self)@, final(self)@, import_views(imports@), result),
    {
        let previous: usize = self.active_sessions;
        self.active_sessions = previous.wrapping_add(1);
        if let Some(max_sessions) = self.limits.max_sessions {
            if previous >= max_sessions {
                self.active_sessions = self.active_sessions.wrapping_sub(1);
                assert(self@ =~= old(self)@);
                return Err(NapiError::TooManySessions(max_sessions));
            }
        }
        assert(self@ =~= old(self)@.opened());
        Ok(NapiSession::for_imports(imports))
    }

    /// Gives up a session of this context: its place among the active ones is free again.
    pub fn release_session(&mut self, _session: NapiSession)
        ensures
            final(self)@ == old(self)@.released(),
    {
        self.active_sessions = self.active_sessions.wrapping_sub(1);
        assert(self@ =~= old(self)@.released());
    }
}

/// What opening a session comes to: where there is room, the context counts one more, and the
/// session knows what memory and table the module imports; where there is none, the request is
/// refused with the limit, and the context is as before.
pub open spec fn session_opened(
    before: CtxView,
    after: CtxView,
    imports: Seq<ImportView>,
    result: Result<NapiSession, NapiError>,
) -> bool {
    if before.admits() {
        &&& after == before.opened()
        &&& result is Ok
        &&& result->Ok_0@ == session_for(imports)
    } else {
        &&& after == before
        &&& result == Err::<NapiSession, NapiError>(before.refusal())
    }
}

/// The number of active sessions never exceeds the limit: a new context keeps to it, opening a
/// session where there is room keeps to it, and so does giving up one of the active sessions.
pub proof fn session_limit_is_kept(ctx: CtxView)
    requires
        ctx.within_limits(),
    ensures
        CtxView::new(ctx.limits).within_limits(),
        ctx.admits() ==> ctx.opened().within_limits(),
        ctx.active_sessions > 0 ==> ctx.released().within_limits(),
{
}

/// A session that is given up leaves the context as it was before the session was opened, so that
/// there is room again for as many as before.
pub proof fn release_undoes_open(ctx: CtxView)
    ensures
        ctx.opened().released() == ctx,
        ctx.admits() ==> ctx.opened().released().admits(),
{
    assert(ctx.opened().released() =~= ctx);
}

/// A context with `n` sessions opened one after the other.
pub open spec fn opened_times(ctx: CtxView, n: nat) -> CtxView
    decreases n,
{
    if n == 0 {
        ctx
    } else {
        opened_times(ctx, (n - 1) as nat).opened()
    }
}

/// A new context with a limit admits exactly as many sessions as the limit says: the first ones
/// find room, and one more does not.
pub proof fn limit_admits_exactly_so_many(limits: NapiLimits, n: nat)
    requires
        limits.max_sessions is Some,
        n <= limits.max_sessions->0,
    ensures
        opened_times(CtxView::new(limits), n).active_sessions == n,
        opened_times(CtxView::new(limits), n).admits() == (n < limits.max_sessions->0),
    decreases n,
{
    opened_keeps_limits(CtxView::new(limits), n);
    if n > 0 {
        limit_admits_exactly_so_many(limits, (n - 1) as nat);
    }
}

/// Opening sessions does not change the limits.
proof fn opened_keeps_limits(ctx: CtxView, n: nat)
    ensures
        opened_times(ctx, n).limits == ctx.limits,
    decreases n,
{
    if n > 0 {
        opened_keeps_limits(ctx, (n - 1) as nat);
    }
}

/// A context without a session limit always has room.
pub proof fn no_limit_admits_always(ctx: CtxView)
    requires
        ctx.limits.max_sessions is None,
    ensures
        ctx.admits(),
{
}

/// A new context has the limits that it was built with, no active session, and drew no handle.
pub proof fn a_new_context_is_empty(limits: NapiLimits)
    ensures
        CtxView::new(limits).limits == limits,
        CtxView::new(limits).active_sessions == 0,
        CtxView::new(limits).handle_ids.last_env_id == 0,
        CtxView::new(limits).handle_ids.last_scope_id == 0,
        NapiLimits::unlimited().max_sessions is None,
        NapiLimits::unlimited().max_envs is None,
        NapiLimits::unlimited().max_total_external_memory is None,
        NapiLimits::unlimited().max_total_heap_bytes is None,
{
}

/// Sessions are counted one by one. Opening and giving up change the count and nothing else, and a
/// registration changes the counters of handles and nothing else.
pub proof fn sessions_are_counted_one_by_one(ctx: CtxView)
    ensures
        ctx.active_sessions < usize::MAX ==> ctx.opened().active_sessions == ctx.active_sessions + 1,
        ctx.active_sessions == usize::MAX ==> ctx.opened().active_sessions == 0,
        ctx.active_sessions > 0 ==> ctx.released().active_sessions == ctx.active_sessions - 1,
        ctx.active_sessions == 0 ==> ctx.released().active_sessions == usize::MAX,
        ctx.opened().limits == ctx.limits,
        ctx.opened().handle_ids == ctx.handle_ids,
        ctx.released().limits == ctx.limits,
        ctx.released().handle_ids == ctx.handle_ids,
        ctx.drawn().limits == ctx.limits,
        ctx.drawn().active_sessions == ctx.active_sessions,
{
}

/// A session is opened exactly when fewer are active than the limit says; with no limit always. It
/// is then one more. At the limit or above it is refused, with the limit, and nothing changes.
pub proof fn sessions_are_opened_below_the_limit(
    before: CtxView,
    after: CtxView,
    imports: Seq<ImportView>,
    result: Result<NapiSession, NapiError>,
)
    requires
        session_opened(before, after, imports, result),
    ensures
        before.limits.max_sessions is None ==> result is Ok,
        before.limits.max_sessions matches Some(max) ==> {
            &&& result is Ok <==> before.active_sessions < max
            &&& result is Err ==> result->Err_0 == NapiError::TooManySessions(max)
            &&& before.admits() <==> before.active_sessions < max
        },
        result is Err ==> after == before,
        result is Ok && before.active_sessions < usize::MAX ==> after.active_sessions
            == before.active_sessions + 1,
        after.limits == before.limits,
        after.handle_ids == before.handle_ids,
        result is Ok ==> result->Ok_0@ == session_for(imports),
{
}

/// The handles of a registration follow the last ones drawn, the environment handle the last
/// environment handle and the scope handle the last scope handle, and are then the last ones.
pub proof fn registrations_draw_the_next_handles(ctx: CtxView)
    ensures
        ctx.drawn().handle_ids.last_env_id == ctx.next_handles().0,
        ctx.drawn().handle_ids.last_scope_id == ctx.next_handles().1,
        ctx.handle_ids.last_env_id < u32::MAX ==> ctx.next_handles().0
            == ctx.handle_ids.last_env_id + 1,
        ctx.handle_ids.last_scope_id < u32::MAX ==> ctx.next_handles().1
            == ctx.handle_ids.last_scope_id + 1,
        ctx.handle_ids.last_env_id == u32::MAX ==> ctx.next_handles().0 == 0,
        ctx.handle_ids.last_scope_id == u32::MAX ==> ctx.next_handles().1 == 0,
{
}

/// With a limit, at most that many sessions are ever active: as long as the limit is kept, opening
/// one where there is room keeps it, and so does giving one up.
pub proof fn active_sessions_stay_below_the_limit(ctx: CtxView, max: usize)
    requires
        ctx.limits.max_sessions == Some(max),
        ctx.active_sessions <= max,
    ensures
        ctx.admits() ==> ctx.opened().active_sessions <= max,
        ctx.active_sessions > 0 ==> ctx.released().active_sessions <= max,
        ctx.active_sessions == max ==> !ctx.admits(),
{
}

} // verus!
