//! Guest states that draw their handles from one context.
use vstd::prelude::*;

use crate::ctx::{CtxView, NapiLimits};
use crate::env::NapiEnvView;

verus! {

/// What happens to a context and the guest states of its sessions. A guest state is named by its
/// number, in the order in which they were made.
pub enum GuestStep {
    /// A session is opened.
    Open,
    /// A session is given up.
    Release,
    /// A session makes its imports, and with them a guest state.
    Join { memory: Option<wasmer::Memory>, table: Option<wasmer::Table> },
    /// A native environment is registered with a guest state through the context.
    Register { guest: int, state: usize },
    /// A scope of a guest state is closed.
    Close { guest: int, scope_id: u32 },
    /// A guest state becomes `env` in all but its environment handles and scope handles.
    Change { guest: int, env: NapiEnvView },
}

/// The handles of one registration, and the guest state that it was made with.
pub struct Minted {
    pub guest: int,
    pub env_id: u32,
    pub scope_id: u32,
}

/// A context with the guest states of its sessions, and every registration made, first to last.
#[verifier::ext_equal]
pub struct GuestsView {
    pub ctx: CtxView,
    pub envs: Seq<NapiEnvView>,
    pub minted: Seq<Minted>,
}

impl GuestsView {
    /// A new context, without guest states.
    pub open spec fn new(limits: NapiLimits) -> GuestsView {
        GuestsView { ctx: CtxView::new(limits), envs: Seq::empty(), minted: Seq::empty() }
    }

    /// Whether there is a guest state with this number.
    pub open spec fn has(self, guest: int) -> bool {
        0 <= guest < self.envs.len()
    }

    /// The state of things after one step. A step for a guest state that is not there does nothing.
    pub open spec fn step(self, step: GuestStep) -> GuestsView {
        match step {
            GuestStep::Open => GuestsView { ctx: self.ctx.opened(), ..self },
            GuestStep::Release => GuestsView { ctx: self.ctx.released(), ..self },
            GuestStep::Join { memory, table } => GuestsView {
                envs: self.envs.push(NapiEnvView { memory, table, ..NapiEnvView::empty() }),
                ..self
            },
            GuestStep::Register { guest, state } => if self.has(guest) {
                let (env_id, scope_id) = self.ctx.next_handles();
                GuestsView {
                    ctx: self.ctx.drawn(),
                    envs: self.envs.update(
                        guest,
                        self.envs[guest].register(env_id, scope_id, state),
                    ),
                    minted: self.minted.push(Minted { guest, env_id, scope_id }),
                }
            } else {
                self
            },
            GuestStep::Close { guest, scope_id } => if self.has(guest) {
                GuestsView {
                    envs: self.envs.update(guest, self.envs[guest].unregister(scope_id)),
                    ..self
                }
            } else {
                self
            },
            GuestStep::Change { guest, env } => if self.has(guest) {
                GuestsView {
                    envs: self.envs.update(
                        guest,
                        NapiEnvView {
                            napi_envs: self.envs[guest].napi_envs,
                            napi_scopes: self.envs[guest].napi_scopes,
                            ..env
                        },
                    ),
                    ..self
                }
            } else {
                self
            },
        }
    }

    /// The state of things after these steps.
    pub open spec fn run(self, steps: Seq<GuestStep>) -> GuestsView
        decreases steps.len(),
    {
        if steps.len() == 0 {
            self
        } else {
            self.run(steps.drop_last()).step(steps.last())
        }
    }

    /// Registrations are numbered by their handles, from one on, and every handle in use with a
    /// guest state was drawn for it.
    spec fn numbered(self) -> bool {
        &&& self.ctx.handle_ids.last_env_id == self.minted.len()
        &&& self.ctx.handle_ids.last_scope_id == self.minted.len()
        &&& forall|k: int|
            0 <= k < self.minted.len() ==> (#[trigger] self.minted[k]).env_id == k + 1
                && self.minted[k].scope_id == k + 1
        &&& forall|guest: int, env_id: u32|
            self.has(guest) && #[trigger] self.envs[guest].napi_envs.contains_key(env_id) ==> 1
                <= env_id <= self.minted.len() && self.minted[env_id - 1].guest == guest
        &&& forall|guest: int, scope_id: u32|
            self.has(guest) && #[trigger] self.envs[guest].napi_scopes.contains_key(scope_id) ==> 1
                <= scope_id <= self.minted.len() && self.minted[scope_id - 1].guest == guest
    }
}

/// Registrations stay numbered by their handles, as long as the counters do not turn over.
proof fn registrations_are_numbered(limits: NapiLimits, steps: Seq<GuestStep>)
    requires
        GuestsView::new(limits).run(steps).minted.len() <= u32::MAX,
    ensures
        GuestsView::new(limits).run(steps).numbered(),
    decreases steps.len(),
{
    if steps.len() > 0 {
        let before = GuestsView::new(limits).run(steps.drop_last());
        let after = GuestsView::new(limits).run(steps);
        assert(before.minted.len() <= after.minted.len());
        registrations_are_numbered(limits, steps.drop_last());
        assert forall|guest: int, env_id: u32|
            after.has(guest) && #[trigger] after.envs[guest].napi_envs.contains_key(
                env_id,
            ) implies 1 <= env_id <= after.minted.len() && after.minted[env_id - 1].guest
            == guest by {
            if before.has(guest) && before.envs[guest].napi_envs.contains_key(env_id) {
                assert(before.minted[env_id - 1].guest == guest);
            }
        }
        assert forall|guest: int, scope_id: u32|
            after.has(guest) && #[trigger] after.envs[guest].napi_scopes.contains_key(
                scope_id,
            ) implies 1 <= scope_id <= after.minted.len() && after.minted[scope_id - 1].guest
            == guest by {
            if before.has(guest) && before.envs[guest].napi_scopes.contains_key(scope_id) {
                assert(before.minted[scope_id - 1].guest == guest);
            }
        }
    }
}

/// No environment handle and no scope handle of a context is ever handed out twice, to whichever of
/// its guests, and none is zero. This holds for the first 2^32 - 1 registrations; behind them the
/// counters turn over.
pub proof fn handles_of_one_context_are_handed_out_once(
    limits: NapiLimits,
    steps: Seq<GuestStep>,
    first: int,
    second: int,
)
    requires
        GuestsView::new(limits).run(steps).minted.len() <= u32::MAX,
        0 <= first <= second < GuestsView::new(limits).run(steps).minted.len(),
    ensures
        ({
            let minted = GuestsView::new(limits).run(steps).minted;
            &&& minted[first].env_id >= 1
            &&& minted[first].scope_id >= 1
            &&& first != second ==> minted[first].env_id != minted[second].env_id
            &&& first != second ==> minted[first].scope_id != minted[second].scope_id
        }),
{
    registrations_are_numbered(limits, steps);
}

/// Two guest states of the sessions of one context never share an environment handle or a scope
/// handle, whatever was registered and closed in either of them through the context, in whatever
/// order. This holds for the first 2^32 - 1 registrations.
pub proof fn guests_of_one_context_share_no_handle(
    limits: NapiLimits,
    steps: Seq<GuestStep>,
    one: int,
    other: int,
)
    requires
        GuestsView::new(limits).run(steps).minted.len() <= u32::MAX,
        GuestsView::new(limits).run(steps).has(one),
        GuestsView::new(limits).run(steps).has(other),
        one != other,
    ensures
        ({
            let envs = GuestsView::new(limits).run(steps).envs;
            &&& envs[one].napi_envs.dom().disjoint(envs[other].napi_envs.dom())
            &&& envs[one].napi_scopes.dom().disjoint(envs[other].napi_scopes.dom())
        }),
{
    registrations_are_numbered(limits, steps);
}

/// Every context counts on its own: whatever its limits, its first handles are one.
pub proof fn contexts_count_on_their_own(limits: NapiLimits)
    ensures
        CtxView::new(limits).next_handles() == (1u32, 1u32),
{
}

} // verus!
