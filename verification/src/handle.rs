//! Guest-visible handle numbers.
use vstd::prelude::*;

verus! {

/// Counters from which every guest-visible `napi_env` and scope handle is drawn.
///
/// Guest threads share one linear memory, and the guest keys its per-environment state on these
/// small integers. All the environments of a process therefore draw from one pair of counters:
/// with counters of their own, a parent and a worker would both hand out the same first handle.
/// The two counters advance independently.
#[derive(Debug)]
pub struct NapiHandleIds {
    next_env_id: u32,
    next_scope_id: u32,
}

/// The mathematical value of [`NapiHandleIds`]: the handle last drawn of each kind, zero before
/// the first.
pub struct HandleIdsView {
    pub last_env_id: u32,
    pub last_scope_id: u32,
}

impl View for NapiHandleIds {
    type V = HandleIdsView;

    closed spec fn view(&self) -> HandleIdsView {
        HandleIdsView { last_env_id: self.next_env_id, last_scope_id: self.next_scope_id }
    }
}

/// The handle that follows `last`: one more, and zero behind the largest.
pub open spec fn handle_after(last: u32) -> u32 {
    if last == u32::MAX {
        0
    } else {
        (last + 1) as u32
    }
}

/// The handle of the `n`-th draw behind `last`; the draw number zero is the next one.
pub open spec fn nth_handle(last: u32, n: nat) -> u32
    decreases n,
{
    if n == 0 {
        handle_after(last)
    } else {
        handle_after(nth_handle(last, (n - 1) as nat))
    }
}

impl HandleIdsView {
    /// The counters with one more environment handle drawn.
    pub open spec fn env_drawn(self) -> HandleIdsView {
        HandleIdsView { last_env_id: handle_after(self.last_env_id), ..self }
    }

    /// The counters with one more scope handle drawn.
    pub open spec fn scope_drawn(self) -> HandleIdsView {
        HandleIdsView { last_scope_id: handle_after(self.last_scope_id), ..self }
    }
}

impl Default for NapiHandleIds {
    /// Counters from which nothing was drawn.
    fn default() -> (ids: Self)
        ensures
            ids@ == (HandleIdsView { last_env_id: 0, last_scope_id: 0 }),
    {
        NapiHandleIds { next_env_id: 0, next_scope_id: 0 }
    }
}

impl NapiHandleIds {
    /// Draws the next `napi_env` handle. The first one is 1: zero stands for "no environment".
    pub fn next_env_id(&mut self) -> (id: u32)
        ensures
            id == handle_after(old(self)@.last_env_id),
            final(self)@ == old(self)@.env_drawn(),
    {
        self.next_env_id = self.next_env_id.wrapping_add(1);
        self.next_env_id
    }

    /// Draws the next scope handle. The first one is 1.
    pub fn next_scope_id(&mut self) -> (id: u32)
        ensures
            id == handle_after(old(self)@.last_scope_id),
            final(self)@ == old(self)@.scope_drawn(),
    {
        self.next_scope_id = self.next_scope_id.wrapping_add(1);
        self.next_scope_id
    }
}

/// The `n`-th draw in closed form.
proof fn nth_handle_value(last: u32, n: nat)
    ensures
        nth_handle(last, n) as int == (last + 1 + n) % 0x1_0000_0000,
    decreases n,
{
    if n > 0 {
        nth_handle_value(last, (n - 1) as nat);
    }
}

/// Handles drawn from one counter never repeat within a full turn of it: two draws that are less
/// than 2^32 apart give different handles, whichever environments they are drawn for.
pub proof fn handles_are_unique(last: u32, first: nat, second: nat)
    requires
        first < second < first + 0x1_0000_0000,
    ensures
        nth_handle(last, first) != nth_handle(last, second),
{
    nth_handle_value(last, first);
    nth_handle_value(last, second);
}

/// On fresh counters the `n`-th draw is `n + 1`: the handles start at one and grow by one, and
/// none of the first 2^32 - 1 is zero.
pub proof fn handles_count_up_from_one(n: nat)
    requires
        n < u32::MAX,
    ensures
        nth_handle(0, n) == n + 1,
        nth_handle(0, n) >= 1,
{
    nth_handle_value(0, n);
}

/// The two counters advance independently, each by one at a draw of its own kind, and from the
/// largest number to zero.
pub proof fn counters_advance_independently(ids: HandleIdsView)
    ensures
        ids.env_drawn().last_scope_id == ids.last_scope_id,
        ids.scope_drawn().last_env_id == ids.last_env_id,
        ids.last_env_id < u32::MAX ==> ids.env_drawn().last_env_id == ids.last_env_id + 1,
        ids.last_env_id == u32::MAX ==> ids.env_drawn().last_env_id == 0,
        ids.last_scope_id < u32::MAX ==> ids.scope_drawn().last_scope_id == ids.last_scope_id + 1,
        ids.last_scope_id == u32::MAX ==> ids.scope_drawn().last_scope_id == 0,
        handle_after(ids.last_env_id) == ids.env_drawn().last_env_id,
        handle_after(ids.last_scope_id) == ids.scope_drawn().last_scope_id,
{
}

} // verus!
