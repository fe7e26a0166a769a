//! Calls from the host into the guest: the bookkeeping around them, and what they answer.
use vstd::prelude::*;

use crate::env::{same_registrations, HostBufferCopy, NapiEnv, NapiEnvView};

verus! {

broadcast use vstd::std_specs::hash::group_hash_axioms;

/// An order to copy bytes from guest memory back into a host value: read `read_len` bytes at
/// `guest_ptr`, and, if they can be read, overwrite the first `write_len` bytes of the value.
#[derive(Clone, Copy, Debug, PartialEq, Eq, Structural)]
pub struct WriteBack {
    pub handle_id: u32,
    pub guest_ptr: i32,
    pub read_len: usize,
    pub write_len: u32,
}

/// The write-back that a copy calls for.
pub open spec fn write_back_of(copy: HostBufferCopy) -> WriteBack {
    WriteBack {
        handle_id: copy.handle_id,
        guest_ptr: copy.guest_ptr as i32,
        read_len: copy.byte_len,
        write_len: copy.byte_len as u32,
    }
}

/// The write-backs that copies call for, in their order. An empty copy calls for none.
pub open spec fn write_backs_of(copies: Seq<HostBufferCopy>) -> Seq<WriteBack> {
    copies.filter(|copy: HostBufferCopy| copy.byte_len > 0).map_values(
        |copy: HostBufferCopy| write_back_of(copy),
    )
}

/// The value handles of copies.
pub open spec fn handles_of(copies: Seq<HostBufferCopy>) -> Set<u32> {
    copies.map_values(|copy: HostBufferCopy| copy.handle_id).to_set()
}

/// The backing-store tokens of copies; zero stands for no token.
pub open spec fn tokens_of(copies: Seq<HostBufferCopy>) -> Set<u64> {
    copies.map_values(|copy: HostBufferCopy| copy.backing_store_token).to_set().remove(0)
}

/// What the host remembers of a callback while it runs.
#[derive(Clone, Copy, Debug, PartialEq, Eq, Structural)]
pub struct CallbackFrame {
    pub frame_start: usize,
    pub method_frame_depth: usize,
}

impl NapiEnvView {
    /// The state with the guest mappings of `copies` forgotten.
    pub open spec fn forget(self, copies: Seq<HostBufferCopy>) -> NapiEnvView {
        NapiEnvView {
            guest_data_ptrs: self.guest_data_ptrs.remove_keys(handles_of(copies)),
            guest_data_backing_stores: self.guest_data_backing_stores.remove_keys(
                tokens_of(copies),
            ),
            ..self
        }
    }

    /// How many of the pending copies a flush from `frame_start` keeps.
    pub open spec fn kept(self, frame_start: usize) -> int {
        if frame_start <= self.host_buffer_copies.len() {
            frame_start as int
        } else {
            self.host_buffer_copies.len() as int
        }
    }

    /// The pending copies that a flush from `frame_start` takes.
    pub open spec fn copies_since(self, frame_start: usize) -> Seq<HostBufferCopy> {
        self.host_buffer_copies.skip(self.kept(frame_start))
    }

    /// The state after a flush from `frame_start`.
    pub open spec fn flush_since(self, frame_start: usize) -> NapiEnvView {
        NapiEnvView {
            host_buffer_copies: self.host_buffer_copies.take(self.kept(frame_start)),
            ..self.forget(self.copies_since(frame_start))
        }
    }

    /// The pending copies that a flush of everything takes.
    pub open spec fn pending_copies(self, snapi_env: usize) -> Seq<HostBufferCopy> {
        if snapi_env == 0 {
            Seq::empty()
        } else {
            self.host_buffer_copies
        }
    }

    /// The state after a flush of everything. Without a native environment, or with nothing
    /// pending, nothing changes; otherwise the active callbacks have nothing pending any more.
    pub open spec fn flush_pending(self, snapi_env: usize) -> NapiEnvView {
        if self.pending_copies(snapi_env).len() == 0 {
            self
        } else {
            NapiEnvView {
                host_buffer_copies: Seq::empty(),
                host_buffer_copy_frames: Seq::new(
                    self.host_buffer_copy_frames.len(),
                    |i: int| 0usize,
                ),
                ..self.forget(self.host_buffer_copies)
            }
        }
    }

    /// The state with the innermost callback frame gone.
    pub open spec fn pop_frame(self) -> NapiEnvView {
        NapiEnvView {
            host_buffer_copy_frames: if self.host_buffer_copy_frames.len() > 0 {
                self.host_buffer_copy_frames.drop_last()
            } else {
                self.host_buffer_copy_frames
            },
            ..self
        }
    }

    /// The state with at most `depth` binding invocations active.
    pub open spec fn truncate_method_frames(self, depth: usize) -> NapiEnvView {
        NapiEnvView {
            host_buffer_method_frames: if depth <= self.host_buffer_method_frames.len() {
                self.host_buffer_method_frames.take(depth as int)
            } else {
                self.host_buffer_method_frames
            },
            ..self
        }
    }

    /// The frame of a callback that begins now.
    pub open spec fn frame(self) -> CallbackFrame {
        CallbackFrame {
            frame_start: self.host_buffer_copies.len() as usize,
            method_frame_depth: self.host_buffer_method_frames.len() as usize,
        }
    }

    /// The state in which a callback runs.
    pub open spec fn enter_callback(self) -> NapiEnvView {
        NapiEnvView {
            host_buffer_copy_frames: self.host_buffer_copy_frames.push(
                self.host_buffer_copies.len() as usize,
            ),
            ..self
        }
    }

    /// The state at the end of a callback, before what was pending at its beginning is flushed.
    pub open spec fn close_frame(self, frame: CallbackFrame) -> NapiEnvView {
        self.flush_since(frame.frame_start).pop_frame().truncate_method_frames(
            frame.method_frame_depth,
        )
    }

    /// The state after a callback.
    pub open spec fn leave_callback(self, snapi_env: usize, frame: CallbackFrame) -> NapiEnvView {
        if frame.frame_start > 0 {
            self.close_frame(frame).flush_pending(snapi_env)
        } else {
            self.close_frame(frame)
        }
    }

    /// The copies that the end of a callback takes: its own first, then what was pending when it
    /// began.
    pub open spec fn copies_left(self, snapi_env: usize, frame: CallbackFrame) -> Seq<
        HostBufferCopy,
    > {
        if frame.frame_start > 0 {
            self.copies_since(frame.frame_start) + self.close_frame(frame).pending_copies(snapi_env)
        } else {
            self.copies_since(frame.frame_start)
        }
    }
}

/// Forgets the guest mappings of `copies`, and returns the write-backs that they call for.
fn forget_copies(env: &mut NapiEnv, copies: &Vec<HostBufferCopy>) -> (writes: Vec<WriteBack>)
    ensures
        final(env)@ == old(env)@.forget(copies@),
        writes@ == write_backs_of(copies@),
{
    let mut writes: Vec<WriteBack> = Vec::new();
    let mut i: usize = 0;
    proof {
        assert(copies@.take(0) =~= Seq::<HostBufferCopy>::empty());
        forget_nothing(env@);
    }
    while i < copies.len()
        invariant
            i <= copies@.len(),
            env@ == old(env)@.forget(copies@.take(i as int)),
            writes@ == write_backs_of(copies@.take(i as int)),
        decreases copies@.len() - i,
    {
        let copy = copies[i];
        let ghost before = copies@.take(i as int);
        proof {
            assert(copies@.take(i + 1) =~= before.push(copy));
            forget_one_more(old(env)@, before, copy);
            write_one_more(before, copy);
        }
        if copy.byte_len > 0 {
            writes.push(
                WriteBack {
                    handle_id: copy.handle_id,
                    guest_ptr: copy.guest_ptr as i32,
                    read_len: copy.byte_len,
                    write_len: copy.byte_len as u32,
                },
            );
        }
        env.guest_data_ptrs.remove(&copy.handle_id);
        if copy.backing_store_token != 0 {
            env.guest_data_backing_stores.remove(&copy.backing_store_token);
        }
        i += 1;
        assert(env@ =~= old(env)@.forget(copies@.take(i as int)));
    }
    assert(copies@.take(copies@.len() as int) =~= copies@);
    writes
}

/// Nothing is forgotten for no copies, and nothing is written.
proof fn forget_nothing(env: NapiEnvView)
    ensures
        env.forget(Seq::empty()) == env,
        write_backs_of(Seq::empty()) == Seq::<WriteBack>::empty(),
{
    let none = Seq::<HostBufferCopy>::empty();
    assert(handles_of(none) =~= Set::<u32>::empty());
    assert(tokens_of(none) =~= Set::<u64>::empty());
    assert(env.forget(none) =~= env);
    assert(none.filter(|copy: HostBufferCopy| copy.byte_len > 0) =~= none) by {
        reveal(Seq::filter);
    }
    assert(write_backs_of(none) =~= Seq::<WriteBack>::empty());
}

/// What one more copy adds to what is forgotten.
proof fn forget_one_more(env: NapiEnvView, copies: Seq<HostBufferCopy>, copy: HostBufferCopy)
    ensures
        env.forget(copies.push(copy)) == (NapiEnvView {
            guest_data_ptrs: env.forget(copies).guest_data_ptrs.remove(copy.handle_id),
            guest_data_backing_stores: if copy.backing_store_token != 0 {
                env.forget(copies).guest_data_backing_stores.remove(copy.backing_store_token)
            } else {
                env.forget(copies).guest_data_backing_stores
            },
            ..env.forget(copies)
        }),
{
    let more = copies.push(copy);
    let handle = |copy: HostBufferCopy| copy.handle_id;
    let token = |copy: HostBufferCopy| copy.backing_store_token;
    assert(more.map_values(handle) =~= copies.map_values(handle).push(copy.handle_id));
    assert(more.map_values(token) =~= copies.map_values(token).push(copy.backing_store_token));
    copies.map_values(handle).lemma_push_to_set_commute(copy.handle_id);
    copies.map_values(token).lemma_push_to_set_commute(copy.backing_store_token);
    assert(env.guest_data_ptrs.remove_keys(handles_of(more)) =~= env.guest_data_ptrs.remove_keys(
        handles_of(copies),
    ).remove(copy.handle_id));
    if copy.backing_store_token != 0 {
        assert(tokens_of(more) =~= tokens_of(copies).insert(copy.backing_store_token));
        assert(env.guest_data_backing_stores.remove_keys(tokens_of(more))
            =~= env.guest_data_backing_stores.remove_keys(tokens_of(copies)).remove(
            copy.backing_store_token,
        ));
    } else {
        assert(tokens_of(more) =~= tokens_of(copies));
    }
}

/// What one more copy adds to what is written.
proof fn write_one_more(copies: Seq<HostBufferCopy>, copy: HostBufferCopy)
    ensures
        write_backs_of(copies.push(copy)) == (if copy.byte_len > 0 {
            write_backs_of(copies).push(write_back_of(copy))
        } else {
            write_backs_of(copies)
        }),
{
    reveal(Seq::filter);
    let more = copies.push(copy);
    assert(more.drop_last() =~= copies);
    assert(write_backs_of(more) =~= (if copy.byte_len > 0 {
        write_backs_of(copies).push(write_back_of(copy))
    } else {
        write_backs_of(copies)
    }));
}

/// Takes the copies that are pending since `frame_start`, and returns the write-backs that they
/// call for.
pub fn flush_host_buffer_copies_since(env: &mut NapiEnv, frame_start: usize) -> (writes: Vec<
    WriteBack,
>)
    ensures
        final(env)@ == old(env)@.flush_since(frame_start),
        writes@ == write_backs_of(old(env)@.copies_since(frame_start)),
{
    let len: usize = env.host_buffer_copies.len();
    let start: usize = if frame_start < len {
        frame_start
    } else {
        len
    };
    let drained = env.host_buffer_copies.split_off(start);
    assert(drained@ =~= old(env)@.copies_since(frame_start));
    let writes = forget_copies(env, &drained);
    assert(env@ =~= old(env)@.flush_since(frame_start));
    writes
}

/// Ends the innermost callback frame: takes what is pending since `frame_start`, and drops the
/// frame.
pub fn flush_host_buffer_copies(env: &mut NapiEnv, frame_start: usize) -> (writes: Vec<WriteBack>)
    ensures
        final(env)@ == old(env)@.flush_since(frame_start).pop_frame(),
        writes@ == write_backs_of(old(env)@.copies_since(frame_start)),
{
    let writes = flush_host_buffer_copies_since(env, frame_start);
    env.host_buffer_copy_frames.pop();
    assert(env@ =~= old(env)@.flush_since(frame_start).pop_frame());
    writes
}

/// Takes every pending copy, and returns the write-backs that they call for. A null native
/// environment has nothing to write to, so nothing is taken for it.
pub fn flush_pending_host_buffer_copies(env: &mut NapiEnv, snapi_env: usize) -> (writes: Vec<
    WriteBack,
>)
    ensures
        final(env)@ == old(env)@.flush_pending(snapi_env),
        writes@ == write_backs_of(old(env)@.pending_copies(snapi_env)),
{
    if snapi_env == 0 || env.host_buffer_copies.len() == 0 {
        proof {
            forget_nothing(env@);
            assert(env@.pending_copies(snapi_env) =~= Seq::<HostBufferCopy>::empty());
        }
        return Vec::new();
    }
    let mut i: usize = 0;
    while i < env.host_buffer_copy_frames.len()
        invariant
            i <= env.host_buffer_copy_frames@.len(),
            env.host_buffer_copy_frames@.len() == old(env).host_buffer_copy_frames@.len(),
            forall|j: int| 0 <= j < i ==> env.host_buffer_copy_frames@[j] == 0,
            env@ == (NapiEnvView {
                host_buffer_copy_frames: env.host_buffer_copy_frames@,
                ..old(env)@
            }),
        decreases env.host_buffer_copy_frames@.len() - i,
    {
        env.host_buffer_copy_frames.set(i, 0);
        i += 1;
    }
    let drained = env.host_buffer_copies.split_off(0);
    assert(drained@ =~= old(env)@.host_buffer_copies);
    let writes = forget_copies(env, &drained);
    assert(env@ =~= old(env)@.flush_pending(snapi_env));
    writes
}

/// Begins a callback, and returns the frame to end it with. A callback for a null native
/// environment runs without a frame.
pub fn enter_callback_state(env: &mut NapiEnv, snapi_env: usize) -> (frame: Option<CallbackFrame>)
    ensures
        snapi_env == 0 ==> frame is None && final(env)@ == old(env)@,
        snapi_env != 0 ==> frame == Some(old(env)@.frame()) && final(env)@
            == old(env)@.enter_callback(),
{
    if snapi_env == 0 {
        return None;
    }
    let frame_start: usize = env.host_buffer_copies.len();
    let method_frame_depth: usize = env.host_buffer_method_frames.len();
    env.host_buffer_copy_frames.push(frame_start);
    Some(CallbackFrame { frame_start, method_frame_depth })
}

/// Ends the callback that began with `frame`, and returns the write-backs that are due: those of
/// the callback first, then those of what was pending when it began.
pub fn leave_callback_state(env: &mut NapiEnv, snapi_env: usize, frame: CallbackFrame) -> (writes:
    Vec<WriteBack>)
    ensures
        final(env)@ == old(env)@.leave_callback(snapi_env, frame),
        writes@ == write_backs_of(old(env)@.copies_left(snapi_env, frame)),
{
    let mut writes = flush_host_buffer_copies(env, frame.frame_start);
    env.host_buffer_method_frames.truncate(frame.method_frame_depth);
    assert(env@ =~= old(env)@.close_frame(frame));
    if frame.frame_start > 0 {
        let ghost closed = env@;
        let mut earlier = flush_pending_host_buffer_copies(env, snapi_env);
        proof {
            write_backs_concat(
                old(env)@.copies_since(frame.frame_start),
                closed.pending_copies(snapi_env),
            );
        }
        writes.append(&mut earlier);
    }
    writes
}

/// The write-backs of two runs of copies are those of the first, then those of the second.
proof fn write_backs_concat(first: Seq<HostBufferCopy>, second: Seq<HostBufferCopy>)
    ensures
        write_backs_of(first + second) == write_backs_of(first) + write_backs_of(second),
{
    let nonempty = |copy: HostBufferCopy| copy.byte_len > 0;
    Seq::filter_distributes_over_add(first, second, nonempty);
    assert(write_backs_of(first + second) =~= write_backs_of(first) + write_backs_of(second));
}

/// When a callback ends, no copy stays pending: neither its own nor an earlier one.
pub proof fn callback_end_leaves_nothing_pending(
    env: NapiEnvView,
    snapi_env: usize,
    frame: CallbackFrame,
)
    requires
        snapi_env != 0,
    ensures
        env.leave_callback(snapi_env, frame).host_buffer_copies == Seq::<HostBufferCopy>::empty(),
{
    assert(env.leave_callback(snapi_env, frame).host_buffer_copies =~= Seq::<
        HostBufferCopy,
    >::empty());
}

/// The end of a callback takes every pending copy exactly once: those made since it began come
/// first, in their order, and the earlier ones follow in theirs.
pub proof fn callback_end_takes_every_copy_once(
    env: NapiEnvView,
    snapi_env: usize,
    frame: CallbackFrame,
)
    requires
        snapi_env != 0,
    ensures
        env.copies_left(snapi_env, frame) == env.host_buffer_copies.skip(
            env.kept(frame.frame_start),
        ) + env.host_buffer_copies.take(env.kept(frame.frame_start)),
        env.copies_left(snapi_env, frame).to_multiset() == env.host_buffer_copies.to_multiset(),
{
    let copies = env.host_buffer_copies;
    let k = env.kept(frame.frame_start);
    assert(env.copies_left(snapi_env, frame) =~= copies.skip(k) + copies.take(k));
    vstd::seq_lib::lemma_multiset_commutative(copies.skip(k), copies.take(k));
    vstd::seq_lib::lemma_multiset_commutative(copies.take(k), copies.skip(k));
    assert(copies.take(k) + copies.skip(k) =~= copies);
    assert(env.copies_left(snapi_env, frame).to_multiset() =~= copies.to_multiset());
}

/// Once a callback has ended, the guest mappings of all the copies that were pending are gone, and
/// every other mapping is as it was.
pub proof fn callback_end_forgets_exactly_the_copies(
    env: NapiEnvView,
    snapi_env: usize,
    frame: CallbackFrame,
)
    requires
        snapi_env != 0,
    ensures
        env.leave_callback(snapi_env, frame).guest_data_ptrs == env.guest_data_ptrs.remove_keys(
            handles_of(env.host_buffer_copies),
        ),
        env.leave_callback(snapi_env, frame).guest_data_backing_stores
            == env.guest_data_backing_stores.remove_keys(tokens_of(env.host_buffer_copies)),
{
    let copies = env.host_buffer_copies;
    let k = env.kept(frame.frame_start);
    let after = env.leave_callback(snapi_env, frame);
    let handle = |copy: HostBufferCopy| copy.handle_id;
    let token = |copy: HostBufferCopy| copy.backing_store_token;
    split_to_set(copies.map_values(handle), k);
    split_to_set(copies.map_values(token), k);
    assert(copies.take(k).map_values(handle) =~= copies.map_values(handle).take(k));
    assert(copies.skip(k).map_values(handle) =~= copies.map_values(handle).skip(k));
    assert(copies.take(k).map_values(token) =~= copies.map_values(token).take(k));
    assert(copies.skip(k).map_values(token) =~= copies.map_values(token).skip(k));
    forget_nothing(env);
    if k == 0 {
        assert(copies.take(k) =~= Seq::<HostBufferCopy>::empty());
    }
    assert(after.guest_data_ptrs =~= env.guest_data_ptrs.remove_keys(handles_of(copies)));
    assert(after.guest_data_backing_stores =~= env.guest_data_backing_stores.remove_keys(
        tokens_of(copies),
    ));
}

/// The elements of a sequence are those before a position and those from it on.
proof fn split_to_set<A>(items: Seq<A>, k: int)
    requires
        0 <= k <= items.len(),
    ensures
        forall|item: A| #[trigger]
            items.to_set().contains(item) <==> items.take(k).to_set().contains(item)
                || items.skip(k).to_set().contains(item),
{
    assert forall|item: A| #[trigger]
        items.to_set().contains(item) <==> items.take(k).to_set().contains(item) || items.skip(
            k,
        ).to_set().contains(item) by {
        if items.contains(item) {
            let i = choose|i: int| 0 <= i < items.len() && items[i] == item;
            if i < k {
                assert(items.take(k)[i] == item);
            } else {
                assert(items.skip(k)[i - k] == item);
            }
        }
        if items.take(k).contains(item) {
            let i = choose|i: int| 0 <= i < items.take(k).len() && items.take(k)[i] == item;
            assert(items[i] == item);
        }
        if items.skip(k).contains(item) {
            let i = choose|i: int| 0 <= i < items.skip(k).len() && items.skip(k)[i] == item;
            assert(items[i + k] == item);
        }
    }
}

/// A callback that runs while nothing is pending and makes no copies leaves no trace.
pub proof fn idle_callback_leaves_no_trace(env: NapiEnvView, snapi_env: usize)
    requires
        env.host_buffer_copies.len() == 0,
        env.host_buffer_method_frames.len() <= usize::MAX,
    ensures
        env.enter_callback().leave_callback(snapi_env, env.frame()) == env,
        write_backs_of(env.enter_callback().copies_left(snapi_env, env.frame())) == Seq::<
            WriteBack,
        >::empty(),
{
    let inside = env.enter_callback();
    forget_nothing(inside);
    assert(inside.copies_since(0) =~= Seq::<HostBufferCopy>::empty());
    assert(inside.leave_callback(snapi_env, env.frame()) =~= env);
}

/// Callbacks nest: when one ends in a state whose innermost frame is its own, the frames of the
/// callbacks around it remain, as many as before it began, and so do the binding invocations that
/// were active then. Only binding invocations begun since are dropped.
pub proof fn callbacks_nest(env: NapiEnvView, inside: NapiEnvView, snapi_env: usize)
    requires
        env.host_buffer_method_frames.len() <= usize::MAX,
        inside.host_buffer_copy_frames.len() == env.enter_callback().host_buffer_copy_frames.len(),
        env.host_buffer_method_frames.is_prefix_of(inside.host_buffer_method_frames),
    ensures
        inside.leave_callback(snapi_env, env.frame()).host_buffer_copy_frames.len()
            == env.host_buffer_copy_frames.len(),
        inside.leave_callback(snapi_env, env.frame()).host_buffer_method_frames
            == env.host_buffer_method_frames,
{
    assert(inside.leave_callback(snapi_env, env.frame()).host_buffer_method_frames
        =~= env.host_buffer_method_frames);
}

/// A copy with bytes in it is written back whole, by one write-back: to its value, from the guest
/// address with the same bits, with as many bytes read as it has, and as many written, in 32 bits.
/// An empty copy is not written back.
pub proof fn one_copy_is_written_back_whole(copy: HostBufferCopy)
    ensures
        copy.byte_len == 0 ==> write_backs_of(seq![copy]).len() == 0,
        copy.byte_len > 0 ==> {
            let writes = write_backs_of(seq![copy]);
            &&& writes.len() == 1
            &&& writes[0].handle_id == copy.handle_id
            &&& writes[0].guest_ptr as u32 == copy.guest_ptr
            &&& writes[0].read_len == copy.byte_len
            &&& copy.byte_len <= u32::MAX ==> writes[0].write_len == copy.byte_len
            &&& writes[0].write_len as int == copy.byte_len as int % 0x1_0000_0000
        },
{
    let ptr: u32 = copy.guest_ptr;
    let len: usize = copy.byte_len;
    assert((ptr as i32) as u32 == ptr) by (bit_vector);
    let wide: u64 = len as u64;
    assert(wide as u32 == len as u32) by (bit_vector)
        requires
            wide == len as u64,
    ;
    assert(wide as u32 == wide % 0x1_0000_0000) by (bit_vector);
    forget_nothing(NapiEnvView::empty());
    write_one_more(Seq::empty(), copy);
    assert(Seq::<HostBufferCopy>::empty().push(copy) =~= seq![copy]);
}

/// Copies are written back one after the other: those of two runs are written back as the first run
/// is, and then as the second is.
pub proof fn copies_are_written_back_in_order(
    first: Seq<HostBufferCopy>,
    second: Seq<HostBufferCopy>,
)
    ensures
        write_backs_of(Seq::empty()) == Seq::<WriteBack>::empty(),
        write_backs_of(first + second) == write_backs_of(first) + write_backs_of(second),
{
    forget_nothing(NapiEnvView::empty());
    write_backs_concat(first, second);
}

/// Every byte of every buffer is written back: for each copy with bytes in it there is a write-back
/// to its value, from its guest address, of all its bytes.
pub proof fn every_byte_is_written_back(copies: Seq<HostBufferCopy>, i: int)
    requires
        0 <= i < copies.len(),
        0 < copies[i].byte_len <= u32::MAX,
    ensures
        exists|j: int|
            {
                &&& 0 <= j < write_backs_of(copies).len()
                &&& (#[trigger] write_backs_of(copies)[j]).handle_id == copies[i].handle_id
                &&& write_backs_of(copies)[j].guest_ptr as u32 == copies[i].guest_ptr
                &&& write_backs_of(copies)[j].read_len == copies[i].byte_len
                &&& write_backs_of(copies)[j].write_len == copies[i].byte_len
            },
{
    let before = copies.take(i);
    let one = seq![copies[i]];
    let rest = copies.skip(i + 1);
    assert(copies =~= before + one + rest);
    copies_are_written_back_in_order(before + one, rest);
    copies_are_written_back_in_order(before, one);
    one_copy_is_written_back_whole(copies[i]);
    let j = write_backs_of(before).len() as int;
    assert(write_backs_of(copies)[j] == write_backs_of(one)[0]);
}

/// Nothing else is written: every write-back is that of a copy with bytes in it.
pub proof fn only_copies_are_written_back(copies: Seq<HostBufferCopy>, j: int)
    requires
        0 <= j < write_backs_of(copies).len(),
    ensures
        exists|i: int|
            {
                &&& 0 <= i < copies.len()
                &&& (#[trigger] copies[i]).byte_len > 0
                &&& write_backs_of(copies)[j].handle_id == copies[i].handle_id
                &&& write_backs_of(copies)[j].guest_ptr as u32 == copies[i].guest_ptr
                &&& write_backs_of(copies)[j].read_len == copies[i].byte_len
            },
    decreases copies.len(),
{
    if copies.len() == 0 {
        assert(copies =~= Seq::empty());
        copies_are_written_back_in_order(copies, copies);
    } else {
        let rest = copies.drop_last();
        let one = seq![copies.last()];
        assert(copies =~= rest + one);
        copies_are_written_back_in_order(rest, one);
        one_copy_is_written_back_whole(copies.last());
        if j < write_backs_of(rest).len() {
            only_copies_are_written_back(rest, j);
            let i = choose|i: int|
                {
                    &&& 0 <= i < rest.len()
                    &&& (#[trigger] rest[i]).byte_len > 0
                    &&& write_backs_of(rest)[j].handle_id == rest[i].handle_id
                    &&& write_backs_of(rest)[j].guest_ptr as u32 == rest[i].guest_ptr
                    &&& write_backs_of(rest)[j].read_len == rest[i].byte_len
                };
            assert(copies[i] == rest[i]);
        } else {
            assert(write_backs_of(copies)[j] == write_backs_of(one)[0]);
            assert(copies[copies.len() - 1] == copies.last());
        }
    }
}

/// What is forgotten with copies: the guest pointer of each of their values, and the mapping of each
/// of their backing stores, where zero names no backing store. Every other pointer and mapping is
/// kept, and nothing else changes.
pub proof fn exactly_the_copies_are_forgotten(
    env: NapiEnvView,
    copies: Seq<HostBufferCopy>,
    handle: u32,
    token: u64,
)
    ensures
        ({
            let after = env.forget(copies);
            &&& (exists|i: int| 0 <= i < copies.len() && (#[trigger] copies[i]).handle_id == handle)
                ==> !after.guest_data_ptrs.contains_key(handle)
            &&& (forall|i: int|
                0 <= i < copies.len() ==> (#[trigger] copies[i]).handle_id != handle)
                ==> after.guest_data_ptrs.get(handle) == env.guest_data_ptrs.get(handle)
            &&& (exists|i: int|
                0 <= i < copies.len() && (#[trigger] copies[i]).backing_store_token == token)
                && token != 0 ==> !after.guest_data_backing_stores.contains_key(token)
            &&& token == 0 || (forall|i: int|
                0 <= i < copies.len() ==> (#[trigger] copies[i]).backing_store_token != token)
                ==> after.guest_data_backing_stores.get(token)
                == env.guest_data_backing_stores.get(token)
            &&& after.host_buffer_copies == env.host_buffer_copies
            &&& same_but_for_buffers(after, env)
            &&& after.host_buffer_copy_frames == env.host_buffer_copy_frames
            &&& after.host_buffer_method_frames == env.host_buffer_method_frames
        }),
{
    let handles = copies.map_values(|copy: HostBufferCopy| copy.handle_id);
    let tokens = copies.map_values(|copy: HostBufferCopy| copy.backing_store_token);
    if exists|i: int| 0 <= i < copies.len() && (#[trigger] copies[i]).handle_id == handle {
        let i = choose|i: int|
            0 <= i < copies.len() && (#[trigger] copies[i]).handle_id == handle;
        assert(handles[i] == handle);
        assert(handles.to_set().contains(handle));
    }
    if exists|i: int|
        0 <= i < copies.len() && (#[trigger] copies[i]).backing_store_token == token {
        let i = choose|i: int|
            0 <= i < copies.len() && (#[trigger] copies[i]).backing_store_token == token;
        assert(tokens[i] == token);
        assert(tokens.to_set().contains(token));
    }
    if handles.to_set().contains(handle) {
        let i = choose|i: int| 0 <= i < handles.len() && handles[i] == handle;
        assert(copies[i].handle_id == handle);
    }
    if tokens.to_set().contains(token) {
        let i = choose|i: int| 0 <= i < tokens.len() && tokens[i] == token;
        assert(copies[i].backing_store_token == token);
    }
}

/// Whether two states agree on the resources of the instance and on registrations.
pub open spec fn same_but_for_buffers(one: NapiEnvView, other: NapiEnvView) -> bool {
    &&& one.memory == other.memory
    &&& one.malloc_fn == other.malloc_fn
    &&& one.table == other.table
    &&& same_registrations(one, other)
}

/// A flush from a position takes every copy from there on and keeps every copy before it, each in
/// its order; from a position beyond the end it takes none. The frames stay as they are, and the
/// guest mappings are forgotten for what is taken alone.
pub proof fn a_flush_takes_what_is_behind_its_start(env: NapiEnvView, frame_start: usize)
    ensures
        ({
            let copies = env.host_buffer_copies;
            let after = env.flush_since(frame_start);
            let taken = env.copies_since(frame_start);
            &&& after.host_buffer_copies + taken == copies
            &&& frame_start <= copies.len() ==> after.host_buffer_copies.len() == frame_start
            &&& frame_start > copies.len() ==> taken.len() == 0
            &&& after.guest_data_ptrs == env.forget(taken).guest_data_ptrs
            &&& after.guest_data_backing_stores == env.forget(taken).guest_data_backing_stores
            &&& after.host_buffer_copy_frames == env.host_buffer_copy_frames
            &&& after.host_buffer_method_frames == env.host_buffer_method_frames
            &&& same_but_for_buffers(after, env)
        }),
{
    assert(env.flush_since(frame_start).host_buffer_copies + env.copies_since(frame_start)
        =~= env.host_buffer_copies);
}

/// A flush of everything takes every pending copy, in order, forgets their guest mappings, and leaves
/// every active callback with nothing pending at its beginning; the frames stay as many. For a null
/// native environment, or with nothing pending, it takes nothing and changes nothing.
pub proof fn a_full_flush_takes_everything(env: NapiEnvView, snapi_env: usize)
    ensures
        snapi_env == 0 || env.host_buffer_copies.len() == 0 ==> {
            &&& env.pending_copies(snapi_env).len() == 0
            &&& env.flush_pending(snapi_env) == env
        },
        snapi_env != 0 && env.host_buffer_copies.len() > 0 ==> {
            let after = env.flush_pending(snapi_env);
            &&& env.pending_copies(snapi_env) == env.host_buffer_copies
            &&& after.host_buffer_copies.len() == 0
            &&& after.host_buffer_copy_frames.len() == env.host_buffer_copy_frames.len()
            &&& forall|i: int|
                0 <= i < after.host_buffer_copy_frames.len()
                    ==> #[trigger] after.host_buffer_copy_frames[i] == 0
            &&& after.host_buffer_method_frames == env.host_buffer_method_frames
            &&& after.guest_data_ptrs == env.forget(env.host_buffer_copies).guest_data_ptrs
            &&& after.guest_data_backing_stores == env.forget(
                env.host_buffer_copies,
            ).guest_data_backing_stores
            &&& same_but_for_buffers(after, env)
        },
{
}

/// A callback that begins adds one frame, which holds how many copies are pending then; it remembers
/// that number and how many binding invocations are active. Nothing else changes.
pub proof fn a_callback_begins_with_one_frame(env: NapiEnvView)
    requires
        env.host_buffer_copies.len() <= usize::MAX,
        env.host_buffer_method_frames.len() <= usize::MAX,
    ensures
        ({
            let inside = env.enter_callback();
            &&& inside.host_buffer_copy_frames.len() == env.host_buffer_copy_frames.len() + 1
            &&& inside.host_buffer_copy_frames.drop_last() == env.host_buffer_copy_frames
            &&& inside.host_buffer_copy_frames.last() == env.host_buffer_copies.len()
            &&& env.frame().frame_start == env.host_buffer_copies.len()
            &&& env.frame().method_frame_depth == env.host_buffer_method_frames.len()
            &&& inside.host_buffer_copies == env.host_buffer_copies
            &&& inside.host_buffer_method_frames == env.host_buffer_method_frames
            &&& inside.guest_data_ptrs == env.guest_data_ptrs
            &&& inside.guest_data_backing_stores == env.guest_data_backing_stores
            &&& same_but_for_buffers(inside, env)
        }),
{
    assert(env.enter_callback().host_buffer_copy_frames.drop_last()
        =~= env.host_buffer_copy_frames);
}

/// A callback that ends takes one frame away, the innermost, where there is one. The binding
/// invocations go back to as many as at its beginning, and never become more. If copies were pending
/// then and still are, the callbacks around it have nothing pending any more at their beginning;
/// otherwise, and for a null native environment, their frames are as they were. Resources and
/// registrations stay.
pub proof fn a_callback_ends_with_its_frame(
    env: NapiEnvView,
    snapi_env: usize,
    frame: CallbackFrame,
    i: int,
)
    requires
        0 <= i < env.host_buffer_copy_frames.len() - 1,
    ensures
        ({
            let after = env.leave_callback(snapi_env, frame);
            let methods = env.host_buffer_method_frames;
            &&& after.host_buffer_copy_frames.len() == env.host_buffer_copy_frames.len() - 1
            &&& snapi_env != 0 && frame.frame_start > 0 && env.host_buffer_copies.len() > 0
                ==> after.host_buffer_copy_frames[i] == 0
            &&& snapi_env == 0 || frame.frame_start == 0 || env.host_buffer_copies.len() == 0
                ==> after.host_buffer_copy_frames[i] == env.host_buffer_copy_frames[i]
            &&& after.host_buffer_method_frames.is_prefix_of(methods)
            &&& frame.method_frame_depth <= methods.len() ==> after.host_buffer_method_frames.len()
                == frame.method_frame_depth
            &&& frame.method_frame_depth > methods.len() ==> after.host_buffer_method_frames
                == methods
            &&& same_but_for_buffers(after, env)
        }),
{
}

/// The end of a callback without any frame left takes none away, and the rest is as always.
pub proof fn a_callback_ends_without_frames(
    env: NapiEnvView,
    snapi_env: usize,
    frame: CallbackFrame,
)
    requires
        env.host_buffer_copy_frames.len() <= 1,
    ensures
        env.leave_callback(snapi_env, frame).host_buffer_copy_frames.len() == 0,
        frame.method_frame_depth <= env.host_buffer_method_frames.len() ==> env.leave_callback(
            snapi_env,
            frame,
        ).host_buffer_method_frames == env.host_buffer_method_frames.take(
            frame.method_frame_depth as int,
        ),
        frame.method_frame_depth > env.host_buffer_method_frames.len() ==> env.leave_callback(
            snapi_env,
            frame,
        ).host_buffer_method_frames == env.host_buffer_method_frames,
        same_but_for_buffers(env.leave_callback(snapi_env, frame), env),
{
}

/// For a null native environment the end of a callback takes the copies made since it began, and
/// leaves those that were pending then.
pub proof fn a_null_callback_takes_its_own_copies(env: NapiEnvView, frame: CallbackFrame)
    requires
        frame.frame_start <= env.host_buffer_copies.len(),
    ensures
        env.leave_callback(0, frame).host_buffer_copies == env.host_buffer_copies.take(
            frame.frame_start as int,
        ),
        env.copies_left(0, frame) == env.host_buffer_copies.skip(frame.frame_start as int),
        env.leave_callback(0, frame).guest_data_ptrs == env.forget(
            env.host_buffer_copies.skip(frame.frame_start as int),
        ).guest_data_ptrs,
        env.leave_callback(0, frame).guest_data_backing_stores == env.forget(
            env.host_buffer_copies.skip(frame.frame_start as int),
        ).guest_data_backing_stores,
{
    assert(env.copies_left(0, frame) =~= env.host_buffer_copies.skip(frame.frame_start as int));
}

/// What the end of a callback writes back, in order: first every copy that was made since it began,
/// then every copy that was pending when it began, each whole.
pub proof fn a_callback_writes_back_its_own_copies_first(
    env: NapiEnvView,
    snapi_env: usize,
    frame: CallbackFrame,
)
    requires
        snapi_env != 0,
        frame.frame_start <= env.host_buffer_copies.len(),
    ensures
        write_backs_of(env.copies_left(snapi_env, frame)) == write_backs_of(
            env.host_buffer_copies.skip(frame.frame_start as int),
        ) + write_backs_of(env.host_buffer_copies.take(frame.frame_start as int)),
{
    callback_end_takes_every_copy_once(env, snapi_env, frame);
    write_backs_concat(
        env.host_buffer_copies.skip(frame.frame_start as int),
        env.host_buffer_copies.take(frame.frame_start as int),
    );
}

} // verus!
