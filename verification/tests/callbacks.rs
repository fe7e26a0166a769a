use napi_wasmer::callback::{
    enter_callback_state, flush_host_buffer_copies, flush_host_buffer_copies_since,
    flush_pending_host_buffer_copies, leave_callback_state, CallbackFrame, WriteBack,
};
use napi_wasmer::env::{GuestBackingStoreMapping, HostBufferCopy};
use napi_wasmer::NapiEnv;

const SNAPI_ENV: usize = 0x9000;

fn copy(handle_id: u32, token: u64, guest_ptr: u32, byte_len: usize) -> HostBufferCopy {
    HostBufferCopy { handle_id, backing_store_token: token, guest_ptr, byte_len }
}

fn write(handle_id: u32, guest_ptr: i32, len: usize) -> WriteBack {
    WriteBack { handle_id, guest_ptr, read_len: len, write_len: len as u32 }
}

/// Makes a copy pending, with its guest mappings.
fn make_copy(env: &mut NapiEnv, made: HostBufferCopy) {
    env.guest_data_ptrs.insert(made.handle_id, made.guest_ptr);
    let mapping = GuestBackingStoreMapping {
        host_addr: 1,
        guest_ptr: made.guest_ptr,
        byte_len: made.byte_len,
    };
    env.guest_data_backing_stores.insert(made.backing_store_token, mapping);
    env.host_buffer_copies.push(made);
}

#[test]
fn flush_since_takes_the_newer_copies() {
    let mut env = NapiEnv::default();
    make_copy(&mut env, copy(1, 11, 0x100, 4));
    make_copy(&mut env, copy(2, 12, 0x200, 8));
    make_copy(&mut env, copy(3, 13, 0x300, 0));
    make_copy(&mut env, copy(4, 14, 0x400, 16));
    env.guest_data_ptrs.insert(99, 0x999);

    let writes = flush_host_buffer_copies_since(&mut env, 1);
    assert_eq!(writes, vec![write(2, 0x200, 8), write(4, 0x400, 16)]);
    assert_eq!(env.host_buffer_copies, vec![copy(1, 11, 0x100, 4)]);
    assert_eq!(env.guest_data_ptrs.len(), 2);
    assert_eq!(env.guest_data_ptrs.get(&1), Some(&0x100));
    assert_eq!(env.guest_data_ptrs.get(&99), Some(&0x999));
    assert_eq!(env.guest_data_backing_stores.len(), 1);
    assert!(env.guest_data_backing_stores.contains_key(&11));
}

#[test]
fn flush_since_beyond_the_end_takes_nothing() {
    let mut env = NapiEnv::default();
    make_copy(&mut env, copy(1, 11, 0x100, 4));
    assert_eq!(flush_host_buffer_copies_since(&mut env, 7), vec![]);
    assert_eq!(env.host_buffer_copies.len(), 1);
    assert_eq!(env.guest_data_ptrs.len(), 1);
}

#[test]
fn a_zero_token_keeps_the_backing_stores() {
    let mut env = NapiEnv::default();
    make_copy(&mut env, copy(1, 0, 0x100, 4));
    assert_eq!(flush_host_buffer_copies_since(&mut env, 0), vec![write(1, 0x100, 4)]);
    assert!(env.guest_data_ptrs.is_empty());
    assert!(env.guest_data_backing_stores.contains_key(&0));
}

#[test]
fn high_guest_pointers_keep_their_bits() {
    let mut env = NapiEnv::default();
    make_copy(&mut env, copy(1, 0, 0x8000_0010, 4));
    let writes = flush_host_buffer_copies_since(&mut env, 0);
    assert_eq!(writes[0].guest_ptr, -0x7fff_fff0);
    assert_eq!(writes[0].guest_ptr as u32, 0x8000_0010);
}

#[test]
fn flush_of_a_frame_drops_the_frame() {
    let mut env = NapiEnv::default();
    env.host_buffer_copy_frames.push(3);
    env.host_buffer_copy_frames.push(0);
    make_copy(&mut env, copy(1, 11, 0x100, 4));
    assert_eq!(flush_host_buffer_copies(&mut env, 0), vec![write(1, 0x100, 4)]);
    assert_eq!(env.host_buffer_copy_frames, vec![3]);
}

#[test]
fn flush_pending_takes_everything() {
    let mut env = NapiEnv::default();
    env.host_buffer_copy_frames.push(1);
    env.host_buffer_copy_frames.push(2);
    make_copy(&mut env, copy(1, 11, 0x100, 4));
    make_copy(&mut env, copy(2, 12, 0x200, 8));
    let writes = flush_pending_host_buffer_copies(&mut env, SNAPI_ENV);
    assert_eq!(writes, vec![write(1, 0x100, 4), write(2, 0x200, 8)]);
    assert!(env.host_buffer_copies.is_empty());
    assert_eq!(env.host_buffer_copy_frames, vec![0, 0]);
    assert!(env.guest_data_ptrs.is_empty());
    assert!(env.guest_data_backing_stores.is_empty());
}

#[test]
fn flush_pending_needs_an_environment_and_a_copy() {
    let mut env = NapiEnv::default();
    env.host_buffer_copy_frames.push(5);
    assert_eq!(flush_pending_host_buffer_copies(&mut env, SNAPI_ENV), vec![]);
    assert_eq!(env.host_buffer_copy_frames, vec![5]);
    make_copy(&mut env, copy(1, 11, 0x100, 4));
    assert_eq!(flush_pending_host_buffer_copies(&mut env, 0), vec![]);
    assert_eq!(env.host_buffer_copies.len(), 1);
    assert_eq!(env.host_buffer_copy_frames, vec![5]);
}

#[test]
fn callbacks_without_an_environment_run_without_a_frame() {
    let mut env = NapiEnv::default();
    assert_eq!(enter_callback_state(&mut env, 0), None);
    assert!(env.host_buffer_copy_frames.is_empty());
}

#[test]
fn an_idle_callback_leaves_no_trace() {
    let mut env = NapiEnv::default();
    env.host_buffer_method_frames.push(0);
    let frame = enter_callback_state(&mut env, SNAPI_ENV).unwrap();
    assert_eq!(frame, CallbackFrame { frame_start: 0, method_frame_depth: 1 });
    assert_eq!(env.host_buffer_copy_frames, vec![0]);
    assert_eq!(leave_callback_state(&mut env, SNAPI_ENV, frame), vec![]);
    assert!(env.host_buffer_copy_frames.is_empty());
    assert_eq!(env.host_buffer_method_frames, vec![0]);
}

#[test]
fn nested_callbacks_write_everything_back_once() {
    let mut env = NapiEnv::default();
    let outer = enter_callback_state(&mut env, SNAPI_ENV).unwrap();
    make_copy(&mut env, copy(1, 11, 0x100, 4));
    make_copy(&mut env, copy(2, 12, 0x200, 8));

    let inner = enter_callback_state(&mut env, SNAPI_ENV).unwrap();
    assert_eq!(inner.frame_start, 2);
    env.host_buffer_method_frames.push(2);
    make_copy(&mut env, copy(3, 13, 0x300, 12));

    // The copies of the inner callback come first, then what was pending when it began.
    let writes = leave_callback_state(&mut env, SNAPI_ENV, inner);
    assert_eq!(writes, vec![write(3, 0x300, 12), write(1, 0x100, 4), write(2, 0x200, 8)]);
    assert!(env.host_buffer_copies.is_empty());
    assert_eq!(env.host_buffer_copy_frames, vec![0]);
    assert!(env.host_buffer_method_frames.is_empty());
    assert!(env.guest_data_ptrs.is_empty());

    make_copy(&mut env, copy(4, 14, 0x400, 16));
    let writes = leave_callback_state(&mut env, SNAPI_ENV, outer);
    assert_eq!(writes, vec![write(4, 0x400, 16)]);
    assert!(env.host_buffer_copy_frames.is_empty());
}
