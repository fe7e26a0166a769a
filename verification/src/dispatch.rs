//! The trampoline: what a native callback does with a guest function, and what it answers.
use vstd::prelude::*;

use crate::engine::{
    holds_function, is_function_at, is_readable, is_table_in_store, signature_known, store_envs,
    table_get, table_in_store, table_slots, tables_untouched, SlotKind, TableSlot,
};
use crate::session::is_placeholder;

verus! {

/// What a native callback finds when it asks for the guest that it is meant for.
pub enum CallbackScope {
    /// No callback is active.
    Missing,
    /// A callback is active, and its guest is gone.
    EnvCleared,
    /// A callback is active; in it is the function table of its guest, if one is bound.
    Active(Option<wasmer::Table>),
}

/// A value that a guest function returned.
pub enum GuestValue {
    I32(i32),
    I64(i64),
    Other,
}

/// A guest function to call, with its two arguments.
pub struct GuestCall {
    pub function: wasmer::Function,
    pub guest_env: i32,
    pub callback_arg: i32,
}

/// How a native callback came out.
pub enum CallbackOutcome {
    /// No callback is active.
    NoScope,
    /// The guest of the active callback is gone.
    EnvCleared,
    /// The guest has no function table.
    NoTable,
    /// The function table belongs to another store.
    ForeignTable,
    /// The function table holds no function at the index.
    NoFunction,
    /// The guest function returned.
    Returned(Vec<GuestValue>),
    /// The guest function trapped.
    Trapped,
    /// The host panicked on the way.
    Panicked,
}

/// The answer that the values returned by a guest function stand for: the low half of the first
/// one, if it is an integer, and zero otherwise.
pub open spec fn returned_answer(values: Seq<GuestValue>) -> u32 {
    if values.len() == 0 {
        0
    } else {
        match values[0] {
            GuestValue::I32(value) => value as u32,
            GuestValue::I64(value) => value as u32,
            GuestValue::Other => 0,
        }
    }
}

/// The answer of a native callback: what the guest function returned, and zero whenever it could
/// not be called or did not return.
pub open spec fn answer_of(outcome: CallbackOutcome) -> u32 {
    match outcome {
        CallbackOutcome::Returned(values) => returned_answer(values@),
        _ => 0,
    }
}

/// The function table that a native callback finds, or how it comes out without one.
pub open spec fn scope_table(scope: CallbackScope) -> Result<wasmer::Table, CallbackOutcome> {
    match scope {
        CallbackScope::Missing => Err(CallbackOutcome::NoScope),
        CallbackScope::EnvCleared => Err(CallbackOutcome::EnvCleared),
        CallbackScope::Active(None) => Err(CallbackOutcome::NoTable),
        CallbackScope::Active(Some(table)) => Ok(table),
    }
}

/// Why a native callback cannot call the guest function at an index, if it cannot.
pub open spec fn call_refusal(
    table: wasmer::Table,
    store: wasmer::StoreMut<'_>,
    wasm_fn_ptr: u32,
) -> Option<CallbackOutcome> {
    if !table_in_store(table, store) {
        Some(CallbackOutcome::ForeignTable)
    } else if !holds_function(table, store, wasm_fn_ptr) {
        Some(CallbackOutcome::NoFunction)
    } else {
        None
    }
}

/// Finds the function table for a native callback.
pub fn callback_table(scope: CallbackScope) -> (table: Result<wasmer::Table, CallbackOutcome>)
    ensures
        table == scope_table(scope),
{
    match scope {
        CallbackScope::Missing => Err(CallbackOutcome::NoScope),
        CallbackScope::EnvCleared => Err(CallbackOutcome::EnvCleared),
        CallbackScope::Active(None) => Err(CallbackOutcome::NoTable),
        CallbackScope::Active(Some(table)) => Ok(table),
    }
}

/// Looks up a guest function in the function table. Nothing is found beyond the end of the table,
/// in an empty slot, and in a table of something else than functions.
pub fn find_guest_callback(
    table: &wasmer::Table,
    store: &mut wasmer::StoreMut<'_>,
    wasm_fn_ptr: u32,
) -> (function: Option<wasmer::Function>)
    requires
        table_in_store(*table, *old(store)),
        is_readable(*table, *old(store), wasm_fn_ptr),
    ensures
        function is Some == holds_function(*table, *old(store), wasm_fn_ptr),
        function is Some ==> is_function_at(function->0, *table, *old(store), wasm_fn_ptr),
        tables_untouched(*old(store), *final(store)),
        store_envs(*final(store)) == store_envs(*old(store)),
{
    match table_get(table, store, wasm_fn_ptr) {
        Some(TableSlot::Function(Some(function))) => Some(function),
        Some(TableSlot::Function(None)) => None,
        Some(TableSlot::Other) => None,
        None => None,
    }
}

/// Prepares the call of a guest function for a native callback. The guest sees its environment and
/// the argument as signed numbers with the same bits. Where the table is one of the store and holds
/// a function at the index, the engine of the store has to know its signature.
pub fn call_guest_callback(
    table: &wasmer::Table,
    store: &mut wasmer::StoreMut<'_>,
    guest_env: u32,
    wasm_fn_ptr: u32,
    callback_arg: u32,
) -> (call: Result<GuestCall, CallbackOutcome>)
    requires
        table_in_store(*table, *old(store)) ==> is_readable(*table, *old(store), wasm_fn_ptr),
    ensures
        match call_refusal(*table, *old(store), wasm_fn_ptr) {
            Some(outcome) => call == Err::<GuestCall, CallbackOutcome>(outcome),
            None => {
                &&& call is Ok
                &&& is_function_at(call->Ok_0.function, *table, *old(store), wasm_fn_ptr)
                &&& call->Ok_0.guest_env == guest_env as i32
                &&& call->Ok_0.callback_arg == callback_arg as i32
            },
        },
        tables_untouched(*old(store), *final(store)),
        store_envs(*final(store)) == store_envs(*old(store)),
{
    if !is_table_in_store(table, store) {
        return Err(CallbackOutcome::ForeignTable);
    }
    match find_guest_callback(table, store, wasm_fn_ptr) {
        Some(function) => Ok(
            GuestCall {
                function,
                guest_env: guest_env as i32,
                callback_arg: callback_arg as i32,
            },
        ),
        None => Err(CallbackOutcome::NoFunction),
    }
}

/// The answer of a native callback.
pub fn callback_answer(outcome: &CallbackOutcome) -> (answer: u32)
    ensures
        answer == answer_of(*outcome),
{
    match outcome {
        CallbackOutcome::Returned(values) => {
            if values.len() == 0 {
                0
            } else {
                match &values[0] {
                    GuestValue::I32(value) => *value as u32,
                    GuestValue::I64(value) => *value as u32,
                    GuestValue::Other => 0,
                }
            }
        },
        _ => 0,
    }
}

/// A native callback answers zero unless a guest function was called and returned: without an
/// active callback, without a guest, without a table, with a table of another store or without a
/// function in it, and when the guest traps or the host panics.
pub proof fn only_returned_values_are_answered(
    scope: CallbackScope,
    table: wasmer::Table,
    store: wasmer::StoreMut<'_>,
    wasm_fn_ptr: u32,
    outcome: CallbackOutcome,
)
    ensures
        scope_table(scope) is Err ==> answer_of(scope_table(scope)->Err_0) == 0,
        call_refusal(table, store, wasm_fn_ptr) is Some ==> answer_of(
            call_refusal(table, store, wasm_fn_ptr)->0,
        ) == 0,
        !(outcome is Returned) ==> answer_of(outcome) == 0,
{
}

/// As long as a guest's table is still the placeholder made with its imports, every native callback
/// is answered with zero: every slot can be read, and no function is found, whatever the index.
pub proof fn placeholder_is_answered_with_zero(
    table: wasmer::Table,
    store: wasmer::StoreMut<'_>,
    wasm_fn_ptr: u32,
)
    requires
        is_placeholder(table, store),
    ensures
        is_readable(table, store, wasm_fn_ptr),
        call_refusal(table, store, wasm_fn_ptr) == Some(CallbackOutcome::NoFunction),
        answer_of(call_refusal(table, store, wasm_fn_ptr)->0) == 0,
{
}

/// What a panic carries.
pub enum PanicPayload {
    /// A string literal.
    Str(&'static str),
    /// A formatted string.
    Text(String),
    /// Anything else.
    Other,
}

/// The words for a panic that did not carry a string.
pub const NON_STRING_PANIC: &'static str = "<non-string panic payload>";

/// The message of a panic: its string, if it carries one.
pub fn panic_message(payload: &PanicPayload) -> (message: String)
    ensures
        message@ == (match *payload {
            PanicPayload::Str(text) => text@,
            PanicPayload::Text(text) => text@,
            PanicPayload::Other => NON_STRING_PANIC@,
        }),
{
    match payload {
        PanicPayload::Str(text) => (*text).to_owned(),
        PanicPayload::Text(text) => text.clone(),
        PanicPayload::Other => NON_STRING_PANIC.to_owned(),
    }
}

/// A callback finds the table of its guest whenever one is bound, whichever it is. It finds none
/// only without an active callback, with the guest gone, or with no table bound.
pub proof fn a_bound_table_is_found(table: wasmer::Table, scope: CallbackScope)
    ensures
        scope_table(CallbackScope::Active(Some(table))) == Ok::<wasmer::Table, CallbackOutcome>(
            table,
        ),
        scope_table(scope) == Ok::<wasmer::Table, CallbackOutcome>(table) ==> scope
            == CallbackScope::Active(Some(table)),
        scope_table(scope) is Err <==> scope is Missing || scope is EnvCleared || scope
            == CallbackScope::Active(None),
        scope is Missing ==> scope_table(scope)->Err_0 == CallbackOutcome::NoScope,
        scope is EnvCleared ==> scope_table(scope)->Err_0 == CallbackOutcome::EnvCleared,
        scope == CallbackScope::Active(None) ==> scope_table(scope)->Err_0
            == CallbackOutcome::NoTable,
{
}

/// A guest function is called whenever the table is one of the store and has a function in the slot
/// at the index. Otherwise the call is refused: for a table of another store, and for an index
/// beyond the end or of a slot without a function. Of the engine it takes only that it knows the
/// signature of the function in that slot.
pub proof fn a_function_in_the_table_is_called(
    table: wasmer::Table,
    store: wasmer::StoreMut<'_>,
    wasm_fn_ptr: u32,
)
    ensures
        ({
            let slots = table_slots(table, store);
            let found = wasm_fn_ptr < slots.len() && slots[wasm_fn_ptr as int]
                == SlotKind::Function;
            &&& call_refusal(table, store, wasm_fn_ptr) is None <==> table_in_store(table, store)
                && found
            &&& !table_in_store(table, store) ==> call_refusal(table, store, wasm_fn_ptr) == Some(
                CallbackOutcome::ForeignTable,
            )
            &&& table_in_store(table, store) && !found ==> call_refusal(table, store, wasm_fn_ptr)
                == Some(CallbackOutcome::NoFunction)
            &&& is_readable(table, store, wasm_fn_ptr) <==> !found || signature_known(
                table,
                store,
                wasm_fn_ptr,
            )
        }),
{
}

/// The answer is the first value that the guest function returned, whatever follows it: a 32-bit
/// integer with its bits unchanged, and of a 64-bit integer the low 32 bits. Without a value, or
/// with something else first, it is zero.
pub proof fn the_first_value_is_the_answer(
    narrow: i32,
    wide: i64,
    rest: Seq<GuestValue>,
    values: Vec<GuestValue>,
)
    ensures
        returned_answer(seq![GuestValue::I32(narrow)] + rest) as i32 == narrow,
        returned_answer(seq![GuestValue::I64(wide)] + rest) as u64 == wide as u64 & 0xffff_ffff,
        returned_answer(seq![GuestValue::Other] + rest) == 0,
        returned_answer(Seq::empty()) == 0,
        answer_of(CallbackOutcome::Returned(values)) == returned_answer(values@),
{
    assert((narrow as u32) as i32 == narrow) by (bit_vector);
    assert((wide as u32) as u64 == wide as u64 & 0xffff_ffff) by (bit_vector);
    assert((seq![GuestValue::I32(narrow)] + rest)[0] == GuestValue::I32(narrow));
    assert((seq![GuestValue::I64(wide)] + rest)[0] == GuestValue::I64(wide));
    assert((seq![GuestValue::Other] + rest)[0] == GuestValue::Other);
}

} // verus!
