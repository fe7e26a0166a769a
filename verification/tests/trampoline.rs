use napi_wasmer::dispatch::{
    call_guest_callback, callback_answer, callback_table, find_guest_callback, panic_message,
    CallbackOutcome, CallbackScope, GuestValue, PanicPayload,
};
use wasmer::{AsStoreMut, Function, Store, Table, TableType, Type, Value};

/// The answer of a native callback that finds `scope`, for a guest function that returns nothing.
fn answer_in(scope: CallbackScope) -> u32 {
    match callback_table(scope) {
        Ok(_) => callback_answer(&CallbackOutcome::Returned(vec![])),
        Err(outcome) => callback_answer(&outcome),
    }
}

#[test]
fn null_callback_ctx_returns_zero() {
    let result = answer_in(CallbackScope::Missing);
    assert_eq!(result, 0, "null ctx must short-circuit to 0");
    assert!(matches!(callback_table(CallbackScope::Missing), Err(CallbackOutcome::NoScope)));
}

#[test]
fn null_env_pointer_returns_zero() {
    let result = answer_in(CallbackScope::EnvCleared);
    assert_eq!(result, 0, "ctx.env = null must short-circuit to 0");
    assert!(matches!(callback_table(CallbackScope::EnvCleared), Err(CallbackOutcome::EnvCleared)));
}

#[test]
fn panic_message_static_str() {
    let payload = PanicPayload::Str("static-message");
    let msg = panic_message(&payload);
    assert_eq!(msg, "static-message");
}

#[test]
fn panic_message_owned_string() {
    let payload = PanicPayload::Text(String::from("owned-message"));
    let msg = panic_message(&payload);
    assert_eq!(msg, "owned-message");
}

#[test]
fn panic_message_non_string_fallback() {
    // A payload such as 42i32.
    let payload = PanicPayload::Other;
    let msg = panic_message(&payload);
    assert_eq!(msg, "<non-string panic payload>");
}

#[test]
fn a_guest_without_table_answers_zero() {
    let table = callback_table(CallbackScope::Active(None));
    assert!(matches!(table, Err(CallbackOutcome::NoTable)));
    assert_eq!(answer_in(CallbackScope::Active(None)), 0);
}

#[test]
fn the_answer_is_the_first_integer_returned() {
    let answer = |values| callback_answer(&CallbackOutcome::Returned(values));
    assert_eq!(answer(vec![GuestValue::I32(7)]), 7);
    assert_eq!(answer(vec![GuestValue::I32(-1)]), u32::MAX);
    assert_eq!(answer(vec![GuestValue::I64(0x1_0000_0005)]), 5);
    assert_eq!(answer(vec![GuestValue::I64(-2), GuestValue::I32(1)]), u32::MAX - 1);
    assert_eq!(answer(vec![GuestValue::Other, GuestValue::I32(1)]), 0);
    assert_eq!(answer(vec![]), 0);
}

#[test]
fn whatever_did_not_return_answers_zero() {
    assert_eq!(callback_answer(&CallbackOutcome::ForeignTable), 0);
    assert_eq!(callback_answer(&CallbackOutcome::NoFunction), 0);
    assert_eq!(callback_answer(&CallbackOutcome::Trapped), 0);
    assert_eq!(callback_answer(&CallbackOutcome::Panicked), 0);
}

#[test]
fn guest_functions_are_found_in_the_table() {
    let mut store = Store::default();
    let function = Function::new_typed(&mut store, |env: i32, arg: i32| env * 1000 + arg);
    let ty = TableType::new(Type::FuncRef, 3, None);
    let table = Table::new(&mut store, ty, Value::FuncRef(None)).unwrap();
    table.set(&mut store, 1, Value::FuncRef(Some(function))).unwrap();

    let mut store_mut = store.as_store_mut();
    assert!(find_guest_callback(&table, &mut store_mut, 0).is_none());
    assert!(find_guest_callback(&table, &mut store_mut, 3).is_none());
    assert!(find_guest_callback(&table, &mut store_mut, 1).is_some());

    let call = match call_guest_callback(&table, &mut store_mut, 4, 1, 0xffff_ffff) {
        Ok(call) => call,
        Err(_) => panic!("slot 1 holds a function"),
    };
    assert_eq!(call.guest_env, 4);
    assert_eq!(call.callback_arg, -1);
    let params = [Value::I32(call.guest_env), Value::I32(call.callback_arg)];
    let returned = call.function.call(&mut store_mut, &params).unwrap();
    assert_eq!(returned[0], Value::I32(3999));

    let empty = call_guest_callback(&table, &mut store_mut, 4, 2, 0);
    assert!(matches!(empty, Err(CallbackOutcome::NoFunction)));
    let beyond = call_guest_callback(&table, &mut store_mut, 4, 9, 0);
    assert!(matches!(beyond, Err(CallbackOutcome::NoFunction)));
}

#[test]
fn a_table_of_something_else_holds_no_function() {
    let mut store = Store::default();
    let ty = TableType::new(Type::ExternRef, 1, None);
    let table = Table::new(&mut store, ty, Value::ExternRef(None)).unwrap();
    let mut store_mut = store.as_store_mut();
    assert!(find_guest_callback(&table, &mut store_mut, 0).is_none());
}

#[test]
fn a_table_of_another_store_is_turned_away() {
    let mut store = Store::default();
    let mut other = Store::default();
    let ty = TableType::new(Type::FuncRef, 1, None);
    let table = Table::new(&mut other, ty, Value::FuncRef(None)).unwrap();
    let mut store_mut = store.as_store_mut();
    let call = call_guest_callback(&table, &mut store_mut, 1, 0, 0);
    assert!(matches!(call, Err(CallbackOutcome::ForeignTable)));
}
