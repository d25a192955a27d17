use std::sync::Arc;

use userdata::borrow::BorrowState;
use userdata::error::Error;
use userdata::registry::{Access, Callback, DispatchTable, MetaMethod, Registry};
use userdata::runtime::{callable_field, method_args, Runtime};
use userdata::value::{AnyUserData, Value};

const TAG: u64 = 7;
const OTHER: u64 = 8;

fn runtime_with(table: DispatchTable) -> (Runtime<i64>, AnyUserData) {
    let mut rt: Runtime<i64> = Runtime::new();
    rt.registry.register(TAG, table);
    let ud = rt.heap.create_userdata(TAG, 5);
    (rt, ud)
}

#[test]
fn shared_borrows_nest() {
    let mut st = BorrowState::new();
    assert!(st.try_borrow_shared().is_ok());
    assert!(st.try_borrow_shared().is_ok());
    assert_eq!(st, BorrowState::Shared(2));
    assert_eq!(st.try_borrow_exclusive(), Err(Error::BorrowMutError));
    st.release_shared();
    st.release_shared();
    assert!(st.is_free());
}

#[test]
fn exclusive_borrow_excludes_shared() {
    let mut st = BorrowState::new();
    assert!(st.try_borrow_exclusive().is_ok());
    assert!(st.is_exclusive());
    assert_eq!(st.try_borrow_shared(), Err(Error::BorrowError));
    assert_eq!(st.try_borrow_exclusive(), Err(Error::BorrowMutError));
    st.release_exclusive();
    assert_eq!(st, BorrowState::Free);
}

#[test]
fn shared_count_saturates() {
    let mut st = BorrowState::Shared(u64::MAX);
    assert_eq!(st.try_borrow_shared(), Err(Error::BorrowError));
    assert_eq!(st, BorrowState::Shared(u64::MAX));
}

#[test]
fn heap_borrows_conflict() {
    let mut rt: Runtime<i64> = Runtime::new();
    let ud = rt.heap.create_userdata(TAG, 1);
    rt.heap.borrow(ud, TAG).unwrap();
    rt.heap.borrow(ud, TAG).unwrap();
    assert_eq!(rt.heap.borrow_mut(ud, TAG), Err(Error::BorrowMutError));
    rt.heap.release(ud);
    rt.heap.release(ud);
    rt.heap.borrow_mut(ud, TAG).unwrap();
    assert_eq!(rt.heap.borrow(ud, TAG), Err(Error::BorrowError));
    assert_eq!(rt.heap.replace_payload(ud, 9), 1);
    rt.heap.release_mut(ud);
    rt.heap.borrow(ud, TAG).unwrap();
    assert_eq!(*rt.heap.payload(ud), 9);
}

#[test]
fn wrong_type_and_unknown_handle() {
    let mut rt: Runtime<i64> = Runtime::new();
    let ud = rt.heap.create_userdata(TAG, 1);
    assert_eq!(rt.heap.borrow(ud, OTHER), Err(Error::UserDataTypeMismatch));
    assert_eq!(rt.heap.borrow_mut(ud, OTHER), Err(Error::UserDataTypeMismatch));
    let missing = AnyUserData { index: 3 };
    assert_eq!(rt.heap.is(missing, TAG), Err(Error::UserDataNotFound));
    assert_eq!(rt.heap.borrow(missing, TAG), Err(Error::UserDataNotFound));
    assert_eq!(rt.heap.finalize(missing), Err(Error::UserDataNotFound));
    assert_eq!(rt.begin_get(ud, "x"), Err(Error::NotUserData));
}

#[test]
fn finalize_releases_once() {
    let rc = Arc::new(());
    let mut rt: Runtime<Arc<()>> = Runtime::new();
    let ud = rt.heap.create_userdata(TAG, rc.clone());
    let kept = rt.heap.create_userdata(TAG, rc.clone());
    assert_eq!(Arc::strong_count(&rc), 3);
    let first = rt.heap.finalize(ud).unwrap();
    assert!(first.is_some());
    drop(first);
    assert_eq!(Arc::strong_count(&rc), 2);
    assert!(rt.heap.finalize(ud).unwrap().is_none());
    assert_eq!(rt.heap.is(ud, TAG), Err(Error::UserDataDestructed));
    assert_eq!(rt.heap.is(kept, TAG), Ok(true));
    let rest = rt.heap.close();
    assert_eq!(rest.len(), 1);
    drop(rest);
    assert_eq!(Arc::strong_count(&rc), 1);
}

#[test]
fn finalize_refused_while_borrowed() {
    let mut rt: Runtime<i64> = Runtime::new();
    let ud = rt.heap.create_userdata(TAG, 4);
    rt.heap.borrow(ud, TAG).unwrap();
    assert_eq!(rt.heap.finalize(ud), Err(Error::BorrowMutError));
    rt.heap.release(ud);
    assert_eq!(rt.heap.finalize(ud), Ok(Some(4)));
}

#[test]
fn close_hands_back_newest_first() {
    let mut rt: Runtime<i64> = Runtime::new();
    rt.heap.create_userdata(TAG, 1);
    let mid = rt.heap.create_userdata(TAG, 2);
    rt.heap.create_userdata(TAG, 3);
    rt.heap.finalize(mid).unwrap();
    assert_eq!(rt.heap.close(), vec![3, 1]);
}

#[test]
fn user_value_absent_then_replaced() {
    let mut rt: Runtime<i64> = Runtime::new();
    let ud = rt.heap.create_userdata(TAG, 1);
    assert_eq!(rt.heap.get_user_value(ud), Err(Error::NoUserValue));
    rt.heap.set_user_value(ud, Value::Integer(1)).unwrap();
    rt.heap.set_user_value(ud, Value::Integer(2)).unwrap();
    assert_eq!(rt.heap.get_user_value(ud), Ok(Value::Integer(2)));
    assert_eq!(rt.heap.get_user_value(ud).unwrap().to_u32(), Ok(2));
    rt.heap.finalize(ud).unwrap();
    assert_eq!(rt.heap.get_user_value(ud), Err(Error::UserDataDestructed));
    assert_eq!(rt.heap.set_user_value(ud, Value::Nil), Err(Error::UserDataDestructed));
}

#[test]
fn conversions() {
    assert_eq!(Value::Integer(-3).to_integer(), Ok(-3));
    assert_eq!(
        Value::Boolean(true).to_integer(),
        Err(Error::FromValueConversion { from: "boolean".to_string(), to: "integer".to_string() })
    );
    assert_eq!(
        Value::Integer(-1).to_u32(),
        Err(Error::FromValueConversion { from: "integer".to_string(), to: "u32".to_string() })
    );
    assert_eq!(Value::Integer(4294967295).to_u32(), Ok(u32::MAX));
    assert_eq!(
        Value::Str("hello".to_string()).to_u32(),
        Err(Error::FromValueConversion { from: "string".to_string(), to: "u32".to_string() })
    );
    assert_eq!(
        Value::Nil.to_string_value(),
        Err(Error::FromValueConversion { from: "nil".to_string(), to: "string".to_string() })
    );
    assert_eq!(Value::Function(1).kind_name(), "function");
    assert_eq!(Value::UserData(AnyUserData { index: 0 }).kind_name(), "userdata");
}

#[test]
fn table_later_declaration_wins() {
    let mut table = DispatchTable::new();
    table.add_method("f", 1);
    table.add_method_mut("f", 2);
    table.add_function("g", 3);
    assert_eq!(table.method("f"), Some(Callback { closure: 2, access: Access::Exclusive }));
    assert_eq!(table.method("g"), Some(Callback { closure: 3, access: Access::Owned }));
    assert_eq!(table.method("h"), None);
    assert_eq!(table.meta(MetaMethod::Call), None);
    table.add_meta_method(MetaMethod::Call, 4);
    assert_eq!(table.meta(MetaMethod::Call), Some(Callback { closure: 4, access: Access::Shared }));
}

#[test]
fn registry_lookup() {
    let mut reg = Registry::new();
    assert!(!reg.is_registered(TAG));
    let mut table = DispatchTable::new();
    table.add_method("m", 1);
    reg.register(TAG, table);
    reg.register(OTHER, DispatchTable::new());
    assert!(reg.is_registered(TAG));
    assert!(reg.is_registered(OTHER));
    assert!(reg.table(TAG).unwrap().method("m").is_some());
    assert!(reg.table(OTHER).unwrap().method("m").is_none());
    assert!(reg.table(9).is_none());
}

#[test]
fn get_prefers_named_method_over_index() {
    let mut table = DispatchTable::new();
    table.add_method_mut("m", 1);
    table.add_meta_method(MetaMethod::Index, 2);
    let (mut rt, ud) = runtime_with(table);
    rt.heap.borrow(ud, TAG).unwrap();
    let inv = rt.begin_get(ud, "m").unwrap();
    assert_eq!(inv.callback.closure, 1);
    assert!(!inv.via_index);
    assert_eq!(inv.held, Access::Owned);
    rt.heap.release(ud);
    let (call, _) = rt.begin_method_call(ud, "m", vec![]).unwrap();
    assert_eq!(call.held, Access::Exclusive);
    assert_eq!(rt.heap.borrow(ud, TAG), Err(Error::BorrowError));
    assert_eq!(rt.begin_get(ud, "m").unwrap().callback.closure, 1);
    assert_eq!(rt.finish(ud, call, Ok(Value::Integer(8))), Ok(Value::Integer(8)));
    let inv = rt.begin_get(ud, "other").unwrap();
    assert_eq!(inv.callback.closure, 2);
    assert!(inv.via_index);
    assert_eq!(inv.held, Access::Shared);
    assert_eq!(rt.finish(ud, inv, Err(Error::NoUserValue)), Err(Error::NoUserValue));
    assert_eq!(rt.heap.borrow_mut(ud, TAG), Ok(()));
}

#[test]
fn get_without_index_hook_is_missing_field() {
    let (mut rt, ud) = runtime_with(DispatchTable::new());
    assert_eq!(
        rt.begin_get(ud, "nope"),
        Err(Error::NoSuchField { name: "nope".to_string() })
    );
}

#[test]
fn set_goes_through_newindex() {
    let (mut rt, ud) = runtime_with(DispatchTable::new());
    assert_eq!(rt.begin_set(ud, "x"), Err(Error::NoSuchField { name: "x".to_string() }));
    let mut table = DispatchTable::new();
    table.add_meta(MetaMethod::NewIndex, Callback { closure: 6, access: Access::Exclusive });
    let (mut rt, ud) = runtime_with(table);
    let inv = rt.begin_set(ud, "x").unwrap();
    assert_eq!(inv.callback.closure, 6);
    assert_eq!(rt.begin_set(ud, "x"), Err(Error::BorrowMutError));
    rt.release(ud, Access::Exclusive);
    assert!(rt.begin_set(ud, "x").is_ok());
}

#[test]
fn binary_operator_operand_choice() {
    let mut rt: Runtime<i64> = Runtime::new();
    let mut table = DispatchTable::new();
    table.add_meta_function(MetaMethod::Mul, 9);
    rt.registry.register(TAG, table);
    rt.registry.register(OTHER, DispatchTable::new());
    let plain = rt.heap.create_userdata(OTHER, 0);
    let ud = rt.heap.create_userdata(TAG, 2);
    let (who, inv) = rt
        .begin_binary(&Value::Integer(3), &Value::UserData(ud), MetaMethod::Mul)
        .unwrap();
    assert_eq!(who, ud);
    assert_eq!(inv.callback.closure, 9);
    let (who, _) = rt
        .begin_binary(&Value::UserData(plain), &Value::UserData(ud), MetaMethod::Mul)
        .unwrap();
    assert_eq!(who, ud);
    assert_eq!(
        rt.begin_binary(&Value::UserData(ud), &Value::Integer(1), MetaMethod::Add),
        Err(Error::NoMetaMethod)
    );
    assert_eq!(
        rt.begin_binary(&Value::Integer(1), &Value::Integer(2), MetaMethod::Mul),
        Err(Error::NoMetaMethod)
    );
    assert_eq!(rt.begin_meta(ud, MetaMethod::Lt), Err(Error::NoMetaMethod));
    assert!(rt.has_meta(ud, MetaMethod::Mul));
    assert!(!rt.has_meta(plain, MetaMethod::Mul));
}

#[test]
fn callable_field_checks_kind() {
    assert_eq!(callable_field("f", Ok(Value::Function(5))), Ok(5));
    assert_eq!(
        callable_field("f", Ok(Value::Integer(1))),
        Err(Error::NotCallable { name: "f".to_string(), kind: "integer".to_string() })
    );
    assert_eq!(
        callable_field("g", Ok(Value::Nil)),
        Err(Error::NotCallable { name: "g".to_string(), kind: "nil".to_string() })
    );
    assert_eq!(callable_field("f", Err(Error::NoUserValue)), Err(Error::NoUserValue));
}

#[test]
fn method_args_put_self_first() {
    let ud = AnyUserData { index: 2 };
    let args = method_args(ud, vec![Value::Integer(1), Value::Boolean(false)]);
    assert_eq!(args, vec![Value::UserData(ud), Value::Integer(1), Value::Boolean(false)]);
    assert_eq!(method_args(ud, Vec::new()), vec![Value::UserData(ud)]);
}

#[test]
fn first_handle_installs_table() {
    let mut rt: Runtime<i64> = Runtime::new();
    let mut first = DispatchTable::new();
    first.add_method("a", 1);
    let ud = rt.create_userdata(TAG, 1, first);
    let mut second = DispatchTable::new();
    second.add_method("b", 2);
    let other = rt.create_userdata(TAG, 2, second);
    assert_eq!(other.index, ud.index + 1);
    assert!(rt.registry.table(TAG).unwrap().method("a").is_some());
    assert!(rt.registry.table(TAG).unwrap().method("b").is_none());
    assert!(rt.begin_get(other, "b").is_err());
    assert!(rt.begin_method_call(other, "b", vec![]).is_err());
    assert_eq!(rt.begin_get(other, "a").unwrap().callback.closure, 1);
}

#[test]
fn call_hook_gets_handle_first() {
    let mut table = DispatchTable::new();
    table.add_meta_method(MetaMethod::Call, 3);
    let (mut rt, ud) = runtime_with(table);
    let (inv, args) = rt.begin_call(ud, vec![Value::Integer(1)]).unwrap();
    assert_eq!(args, vec![Value::UserData(ud), Value::Integer(1)]);
    assert_eq!(inv.callback.closure, 3);
    assert_eq!(rt.heap.borrow_mut(ud, TAG), Err(Error::BorrowMutError));
    assert_eq!(rt.finish(ud, inv, Ok(Value::Boolean(true))), Ok(Value::Boolean(true)));
    assert_eq!(rt.heap.borrow_mut(ud, TAG), Ok(()));
    let (mut bare, plain) = runtime_with(DispatchTable::new());
    assert_eq!(bare.begin_call(plain, vec![]), Err(Error::NoMetaMethod));
}

#[test]
fn to_string_hook_or_default() {
    let (mut rt, ud) = runtime_with(DispatchTable::new());
    assert_eq!(rt.begin_to_string(ud), Ok(None));
    let mut table = DispatchTable::new();
    table.add_meta_method(MetaMethod::ToString, 4);
    let (mut rt, ud) = runtime_with(table);
    let inv = rt.begin_to_string(ud).unwrap().unwrap();
    assert_eq!(inv.callback.closure, 4);
    let err = Error::RuntimeError("bad".to_string());
    assert_eq!(rt.finish(ud, inv, Err(err.clone())), Err(err));
    assert_eq!(rt.heap.borrow_mut(ud, TAG), Ok(()));
}

#[test]
fn native_handles_keep_payload_alive() {
    let rc = Arc::new(());
    let mut rt: Runtime<Arc<()>> = Runtime::new();
    let ud = rt.heap.create_userdata(TAG, rc.clone());
    rt.heap.take_native_ref(ud).unwrap();
    rt.heap.take_native_ref(ud).unwrap();
    assert!(rt.heap.finalize(ud).unwrap().is_none());
    assert_eq!(Arc::strong_count(&rc), 2);
    assert_eq!(rt.heap.is(ud, TAG), Ok(true));
    assert!(rt.heap.drop_native_ref(ud).is_none());
    assert_eq!(Arc::strong_count(&rc), 2);
    let last = rt.heap.drop_native_ref(ud);
    assert!(last.is_some());
    drop(last);
    assert_eq!(Arc::strong_count(&rc), 1);
    assert_eq!(rt.heap.is(ud, TAG), Err(Error::UserDataDestructed));
    assert_eq!(rt.heap.take_native_ref(ud), Err(Error::UserDataDestructed));
}

#[test]
fn native_handle_dropped_before_collection() {
    let mut rt: Runtime<i64> = Runtime::new();
    let ud = rt.heap.create_userdata(TAG, 6);
    rt.heap.take_native_ref(ud).unwrap();
    assert_eq!(rt.heap.drop_native_ref(ud), None);
    assert_eq!(rt.heap.finalize(ud), Ok(Some(6)));
}
