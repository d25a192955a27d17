use std::sync::Arc;

use userdata::error::Error;
use userdata::registry::{DispatchTable, MetaMethod};
use userdata::runtime::{Invocation, Runtime};
use userdata::value::{AnyUserData, Value};

const TYPE_ONE: u64 = 1;
const TYPE_TWO: u64 = 2;

const GET_VALUE: u64 = 10;
const SET_VALUE: u64 = 11;
const ADD: u64 = 12;
const SUB: u64 = 13;
const INDEX: u64 = 14;
const ACCESS: u64 = 15;

/// Reads an `i64` payload under a shared borrow of its own.
fn read_i64(rt: &mut Runtime<i64>, ud: AnyUserData, tag: u64) -> Result<i64, Error> {
    rt.heap.borrow(ud, tag)?;
    let v = *rt.heap.payload(ud);
    rt.heap.release(ud);
    Ok(v)
}

/// Runs a resolved closure of the test types on an `i64` payload.
fn run(
    rt: &mut Runtime<i64>,
    ud: AnyUserData,
    inv: Invocation,
    field: &str,
    args: &[Value],
) -> Result<Value, Error> {
    let out = match inv.callback.closure {
        GET_VALUE => Ok(Value::Integer(*rt.heap.payload(ud))),
        SET_VALUE => match args[0].to_integer() {
            Ok(v) => {
                rt.heap.replace_payload(ud, v);
                Ok(Value::Nil)
            }
            Err(e) => Err(e),
        },
        INDEX => {
            if field == "inner" {
                Ok(Value::Integer(*rt.heap.payload(ud)))
            } else {
                Err(Error::RuntimeError("no such custom index".to_string()))
            }
        }
        _ => Err(Error::RuntimeError("unknown closure".to_string())),
    };
    rt.finish(ud, inv, out)
}

/// `ud:name(args)` as the script runtime performs it.
fn call_method(
    rt: &mut Runtime<i64>,
    ud: AnyUserData,
    name: &str,
    args: Vec<Value>,
) -> Result<Value, Error> {
    let (inv, args) = rt.begin_method_call(ud, name, args)?;
    run(rt, ud, inv, name, &args[1..])
}

/// `ud.name` as the script runtime performs it, where the `Index` hook answers.
fn get_field(rt: &mut Runtime<i64>, ud: AnyUserData, name: &str) -> Result<Value, Error> {
    let inv = rt.begin_get(ud, name)?;
    run(rt, ud, inv, name, &[])
}

/// `lhs <op> rhs` for two handles whose closures add or subtract payloads.
fn binary(
    rt: &mut Runtime<i64>,
    lhs: AnyUserData,
    rhs: AnyUserData,
    m: MetaMethod,
) -> Result<AnyUserData, Error> {
    let (ud, inv) = rt.begin_binary(&Value::UserData(lhs), &Value::UserData(rhs), m)?;
    let a = read_i64(rt, lhs, TYPE_ONE)?;
    let b = read_i64(rt, rhs, TYPE_ONE)?;
    let r = match inv.callback.closure {
        ADD => a + b,
        SUB => a - b,
        _ => return Err(Error::RuntimeError("unknown closure".to_string())),
    };
    rt.finish(ud, inv, Ok(Value::Nil))?;
    Ok(rt.heap.create_userdata(TYPE_ONE, r))
}

fn method_runtime(payload: i64) -> (Runtime<i64>, AnyUserData) {
    let mut rt: Runtime<i64> = Runtime::new();
    let mut table = DispatchTable::new();
    table.add_method("get_value", GET_VALUE);
    table.add_method_mut("set_value", SET_VALUE);
    rt.registry.register(TYPE_ONE, table);
    let ud = rt.heap.create_userdata(TYPE_ONE, payload);
    (rt, ud)
}

fn meta_runtime() -> Runtime<i64> {
    let mut rt: Runtime<i64> = Runtime::new();
    let mut table = DispatchTable::new();
    table.add_method("get", GET_VALUE);
    table.add_meta_function(MetaMethod::Add, ADD);
    table.add_meta_function(MetaMethod::Sub, SUB);
    table.add_meta_method(MetaMethod::Index, INDEX);
    rt.registry.register(TYPE_ONE, table);
    rt
}

#[test]
fn test_user_data() {
    let mut rt: Runtime<i64> = Runtime::new();
    let userdata1 = rt.heap.create_userdata(TYPE_ONE, 1);
    let userdata2 = rt.heap.create_userdata(TYPE_TWO, 2);

    assert!(rt.heap.is(userdata1, TYPE_ONE).unwrap());
    assert!(!rt.heap.is(userdata1, TYPE_TWO).unwrap());
    assert!(rt.heap.is(userdata2, TYPE_TWO).unwrap());
    assert!(!rt.heap.is(userdata2, TYPE_ONE).unwrap());

    assert_eq!(read_i64(&mut rt, userdata1, TYPE_ONE).unwrap(), 1);
    assert_eq!(read_i64(&mut rt, userdata2, TYPE_TWO).unwrap(), 2);
}

#[test]
fn test_methods() {
    let (mut rt, userdata) = method_runtime(42);
    assert_eq!(call_method(&mut rt, userdata, "get_value", vec![]).unwrap(), Value::Integer(42));
    rt.heap.borrow_mut(userdata, TYPE_ONE).unwrap();
    rt.heap.replace_payload(userdata, 64);
    rt.heap.release_mut(userdata);
    assert_eq!(call_method(&mut rt, userdata, "get_value", vec![]).unwrap(), Value::Integer(64));
    call_method(&mut rt, userdata, "set_value", vec![Value::Integer(100)]).unwrap();
    assert_eq!(call_method(&mut rt, userdata, "get_value", vec![]).unwrap(), Value::Integer(100));
}

#[test]
fn test_metamethods() {
    let mut rt = meta_runtime();
    let userdata1 = rt.heap.create_userdata(TYPE_ONE, 7);
    let userdata2 = rt.heap.create_userdata(TYPE_ONE, 3);
    let sum = binary(&mut rt, userdata1, userdata2, MetaMethod::Add).unwrap();
    assert_eq!(read_i64(&mut rt, sum, TYPE_ONE).unwrap(), 10);
    let diff = binary(&mut rt, userdata1, userdata2, MetaMethod::Sub).unwrap();
    assert_eq!(read_i64(&mut rt, diff, TYPE_ONE).unwrap(), 4);
    assert_eq!(call_method(&mut rt, userdata1, "get", vec![]).unwrap(), Value::Integer(7));
    assert_eq!(get_field(&mut rt, userdata2, "inner").unwrap(), Value::Integer(3));
    assert!(get_field(&mut rt, userdata2, "nonexist_field").is_err());
    assert_eq!(
        get_field(&mut rt, userdata2, "nonexist_field"),
        Err(Error::RuntimeError("no such custom index".to_string()))
    );
    assert_eq!(get_field(&mut rt, userdata2, "inner").unwrap(), Value::Integer(3));
}

#[test]
fn test_gc_userdata() {
    let mut rt: Runtime<u8> = Runtime::new();
    let mut table = DispatchTable::new();
    table.add_method("access", ACCESS);
    rt.registry.register(TYPE_ONE, table);
    let userdata = rt.heap.create_userdata(TYPE_ONE, 123);

    // The collector finalizes the box; the finalizer of a table stores the handle
    // elsewhere, so the script still reaches it afterwards.
    let torn_down = rt.heap.finalize(userdata).unwrap();
    assert_eq!(torn_down, Some(123));
    let hatch = userdata;
    assert!(rt.begin_method_call(hatch, "access", vec![]).is_err());
}

#[test]
fn detroys_userdata() {
    let rc = Arc::new(());

    let mut rt: Runtime<Arc<()>> = Runtime::new();
    rt.heap.create_userdata(TYPE_ONE, rc.clone());

    assert_eq!(Arc::strong_count(&rc), 2);
    drop(rt);
    assert_eq!(Arc::strong_count(&rc), 1);
}

#[test]
fn user_value() {
    let mut rt: Runtime<()> = Runtime::new();
    let ud = rt.heap.create_userdata(TYPE_ONE, ());
    rt.heap.set_user_value(ud, Value::Str("hello".to_string())).unwrap();
    assert_eq!(rt.heap.get_user_value(ud).unwrap().to_string_value().unwrap(), "hello");
    assert!(rt.heap.get_user_value(ud).unwrap().to_u32().is_err());
}
