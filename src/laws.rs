use crate::borrow::BorrowState;
use crate::error::Error;
use crate::heap::{
    access_error,
    borrow_error,
    borrow_mut_error,
    finalize_releases,
    finalized,
    fresh_box,
    is_result,
    live_count,
    native_ref_dropped,
    user_value_result,
    with_payload,
    with_user_value,
    UserDataBox,
};
use crate::registry::{Access, MetaMethod, TableView};
use crate::runtime::{
    acquire_error,
    acquired,
    binary_target,
    field_lookup,
    holds,
    meta_lookup,
    released,
    Invocation,
};
use crate::value::{AnyUserData, Value};
use vstd::prelude::*;

verus! {

/// A freshly wrapped value tests as its own type and as no other.
pub proof fn lemma_is_own_type_only<T>(s: Seq<UserDataBox<T>>, tag: u64, other: u64, payload: T)
    requires
        s.len() < usize::MAX,
        tag != other,
    ensures
        is_result(s.push(fresh_box(tag, payload)), AnyUserData { index: s.len() as usize }, tag)
            == Ok::<bool, Error>(true),
        is_result(s.push(fresh_box(tag, payload)), AnyUserData { index: s.len() as usize }, other)
            == Ok::<bool, Error>(false),
{
}

/// What a mutating method writes under the exclusive borrow is what a read method sees
/// under the next shared borrow.
pub proof fn lemma_write_then_read<T>(s: Seq<UserDataBox<T>>, ud: AnyUserData, value: T)
    requires
        ud.index < s.len(),
        s[ud.index as int].borrow == BorrowState::Exclusive,
        s[ud.index as int].payload is Some,
    ensures
        ({
            let after = released(with_payload(s, ud.index as int, value), ud, Access::Exclusive);
            &&& borrow_error(after, ud, s[ud.index as int].tag) is None
            &&& acquired(after, ud, Access::Shared)[ud.index as int].payload == Some(value)
        }),
{
}

/// Shared borrows nest; the exclusive borrow excludes every other borrow, both ways.
pub proof fn lemma_borrow_exclusion<T>(s: Seq<UserDataBox<T>>, ud: AnyUserData)
    requires
        access_error(s, ud) is None,
        s[ud.index as int].borrow.wf(),
    ensures
        s[ud.index as int].borrow.shared_count() > 0 ==> borrow_mut_error(
            s,
            ud,
            s[ud.index as int].tag,
        ) == Some(Error::BorrowMutError),
        s[ud.index as int].borrow == BorrowState::Exclusive ==> borrow_error(
            s,
            ud,
            s[ud.index as int].tag,
        ) == Some(Error::BorrowError) && borrow_mut_error(s, ud, s[ud.index as int].tag) == Some(
            Error::BorrowMutError,
        ),
        s[ud.index as int].borrow != BorrowState::Exclusive && s[ud.index as int].borrow.shared_count()
            < u64::MAX ==> borrow_error(s, ud, s[ud.index as int].tag) is None && acquired(
            s,
            ud,
            Access::Shared,
        )[ud.index as int].borrow.shared_count() == s[ud.index as int].borrow.shared_count() + 1,
{
}

/// A binary operator that neither operand's type supplies is refused.
pub proof fn lemma_unregistered_binary_fails<T>(
    reg: Map<u64, TableView>,
    s: Seq<UserDataBox<T>>,
    lhs: Value,
    rhs: Value,
    m: MetaMethod,
)
    requires
        lhs is UserData ==> meta_lookup(reg, s, lhs->UserData_0, m) is Err,
        rhs is UserData ==> meta_lookup(reg, s, rhs->UserData_0, m) is Err,
    ensures
        binary_target(reg, s, lhs, rhs, m) is None,
{
}

/// A field read of a method's name gives that method, ahead of the `Index` hook, in any
/// borrow state: it runs nothing, so it holds no borrow and leaves the boxes unchanged.
pub proof fn lemma_method_name_read_borrows_nothing<T>(
    reg: Map<u64, TableView>,
    s: Seq<UserDataBox<T>>,
    ud: AnyUserData,
    name: Seq<char>,
)
    requires
        access_error(s, ud) is None,
        reg.contains_key(s[ud.index as int].tag),
        reg[s[ud.index as int].tag].methods.contains_key(name),
    ensures
        field_lookup(reg, s, ud, name) == Ok::<Invocation, Option<Error>>(
            Invocation {
                callback: reg[s[ud.index as int].tag].methods[name],
                via_index: false,
                held: Access::Owned,
            },
        ),
        acquire_error(s, ud, Access::Owned) is None,
        acquired(s, ud, Access::Owned) == s,
{
}

/// A name that is no method goes to the `Index` hook where the type has one, and is
/// refused as a missing field (a recoverable error) where it has none.
pub proof fn lemma_index_fallback<T>(
    reg: Map<u64, TableView>,
    s: Seq<UserDataBox<T>>,
    ud: AnyUserData,
    name: Seq<char>,
)
    requires
        access_error(s, ud) is None,
        reg.contains_key(s[ud.index as int].tag),
        !reg[s[ud.index as int].tag].methods.contains_key(name),
    ensures
        reg[s[ud.index as int].tag].meta.contains_key(MetaMethod::Index) ==> field_lookup(
            reg,
            s,
            ud,
            name,
        ) == Ok::<Invocation, Option<Error>>(
            Invocation {
                callback: reg[s[ud.index as int].tag].meta[MetaMethod::Index],
                via_index: true,
                held: reg[s[ud.index as int].tag].meta[MetaMethod::Index].access,
            },
        ),
        !reg[s[ud.index as int].tag].meta.contains_key(MetaMethod::Index) ==> field_lookup(
            reg,
            s,
            ud,
            name,
        ) == Err::<Invocation, Option<Error>>(None),
{
}

/// A dispatch that takes a borrow and then finishes leaves the box's borrow state as it
/// found it, whatever the closure returned.
pub proof fn lemma_dispatch_restores_borrow<T>(s: Seq<UserDataBox<T>>, ud: AnyUserData, a: Access)
    requires
        access_error(s, ud) is None,
        s[ud.index as int].borrow.wf(),
        acquire_error(s, ud, a) is None,
    ensures
        holds(acquired(s, ud, a), ud, a),
        released(acquired(s, ud, a), ud, a) == s,
{
    match a {
        Access::Shared => {
            assert(released(acquired(s, ud, a), ud, a) =~= s);
        },
        Access::Exclusive => {
            assert(released(acquired(s, ud, a), ud, a) =~= s);
        },
        Access::Owned => {},
    }
}

proof fn lemma_live_count_update<T>(s: Seq<UserDataBox<T>>, i: int, b: UserDataBox<T>)
    requires
        0 <= i < s.len(),
    ensures
        live_count(s.update(i, b)) + (if s[i].payload is Some {
            1int
        } else {
            0int
        }) == live_count(s) + (if b.payload is Some {
            1int
        } else {
            0int
        }),
    decreases s.len(),
{
    if i == s.len() - 1 {
        assert(s.update(i, b).drop_last() =~= s.drop_last());
    } else {
        lemma_live_count_update(s.drop_last(), i, b);
        assert(s.update(i, b).drop_last() =~= s.drop_last().update(i, b));
    }
}

/// With no handle held by native code, the finalizer hands a live payload out once: the
/// count of live payloads drops by exactly one, and a second run finds nothing left to
/// release.
pub proof fn lemma_finalize_releases_once<T>(s: Seq<UserDataBox<T>>, ud: AnyUserData)
    requires
        ud.index < s.len(),
        s[ud.index as int].payload is Some,
        s[ud.index as int].native_refs == 0,
    ensures
        finalize_releases(s, ud.index as int) == s[ud.index as int].payload,
        finalize_releases(finalized(s, ud.index as int), ud.index as int) is None,
        live_count(finalized(s, ud.index as int)) + 1 == live_count(s),
        finalized(s, ud.index as int)[ud.index as int].payload is None,
        finalized(finalized(s, ud.index as int), ud.index as int) == finalized(s, ud.index as int),
{
    let i = ud.index as int;
    lemma_live_count_update(s, i, UserDataBox { payload: None, collected: true, ..s[i] });
    assert(finalized(finalized(s, i), i) =~= finalized(s, i));
}

/// Handles held by native code keep a finalized payload alive, so a resurrected handle
/// still reaches it; dropping the last of them releases the payload, exactly once.
pub proof fn lemma_native_refs_keep_payload<T>(s: Seq<UserDataBox<T>>, ud: AnyUserData)
    requires
        ud.index < s.len(),
        s[ud.index as int].payload is Some,
        s[ud.index as int].native_refs == 1,
        s[ud.index as int].borrow == BorrowState::Free,
    ensures
        ({
            let i = ud.index as int;
            let f = finalized(s, i);
            let d = native_ref_dropped(f, i);
            &&& finalize_releases(s, i) is None
            &&& f[i].payload == s[i].payload
            &&& access_error(f, ud) is None
            &&& live_count(f) == live_count(s)
            &&& d[i].payload is None
            &&& live_count(d) + 1 == live_count(s)
        }),
{
    let i = ud.index as int;
    let f = finalized(s, i);
    lemma_live_count_update(s, i, UserDataBox { collected: true, ..s[i] });
    lemma_live_count_update(f, i, UserDataBox { payload: None, native_refs: 0, ..f[i] });
}

/// A handle resurrected after its finalizer tore the payload down reaches no payload:
/// every access is refused with a recoverable error.
pub proof fn lemma_resurrected_access_fails<T>(
    reg: Map<u64, TableView>,
    s: Seq<UserDataBox<T>>,
    ud: AnyUserData,
    name: Seq<char>,
    tag: u64,
    m: MetaMethod,
)
    requires
        ud.index < s.len(),
        s[ud.index as int].native_refs == 0,
    ensures
        ({
            let f = finalized(s, ud.index as int);
            &&& access_error(f, ud) == Some(Error::UserDataDestructed)
            &&& field_lookup(reg, f, ud, name) == Err::<Invocation, Option<Error>>(
                Some(Error::UserDataDestructed),
            )
            &&& meta_lookup(reg, f, ud, m) == Err::<Invocation, Error>(Error::UserDataDestructed)
            &&& borrow_error(f, ud, tag) == Some(Error::UserDataDestructed)
            &&& borrow_mut_error(f, ud, tag) == Some(Error::UserDataDestructed)
            &&& is_result(f, ud, tag) == Err::<bool, Error>(Error::UserDataDestructed)
        }),
{
}

/// A fresh handle has no user value; a stored one reads back as it was stored.
pub proof fn lemma_user_value_round_trip<T>(
    s: Seq<UserDataBox<T>>,
    tag: u64,
    payload: T,
    ud: AnyUserData,
    v: Value,
)
    requires
        s.len() < usize::MAX,
    ensures
        user_value_result(s.push(fresh_box(tag, payload)), AnyUserData { index: s.len() as usize })
            == Err::<Value, Error>(Error::NoUserValue),
        access_error(s, ud) is None ==> user_value_result(
            with_user_value(s, ud.index as int, v),
            ud,
        ) == Ok::<Value, Error>(v),
{
}

} // verus!
