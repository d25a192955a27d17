use crate::borrow::BorrowState;
use crate::error::Error;
use crate::heap::{
    access_error,
    borrow_error,
    borrow_mut_error,
    fresh_box,
    with_borrow,
    Heap,
    UserDataBox,
};
use crate::registry::{Access, Callback, DispatchTable, MetaMethod, Registry, TableView};
use crate::value::{spec_kind_name, AnyUserData, Value};
use vstd::prelude::*;

verus! {

/// A resolved script access: the closure, whether it was reached through the `Index`
/// hook rather than by the method's own name, and the borrow held on the handle for it
/// (`Access::Owned` where none is).
#[derive(PartialEq, Eq, Structural, Clone, Copy, Debug)]
pub struct Invocation {
    pub callback: Callback,
    pub via_index: bool,
    pub held: Access,
}

/// Where a field read on a handle leads: `Err(None)` when nothing handles the name.
/// Reading a method's name runs nothing and holds no borrow; the `Index` hook runs
/// under the borrow it was declared with.
pub open spec fn field_lookup<T>(
    reg: Map<u64, TableView>,
    s: Seq<UserDataBox<T>>,
    ud: AnyUserData,
    name: Seq<char>,
) -> Result<Invocation, Option<Error>> {
    match access_error(s, ud) {
        Some(e) => Err(Some(e)),
        None => {
            let tag = s[ud.index as int].tag;
            if !reg.contains_key(tag) {
                Err(Some(Error::NotUserData))
            } else if reg[tag].methods.contains_key(name) {
                Ok(
                    Invocation {
                        callback: reg[tag].methods[name],
                        via_index: false,
                        held: Access::Owned,
                    },
                )
            } else if reg[tag].meta.contains_key(MetaMethod::Index) {
                Ok(
                    Invocation {
                        callback: reg[tag].meta[MetaMethod::Index],
                        via_index: true,
                        held: reg[tag].meta[MetaMethod::Index].access,
                    },
                )
            } else {
                Err(None)
            }
        },
    }
}

/// Where a metamethod of a handle leads.
pub open spec fn meta_lookup<T>(
    reg: Map<u64, TableView>,
    s: Seq<UserDataBox<T>>,
    ud: AnyUserData,
    m: MetaMethod,
) -> Result<Invocation, Error> {
    match access_error(s, ud) {
        Some(e) => Err(e),
        None => {
            let tag = s[ud.index as int].tag;
            if !reg.contains_key(tag) {
                Err(Error::NotUserData)
            } else if reg[tag].meta.contains_key(m) {
                Ok(Invocation { callback: reg[tag].meta[m], via_index: false, held: reg[tag].meta[m].access })
            } else {
                Err(Error::NoMetaMethod)
            }
        },
    }
}

/// Why the borrow that `access` asks for is refused, if it is.
pub open spec fn acquire_error<T>(s: Seq<UserDataBox<T>>, ud: AnyUserData, access: Access) -> Option<
    Error,
> {
    match access {
        Access::Shared => borrow_error(s, ud, s[ud.index as int].tag),
        Access::Exclusive => borrow_mut_error(s, ud, s[ud.index as int].tag),
        Access::Owned => None,
    }
}

/// The boxes once the borrow that `access` asks for is held.
pub open spec fn acquired<T>(s: Seq<UserDataBox<T>>, ud: AnyUserData, access: Access) -> Seq<
    UserDataBox<T>,
> {
    match access {
        Access::Shared => with_borrow(
            s,
            ud.index as int,
            s[ud.index as int].borrow.spec_after_shared(),
        ),
        Access::Exclusive => with_borrow(s, ud.index as int, BorrowState::Exclusive),
        Access::Owned => s,
    }
}

/// The boxes once the borrow that `access` asked for is given back.
pub open spec fn released<T>(s: Seq<UserDataBox<T>>, ud: AnyUserData, access: Access) -> Seq<
    UserDataBox<T>,
> {
    match access {
        Access::Shared => with_borrow(
            s,
            ud.index as int,
            s[ud.index as int].borrow.spec_after_release_shared(),
        ),
        Access::Exclusive => with_borrow(s, ud.index as int, BorrowState::Free),
        Access::Owned => s,
    }
}

/// Whether the borrow that `access` asked for is held on the handle.
pub open spec fn holds<T>(s: Seq<UserDataBox<T>>, ud: AnyUserData, access: Access) -> bool {
    match access {
        Access::Shared => ud.index < s.len() && s[ud.index as int].borrow.shared_count() > 0,
        Access::Exclusive => ud.index < s.len() && s[ud.index as int].borrow
            == BorrowState::Exclusive,
        Access::Owned => true,
    }
}

/// The operand whose type supplies the binary metamethod `m`: the left one first.
pub open spec fn binary_target<T>(
    reg: Map<u64, TableView>,
    s: Seq<UserDataBox<T>>,
    lhs: Value,
    rhs: Value,
    m: MetaMethod,
) -> Option<AnyUserData> {
    if lhs is UserData && meta_lookup(reg, s, lhs->UserData_0, m) is Ok {
        Some(lhs->UserData_0)
    } else if rhs is UserData && meta_lookup(reg, s, rhs->UserData_0, m) is Ok {
        Some(rhs->UserData_0)
    } else {
        None
    }
}

/// Boxes and dispatch tables of one script runtime.
pub struct Runtime<T> {
    pub heap: Heap<T>,
    pub registry: Registry,
}

impl<T> Runtime<T> {
    pub open spec fn wf(&self) -> bool {
        self.heap.wf() && self.registry.wf()
    }

    pub fn new() -> (r: Runtime<T>)
        ensures
            r.wf(),
            r.heap@ == Seq::<UserDataBox<T>>::empty(),
            r.registry@ == Map::<u64, TableView>::empty(),
    {
        Runtime { heap: Heap::new(), registry: Registry::new() }
    }

    /// Wraps a native value of the type `tag`. The type's first handle installs `table`
    /// as its dispatch table; later ones leave the installed table as it is.
    pub fn create_userdata(&mut self, tag: u64, payload: T, table: DispatchTable) -> (r:
        AnyUserData)
        requires
            old(self).wf(),
            table.wf(),
            old(self).heap@.len() < usize::MAX,
        ensures
            final(self).wf(),
            r.index == old(self).heap@.len(),
            final(self).heap@ == old(self).heap@.push(fresh_box(tag, payload)),
            final(self).registry@ == (if old(self).registry@.contains_key(tag) {
                old(self).registry@
            } else {
                old(self).registry@.insert(tag, table@)
            }),
    {
        if !self.registry.is_registered(tag) {
            self.registry.register(tag, table);
        }
        self.heap.create_userdata(tag, payload)
    }

    /// Takes the borrow that `access` asks for on a live handle.
    pub fn acquire(&mut self, ud: AnyUserData, access: Access) -> (r: Result<(), Error>)
        requires
            old(self).wf(),
            access_error(old(self).heap@, ud) is None,
        ensures
            final(self).wf(),
            final(self).registry == old(self).registry,
            match acquire_error(old(self).heap@, ud, access) {
                Some(e) => r == Err::<(), Error>(e) && final(self).heap@ == old(self).heap@,
                None => r is Ok && final(self).heap@ == acquired(old(self).heap@, ud, access),
            },
    {
        let tag = self.heap.tag(ud);
        match access {
            Access::Shared => self.heap.borrow(ud, tag),
            Access::Exclusive => self.heap.borrow_mut(ud, tag),
            Access::Owned => Ok(()),
        }
    }

    /// Gives back the borrow that `access` asked for, once the closure has run.
    pub fn release(&mut self, ud: AnyUserData, access: Access)
        requires
            old(self).wf(),
            holds(old(self).heap@, ud, access),
        ensures
            final(self).wf(),
            final(self).registry == old(self).registry,
            final(self).heap@ == released(old(self).heap@, ud, access),
    {
        match access {
            Access::Shared => self.heap.release(ud),
            Access::Exclusive => self.heap.release_mut(ud),
            Access::Owned => {},
        }
    }

    /// Resolves a field read on the handle: a named method, found without borrowing,
    /// else the `Index` hook, under the borrow that it runs under.
    pub fn begin_get(&mut self, ud: AnyUserData, name: &str) -> (r: Result<Invocation, Error>)
        requires
            old(self).wf(),
        ensures
            final(self).wf(),
            final(self).registry == old(self).registry,
            match field_lookup(old(self).registry@, old(self).heap@, ud, name@) {
                Err(Some(e)) => r == Err::<Invocation, Error>(e) && final(self).heap@ == old(
                    self,
                ).heap@,
                Err(None) => r matches Err(Error::NoSuchField { name: n }) && n@ == name@
                    && final(self).heap@ == old(self).heap@,
                Ok(inv) => match acquire_error(old(self).heap@, ud, inv.held) {
                    Some(e) => r == Err::<Invocation, Error>(e) && final(self).heap@ == old(
                        self,
                    ).heap@,
                    None => r == Ok::<Invocation, Error>(inv) && final(self).heap@ == acquired(
                        old(self).heap@,
                        ud,
                        inv.held,
                    ),
                },
            },
    {
        let inv = match self.lookup(ud, name) {
            Ok(inv) => inv,
            Err(e) => {
                return Err(e);
            },
        };
        match self.acquire(ud, inv.held) {
            Ok(()) => Ok(inv),
            Err(e) => Err(e),
        }
    }

    /// Resolves the metamethod `m` of the handle and takes the borrow that it runs under.
    pub fn begin_meta(&mut self, ud: AnyUserData, m: MetaMethod) -> (r: Result<Invocation, Error>)
        requires
            old(self).wf(),
        ensures
            final(self).wf(),
            final(self).registry == old(self).registry,
            match meta_lookup(old(self).registry@, old(self).heap@, ud, m) {
                Err(e) => r == Err::<Invocation, Error>(e) && final(self).heap@ == old(self).heap@,
                Ok(inv) => match acquire_error(old(self).heap@, ud, inv.held) {
                    Some(e) => r == Err::<Invocation, Error>(e) && final(self).heap@ == old(
                        self,
                    ).heap@,
                    None => r == Ok::<Invocation, Error>(inv) && final(self).heap@ == acquired(
                        old(self).heap@,
                        ud,
                        inv.held,
                    ),
                },
            },
    {
        if let Some(e) = self.heap.check(ud) {
            return Err(e);
        }
        let tag = self.heap.tag(ud);
        let inv = match self.registry.table(tag) {
            None => {
                return Err(Error::NotUserData);
            },
            Some(table) => match table.meta(m) {
                Some(cb) => Invocation { callback: cb, via_index: false, held: cb.access },
                None => {
                    return Err(Error::NoMetaMethod);
                },
            },
        };
        match self.acquire(ud, inv.held) {
            Ok(()) => Ok(inv),
            Err(e) => Err(e),
        }
    }

    /// Resolves a field write on the handle through the `NewIndex` hook and takes the
    /// borrow that the closure runs under.
    pub fn begin_set(&mut self, ud: AnyUserData, name: &str) -> (r: Result<Invocation, Error>)
        requires
            old(self).wf(),
        ensures
            final(self).wf(),
            final(self).registry == old(self).registry,
            match meta_lookup(old(self).registry@, old(self).heap@, ud, MetaMethod::NewIndex) {
                Err(Error::NoMetaMethod) => r matches Err(Error::NoSuchField { name: n }) && n@
                    == name@ && final(self).heap@ == old(self).heap@,
                Err(e) => r == Err::<Invocation, Error>(e) && final(self).heap@ == old(self).heap@,
                Ok(inv) => match acquire_error(old(self).heap@, ud, inv.held) {
                    Some(e) => r == Err::<Invocation, Error>(e) && final(self).heap@ == old(
                        self,
                    ).heap@,
                    None => r == Ok::<Invocation, Error>(inv) && final(self).heap@ == acquired(
                        old(self).heap@,
                        ud,
                        inv.held,
                    ),
                },
            },
    {
        match self.begin_meta(ud, MetaMethod::NewIndex) {
            Err(Error::NoMetaMethod) => Err(Error::NoSuchField { name: name.to_owned() }),
            other => other,
        }
    }

    /// Resolves a call of the handle itself through its `Call` hook, takes the borrow
    /// that the hook runs under, and gives the hook's arguments: the handle, then `args`.
    pub fn begin_call(&mut self, ud: AnyUserData, args: Vec<Value>) -> (r: Result<
        (Invocation, Vec<Value>),
        Error,
    >)
        requires
            old(self).wf(),
        ensures
            final(self).wf(),
            final(self).registry == old(self).registry,
            match meta_lookup(old(self).registry@, old(self).heap@, ud, MetaMethod::Call) {
                Err(e) => r == Err::<(Invocation, Vec<Value>), Error>(e) && final(self).heap@ == old(
                    self,
                ).heap@,
                Ok(inv) => match acquire_error(old(self).heap@, ud, inv.held) {
                    Some(e) => r == Err::<(Invocation, Vec<Value>), Error>(e) && final(self).heap@
                        == old(self).heap@,
                    None => r matches Ok((i, a)) && i == inv && a@ == seq![Value::UserData(ud)]
                        + args@ && final(self).heap@ == acquired(old(self).heap@, ud, inv.held),
                },
            },
    {
        match self.begin_meta(ud, MetaMethod::Call) {
            Ok(inv) => Ok((inv, method_args(ud, args))),
            Err(e) => Err(e),
        }
    }

    /// Resolves `ud:name(args)`: the named method, else the field that the `Index` hook
    /// gives, takes the borrow that the closure runs under, and gives its arguments: the
    /// handle, then `args`.
    pub fn begin_method_call(&mut self, ud: AnyUserData, name: &str, args: Vec<Value>) -> (r:
        Result<(Invocation, Vec<Value>), Error>)
        requires
            old(self).wf(),
        ensures
            final(self).wf(),
            final(self).registry == old(self).registry,
            match field_lookup(old(self).registry@, old(self).heap@, ud, name@) {
                Err(Some(e)) => r == Err::<(Invocation, Vec<Value>), Error>(e) && final(self).heap@
                    == old(self).heap@,
                Err(None) => r matches Err(Error::NoSuchField { name: n }) && n@ == name@
                    && final(self).heap@ == old(self).heap@,
                Ok(found) => {
                    let inv = Invocation { held: found.callback.access, ..found };
                    match acquire_error(old(self).heap@, ud, inv.held) {
                        Some(e) => r == Err::<(Invocation, Vec<Value>), Error>(e)
                            && final(self).heap@ == old(self).heap@,
                        None => r matches Ok((i, a)) && i == inv && a@ == seq![
                            Value::UserData(ud),
                        ] + args@ && final(self).heap@ == acquired(old(self).heap@, ud, inv.held),
                    }
                },
            },
    {
        let found = match self.lookup(ud, name) {
            Ok(f) => f,
            Err(e) => {
                return Err(e);
            },
        };
        let inv = Invocation { held: found.callback.access, ..found };
        match self.acquire(ud, inv.held) {
            Ok(()) => Ok((inv, method_args(ud, args))),
            Err(e) => Err(e),
        }
    }

    /// Resolves a field read on the handle without taking any borrow.
    pub fn lookup(&self, ud: AnyUserData, name: &str) -> (r: Result<Invocation, Error>)
        requires
            self.wf(),
        ensures
            match field_lookup(self.registry@, self.heap@, ud, name@) {
                Err(Some(e)) => r == Err::<Invocation, Error>(e),
                Err(None) => r matches Err(Error::NoSuchField { name: n }) && n@ == name@,
                Ok(inv) => r == Ok::<Invocation, Error>(inv),
            },
    {
        if let Some(e) = self.heap.check(ud) {
            return Err(e);
        }
        let tag = self.heap.tag(ud);
        match self.registry.table(tag) {
            None => Err(Error::NotUserData),
            Some(table) => match table.method(name) {
                Some(cb) => Ok(Invocation { callback: cb, via_index: false, held: Access::Owned }),
                None => match table.meta(MetaMethod::Index) {
                    Some(cb) => Ok(Invocation { callback: cb, via_index: true, held: cb.access }),
                    None => Err(Error::NoSuchField { name: name.to_owned() }),
                },
            },
        }
    }

    /// Completes a dispatch once its closure has run: gives back the borrow held for it
    /// and hands on the closure's result or error as it is.
    pub fn finish(&mut self, ud: AnyUserData, inv: Invocation, outcome: Result<Value, Error>) -> (r:
        Result<Value, Error>)
        requires
            old(self).wf(),
            holds(old(self).heap@, ud, inv.held),
        ensures
            final(self).wf(),
            final(self).registry == old(self).registry,
            r == outcome,
            final(self).heap@ == released(old(self).heap@, ud, inv.held),
    {
        self.release(ud, inv.held);
        outcome
    }

    /// Resolves the stringification of the handle: `Ok(None)` where its type has no
    /// `ToString` hook and the runtime's default text applies.
    pub fn begin_to_string(&mut self, ud: AnyUserData) -> (r: Result<Option<Invocation>, Error>)
        requires
            old(self).wf(),
        ensures
            final(self).wf(),
            final(self).registry == old(self).registry,
            match meta_lookup(old(self).registry@, old(self).heap@, ud, MetaMethod::ToString) {
                Err(Error::NoMetaMethod) => r == Ok::<Option<Invocation>, Error>(None)
                    && final(self).heap@ == old(self).heap@,
                Err(e) => r == Err::<Option<Invocation>, Error>(e) && final(self).heap@ == old(
                    self,
                ).heap@,
                Ok(inv) => match acquire_error(old(self).heap@, ud, inv.held) {
                    Some(e) => r == Err::<Option<Invocation>, Error>(e) && final(self).heap@ == old(
                        self,
                    ).heap@,
                    None => r == Ok::<Option<Invocation>, Error>(Some(inv)) && final(self).heap@
                        == acquired(old(self).heap@, ud, inv.held),
                },
            },
    {
        match self.begin_meta(ud, MetaMethod::ToString) {
            Ok(inv) => Ok(Some(inv)),
            Err(Error::NoMetaMethod) => Ok(None),
            Err(e) => Err(e),
        }
    }

    /// Picks the operand whose type supplies the binary metamethod `m` (the left one
    /// first) and takes the borrow that the closure runs under on it.
    pub fn begin_binary(&mut self, lhs: &Value, rhs: &Value, m: MetaMethod) -> (r: Result<
        (AnyUserData, Invocation),
        Error,
    >)
        requires
            old(self).wf(),
        ensures
            final(self).wf(),
            final(self).registry == old(self).registry,
            match binary_target(old(self).registry@, old(self).heap@, *lhs, *rhs, m) {
                None => r == Err::<(AnyUserData, Invocation), Error>(Error::NoMetaMethod)
                    && final(self).heap@ == old(self).heap@,
                Some(ud) => {
                    let inv = meta_lookup(old(self).registry@, old(self).heap@, ud, m)->Ok_0;
                    match acquire_error(old(self).heap@, ud, inv.held) {
                        Some(e) => r == Err::<(AnyUserData, Invocation), Error>(e)
                            && final(self).heap@ == old(self).heap@,
                        None => r == Ok::<(AnyUserData, Invocation), Error>((ud, inv))
                            && final(self).heap@ == acquired(
                            old(self).heap@,
                            ud,
                            inv.held,
                        ),
                    }
                },
            },
    {
        if let Value::UserData(u) = lhs {
            if self.has_meta(*u, m) {
                return match self.begin_meta(*u, m) {
                    Ok(inv) => Ok((*u, inv)),
                    Err(e) => Err(e),
                };
            }
        }
        if let Value::UserData(u) = rhs {
            if self.has_meta(*u, m) {
                return match self.begin_meta(*u, m) {
                    Ok(inv) => Ok((*u, inv)),
                    Err(e) => Err(e),
                };
            }
        }
        Err(Error::NoMetaMethod)
    }

    /// Whether the live handle's type supplies the metamethod `m`.
    pub fn has_meta(&self, ud: AnyUserData, m: MetaMethod) -> (r: bool)
        requires
            self.wf(),
        ensures
            r == (meta_lookup(self.registry@, self.heap@, ud, m) is Ok),
    {
        if self.heap.check(ud).is_some() {
            return false;
        }
        match self.registry.table(self.heap.tag(ud)) {
            None => false,
            Some(table) => table.meta(m).is_some(),
        }
    }
}

/// Reads a looked-up field as a function to call: a field that holds no function
/// is refused with its name and the kind of value it holds.
pub fn callable_field(name: &str, field: Result<Value, Error>) -> (r: Result<u64, Error>)
    ensures
        match field {
            Ok(Value::Function(f)) => r == Ok::<u64, Error>(f),
            Ok(v) => r matches Err(Error::NotCallable { name: n, kind: k }) && n@ == name@ && k@
                == spec_kind_name(v),
            Err(e) => r == Err::<u64, Error>(e),
        },
{
    match field {
        Ok(Value::Function(f)) => Ok(f),
        Ok(v) => Err(Error::NotCallable { name: name.to_owned(), kind: v.kind_name().to_owned() }),
        Err(e) => Err(e),
    }
}

/// The arguments of a method call: the handle itself, then the given ones.
pub fn method_args(ud: AnyUserData, args: Vec<Value>) -> (r: Vec<Value>)
    ensures
        r@ == seq![Value::UserData(ud)] + args@,
{
    let mut r: Vec<Value> = Vec::new();
    r.push(Value::UserData(ud));
    let mut rest = args;
    r.append(&mut rest);
    r
}

} // verus!
