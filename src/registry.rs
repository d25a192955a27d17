use vstd::prelude::*;

verus! {

/// Fixed metamethod slots that the script runtime's value operations recognise.
#[derive(PartialEq, Eq, Structural, Clone, Copy, Debug)]
pub enum MetaMethod {
    Index,
    NewIndex,
    Add,
    Sub,
    Mul,
    ToString,
    Eq,
    Lt,
    Le,
    Call,
    Gc,
}

/// Number of metamethod slots.
pub const META_SLOTS: usize = 11;

/// Position of a metamethod in a table's slot vector.
pub open spec fn spec_slot(m: MetaMethod) -> nat {
    match m {
        MetaMethod::Index => 0,
        MetaMethod::NewIndex => 1,
        MetaMethod::Add => 2,
        MetaMethod::Sub => 3,
        MetaMethod::Mul => 4,
        MetaMethod::ToString => 5,
        MetaMethod::Eq => 6,
        MetaMethod::Lt => 7,
        MetaMethod::Le => 8,
        MetaMethod::Call => 9,
        MetaMethod::Gc => 10,
    }
}

impl MetaMethod {
    pub fn slot(&self) -> (r: usize)
        ensures
            r == spec_slot(*self),
            r < META_SLOTS,
    {
        match self {
            MetaMethod::Index => 0,
            MetaMethod::NewIndex => 1,
            MetaMethod::Add => 2,
            MetaMethod::Sub => 3,
            MetaMethod::Mul => 4,
            MetaMethod::ToString => 5,
            MetaMethod::Eq => 6,
            MetaMethod::Lt => 7,
            MetaMethod::Le => 8,
            MetaMethod::Call => 9,
            MetaMethod::Gc => 10,
        }
    }
}

/// How a native closure reaches the payload.
#[derive(PartialEq, Eq, Structural, Clone, Copy, Debug)]
pub enum Access {
    /// A read method: runs under a shared borrow.
    Shared,
    /// A mutating method: runs under the exclusive borrow.
    Exclusive,
    /// A function: takes its marshalled arguments only, never the payload.
    Owned,
}

/// A registered native closure, by its id, with the borrow it runs under.
#[derive(PartialEq, Eq, Structural, Clone, Copy, Debug)]
pub struct Callback {
    pub closure: u64,
    pub access: Access,
}

/// Named methods and metamethod slots of one native type.
pub struct DispatchTable {
    methods: Vec<(String, Callback)>,
    meta: Vec<Option<Callback>>,
}

/// A method map from its entries: a later entry for a name replaces an earlier one.
pub open spec fn methods_map(s: Seq<(String, Callback)>) -> Map<Seq<char>, Callback>
    decreases s.len(),
{
    if s.len() == 0 {
        Map::empty()
    } else {
        methods_map(s.drop_last()).insert(s.last().0@, s.last().1)
    }
}

/// What a table holds: its named methods and its metamethod slots.
pub struct TableView {
    pub methods: Map<Seq<char>, Callback>,
    pub meta: Map<MetaMethod, Callback>,
}

proof fn lemma_methods_map_skip(s: Seq<(String, Callback)>, i: int, name: Seq<char>)
    requires
        0 < i <= s.len(),
        s[i - 1].0@ != name,
    ensures
        methods_map(s.take(i)).contains_key(name) == methods_map(s.take(i - 1)).contains_key(name),
        methods_map(s.take(i)).contains_key(name) ==> methods_map(s.take(i))[name]
            == methods_map(s.take(i - 1))[name],
{
    assert(s.take(i).drop_last() =~= s.take(i - 1));
}

impl View for DispatchTable {
    type V = TableView;

    closed spec fn view(&self) -> TableView {
        TableView {
            methods: methods_map(self.methods@),
            meta: Map::new(
                |m: MetaMethod| self.meta@[spec_slot(m) as int] is Some,
                |m: MetaMethod| self.meta@[spec_slot(m) as int]->Some_0,
            ),
        }
    }
}

impl DispatchTable {
    pub closed spec fn wf(&self) -> bool {
        self.meta@.len() == META_SLOTS
    }

    /// A table with no method and no metamethod.
    pub fn new() -> (r: DispatchTable)
        ensures
            r.wf(),
            r@.methods == Map::<Seq<char>, Callback>::empty(),
            r@.meta == Map::<MetaMethod, Callback>::empty(),
    {
        let mut meta: Vec<Option<Callback>> = Vec::new();
        let mut i: usize = 0;
        while i < META_SLOTS
            invariant
                i <= META_SLOTS,
                meta@.len() == i,
                forall|j: int| 0 <= j < i ==> meta@[j] is None,
            decreases META_SLOTS - i,
        {
            meta.push(None);
            i = i + 1;
        }
        let r = DispatchTable { methods: Vec::new(), meta };
        proof {
            assert(r@.meta =~= Map::<MetaMethod, Callback>::empty());
        }
        r
    }

    /// Declares the named method; a later declaration of a name replaces the earlier one.
    pub fn add(&mut self, name: &str, callback: Callback)
        requires
            old(self).wf(),
        ensures
            final(self).wf(),
            final(self)@.methods == old(self)@.methods.insert(name@, callback),
            final(self)@.meta == old(self)@.meta,
    {
        self.methods.push((name.to_owned(), callback));
        proof {
            assert(self.methods@.drop_last() =~= old(self).methods@);
        }
    }

    /// Declares a read method, run under a shared borrow.
    pub fn add_method(&mut self, name: &str, closure: u64)
        requires
            old(self).wf(),
        ensures
            final(self).wf(),
            final(self)@.methods == old(self)@.methods.insert(
                name@,
                Callback { closure, access: Access::Shared },
            ),
            final(self)@.meta == old(self)@.meta,
    {
        self.add(name, Callback { closure, access: Access::Shared });
    }

    /// Declares a mutating method, run under the exclusive borrow.
    pub fn add_method_mut(&mut self, name: &str, closure: u64)
        requires
            old(self).wf(),
        ensures
            final(self).wf(),
            final(self)@.methods == old(self)@.methods.insert(
                name@,
                Callback { closure, access: Access::Exclusive },
            ),
            final(self)@.meta == old(self)@.meta,
    {
        self.add(name, Callback { closure, access: Access::Exclusive });
    }

    /// Declares a function, which takes its arguments only.
    pub fn add_function(&mut self, name: &str, closure: u64)
        requires
            old(self).wf(),
        ensures
            final(self).wf(),
            final(self)@.methods == old(self)@.methods.insert(
                name@,
                Callback { closure, access: Access::Owned },
            ),
            final(self)@.meta == old(self)@.meta,
    {
        self.add(name, Callback { closure, access: Access::Owned });
    }

    /// Fills a metamethod slot; a later declaration replaces the earlier one.
    pub fn add_meta(&mut self, m: MetaMethod, callback: Callback)
        requires
            old(self).wf(),
        ensures
            final(self).wf(),
            final(self)@.methods == old(self)@.methods,
            final(self)@.meta == old(self)@.meta.insert(m, callback),
    {
        let i = m.slot();
        self.meta.set(i, Some(callback));
        proof {
            assert forall|k: MetaMethod| spec_slot(k) == spec_slot(m) implies k == m by {}
            assert(self@.meta =~= old(self)@.meta.insert(m, callback));
        }
    }

    /// Declares a metamethod that borrows the payload shared.
    pub fn add_meta_method(&mut self, m: MetaMethod, closure: u64)
        requires
            old(self).wf(),
        ensures
            final(self).wf(),
            final(self)@.methods == old(self)@.methods,
            final(self)@.meta == old(self)@.meta.insert(
                m,
                Callback { closure, access: Access::Shared },
            ),
    {
        self.add_meta(m, Callback { closure, access: Access::Shared });
    }

    /// Declares a metamethod that receives its raw operands and never the payload.
    pub fn add_meta_function(&mut self, m: MetaMethod, closure: u64)
        requires
            old(self).wf(),
        ensures
            final(self).wf(),
            final(self)@.methods == old(self)@.methods,
            final(self)@.meta == old(self)@.meta.insert(
                m,
                Callback { closure, access: Access::Owned },
            ),
    {
        self.add_meta(m, Callback { closure, access: Access::Owned });
    }

    /// The named method, if declared.
    pub fn method(&self, name: &str) -> (r: Option<Callback>)
        ensures
            r == (if self@.methods.contains_key(name@) {
                Some(self@.methods[name@])
            } else {
                None
            }),
    {
        let key = name.to_owned();
        let mut i = self.methods.len();
        proof {
            assert(self.methods@.take(i as int) =~= self.methods@);
        }
        while i > 0
            invariant
                i <= self.methods@.len(),
                key@ == name@,
                methods_map(self.methods@).contains_key(name@) == methods_map(
                    self.methods@.take(i as int),
                ).contains_key(name@),
                methods_map(self.methods@).contains_key(name@) ==> methods_map(self.methods@)[name@]
                    == methods_map(self.methods@.take(i as int))[name@],
            decreases i,
        {
            let entry = &self.methods[i - 1];
            if entry.0 == key {
                proof {
                    assert(self.methods@.take(i as int).drop_last() =~= self.methods@.take(
                        i - 1,
                    ));
                }
                return Some(entry.1);
            }
            proof {
                lemma_methods_map_skip(self.methods@, i as int, name@);
            }
            i = i - 1;
        }
        proof {
            assert(self.methods@.take(0) =~= Seq::<(String, Callback)>::empty());
        }
        None
    }

    /// The metamethod in slot `m`, if declared.
    pub fn meta(&self, m: MetaMethod) -> (r: Option<Callback>)
        requires
            self.wf(),
        ensures
            r == (if self@.meta.contains_key(m) {
                Some(self@.meta[m])
            } else {
                None
            }),
    {
        self.meta[m.slot()]
    }
}

/// A registry map from its entries.
pub open spec fn registry_map(s: Seq<(u64, DispatchTable)>) -> Map<u64, TableView>
    decreases s.len(),
{
    if s.len() == 0 {
        Map::empty()
    } else {
        registry_map(s.drop_last()).insert(s.last().0, s.last().1@)
    }
}

/// The dispatch tables of the native types, by type tag; each is fixed once registered.
pub struct Registry {
    tables: Vec<(u64, DispatchTable)>,
}

impl View for Registry {
    type V = Map<u64, TableView>;

    closed spec fn view(&self) -> Map<u64, TableView> {
        registry_map(self.tables@)
    }
}

impl Registry {
    pub closed spec fn wf(&self) -> bool {
        forall|i: int| 0 <= i < self.tables@.len() ==> (#[trigger] self.tables@[i]).1.wf()
    }

    pub fn new() -> (r: Registry)
        ensures
            r.wf(),
            r@ == Map::<u64, TableView>::empty(),
    {
        Registry { tables: Vec::new() }
    }

    /// Whether the type `tag` has a dispatch table.
    pub fn is_registered(&self, tag: u64) -> (r: bool)
        ensures
            r == self@.contains_key(tag),
    {
        let mut i = self.tables.len();
        proof {
            assert(self.tables@.take(i as int) =~= self.tables@);
        }
        while i > 0
            invariant
                i <= self.tables@.len(),
                self@.contains_key(tag) == registry_map(self.tables@.take(i as int)).contains_key(
                    tag,
                ),
            decreases i,
        {
            proof {
                assert(self.tables@.take(i as int).drop_last() =~= self.tables@.take(i - 1));
            }
            if self.tables[i - 1].0 == tag {
                return true;
            }
            i = i - 1;
        }
        proof {
            assert(self.tables@.take(0) =~= Seq::<(u64, DispatchTable)>::empty());
        }
        false
    }

    /// Installs the dispatch table of the type `tag`, which has none yet.
    pub fn register(&mut self, tag: u64, table: DispatchTable)
        requires
            old(self).wf(),
            table.wf(),
            !old(self)@.contains_key(tag),
        ensures
            final(self).wf(),
            final(self)@ == old(self)@.insert(tag, table@),
    {
        self.tables.push((tag, table));
        proof {
            assert(self.tables@.drop_last() =~= old(self).tables@);
        }
    }

    /// The dispatch table of the type `tag`, if registered.
    pub fn table(&self, tag: u64) -> (r: Option<&DispatchTable>)
        requires
            self.wf(),
        ensures
            r is Some <==> self@.contains_key(tag),
            r matches Some(t) ==> t@ == self@[tag] && t.wf(),
    {
        let mut i = self.tables.len();
        proof {
            assert(self.tables@.take(i as int) =~= self.tables@);
        }
        while i > 0
            invariant
                i <= self.tables@.len(),
                self.wf(),
                self@.contains_key(tag) == registry_map(self.tables@.take(i as int)).contains_key(
                    tag,
                ),
                self@.contains_key(tag) ==> self@[tag] == registry_map(
                    self.tables@.take(i as int),
                )[tag],
            decreases i,
        {
            proof {
                assert(self.tables@.take(i as int).drop_last() =~= self.tables@.take(i - 1));
            }
            if self.tables[i - 1].0 == tag {
                return Some(&self.tables[i - 1].1);
            }
            i = i - 1;
        }
        proof {
            assert(self.tables@.take(0) =~= Seq::<(u64, DispatchTable)>::empty());
        }
        None
    }
}

} // verus!
