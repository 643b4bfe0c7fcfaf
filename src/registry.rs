//! Append-only store of definitions, reachable by handle and by name.
use std::marker::PhantomData;
use vstd::prelude::*;

verus! {

/// Opaque, copyable reference to an entry of a [`Table`] of `T`.
///
/// Two handles are equal exactly when they index the same entry.
#[derive(Debug)]
pub struct Handle<T> {
    index: usize,
    marker: PhantomData<T>,
}

impl<T> Handle<T> {
    /// Position of the entry in its table.
    pub closed spec fn id(&self) -> nat {
        self.index as nat
    }

    fn new(index: usize) -> (r: Self)
        ensures
            r.id() == index,
    {
        Handle { index, marker: PhantomData }
    }

    /// Whether two handles refer to the same entry.
    pub fn same(&self, other: &Self) -> (r: bool)
        ensures
            r == (*self == *other),
            r == (self.id() == other.id()),
    {
        self.index == other.index
    }
}

impl<T> Clone for Handle<T> {
    fn clone(&self) -> (r: Self)
        ensures
            r == *self,
    {
        Handle { index: self.index, marker: PhantomData }
    }
}

impl<T> Copy for Handle<T> {
}

impl<T> PartialEq for Handle<T> {
    fn eq(&self, other: &Self) -> (r: bool) {
        self.index == other.index
    }
}

impl<T> vstd::std_specs::cmp::PartialEqSpecImpl for Handle<T> {
    open spec fn obeys_eq_spec() -> bool {
        true
    }

    open spec fn eq_spec(&self, other: &Self) -> bool {
        self.id() == other.id()
    }
}

impl<T> Eq for Handle<T> {
}

/// Registry of values of `T`: a dense sequence of entries, each bound to a name.
///
/// Names may repeat; looking a name up finds the entry inserted last under it.
pub struct Table<T> {
    list: Vec<T>,
    names: Vec<String>,
}

impl<T> Table<T> {
    /// The entries, in order of insertion.
    pub closed spec fn entries(&self) -> Seq<T> {
        self.list@
    }

    /// The name of each entry, in order of insertion.
    pub closed spec fn names(&self) -> Seq<Seq<char>> {
        self.names@.map_values(|s: String| s@)
    }

    pub closed spec fn wf(&self) -> bool {
        self.list.len() == self.names.len()
    }

    /// Whether `h` indexes an entry of this table.
    pub open spec fn has(&self, h: Handle<T>) -> bool {
        h.id() < self.entries().len()
    }

    /// Whether some entry carries the name `name`.
    pub open spec fn has_name(&self, name: Seq<char>) -> bool {
        exists|i: int| 0 <= i < self.names().len() && self.names()[i] == name
    }

    /// `h` indexes the entry inserted last under `name`.
    pub open spec fn latest_named(&self, name: Seq<char>, h: Handle<T>) -> bool {
        &&& self.has(h)
        &&& self.names()[h.id() as int] == name
        &&& forall|j: int| h.id() < j < self.names().len() ==> self.names()[j] != name
    }

    pub fn new() -> (r: Self)
        ensures
            r.wf(),
            r.entries() == Seq::<T>::empty(),
            r.names() == Seq::<Seq<char>>::empty(),
    {
        let r = Table { list: Vec::new(), names: Vec::new() };
        assert(r.names() =~= Seq::<Seq<char>>::empty());
        r
    }

    /// Appends `item` under `name` and returns the handle of the new entry.
    pub fn insert(&mut self, item: T, name: String) -> (r: Handle<T>)
        requires
            old(self).wf(),
            old(self).entries().len() < usize::MAX,
        ensures
            final(self).wf(),
            final(self).entries() == old(self).entries().push(item),
            final(self).names() == old(self).names().push(name@),
            r.id() == old(self).entries().len(),
    {
        self.list.push(item);
        self.names.push(name);
        let r = Handle::new(self.list.len() - 1);
        assert(self.names() =~= old(self).names().push(name@));
        r
    }

    /// The entry that `handle` indexes.
    pub fn get(&self, handle: Handle<T>) -> (r: &T)
        requires
            self.has(handle),
        ensures
            *r == self.entries()[handle.id() as int],
    {
        &self.list[handle.index]
    }

    /// The name bound to the entry that `handle` indexes.
    pub fn name(&self, handle: &Handle<T>) -> (r: &str)
        requires
            self.wf(),
            self.has(*handle),
        ensures
            r@ == self.names()[handle.id() as int],
    {
        self.names[handle.index].as_str()
    }

    /// The handle of the entry inserted last under `name`.
    pub fn get_handle_from_name(&self, name: &str) -> (r: Handle<T>)
        requires
            self.wf(),
            self.has_name(name@),
        ensures
            self.latest_named(name@, r),
    {
        let key = name.to_owned();
        let mut i: usize = self.names.len();
        while i > 0
            invariant
                self.wf(),
                key@ == name@,
                self.has_name(name@),
                i <= self.names().len(),
                forall|j: int| i <= j < self.names().len() ==> self.names()[j] != name@,
            decreases i,
        {
            if self.names[i - 1] == key {
                return Handle::new(i - 1);
            }
            i = i - 1;
        }
        proof {
            let k = choose|k: int| 0 <= k < self.names().len() && self.names()[k] == name@;
            assert(self.names()[k] != name@);
        }
        Handle::new(0)
    }

    /// The entry inserted last under `name`, with its handle.
    pub fn get_ref_and_handle_from_name(&self, name: &str) -> (r: (&T, Handle<T>))
        requires
            self.wf(),
            self.has_name(name@),
        ensures
            self.latest_named(name@, r.1),
            *r.0 == self.entries()[r.1.id() as int],
    {
        let handle = self.get_handle_from_name(name);
        (self.get(handle), handle)
    }
}

} // verus!
