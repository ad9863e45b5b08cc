//! The object catalog: which handle stands for which object of the HSM.

use vstd::prelude::*;
use crate::alias::text_equal;
use crate::object::{Object, ObjectKind};

verus! {

/// One handle and the object it stands for.
#[derive(Clone, Debug)]
pub struct Entry {
    pub handle: u64,
    pub object: Object,
}

/// The catalog. Handles are given out in rising order and never a second
/// time; an object keeps its handle for as long as it is in the catalog.
#[derive(Clone, Debug)]
pub struct Db {
    entries: Vec<Entry>,
    next_handle: u64,
}

/// The catalog as a mathematical value.
pub struct DbView {
    /// The live handles and their objects.
    pub objects: Map<u64, Object>,
    /// The handle that the next new object gets.
    pub next: u64,
}

/// Whether `object` is the object `id` of kind `kind`.
pub open spec fn is_named(object: Object, id: Seq<char>, kind: ObjectKind) -> bool {
    object.id@ == id && object.kind == kind
}

impl DbView {
    /// Handles are positive and below `next`, and no two of them stand for
    /// the same identifier and kind.
    pub open spec fn wf(self) -> bool {
        &&& self.next >= 1
        &&& forall|h: u64| #[trigger] self.objects.contains_key(h) ==> 0 < h < self.next
        &&& forall|h1: u64, h2: u64|
            #![trigger self.objects[h1], self.objects[h2]]
            self.objects.contains_key(h1) && self.objects.contains_key(h2) && is_named(
                self.objects[h1],
                self.objects[h2].id@,
                self.objects[h2].kind,
            ) ==> h1 == h2
    }

    /// Whether `handle` stands for the object `id` of kind `kind`.
    pub open spec fn names(self, handle: u64, id: Seq<char>, kind: ObjectKind) -> bool {
        self.objects.contains_key(handle) && is_named(self.objects[handle], id, kind)
    }

    /// The handle of the object `id` of kind `kind`, if it has one.
    pub open spec fn find(self, id: Seq<char>, kind: ObjectKind) -> Option<u64> {
        if exists|h: u64| self.names(h, id, kind) {
            Some(choose|h: u64| self.names(h, id, kind))
        } else {
            None
        }
    }

    /// The handle that `object` has once it is in the catalog: the one it
    /// has already, else the next new one; none where the handles have run
    /// out.
    pub open spec fn handle_for(self, object: Object) -> Option<u64> {
        match self.find(object.id@, object.kind) {
            Some(h) => Some(h),
            None => if self.next == u64::MAX {
                None
            } else {
                Some(self.next)
            },
        }
    }

    /// The catalog after `object` has been put in. A known object has its
    /// cached metadata replaced; without a handle to give, nothing changes.
    pub open spec fn add(self, object: Object) -> DbView {
        match self.find(object.id@, object.kind) {
            Some(h) => DbView { objects: self.objects.insert(h, object), next: self.next },
            None => if self.next == u64::MAX {
                self
            } else {
                DbView {
                    objects: self.objects.insert(self.next, object),
                    next: (self.next + 1) as u64,
                }
            },
        }
    }

    /// The catalog without `handle`.
    pub open spec fn remove(self, handle: u64) -> DbView {
        DbView { objects: self.objects.remove(handle), next: self.next }
    }

    /// The identifier and kind that `handle` stands for.
    pub open spec fn identity(self, handle: u64) -> Option<(Seq<char>, ObjectKind)> {
        if self.objects.contains_key(handle) {
            Some((self.objects[handle].id@, self.objects[handle].kind))
        } else {
            None
        }
    }

    /// Every handle of `self` is still live in `later` and stands for the
    /// same identifier and kind there.
    pub open spec fn stable_in(self, later: DbView) -> bool {
        forall|h: u64| #[trigger]
            self.objects.contains_key(h) ==> later.identity(h) == self.identity(h)
    }
}

/// Putting an object in keeps the catalog well-formed, moves no handle to
/// another identifier or kind, and leaves the object under the handle given.
pub proof fn add_is_stable(view: DbView, object: Object)
    requires
        view.wf(),
    ensures
        view.add(object).wf(),
        view.stable_in(view.add(object)),
        view.next <= view.add(object).next,
        view.handle_for(object) matches Some(h) ==> view.add(object).objects.contains_key(h)
            && view.add(object).objects[h] == object,
{
    let after = view.add(object);
    match view.find(object.id@, object.kind) {
        Some(h) => {
            assert(view.names(h, object.id@, object.kind));
            assert forall|h1: u64, h2: u64|
                after.objects.contains_key(h1) && after.objects.contains_key(h2) && is_named(
                    #[trigger] after.objects[h1],
                    (#[trigger] after.objects[h2]).id@,
                    after.objects[h2].kind,
                ) implies h1 == h2 by {
                if h1 == h && h2 != h {
                    assert(is_named(view.objects[h1], view.objects[h2].id@, view.objects[h2].kind));
                } else if h2 == h && h1 != h {
                    assert(is_named(view.objects[h1], view.objects[h2].id@, view.objects[h2].kind));
                } else if h1 != h && h2 != h {
                    assert(is_named(view.objects[h1], view.objects[h2].id@, view.objects[h2].kind));
                }
            }
        },
        None => {
            if view.next != u64::MAX {
                assert forall|h1: u64, h2: u64|
                    after.objects.contains_key(h1) && after.objects.contains_key(h2) && is_named(
                        #[trigger] after.objects[h1],
                        (#[trigger] after.objects[h2]).id@,
                        after.objects[h2].kind,
                    ) implies h1 == h2 by {
                    if h1 == view.next && h2 != view.next {
                        assert(view.names(h2, object.id@, object.kind));
                    } else if h2 == view.next && h1 != view.next {
                        assert(view.names(h1, object.id@, object.kind));
                    } else if h1 != view.next && h2 != view.next {
                        assert(is_named(
                            view.objects[h1],
                            view.objects[h2].id@,
                            view.objects[h2].kind,
                        ));
                    }
                }
            }
        },
    }
}

/// Stability of handles carries over any number of steps.
pub proof fn stable_in_is_transitive(a: DbView, b: DbView, c: DbView)
    requires
        a.stable_in(b),
        b.stable_in(c),
    ensures
        a.stable_in(c),
{
    assert forall|h: u64| #[trigger] a.objects.contains_key(h) implies c.identity(h) == a.identity(
        h,
    ) by {
        assert(b.identity(h) == a.identity(h));
        assert(b.objects.contains_key(h));
    }
}

/// A handle that has been taken out is never given out again: a later
/// addition hands out a handle that is live or new. Taking a handle out
/// leaves every other handle with its identifier and kind.
pub proof fn removed_handle_stays_out(view: DbView, handle: u64, object: Object)
    requires
        view.wf(),
        view.objects.contains_key(handle),
    ensures
        view.remove(handle).wf(),
        view.remove(handle).handle_for(object) != Some(handle),
        !view.remove(handle).add(object).objects.contains_key(handle),
        forall|other: u64|
            other != handle ==> #[trigger] view.remove(handle).identity(other) == view.identity(
                other,
            ),
{
    let without = view.remove(handle);
    assert(without.wf()) by {
        assert forall|h1: u64, h2: u64|
            without.objects.contains_key(h1) && without.objects.contains_key(h2) && is_named(
                #[trigger] without.objects[h1],
                (#[trigger] without.objects[h2]).id@,
                without.objects[h2].kind,
            ) implies h1 == h2 by {
            assert(is_named(view.objects[h1], view.objects[h2].id@, view.objects[h2].kind));
        }
    }
    match without.find(object.id@, object.kind) {
        Some(h) => {
            assert(without.names(h, object.id@, object.kind));
        },
        None => {},
    }
}

impl View for Db {
    type V = DbView;

    closed spec fn view(&self) -> DbView {
        DbView {
            objects: Map::new(
                |h: u64| self.position(h) is Some,
                |h: u64| self.entries@[self.position(h).unwrap()].object,
            ),
            next: self.next_handle,
        }
    }
}

impl Db {
    /// No handle occurs twice, and the view is well-formed.
    pub closed spec fn wf(&self) -> bool {
        &&& forall|i: int, j: int|
            0 <= i < j < self.entries@.len() ==> (#[trigger] self.entries@[i]).handle
                != (#[trigger] self.entries@[j]).handle
        &&& self@.wf()
    }

    closed spec fn position(&self, handle: u64) -> Option<int> {
        if exists|i: int| 0 <= i < self.entries@.len() && self.entries@[i].handle == handle {
            Some(choose|i: int| 0 <= i < self.entries@.len() && self.entries@[i].handle == handle)
        } else {
            None
        }
    }

    closed spec fn distinct(&self) -> bool {
        forall|i: int, j: int|
            0 <= i < j < self.entries@.len() ==> (#[trigger] self.entries@[i]).handle
                != (#[trigger] self.entries@[j]).handle
    }

    proof fn position_at(&self, i: int)
        requires
            self.distinct(),
            0 <= i < self.entries@.len(),
        ensures
            self.position(self.entries@[i].handle) == Some(i),
            self@.objects.contains_key(self.entries@[i].handle),
            self@.objects[self.entries@[i].handle] == self.entries@[i].object,
    {
        let handle = self.entries@[i].handle;
        let j = choose|j: int| 0 <= j < self.entries@.len() && self.entries@[j].handle == handle;
        assert(0 <= j < self.entries@.len() && self.entries@[j].handle == handle);
        if j < i {
            assert(self.entries@[j].handle != self.entries@[i].handle);
        } else if i < j {
            assert(self.entries@[i].handle != self.entries@[j].handle);
        }
    }

    proof fn position_of_key(&self, handle: u64)
        requires
            self@.objects.contains_key(handle),
        ensures
            self.position(handle) matches Some(i) && 0 <= i < self.entries@.len()
                && self.entries@[i].handle == handle && self@.objects[handle]
                == self.entries@[i].object,
    {
    }

    /// What a well-formed catalog holds is well-formed as a value.
    pub proof fn wf_view(&self)
        requires
            self.wf(),
        ensures
            self@.wf(),
    {
    }

    /// The empty catalog. Its first handle is 1.
    pub fn new() -> (out: Db)
        ensures
            out.wf(),
            out@.objects == Map::<u64, Object>::empty(),
            out@.next == 1,
    {
        let out = Db { entries: Vec::new(), next_handle: 1 };
        assert(out@.objects =~= Map::<u64, Object>::empty());
        out
    }

    fn index_of(&self, handle: u64) -> (out: Option<usize>)
        requires
            self.wf(),
        ensures
            match out {
                Some(i) => i < self.entries@.len() && self.entries@[i as int].handle == handle
                    && self@.objects.contains_key(handle) && self@.objects[handle]
                    == self.entries@[i as int].object,
                None => !self@.objects.contains_key(handle),
            },
    {
        let mut i: usize = 0;
        while i < self.entries.len()
            invariant
                self.wf(),
                i <= self.entries@.len(),
                forall|j: int| 0 <= j < i ==> (#[trigger] self.entries@[j]).handle != handle,
            decreases self.entries@.len() - i,
        {
            if self.entries[i].handle == handle {
                proof {
                    self.position_at(i as int);
                }
                return Some(i);
            }
            i += 1;
        }
        proof {
            if self@.objects.contains_key(handle) {
                self.position_of_key(handle);
            }
        }
        None
    }

    fn index_of_named(&self, id: &str, kind: ObjectKind) -> (out: Option<usize>)
        requires
            self.wf(),
        ensures
            match out {
                Some(i) => i < self.entries@.len() && self@.find(id@, kind) == Some(
                    self.entries@[i as int].handle,
                ),
                None => self@.find(id@, kind) is None,
            },
    {
        let mut i: usize = 0;
        while i < self.entries.len()
            invariant
                self.wf(),
                i <= self.entries@.len(),
                forall|j: int|
                    0 <= j < i ==> !is_named((#[trigger] self.entries@[j]).object, id@, kind),
            decreases self.entries@.len() - i,
        {
            let entry = &self.entries[i];
            if entry.object.kind == kind && text_equal(entry.object.id.as_str(), id) {
                proof {
                    self.position_at(i as int);
                    let h = entry.handle;
                    assert(self@.names(h, id@, kind));
                    let found = self@.find(id@, kind).unwrap();
                    assert(self@.names(found, id@, kind));
                    assert(is_named(
                        self@.objects[found],
                        self@.objects[h].id@,
                        self@.objects[h].kind,
                    ));
                }
                return Some(i);
            }
            i += 1;
        }
        proof {
            if self@.find(id@, kind) is Some {
                let h = self@.find(id@, kind).unwrap();
                assert(self@.names(h, id@, kind));
                self.position_of_key(h);
            }
        }
        None
    }

    /// The object that `handle` stands for.
    pub fn get_object(&self, handle: u64) -> (out: Option<&Object>)
        requires
            self.wf(),
        ensures
            match out {
                Some(object) => self@.objects.contains_key(handle) && self@.objects[handle]
                    == *object,
                None => !self@.objects.contains_key(handle),
            },
    {
        match self.index_of(handle) {
            Some(i) => Some(&self.entries[i].object),
            None => None,
        }
    }

    /// The handle of the object `id` of kind `kind`.
    pub fn find_handle(&self, id: &str, kind: ObjectKind) -> (out: Option<u64>)
        requires
            self.wf(),
        ensures
            out == self@.find(id@, kind),
    {
        match self.index_of_named(id, kind) {
            Some(i) => Some(self.entries[i].handle),
            None => None,
        }
    }

    /// Puts `object` into the catalog and returns its handle. An object that
    /// is known by identifier and kind keeps the handle it has, and its
    /// cached metadata is replaced. Returns nothing, and changes nothing,
    /// where a new handle is needed and none is left.
    pub fn add_object(&mut self, object: Object) -> (out: Option<u64>)
        requires
            old(self).wf(),
        ensures
            final(self).wf(),
            final(self)@ == old(self)@.add(object),
            out == old(self)@.handle_for(object),
    {
        let ghost before = *self;
        let ghost target = before@.add(object);
        proof {
            add_is_stable(before@, object);
        }
        match self.index_of_named(object.id.as_str(), object.kind) {
            Some(i) => {
                let handle: u64 = self.entries[i].handle;
                self.entries.set(i, Entry { handle, object });
                proof {
                    assert(self.distinct());
                    assert forall|h: u64| self.position(h) == before.position(h) by {
                        if before.position(h) is Some {
                            let k = before.position(h).unwrap();
                            assert(self.entries@[k].handle == h);
                            self.position_at(k);
                        } else if self.position(h) is Some {
                            let k = self.position(h).unwrap();
                            assert(before.entries@[k].handle == h);
                        }
                    }
                    before.position_at(i as int);
                    self.position_at(i as int);
                    assert(self@.objects =~= target.objects);
                }
                Some(handle)
            },
            None => {
                if self.next_handle == u64::MAX {
                    None
                } else {
                    let handle: u64 = self.next_handle;
                    proof {
                        assert(!before@.objects.contains_key(handle));
                        assert forall|j: int| 0 <= j < before.entries@.len() implies (
                        #[trigger] before.entries@[j]).handle != handle by {
                            before.position_at(j);
                        }
                    }
                    self.entries.push(Entry { handle, object });
                    self.next_handle = handle + 1;
                    proof {
                        let last = before.entries@.len() as int;
                        assert(self.distinct());
                        self.position_at(last);
                        assert forall|h: u64| h != handle implies self.position(h)
                            == before.position(h) by {
                            if before.position(h) is Some {
                                let k = before.position(h).unwrap();
                                assert(self.entries@[k].handle == h);
                                self.position_at(k);
                            } else if self.position(h) is Some {
                                let k = self.position(h).unwrap();
                                assert(k != last);
                                assert(before.entries@[k].handle == h);
                            }
                        }
                        assert(self@.objects =~= target.objects);
                    }
                    Some(handle)
                }
            },
        }
    }

    /// Takes `handle` out of the catalog and returns the object it stood
    /// for. An unknown handle changes nothing.
    pub fn remove_object(&mut self, handle: u64) -> (out: Option<Object>)
        requires
            old(self).wf(),
        ensures
            final(self).wf(),
            final(self)@ == old(self)@.remove(handle),
            match out {
                Some(object) => old(self)@.objects.contains_key(handle) && old(self)@.objects[handle]
                    == object,
                None => !old(self)@.objects.contains_key(handle),
            },
    {
        let ghost before = *self;
        match self.index_of(handle) {
            Some(i) => {
                let entry = self.entries.remove(i);
                proof {
                    removed_handle_stays_out(before@, handle, entry.object);
                    assert(self.distinct()) by {
                        assert forall|a: int, b: int| 0 <= a < b < self.entries@.len() implies (
                        #[trigger] self.entries@[a]).handle != (
                        #[trigger] self.entries@[b]).handle by {
                            let a0 = if a < i { a } else { a + 1 };
                            let b0 = if b < i { b } else { b + 1 };
                            assert(before.entries@[a0].handle != before.entries@[b0].handle);
                        }
                    }
                    assert forall|h: u64| h != handle implies (self.position(h) is Some)
                        == (before.position(h) is Some) && (self.position(h) is Some
                        ==> self.entries@[self.position(h).unwrap()].object
                        == before.entries@[before.position(h).unwrap()].object) by {
                        if before.position(h) is Some {
                            let k = before.position(h).unwrap();
                            let k1 = if k < i { k } else { k - 1 };
                            assert(self.entries@[k1].handle == h);
                            self.position_at(k1);
                        } else if self.position(h) is Some {
                            let k = self.position(h).unwrap();
                            let k0 = if k < i { k } else { k + 1 };
                            assert(before.entries@[k0].handle == h);
                        }
                    }
                    assert(self.position(handle) is None) by {
                        if self.position(handle) is Some {
                            let k = self.position(handle).unwrap();
                            let k0 = if k < i { k } else { k + 1 };
                            assert(before.entries@[k0].handle == handle);
                            assert(before.entries@[i as int].handle == handle);
                        }
                    }
                    assert(self@.objects =~= before@.remove(handle).objects);
                }
                Some(entry.object)
            },
            None => {
                proof {
                    assert(self@.objects =~= before@.remove(handle).objects);
                }
                None
            },
        }
    }
}

} // verus!
