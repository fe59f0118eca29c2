//! The object store and the handles it issues.
//!
//! A store is an append-only arena. A handle names the place of an object in
//! its store and carries the object, which never changes once inserted, so a
//! handle can be read without the store at hand. Two handles of one store
//! denote the same object exactly if their ids are equal. Handles can be
//! compared and hashed.

use vstd::prelude::*;

verus! {

/// A reference to an object of a [`Store`].
#[derive(Clone, Copy, Debug, PartialEq, Eq, Hash)]
pub struct Handle<T> {
    /// The identity of the object: its place in the store.
    pub id: usize,
    /// The object itself.
    pub object: T,
}

/// An append-only arena of objects of one type.
pub struct Store<T> {
    pub objects: Vec<T>,
}

impl<T> View for Store<T> {
    type V = Seq<T>;

    open spec fn view(&self) -> Seq<T> {
        self.objects@
    }
}

/// The handle that a store with the contents `store` issues for `object`.
pub open spec fn next_handle<T>(store: Seq<T>, object: T) -> Handle<T> {
    Handle { id: store.len() as usize, object }
}

/// Whether `store` has issued `handle`.
pub open spec fn holds<T>(store: Seq<T>, handle: Handle<T>) -> bool {
    handle.id < store.len() && store[handle.id as int] == handle.object
}

impl<T: Copy> Store<T> {
    /// An empty store.
    pub fn new() -> (r: Self)
        ensures
            r@ == Seq::<T>::empty(),
    {
        Store { objects: Vec::new() }
    }

    /// The number of objects in the store.
    pub fn len(&self) -> (r: usize)
        ensures
            r == self@.len(),
    {
        self.objects.len()
    }

    /// Puts `object` into the store and returns the handle to it. The handle
    /// differs in its id from every handle issued before.
    pub fn insert(&mut self, object: T) -> (r: Handle<T>)
        ensures
            r == next_handle(old(self)@, object),
            r.id == old(self)@.len(),
            final(self)@ == old(self)@.push(object),
            holds(final(self)@, r),
    {
        let id = self.objects.len();
        self.objects.push(object);
        Handle { id, object }
    }

    /// The handle to the object with the given id, if the store has issued it.
    pub fn get(&self, id: usize) -> (r: Option<Handle<T>>)
        ensures
            r == (if id < self@.len() {
                Some(Handle { id, object: self@[id as int] })
            } else {
                None
            }),
            r matches Some(handle) ==> holds(self@, handle),
    {
        if id < self.objects.len() {
            Some(Handle { id, object: self.objects[id] })
        } else {
            None
        }
    }
}

/// Handles of one store with the same id denote the same object.
pub proof fn handles_of_equal_id_are_equal<T>(store: Seq<T>, a: Handle<T>, b: Handle<T>)
    requires
        holds(store, a),
        holds(store, b),
        a.id == b.id,
    ensures
        a == b,
{
}

/// A handle stays valid when its store grows.
pub proof fn handle_survives_growth<T>(earlier: Seq<T>, later: Seq<T>, handle: Handle<T>)
    requires
        holds(earlier, handle),
        earlier.is_prefix_of(later),
    ensures
        holds(later, handle),
{
}

} // verus!
