//! The handle on one named collection.

use crate::engine::{engine_tree_name, namespace_name};
use std::marker::PhantomData;
use vstd::prelude::*;

verus! {

/// A named collection of the store, seen as a map from keys of type `K` to
/// values of type `V`.
///
/// It is the engine's keyspace handle with the two types attached. What
/// the types mean for the stored bytes is for the layer that reads and
/// writes entries; nothing here checks them against what the collection
/// already holds.
pub struct DiskMap<K, V> {
    inner: sled::Tree,
    typed: PhantomData<(K, V)>,
}

impl<K, V> DiskMap<K, V> {
    /// The keyspace handle inside.
    pub closed spec fn namespace(&self) -> sled::Tree {
        self.inner
    }

    /// The name this collection is bound to.
    pub open spec fn spec_name(&self) -> Seq<u8> {
        namespace_name(self.namespace())
    }

    /// Attaches the key and value types to a keyspace handle.
    pub fn new(tree: sled::Tree) -> (map: Self)
        ensures
            map.namespace() == tree,
    {
        DiskMap { inner: tree, typed: PhantomData }
    }

    /// The name this collection is bound to.
    pub fn name(&self) -> (name: Vec<u8>)
        ensures
            name@ == self.spec_name(),
    {
        engine_tree_name(&self.inner)
    }

    /// The keyspace handle, for reading and writing entries.
    pub fn as_tree(&self) -> (tree: &sled::Tree)
        ensures
            *tree == self.namespace(),
    {
        &self.inner
    }

    /// Gives up the types and returns the keyspace handle.
    pub fn into_tree(self) -> (tree: sled::Tree)
        ensures
            tree == self.namespace(),
    {
        self.inner
    }
}

} // verus!
