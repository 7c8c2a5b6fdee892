//! The store manager.

use crate::collection::DiskMap;
use crate::config::StoreConfig;
use crate::engine::{
    default_namespace, engine_default_tree, engine_drop_tree, engine_flush, engine_namespaces,
    engine_open, engine_open_tree, engine_read_settings, engine_settings, engine_size_on_disk,
    engine_tree_names, namespace_name,
};
use crate::error::{drop_outcome, io_outcome, DropOutcome, StoreError};
use crate::model::{drop_answers, dropped, encoded, listing, opened};
use crate::names::{
    collection_names, decode_names, is_collection_name, names_of, texts_of, visible_names,
};
use std::path::Path;
use vstd::prelude::*;
use vstd::string::StringSliceAdditionalSpecFns;
use vstd::utf8::*;

verus! {

/// One persistent store at one directory, holding named collections.
///
/// The store owns the engine's handle alone. When it is released it
/// flushes once more; a failure of that flush is not reported, since
/// nobody is left to hear of it.
pub struct Database {
    inner: sled::Db,
}

impl Database {
    /// The names of the collections that the store holds: the keyspaces of
    /// the engine but for the one it keeps for itself.
    pub closed spec fn names(&self) -> Set<Seq<u8>> {
        engine_namespaces(self.inner).remove(default_namespace())
    }

    /// The configuration that the store runs under.
    pub closed spec fn spec_config(&self) -> StoreConfig {
        StoreConfig {
            compression: engine_settings(self.inner).0,
            flush_every_ms: engine_settings(self.inner).1,
        }
    }

    /// The engine's own keyspace is never among the collections.
    pub proof fn lemma_names_are_collection_names(&self)
        ensures
            !self.names().contains(default_namespace()),
    {
    }

    /// Opens the store at `path`, creating it if there is none, under the
    /// standard configuration.
    ///
    /// Whether that succeeds is for the engine and the file system to say.
    /// A failure is reported as `StoreOpen`.
    pub fn open(path: &Path) -> (result: Result<Database, StoreError>)
        ensures
            result matches Ok(store) ==> store.spec_config() == StoreConfig::standard(),
            result matches Err(error) ==> error is StoreOpen,
    {
        let config = StoreConfig::standard();
        match engine_open(path, config.compression, config.flush_every_ms) {
            Ok(db) => Ok(Database { inner: db }),
            Err(cause) => Err(StoreError::StoreOpen(cause)),
        }
    }

    /// The configuration that the store runs under.
    pub fn config(&self) -> (config: StoreConfig)
        ensures
            config == self.spec_config(),
    {
        let settings = engine_read_settings(&self.inner);
        StoreConfig { compression: settings.0, flush_every_ms: settings.1 }
    }

    /// Opens the collection called `name`, creating it if the store does
    /// not hold it yet.
    ///
    /// A collection that the store holds is always opened. Creating one
    /// can fail in the engine; that is reported as `CollectionOpen` and
    /// leaves the store as it was. The key and value types are taken on
    /// trust.
    pub fn document<K, V>(&mut self, name: &str) -> (result: Result<DiskMap<K, V>, StoreError>)
        ensures
            old(self).names().contains(name.spec_bytes()) ==> result is Ok,
            result matches Ok(collection) ==> collection.spec_name() == name.spec_bytes(),
            result is Ok ==> final(self).names() == opened(old(self).names(), name.spec_bytes()),
            result matches Err(error) ==> error is CollectionOpen,
            result is Err ==> final(self).names() == old(self).names(),
            final(self).spec_config() == old(self).spec_config(),
    {
        let ghost before = engine_namespaces(self.inner);
        match engine_open_tree(&mut self.inner, name.as_bytes()) {
            Ok(tree) => {
                proof {
                    let bytes = name.spec_bytes();
                    if bytes == default_namespace() {
                        assert(before.insert(bytes).remove(default_namespace())
                            =~= before.remove(default_namespace()));
                    } else {
                        assert(before.insert(bytes).remove(default_namespace())
                            =~= before.remove(default_namespace()).insert(bytes));
                    }
                }
                Ok(DiskMap::new(tree))
            },
            Err(cause) => Err(StoreError::CollectionOpen(cause)),
        }
    }

    /// Drops the collection called `name` with all its entries, and says
    /// what became of the request.
    ///
    /// Whatever the answer, the store does not hold the name afterwards.
    pub fn remove(&mut self, name: &str) -> (outcome: DropOutcome)
        ensures
            drop_answers(old(self).names(), name.spec_bytes(), outcome),
            final(self).names() == dropped(old(self).names(), name.spec_bytes()),
            final(self).spec_config() == old(self).spec_config(),
    {
        let ghost before = engine_namespaces(self.inner);
        let raw = engine_drop_tree(&mut self.inner, name.as_bytes());
        proof {
            let bytes = name.spec_bytes();
            if bytes == default_namespace() {
                assert(before.remove(default_namespace()).remove(bytes) =~= before.remove(
                    default_namespace(),
                ));
            } else {
                assert(before.remove(bytes).remove(default_namespace()) =~= before.remove(
                    default_namespace(),
                ).remove(bytes));
            }
        }
        drop_outcome(raw)
    }

    /// Drops the collection called `name` with all its entries.
    ///
    /// `true` says that the collection was there and is gone. `false`
    /// says that there was none, or that the engine failed. The store does
    /// not hold the name afterwards.
    pub fn drop(&mut self, name: &str) -> (removed: bool)
        ensures
            !old(self).names().contains(name.spec_bytes()) ==> !removed,
            final(self).names() == dropped(old(self).names(), name.spec_bytes()),
            final(self).spec_config() == old(self).spec_config(),
    {
        let outcome = self.remove(name);
        outcome.removed()
    }

    /// The names of all collections of the store, as text, in no
    /// particular order.
    ///
    /// Fails with `NameDecode` exactly when the store holds a name that is
    /// not well-formed UTF-8.
    pub fn list(&self) -> (result: Result<Vec<String>, StoreError>)
        ensures
            listing(self.names(), result),
            result is Ok <==> forall|name: Seq<u8>|
                self.names().contains(name) ==> #[trigger] valid_utf8(name),
    {
        let raw = engine_tree_names(&self.inner);
        let visible = visible_names(&raw);
        let result = decode_names(&visible);
        proof {
            lemma_listing(engine_namespaces(self.inner), raw, visible, result);
        }
        result
    }

    /// The bytes that the store's files take up on disk at the moment of
    /// the call. A failure to ask the file system is reported as
    /// `StoreIo`.
    pub fn size_on_disk(&self) -> (result: Result<u64, StoreError>)
        ensures
            result matches Err(error) ==> error is StoreIo,
    {
        io_outcome(engine_size_on_disk(&self.inner))
    }

    /// Forces all buffered writes to disk and waits until they are there.
    /// Gives the number of bytes flushed by this call; a failure is
    /// reported as `StoreIo`.
    pub fn flush(&self) -> (result: Result<usize, StoreError>)
        ensures
            result matches Err(error) ==> error is StoreIo,
    {
        io_outcome(engine_flush(&self.inner))
    }

    /// A handle on the engine's own keyspace. It serves callers that
    /// await the flush instead of blocking on it; no collection can be
    /// opened or dropped through it.
    pub fn flush_handle(&self) -> (tree: sled::Tree)
        ensures
            namespace_name(tree) == default_namespace(),
    {
        engine_default_tree(&self.inner)
    }
}

impl Drop for Database {
    /// The last flush, when the store is released. Its outcome is thrown
    /// away.
    fn drop(&mut self)
        opens_invariants none
        no_unwind
    {
        let _ = engine_flush(&self.inner);
    }
}

/// What the steps of a listing add up to: the engine's names, less its own
/// keyspace, decoded.
proof fn lemma_listing(
    held: Set<Seq<u8>>,
    raw: Vec<Vec<u8>>,
    visible: Vec<Vec<u8>>,
    result: Result<Vec<String>, StoreError>,
)
    requires
        raw.deep_view().to_set() == held,
        raw.deep_view().no_duplicates(),
        names_of(visible@) == collection_names(names_of(raw@)),
        result is Ok <==> forall|i: int| 0 <= i < visible.len() ==> valid_utf8(#[trigger] visible@[i]@),
        result matches Ok(texts) ==> texts_of(texts@) == names_of(visible@).map_values(
            |name: Seq<u8>| decode_utf8(name),
        ),
        result matches Err(error) ==> {
            &&& error matches StoreError::NameDecode(bytes)
            &&& exists|i: int|
                0 <= i < visible.len() && bytes@ == #[trigger] visible@[i]@ && !valid_utf8(
                    visible@[i]@,
                )
        },
    ensures
        listing(held.remove(default_namespace()), result),
        result is Ok <==> forall|name: Seq<u8>|
            held.remove(default_namespace()).contains(name) ==> #[trigger] valid_utf8(name),
{
    broadcast use decode_utf8_encode_utf8;

    let all = names_of(raw@);
    let shown = names_of(visible@);
    let names = held.remove(default_namespace());
    let keep = |name: Seq<u8>| is_collection_name(name);
    assert(raw.deep_view() =~= all) by {
        assert forall|i: int| 0 <= i < raw.len() implies raw.deep_view()[i] == all[i] by {
            assert(raw@[i].deep_view() =~= raw@[i]@);
        }
    }
    // the visible names are the store's names, each once
    assert(shown.to_set() =~= names) by {
        assert forall|name: Seq<u8>| shown.to_set().contains(name) <==> names.contains(name) by {
            if shown.contains(name) {
                all.lemma_filter_contains_rev(keep, name);
                let i = choose|i: int| 0 <= i < shown.len() && shown[i] == name;
                all.lemma_filter_pred(keep, i);
            }
            if names.contains(name) {
                assert(all.to_set().contains(name));
                let i = choose|i: int| 0 <= i < all.len() && all[i] == name;
                all.lemma_filter_contains(keep, i);
            }
        }
    }
    lemma_filter_keeps_distinct(all, keep);
    match result {
        Ok(texts) => {
            let decoded = texts_of(texts@);
            assert(decoded.len() == shown.len());
            assert forall|i: int| 0 <= i < shown.len() implies valid_utf8(shown[i]) by {
                assert(valid_utf8(visible@[i]@));
            }
            assert(encoded(decoded) =~= shown) by {
                assert forall|i: int| 0 <= i < shown.len() implies encoded(decoded)[i]
                    == shown[i] by {
                    assert(decoded[i] == decode_utf8(shown[i]));
                    assert(valid_utf8(shown[i]));
                }
            }
            assert(decoded.no_duplicates()) by {
                assert forall|i: int, j: int|
                    0 <= i < decoded.len() && 0 <= j < decoded.len() && i != j implies decoded[i]
                    != decoded[j] by {
                    assert(encoded(decoded)[i] == shown[i]);
                    assert(encoded(decoded)[j] == shown[j]);
                }
            }
            assert forall|name: Seq<u8>| names.contains(name) implies #[trigger] valid_utf8(
                name,
            ) by {
                assert(shown.to_set().contains(name));
                let i = choose|i: int| 0 <= i < shown.len() && shown[i] == name;
                assert(valid_utf8(shown[i]));
            }
        },
        Err(error) => {
            let bytes = error->NameDecode_0;
            let i = choose|i: int|
                0 <= i < visible.len() && bytes@ == #[trigger] visible@[i]@ && !valid_utf8(
                    visible@[i]@,
                );
            assert(shown[i] == bytes@);
            assert(shown.to_set().contains(bytes@));
            assert(names.contains(bytes@));
        },
    }
}

/// Filtering a sequence without repeats leaves one without repeats.
proof fn lemma_filter_keeps_distinct(names: Seq<Seq<u8>>, keep: spec_fn(Seq<u8>) -> bool)
    requires
        names.no_duplicates(),
    ensures
        names.filter(keep).no_duplicates(),
    decreases names.len(),
{
    reveal(Seq::filter);
    if names.len() > 0 {
        let rest = names.drop_last();
        lemma_filter_keeps_distinct(rest, keep);
        if keep(names.last()) {
            let kept = rest.filter(keep);
            assert(names.filter(keep) =~= kept.push(names.last()));
            if kept.contains(names.last()) {
                rest.lemma_filter_contains_rev(keep, names.last());
                let i = choose|i: int| 0 <= i < rest.len() && rest[i] == names.last();
                assert(names[i] == names[names.len() - 1]);
            }
        }
    }
}

} // verus!
