//! The boundary to the storage engine.
//!
//! Everything in this file is believed, not proved: the declarations of the
//! engine's types, the names under which the contracts speak of the engine's
//! state, and one small function per engine call. The rest of the crate is
//! verified against what is written here.
//!
//! The engine keys its keyspaces by byte strings and lets every handle be
//! shared. The contracts below hold for a handle that is not shared: the
//! store manager owns its handle alone, never clones it and never lends it
//! out, and it takes `&mut` wherever the set of keyspaces may change.

use std::path::Path;
use vstd::prelude::*;
use vstd::utf8::*;

verus! {

#[verifier::external_type_specification]
#[verifier::external_body]
pub struct ExDb(sled::Db);

#[verifier::external_type_specification]
#[verifier::external_body]
pub struct ExTree(sled::Tree);

#[verifier::external_type_specification]
#[verifier::external_body]
pub struct ExError(sled::Error);

#[verifier::external_type_specification]
#[verifier::external_body]
pub struct ExPath(std::path::Path);

/// The name of the keyspace that the engine keeps for itself:
/// the bytes of `__sled__default`.
pub open spec fn default_namespace() -> Seq<u8> {
    seq![
        0x5f, 0x5f, 0x73, 0x6c, 0x65, 0x64, 0x5f, 0x5f,
        0x64, 0x65, 0x66, 0x61, 0x75, 0x6c, 0x74,
    ]
}

/// The names of the keyspaces that an engine handle currently holds open:
/// the keys of its table of tenants, the default keyspace among them.
pub uninterp spec fn engine_namespaces(db: sled::Db) -> Set<Seq<u8>>;

/// The settings an engine handle was opened with: whether it compresses,
/// and the period of its background flush in milliseconds.
pub uninterp spec fn engine_settings(db: sled::Db) -> (bool, Option<u64>);

/// The name that a keyspace handle is bound to.
pub uninterp spec fn namespace_name(tree: sled::Tree) -> Seq<u8>;

/// `sled::Config::open`, on a default configuration with the path, the
/// compression switch and the flush period set.
///
/// Whether the engine can open its files is decided on disk, so nothing is
/// claimed of success. A handle that comes back runs under the settings
/// that were passed in.
#[verifier::external_body]
pub(crate) fn engine_open(
    path: &Path,
    compression: bool,
    flush_every_ms: Option<u64>,
) -> (result: Result<sled::Db, sled::Error>)
    ensures
        result matches Ok(db) ==> engine_settings(db) == (compression, flush_every_ms),
{
    sled::Config::default()
        .use_compression(compression)
        .path(path)
        .flush_every_ms(flush_every_ms)
        .open()
}

/// Reads the two settings back from the handle's running configuration.
#[verifier::external_body]
pub(crate) fn engine_read_settings(db: &sled::Db) -> (settings: (bool, Option<u64>))
    ensures
        settings == engine_settings(*db),
{
    (db.context.use_compression, db.context.flush_every_ms)
}

/// `sled::Db::open_tree`.
///
/// A keyspace that the handle already holds is handed out again without
/// touching the disk, so that call succeeds. Any other name is created on
/// disk first, which may fail; the handle learns the name only on success.
/// The keyspace handle that comes back is bound to the name asked for.
#[verifier::external_body]
pub(crate) fn engine_open_tree(
    db: &mut sled::Db,
    name: &[u8],
) -> (result: Result<sled::Tree, sled::Error>)
    ensures
        engine_namespaces(*old(db)).contains(name@) ==> result is Ok,
        result matches Ok(tree) ==> namespace_name(tree) == name@,
        result is Ok ==> engine_namespaces(*final(db)) == engine_namespaces(*old(db)).insert(
            name@,
        ),
        result is Err ==> engine_namespaces(*final(db)) == engine_namespaces(*old(db)),
        engine_settings(*final(db)) == engine_settings(*old(db)),
{
    db.open_tree(name)
}

/// `sled::Db::drop_tree`.
///
/// The engine refuses to drop its default keyspace and reports a name it
/// does not hold as `Ok(false)`; neither changes anything. A name it holds
/// is struck from the handle before the pages are released on disk, so it
/// is gone from the handle whether the release then succeeds (`Ok(true)`)
/// or fails.
#[verifier::external_body]
pub(crate) fn engine_drop_tree(
    db: &mut sled::Db,
    name: &[u8],
) -> (result: Result<bool, sled::Error>)
    ensures
        name@ == default_namespace() ==> result is Err,
        name@ != default_namespace() && !engine_namespaces(*old(db)).contains(name@) ==> (result
            matches Ok(removed) && !removed),
        result matches Ok(removed) ==> removed == engine_namespaces(*old(db)).contains(name@),
        engine_namespaces(*final(db)) == if name@ == default_namespace() {
            engine_namespaces(*old(db))
        } else {
            engine_namespaces(*old(db)).remove(name@)
        },
        engine_settings(*final(db)) == engine_settings(*old(db)),
{
    db.drop_tree(name)
}

/// `sled::Db::tree_names`, each name copied into a `Vec<u8>`.
///
/// The names are the keys of a hash table: each name the handle holds
/// comes once, in no order that can be relied on.
#[verifier::external_body]
pub(crate) fn engine_tree_names(db: &sled::Db) -> (names: Vec<Vec<u8>>)
    ensures
        names.deep_view().to_set() == engine_namespaces(*db),
        names.deep_view().no_duplicates(),
{
    db.tree_names().into_iter().map(|name| name.to_vec()).collect()
}

/// `sled::Db::size_on_disk`. The size is read from the file system at the
/// moment of the call; nothing is claimed of it.
#[verifier::external_body]
pub(crate) fn engine_size_on_disk(db: &sled::Db) -> (result: Result<u64, sled::Error>) {
    db.size_on_disk()
}

/// `sled::Tree::flush` on the store, the blocking flush.
///
/// Nothing is claimed of the outcome. The call is taken not to unwind, so
/// that it may run while a store is released: the engine reports failed
/// I/O through the result, and runs the same flush in its own destructors.
#[verifier::external_body]
pub(crate) fn engine_flush(db: &sled::Db) -> (result: Result<usize, sled::Error>)
    opens_invariants none
    no_unwind
{
    db.flush()
}

/// A second handle on the engine's default keyspace (`Clone` of the
/// `sled::Tree` that a `sled::Db` dereferences to).
#[verifier::external_body]
pub(crate) fn engine_default_tree(db: &sled::Db) -> (tree: sled::Tree)
    ensures
        namespace_name(tree) == default_namespace(),
{
    sled::Tree::clone(db)
}

/// `sled::Tree::name`, copied into a `Vec<u8>`.
#[verifier::external_body]
pub(crate) fn engine_tree_name(tree: &sled::Tree) -> (name: Vec<u8>)
    ensures
        name@ == namespace_name(*tree),
{
    tree.name().to_vec()
}

/// `std::str::from_utf8`.
///
/// The bytes are text exactly when they are well-formed UTF-8, and the
/// text is then what they decode to.
#[verifier::external_body]
pub(crate) fn text_from_bytes(bytes: &[u8]) -> (text: Option<&str>)
    ensures
        text is Some <==> valid_utf8(bytes@),
        text matches Some(t) ==> t@ == decode_utf8(bytes@),
{
    std::str::from_utf8(bytes).ok()
}

} // verus!
