//! The store as its contracts see it: the set of the names of its
//! collections, and what opening, dropping and listing do to that set.

use crate::engine::default_namespace;
use crate::error::{DropOutcome, StoreError};
use crate::names::texts_of;
use vstd::prelude::*;
use vstd::utf8::*;

verus! {

/// The names in a store after a collection was opened under `name`: the
/// name is added, unless it is the engine's own keyspace, which is no
/// collection of the store.
pub open spec fn opened(names: Set<Seq<u8>>, name: Seq<u8>) -> Set<Seq<u8>> {
    if name == default_namespace() {
        names
    } else {
        names.insert(name)
    }
}

/// The names in a store after `name` was dropped.
pub open spec fn dropped(names: Set<Seq<u8>>, name: Seq<u8>) -> Set<Seq<u8>> {
    names.remove(name)
}

/// What a drop of `name` may answer in a store that holds `names`.
///
/// A removal is reported only of a name that was there, and a missing
/// name only of one that was not. The engine can fail while it removes a
/// collection, and it refuses its own keyspace.
pub open spec fn drop_answers(names: Set<Seq<u8>>, name: Seq<u8>, outcome: DropOutcome) -> bool {
    match outcome {
        DropOutcome::Removed => names.contains(name),
        DropOutcome::NotFound => !names.contains(name) && name != default_namespace(),
        DropOutcome::Failed(_) => names.contains(name) || name == default_namespace(),
    }
}

/// The names that a list of texts stands for: the UTF-8 encoding of each.
pub open spec fn encoded(texts: Seq<Seq<char>>) -> Seq<Seq<u8>> {
    texts.map_values(|text: Seq<char>| encode_utf8(text))
}

/// What a listing of a store that holds `names` may answer.
///
/// A list of texts names every collection once and nothing else. A
/// failure carries a name of the store that is not well-formed UTF-8.
pub open spec fn listing(names: Set<Seq<u8>>, result: Result<Vec<String>, StoreError>) -> bool {
    match result {
        Ok(texts) => {
            &&& texts_of(texts@).no_duplicates()
            &&& encoded(texts_of(texts@)).to_set() == names
        },
        Err(error) => {
            &&& error matches StoreError::NameDecode(bytes)
            &&& names.contains(bytes@)
            &&& !valid_utf8(bytes@)
        },
    }
}

/// Dropping a name that the store does not hold is answered with `false`.
pub proof fn law_drop_of_absent_name(names: Set<Seq<u8>>, name: Seq<u8>, outcome: DropOutcome)
    requires
        drop_answers(names, name, outcome),
        !names.contains(name),
    ensures
        !outcome.removed(),
        dropped(names, name) == names,
{
    assert(names.remove(name) =~= names);
}

/// Dropping a name that the store holds is answered with `true`, unless
/// the engine failed; either way the name is gone from the store.
pub proof fn law_drop_of_present_name(names: Set<Seq<u8>>, name: Seq<u8>, outcome: DropOutcome)
    requires
        drop_answers(names, name, outcome),
        names.contains(name),
    ensures
        outcome !is Failed ==> outcome.removed(),
        !dropped(names, name).contains(name),
{
}

/// A listing made after `name` was dropped does not show it.
pub proof fn law_dropped_name_is_not_listed(
    names: Set<Seq<u8>>,
    name: Seq<char>,
    texts: Vec<String>,
)
    requires
        listing(dropped(names, encode_utf8(name)), Ok(texts)),
    ensures
        !texts_of(texts@).contains(name),
{
    let shown = texts_of(texts@);
    if shown.contains(name) {
        let i = choose|i: int| 0 <= i < shown.len() && shown[i] == name;
        assert(encoded(shown)[i] == encode_utf8(name));
        assert(encoded(shown).to_set().contains(encode_utf8(name)));
    }
}

/// Dropping a name a second time is answered with `false`, whatever the
/// first drop answered.
pub proof fn law_second_drop_is_false(
    names: Set<Seq<u8>>,
    name: Seq<u8>,
    first: DropOutcome,
    second: DropOutcome,
)
    requires
        drop_answers(names, name, first),
        drop_answers(dropped(names, name), name, second),
    ensures
        !second.removed(),
        dropped(dropped(names, name), name) == dropped(names, name),
{
    assert(names.remove(name).remove(name) =~= names.remove(name));
}

/// A collection that was opened is in the store, and opening it again
/// adds nothing: a name stands for one collection.
pub proof fn law_open_twice_is_open_once(names: Set<Seq<u8>>, name: Seq<u8>)
    ensures
        name != default_namespace() ==> opened(names, name).contains(name),
        opened(opened(names, name), name) == opened(names, name),
{
    assert(opened(opened(names, name), name) =~= opened(names, name));
}

/// A listing shows a text exactly when the store holds the collection of
/// that name.
pub proof fn law_listing_is_complete(names: Set<Seq<u8>>, texts: Vec<String>, name: Seq<char>)
    requires
        listing(names, Ok(texts)),
    ensures
        texts_of(texts@).contains(name) <==> names.contains(encode_utf8(name)),
{
    broadcast use encode_utf8_decode_utf8;

    let shown = texts_of(texts@);
    if shown.contains(name) {
        let i = choose|i: int| 0 <= i < shown.len() && shown[i] == name;
        assert(encoded(shown)[i] == encode_utf8(name));
        assert(encoded(shown).to_set().contains(encode_utf8(name)));
    }
    if names.contains(encode_utf8(name)) {
        assert(encoded(shown).contains(encode_utf8(name)));
        let i = choose|i: int| 0 <= i < encoded(shown).len() && encoded(shown)[i] == encode_utf8(name);
        assert(decode_utf8(encode_utf8(shown[i])) == shown[i]);
        assert(decode_utf8(encode_utf8(name)) == name);
        assert(shown[i] == name);
    }
}

} // verus!
