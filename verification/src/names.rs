//! Collection names.
//!
//! A name is a byte string. It is shown as text where it is well-formed
//! UTF-8; a name that is not is reported, never passed off as text.

use crate::engine::{default_namespace, text_from_bytes};
use crate::error::StoreError;
use vstd::prelude::*;
use vstd::utf8::*;

verus! {

/// The byte strings that a vector of names holds, in its order.
pub open spec fn names_of(raw: Seq<Vec<u8>>) -> Seq<Seq<u8>> {
    raw.map_values(|name: Vec<u8>| name@)
}

/// The texts that a vector of strings holds, in its order.
pub open spec fn texts_of(texts: Seq<String>) -> Seq<Seq<char>> {
    texts.map_values(|text: String| text@)
}

/// A name that belongs to a collection of the store, not to the engine.
pub open spec fn is_collection_name(name: Seq<u8>) -> bool {
    name != default_namespace()
}

/// What is left of a list of names when the engine's own keyspace is
/// taken out: the others, in their order.
pub open spec fn collection_names(names: Seq<Seq<u8>>) -> Seq<Seq<u8>> {
    names.filter(|name: Seq<u8>| is_collection_name(name))
}

/// Whether `name` is the name of the engine's own keyspace.
pub fn is_default_namespace(name: &[u8]) -> (yes: bool)
    ensures
        yes == (name@ == default_namespace()),
{
    let reserved: [u8; 15] = [
        0x5f, 0x5f, 0x73, 0x6c, 0x65, 0x64, 0x5f, 0x5f,
        0x64, 0x65, 0x66, 0x61, 0x75, 0x6c, 0x74,
    ];
    assert(reserved@ =~= default_namespace());
    if name.len() != 15 {
        return false;
    }
    let mut i: usize = 0;
    while i < 15
        invariant
            i <= 15,
            name@.len() == 15,
            reserved@ == default_namespace(),
            forall|j: int| 0 <= j < i ==> name@[j] == default_namespace()[j],
        decreases 15 - i,
    {
        if name[i] != reserved[i] {
            return false;
        }
        i += 1;
    }
    assert(name@ =~= default_namespace());
    true
}

/// Takes the engine's own keyspace out of a list of names and keeps the
/// rest in order.
pub fn visible_names(raw: &Vec<Vec<u8>>) -> (visible: Vec<Vec<u8>>)
    ensures
        names_of(visible@) == collection_names(names_of(raw@)),
{
    let mut visible: Vec<Vec<u8>> = Vec::new();
    let mut i: usize = 0;
    assert(names_of(raw@).take(0) =~= Seq::<Seq<u8>>::empty());
    assert(names_of(visible@) =~= Seq::<Seq<u8>>::empty());
    while i < raw.len()
        invariant
            i <= raw.len(),
            names_of(visible@) == collection_names(names_of(raw@).take(i as int)),
        decreases raw.len() - i,
    {
        let ghost seen = names_of(raw@).take(i as int);
        let ghost kept = names_of(visible@);
        proof {
            assert(names_of(raw@).take(i + 1) =~= seen.push(raw@[i as int]@));
            seen.lemma_filter_push(raw@[i as int]@, |name: Seq<u8>| is_collection_name(name));
        }
        if !is_default_namespace(raw[i].as_slice()) {
            let name = raw[i].clone();
            assert(name@ =~= raw@[i as int]@);
            visible.push(name);
            assert(names_of(visible@) =~= kept.push(raw@[i as int]@));
        }
        i += 1;
    }
    assert(names_of(raw@).take(raw.len() as int) =~= names_of(raw@));
    visible
}

/// Shows each name as text. Succeeds exactly when every name is
/// well-formed UTF-8, and then gives the decoded names in order; otherwise
/// reports the first name that is not.
pub fn decode_names(raw: &Vec<Vec<u8>>) -> (result: Result<Vec<String>, StoreError>)
    ensures
        result is Ok <==> forall|i: int| 0 <= i < raw.len() ==> valid_utf8(#[trigger] raw@[i]@),
        result matches Ok(texts) ==> texts_of(texts@) == names_of(raw@).map_values(
            |name: Seq<u8>| decode_utf8(name),
        ),
        result matches Err(error) ==> {
            &&& error matches StoreError::NameDecode(bytes)
            &&& exists|i: int|
                0 <= i < raw.len() && bytes@ == #[trigger] raw@[i]@ && !valid_utf8(raw@[i]@) && (
                forall|j: int| 0 <= j < i ==> valid_utf8(#[trigger] raw@[j]@))
        },
{
    let mut texts: Vec<String> = Vec::new();
    let mut i: usize = 0;
    while i < raw.len()
        invariant
            i <= raw.len(),
            texts.len() == i,
            forall|j: int| 0 <= j < i ==> valid_utf8(#[trigger] raw@[j]@),
            forall|j: int| 0 <= j < i ==> (#[trigger] texts@[j])@ == decode_utf8(raw@[j]@),
        decreases raw.len() - i,
    {
        match text_from_bytes(raw[i].as_slice()) {
            Some(text) => {
                texts.push(text.to_owned());
            },
            None => {
                let bytes = raw[i].clone();
                assert(bytes@ =~= raw@[i as int]@);
                return Err(StoreError::NameDecode(bytes));
            },
        }
        i += 1;
    }
    assert(texts_of(texts@) =~= names_of(raw@).map_values(|name: Seq<u8>| decode_utf8(name)));
    Ok(texts)
}

} // verus!
