//! Ordered query-string parameters, kept in an `indexmap::IndexMap` as the
//! paginated endpoints hand them to the URL builder.
use indexmap::IndexMap;
use vstd::prelude::*;

verus! {

#[verifier::external_type_specification]
#[verifier::external_body]
#[verifier::reject_recursive_types(K)]
#[verifier::reject_recursive_types(V)]
#[verifier::reject_recursive_types(S)]
pub struct ExIndexMap<K, V, S>(IndexMap<K, V, S>);

/// The key-value pairs of an `IndexMap<String, String>`, in their order.
pub uninterp spec fn query_entries(m: IndexMap<String, String>) -> Seq<(Seq<char>, Seq<char>)>;

/// The entries after `IndexMap::insert(key, value)`: an existing equal key keeps
/// its place and takes the new value; otherwise the pair goes last.
pub open spec fn inserted_entry(
    entries: Seq<(Seq<char>, Seq<char>)>,
    key: Seq<char>,
    value: Seq<char>,
) -> Seq<(Seq<char>, Seq<char>)> {
    if exists|i: int| 0 <= i < entries.len() && (#[trigger] entries[i]).0 == key {
        let i = choose|i: int| 0 <= i < entries.len() && (#[trigger] entries[i]).0 == key;
        entries.update(i, (key, value))
    } else {
        entries.push((key, value))
    }
}

/// `IndexMap::new`: a map without entries.
#[verifier::external_body]
pub(crate) fn new_query_params() -> (m: IndexMap<String, String>)
    ensures
        query_entries(m) == Seq::<(Seq<char>, Seq<char>)>::empty(),
{
    IndexMap::new()
}

/// `IndexMap::insert`: the documented effect on the ordered entries; the
/// previous value that the method returns is dropped here.
#[verifier::external_body]
pub(crate) fn insert_query_param(m: &mut IndexMap<String, String>, key: String, value: String)
    ensures
        query_entries(*final(m)) == inserted_entry(query_entries(*old(m)), key@, value@),
{
    m.insert(key, value);
}

/// A map that holds the single parameter `key=value`.
pub fn single_query_param(key: String, value: String) -> (m: IndexMap<String, String>)
    ensures
        query_entries(m) == seq![(key@, value@)],
{
    let mut m = new_query_params();
    let ghost k = key@;
    let ghost v = value@;
    insert_query_param(&mut m, key, value);
    assert(Seq::<(Seq<char>, Seq<char>)>::empty().push((k, v)) =~= seq![(k, v)]);
    m
}

} // verus!
