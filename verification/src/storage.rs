//! The keys under which the store holds what the pipeline persists.

use vstd::prelude::*;
use vstd::string::*;

verus! {

/// The key of the endpoint registry.
pub open spec fn endpoints_key() -> Seq<char> {
    "sip_hooks"@
}

/// The key of the general category's history.
pub open spec fn general_key() -> Seq<char> {
    "levi_stari"@
}

/// The key of the important category's history.
pub open spec fn important_key() -> Seq<char> {
    "desni_stari"@
}

/// The keys that a store must be given an empty list under before the first
/// cycle: those of the three that it does not hold yet, registry first.
pub open spec fn missing_keys(has_endpoints: bool, has_general: bool, has_important: bool) -> Seq<
    Seq<char>,
> {
    (if has_endpoints {
        Seq::<Seq<char>>::empty()
    } else {
        seq![endpoints_key()]
    }) + (if has_general {
        Seq::<Seq<char>>::empty()
    } else {
        seq![general_key()]
    }) + (if has_important {
        Seq::<Seq<char>>::empty()
    } else {
        seq![important_key()]
    })
}

/// Lists the keys that the store lacks, given which of the three it holds.
pub fn keys_to_create(has_endpoints: bool, has_general: bool, has_important: bool) -> (keys: Vec<
    String,
>)
    ensures
        keys.deep_view() == missing_keys(has_endpoints, has_general, has_important),
{
    let mut keys: Vec<String> = Vec::new();
    if !has_endpoints {
        keys.push(String::from_str("sip_hooks"));
    }
    if !has_general {
        keys.push(String::from_str("levi_stari"));
    }
    if !has_important {
        keys.push(String::from_str("desni_stari"));
    }
    assert(keys.deep_view() =~= missing_keys(has_endpoints, has_general, has_important));
    keys
}

} // verus!
