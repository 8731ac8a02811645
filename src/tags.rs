use std::collections::HashMap;

use vstd::prelude::*;

verus! {

/// Parses a key/value text into a mapping. No grammar is defined yet, so every
/// input gives the empty mapping.
pub fn parse_json(input: &str) -> (r: HashMap<String, String>)
    ensures
        r@ == Map::<String, String>::empty(),
{
    HashMap::new()
}

} // verus!
