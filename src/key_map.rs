//! Key name to platform key code mapping.
use vstd::prelude::*;

use std::collections::HashMap;

verus! {

/// Maps key names to platform key codes; no name has a code of its own.
pub fn get_key_map() -> (m: HashMap<String, u32>)
    ensures
        m@ == Map::<String, u32>::empty(),
{
    HashMap::new()
}

} // verus!
