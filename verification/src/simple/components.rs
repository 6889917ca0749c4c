//! The name of an entity.

use vstd::prelude::*;

verus! {

/// What an entity is called.
#[derive(Clone, Debug)]
pub struct Name(pub String);

impl Default for Name {
    fn default() -> (r: Name)
        ensures
            r.0@.len() == 0,
    {
        Name(String::new())
    }
}

} // verus!
