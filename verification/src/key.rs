//! Collectible keys and their kinds.

use crate::text::str_eq;
use vstd::prelude::*;

verus! {

/// Marker for a collectible key entity.
#[derive(Debug, Clone, Copy, PartialEq, Eq, Structural)]
pub struct Key;

/// The kind of a collectible key, as level data names it.
#[derive(Debug, Clone, Copy, PartialEq, Eq, Hash, Structural)]
pub enum KeyType {
    Yellow,
    Invalid,
}

/// The key kind a name denotes, if any.
pub open spec fn spec_key_type_of(s: Seq<char>) -> Option<KeyType> {
    if s == "Yellow"@ {
        Some(KeyType::Yellow)
    } else {
        None
    }
}

impl KeyType {
    /// Parses a key-kind name as level metadata spells it.
    pub fn from_str(s: &str) -> (r: Result<KeyType, ()>)
        ensures
            r == match spec_key_type_of(s@) {
                Some(k) => Result::<KeyType, ()>::Ok(k),
                None => Result::<KeyType, ()>::Err(()),
            },
    {
        if str_eq(s, "Yellow") {
            Ok(KeyType::Yellow)
        } else {
            Err(())
        }
    }
}

impl Default for KeyType {
    /// A key read from no recognisable metadata.
    fn default() -> (r: KeyType)
        ensures
            r == KeyType::Invalid,
    {
        KeyType::Invalid
    }
}

} // verus!
