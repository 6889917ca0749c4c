//! The kinds of entity that a level can place.

use vstd::prelude::*;

verus! {

/// What a level entity is, as far as component defaults are concerned.
#[derive(Clone, Copy, Debug, PartialEq, Eq, Structural)]
pub enum EntityKind {
    Player,
    Elf,
    Goblin,
    Rock,
    /// Anything else, tree stumps included: it gets the plain defaults.
    Other,
}

/// The kind that a level identifier names.
pub open spec fn kind_of(identifier: Seq<char>) -> EntityKind {
    if identifier == "Player"@ {
        EntityKind::Player
    } else if identifier == "Elf"@ {
        EntityKind::Elf
    } else if identifier == "Goblin"@ {
        EntityKind::Goblin
    } else if identifier == "Rock"@ {
        EntityKind::Rock
    } else {
        EntityKind::Other
    }
}

/// Calls `str::eq`: two string slices are equal exactly when they hold the
/// same characters in the same order.
#[verifier::external_body]
pub(crate) fn same_text(a: &str, b: &str) -> (r: bool)
    ensures
        r == (a@ == b@),
{
    a == b
}

impl EntityKind {
    /// Reads the kind from a level identifier. Identifiers are case
    /// sensitive; an unknown one is `Other`.
    pub fn from_identifier(identifier: &str) -> (r: EntityKind)
        ensures
            r == kind_of(identifier@),
    {
        if same_text(identifier, "Player") {
            EntityKind::Player
        } else if same_text(identifier, "Elf") {
            EntityKind::Elf
        } else if same_text(identifier, "Goblin") {
            EntityKind::Goblin
        } else if same_text(identifier, "Rock") {
            EntityKind::Rock
        } else {
            EntityKind::Other
        }
    }
}

} // verus!
