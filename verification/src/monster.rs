//! The participants of a fight and the order in which they act.

use vstd::prelude::*;

verus! {

/// Identifies one monster. Two identifiers are equal exactly when their numbers are.
#[derive(Debug, Clone, Copy, PartialEq, Eq, Structural)]
pub struct MonsterIdentifier {
    id: u32,
}

impl MonsterIdentifier {
    /// The number this identifier was made from.
    pub closed spec fn value(self) -> u32 {
        self.id
    }

    /// The identifier with the number `id`.
    pub closed spec fn spec_new(id: u32) -> Self {
        Self { id }
    }

    #[verifier::when_used_as_spec(spec_new)]
    pub fn new(id: u32) -> (ident: Self)
        ensures
            ident == Self::spec_new(id),
            ident.value() == id,
    {
        Self { id }
    }

    pub fn id(&self) -> (id: u32)
        ensures
            id == self.value(),
    {
        self.id
    }

    /// Two identifiers are the same exactly when their numbers are, and the
    /// number of an identifier is the one it was made from.
    pub proof fn lemma_equal_by_value(a: Self, b: Self)
        ensures
            a == b <==> a.value() == b.value(),
            a == Self::spec_new(a.value()),
    {
    }
}

/// Names a participant without owning it.
#[derive(Debug, Clone, Copy, PartialEq, Eq, Structural)]
pub enum UnitReference {
    Player,
    Monster { id: MonsterIdentifier },
}

/// A health pair. A well-formed pair keeps `0 <= current <= max`.
#[derive(Debug, Clone, Copy, PartialEq, Eq, Structural)]
pub struct CurrMax {
    pub current: i32,
    pub max: i32,
}

impl CurrMax {
    pub open spec fn wf(self) -> bool {
        0 <= self.current <= self.max
    }
}

#[derive(Debug, Clone, Copy, PartialEq, Eq, Structural)]
pub struct Monster {
    pub id: MonsterIdentifier,
    pub attack: u32,
    pub health: CurrMax,
}

#[derive(Debug, Clone, Copy, PartialEq, Eq, Structural)]
pub struct Player {
    pub health: CurrMax,
}

} // verus!
