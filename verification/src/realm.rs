//! Cultivation tiers: a pure function of accumulated experience.

use vstd::prelude::*;

verus! {

/// The five cultivation ranks, ordered from lowest to highest.  A player's
/// rank is always recomputed from experience and never stored, so it cannot
/// fall out of step with the experience counter.
#[derive(Debug, Clone, Copy, PartialEq, Eq, Structural)]
pub enum Realm {
    Mortal,
    QiRefining,
    FoundationBuilding,
    CoreFormation,
    SpiritTransformation,
}

/// Position of a rank on the five-step ladder, 1 (lowest) to 5 (highest).
pub open spec fn realm_rank(r: Realm) -> int {
    match r {
        Realm::Mortal => 1,
        Realm::QiRefining => 2,
        Realm::FoundationBuilding => 3,
        Realm::CoreFormation => 4,
        Realm::SpiritTransformation => 5,
    }
}

/// The fixed experience bands: [0, 50], [51, 150], [151, 300], [301, 500],
/// and [501, ∞).
pub open spec fn realm_of_experience(exp: nat) -> Realm {
    if exp <= 50 {
        Realm::Mortal
    } else if exp <= 150 {
        Realm::QiRefining
    } else if exp <= 300 {
        Realm::FoundationBuilding
    } else if exp <= 500 {
        Realm::CoreFormation
    } else {
        Realm::SpiritTransformation
    }
}

/// Chinese display name of a rank.
pub open spec fn realm_name(r: Realm) -> Seq<char> {
    match r {
        Realm::Mortal => "凡人境"@,
        Realm::QiRefining => "炼气期"@,
        Realm::FoundationBuilding => "筑基期"@,
        Realm::CoreFormation => "结丹期"@,
        Realm::SpiritTransformation => "化神期"@,
    }
}

impl Realm {
    /// The rank that a given amount of experience earns.
    pub fn from_experience(exp: u32) -> (r: Realm)
        ensures
            r == realm_of_experience(exp as nat),
    {
        if exp <= 50 {
            Realm::Mortal
        } else if exp <= 150 {
            Realm::QiRefining
        } else if exp <= 300 {
            Realm::FoundationBuilding
        } else if exp <= 500 {
            Realm::CoreFormation
        } else {
            Realm::SpiritTransformation
        }
    }

    /// Display name of the rank.
    pub fn display_name(&self) -> (s: &'static str)
        ensures
            s@ == realm_name(*self),
    {
        match self {
            Realm::Mortal => "凡人境",
            Realm::QiRefining => "炼气期",
            Realm::FoundationBuilding => "筑基期",
            Realm::CoreFormation => "结丹期",
            Realm::SpiritTransformation => "化神期",
        }
    }
}

/// The rank ladder is monotone: more experience never lowers the rank.
pub proof fn lemma_realm_monotonic(e1: nat, e2: nat)
    requires
        e1 <= e2,
    ensures
        realm_rank(realm_of_experience(e1)) <= realm_rank(realm_of_experience(e2)),
{
}

} // verus!
