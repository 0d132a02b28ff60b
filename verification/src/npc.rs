//! NPC encounters: a two-step probe-then-resolve interaction that can grant
//! a reward at most once per day.

use vstd::prelude::*;

verus! {

/// One side of an NPC interaction: a short summary, the narrative detail,
/// and the `(skill delta, stress delta)` reward it grants.
#[derive(Debug)]
pub struct NpcOption {
    pub summary: String,
    pub detail: String,
    pub reward: (i32, i32),
}

impl Clone for NpcOption {
    fn clone(&self) -> (r: Self)
        ensures
            r == *self,
    {
        NpcOption {
            summary: self.summary.clone(),
            detail: self.detail.clone(),
            reward: self.reward,
        }
    }
}

/// An NPC encounter: identity, flavor text, a set of prompt lines (one is
/// chosen at random per probe), the accept and reject options, and the
/// once-per-day `interacted` flag.
#[derive(Debug)]
pub struct NpcEncounter {
    pub name: String,
    pub description: String,
    pub ai_model: String,
    pub prompt_templates: Vec<String>,
    pub accept_option: NpcOption,
    pub reject_option: NpcOption,
    pub interacted: bool,
}

/// Field-wise equality of two encounters.  Clones agree with their source
/// on this relation even though their vectors live in fresh allocations.
pub open spec fn same_npc(a: NpcEncounter, b: NpcEncounter) -> bool {
    &&& a.name == b.name
    &&& a.description == b.description
    &&& a.ai_model == b.ai_model
    &&& a.prompt_templates@ == b.prompt_templates@
    &&& a.accept_option == b.accept_option
    &&& a.reject_option == b.reject_option
    &&& a.interacted == b.interacted
}

/// As `same_npc`, but ignoring the once-per-day flag.
pub open spec fn same_npc_role(a: NpcEncounter, b: NpcEncounter) -> bool {
    &&& a.name == b.name
    &&& a.description == b.description
    &&& a.ai_model == b.ai_model
    &&& a.prompt_templates@ == b.prompt_templates@
    &&& a.accept_option == b.accept_option
    &&& a.reject_option == b.reject_option
}

impl Clone for NpcEncounter {
    fn clone(&self) -> (r: Self)
        ensures
            same_npc(r, *self),
    {
        let r = NpcEncounter {
            name: self.name.clone(),
            description: self.description.clone(),
            ai_model: self.ai_model.clone(),
            prompt_templates: self.prompt_templates.clone(),
            accept_option: self.accept_option.clone(),
            reject_option: self.reject_option.clone(),
            interacted: self.interacted,
        };
        proof {
            assert(r.prompt_templates@ =~= self.prompt_templates@);
        }
        r
    }
}

/// Holds of a prompt line that a probe of `npc` may show: one of the NPC's
/// prompt templates, or its base description when the template set is
/// empty.
pub open spec fn valid_prompt(npc: NpcEncounter, line: Seq<char>) -> bool {
    if npc.prompt_templates@.len() == 0 {
        line == npc.description@
    } else {
        exists|k: int|
            0 <= k < npc.prompt_templates@.len() && line == npc.prompt_templates@[k]@
    }
}

impl NpcEncounter {
    /// A well-formed encounter carries at least one prompt line.
    pub open spec fn well_formed(&self) -> bool {
        self.prompt_templates@.len() >= 1
    }

    /// Picks one prompt line at random, falling back to the description
    /// when the template set is empty.
    pub(crate) fn random_dialogue(&self) -> (line: String)
        ensures
            valid_prompt(*self, line@),
    {
        let n = self.prompt_templates.len();
        if n == 0 {
            self.description.clone()
        } else {
            let k = crate::rng::rand_index(n);
            self.prompt_templates[k].clone()
        }
    }
}

/// The transient record of an NPC mid-interaction: which roster slot is
/// being probed and which prompt line was shown.  It exists only between
/// probe and resolve.
#[derive(Debug)]
pub struct NpcActiveEvent {
    pub npc_index: usize,
    pub prompt: String,
}

impl Clone for NpcActiveEvent {
    fn clone(&self) -> (r: Self)
        ensures
            r == *self,
    {
        NpcActiveEvent { npc_index: self.npc_index, prompt: self.prompt.clone() }
    }
}

/// The binary outcome of an NPC prompt.
#[derive(Debug, Clone, Copy, PartialEq, Eq, Structural)]
pub enum NpcDecision {
    Accept,
    Reject,
}

} // verus!
