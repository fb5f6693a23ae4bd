//! Interactions the player can start with objects in front of the camera, such as a dialog.
//! Entities are named by their 64-bit identifiers.
use vstd::prelude::*;

verus! {

/// What interacting with an object starts.
#[derive(Debug, Clone, PartialEq, Eq)]
pub enum PlayerInteraction {
    /// A dialog at the given Yarn Spinner dialogue node.
    Dialog(String),
}

impl PlayerInteraction {
    /// The prompt shown for an interaction whose object sets none of its own.
    pub fn default_prompt(&self) -> (r: String)
        ensures
            r@ == "Talk"@,
    {
        match self {
            PlayerInteraction::Dialog(..) => String::from_str("Talk"),
        }
    }
}

/// The object the player can interact with right now, if any.
#[derive(Debug, Clone, Copy, PartialEq, Eq, Structural)]
pub struct AvailablePlayerInteraction(pub Option<u64>);

/// An object hit by the ray from the camera that carries interaction parameters.
#[derive(Debug, Clone, Copy, PartialEq, Eq, Structural)]
pub struct InteractionCandidate {
    /// The object (the parent of the collider that was hit).
    pub entity: u64,
    /// Whether the hit is within the object's maximum interaction distance.
    pub within_reach: bool,
}

/// The interaction available after a ray cast: the candidate's object when it is within reach.
pub open spec fn available_after(candidate: Option<InteractionCandidate>) -> Option<u64> {
    match candidate {
        Some(c) => if c.within_reach {
            Some(c.entity)
        } else {
            None
        },
        None => None,
    }
}

/// An interaction is available exactly when the ray hit an object with parameters within its
/// reach, and then it is that object.
pub proof fn lemma_available_rules(candidate: Option<InteractionCandidate>)
    ensures
        available_after(candidate) is Some <==> (candidate is Some && candidate->0.within_reach),
        available_after(candidate) is Some ==> available_after(candidate)->0 == candidate->0.entity,
{
}

/// Makes the interaction from this frame's ray cast the available one. The value is written only
/// when it differs, so that change detection fires only on a real change; the result tells
/// whether it was written.
pub fn update_available_interaction(
    available: &mut AvailablePlayerInteraction,
    candidate: Option<InteractionCandidate>,
) -> (changed: bool)
    ensures
        final(available).0 == available_after(candidate),
        changed == (old(available).0 != available_after(candidate)),
{
    let mut new_interactable: Option<u64> = None;
    if let Some(c) = candidate {
        if c.within_reach {
            new_interactable = Some(c.entity);
        }
    }
    let new_interactable = AvailablePlayerInteraction(new_interactable);
    if *available != new_interactable {
        *available = new_interactable;
        true
    } else {
        false
    }
}

/// Handles the interact button: when it went down in this frame and an interaction is available,
/// the interaction is cleared (so that it does not show during the dialog) and its object is
/// returned to start the interaction on; otherwise nothing changes.
pub fn usher_interact(available: &mut AvailablePlayerInteraction, interact_just_pressed: bool) -> (r:
    Option<u64>)
    ensures
        interact_just_pressed ==> r == old(available).0 && final(available).0 is None,
        !interact_just_pressed ==> r is None && *final(available) == *old(available),
{
    if available.0.is_none() || !interact_just_pressed {
        return None;
    }
    available.0.take()
}

/// What the interaction prompt shows.
pub enum PromptDisplay {
    /// The prompt is hidden.
    Hidden,
    /// The prompt is shown with this text.
    Shown(String),
}

/// The prompt after the available interaction changed: shown with the prompt of the
/// interaction's parameters, or hidden when no interaction is available or its object no
/// longer has parameters.
pub fn show_prompt(prompt: Option<&String>) -> (r: PromptDisplay)
    ensures
        prompt is None ==> r is Hidden,
        prompt matches Some(p) ==> (r matches PromptDisplay::Shown(t) && t@ == p@),
{
    match prompt {
        Some(p) => PromptDisplay::Shown(p.clone()),
        None => PromptDisplay::Hidden,
    }
}

/// Whether `entities` holds `e`.
fn holds(entities: &Vec<u64>, e: u64) -> (r: bool)
    ensures
        r == entities@.contains(e),
{
    let mut i: usize = 0;
    while i < entities.len()
        invariant
            i <= entities.len(),
            forall|k: int| 0 <= k < i ==> entities@[k] != e,
        decreases entities.len() - i,
    {
        if entities[i] == e {
            return true;
        }
        i += 1;
    }
    false
}

/// The entity a camera turns to at the start of a dialog with `target`: the first of `target`
/// and its `descendants` (in that order) that is marked as a dialog camera target, or `target`
/// itself when none is.
pub fn face_dialog_target(target: u64, descendants: &Vec<u64>, marked: &Vec<u64>) -> (r: u64)
    ensures
        marked@.contains(target) ==> r == target,
        !marked@.contains(target) ==> (r == target && forall|k: int|
            0 <= k < descendants.len() ==> !marked@.contains(#[trigger] descendants@[k])) || (
        exists|i: int|
            0 <= i < descendants.len() && descendants@[i] == r && marked@.contains(r) && forall|
                k: int,
            |
                0 <= k < i ==> !marked@.contains(#[trigger] descendants@[k])),
{
    if holds(marked, target) {
        return target;
    }
    let mut i: usize = 0;
    while i < descendants.len()
        invariant
            i <= descendants.len(),
            !marked@.contains(target),
            forall|k: int| 0 <= k < i ==> !marked@.contains(#[trigger] descendants@[k]),
        decreases descendants.len() - i,
    {
        let d = descendants[i];
        if holds(marked, d) {
            assert(descendants@[i as int] == d);
            return d;
        }
        i += 1;
    }
    target
}

} // verus!
