//! Starting an animator from an event on another entity.
//!
//! Two entities that share a [`Relate`] are related: one takes the input,
//! the other owns the animator. Neither holds a reference to the other; the
//! shared number is all that ties them.

use vstd::prelude::*;
use crate::animator::{Animator, AnimatorView};

verus! {

/// A number that marks the entities that belong together.
#[derive(Clone, Copy, Debug, PartialEq, Eq, Structural)]
pub struct Relate(pub i64);

/// What a paused animator with at least one stage becomes when its relation
/// is activated: the stage that was active is put back to its start, the
/// stage after it, or the first after the last, becomes the active one, and
/// the pause is lifted.
pub open spec fn activated(a: AnimatorView) -> AnimatorView {
    AnimatorView {
        exec_index: ((a.exec_index + 1) % (a.animations.len() as int)) as usize,
        pause: false,
        animations: if a.has_stage() {
            a.animations.update(a.exec_index as int, a.stage().restarted())
        } else {
            a.animations
        },
        ..a
    }
}

/// Whether an activation of `source` starts the animator `a` of an entity
/// marked `target`: the two are related, and the animator is paused and has
/// a stage to go to.
pub open spec fn fires(source: Relate, target: Relate, a: AnimatorView) -> bool {
    source == target && a.pause && a.animations.len() > 0
}

/// Hands the activation of the relation `source` to the animator of an
/// entity marked `target`. Where the two are related and the animator is
/// paused, the animator goes on to its next stage and plays; otherwise
/// nothing happens. Says whether the animator was started.
///
/// This is for the moment an input becomes active, not for every frame in
/// which it stays so.
pub fn relate_trigger(source: Relate, target: Relate, animator: &mut Animator) -> (fired: bool)
    ensures
        fired == fires(source, target, old(animator)@),
        final(animator)@ == if fired {
            activated(old(animator)@)
        } else {
            old(animator)@
        },
{
    let len: usize = animator.get_animations_len();
    if source == target && animator.get_pause() && len > 0 {
        let index: usize = animator.get_exec_index();
        let next: u128 = (index as u128 + 1) % (len as u128);
        animator.set_pause(false).exec_index(next as usize);
        true
    } else {
        false
    }
}

} // verus!
