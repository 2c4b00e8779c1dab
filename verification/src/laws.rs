//! What the operations promise, for all inputs.
//!
//! The laws speak of the values that the contracts name: the state that an operation leaves, and
//! the instructions that it gives.
use crate::effect::{EffectView, Step};
use vstd::prelude::*;

pub mod actions;
pub mod calls;
pub mod events;
pub mod input;
pub mod report;
pub mod search;
pub mod selection;
pub mod settings;
pub mod tabs;
pub mod words;

verus! {

/// The instruction is one of the list.
pub open spec fn does(effects: Seq<EffectView>, step: Step) -> bool {
    effects.contains(EffectView::Do(step))
}

/// Nothing is written to the child process.
pub open spec fn writes_nothing(effects: Seq<EffectView>) -> bool {
    forall|i: int| 0 <= i < effects.len() ==> !(#[trigger] effects[i] is WriteToPty)
}

/// One where something holds, and none where it does not.
pub open spec fn one_if(holds: bool) -> int {
    if holds {
        1
    } else {
        0
    }
}

/// An instruction at a place of a list is one of the list.
pub proof fn lemma_does(effects: Seq<EffectView>, i: int, step: Step)
    requires
        0 <= i < effects.len(),
        effects[i] == EffectView::Do(step),
    ensures
        does(effects, step),
{
}

} // verus!
