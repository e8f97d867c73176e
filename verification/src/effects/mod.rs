//! The effects, one function per effect, each drawing one step.
//!
//! Every effect takes the pixels its previous step left, its state and the
//! parameters, and its contract gives the frame and state it leaves as a
//! spec function of those three.

pub mod chase;
pub mod color;
pub mod complex;
pub mod dynamic;
pub mod fire;
pub mod motion;
pub mod rainbow;
pub mod scanner;
pub mod spots;
pub mod twinkle;
pub mod wave;

use vstd::prelude::*;

use crate::pixel::RGB8;
use crate::segment::EffectState;

verus! {

/// A step's outcome: the pixels it leaves and the state it carries on.
pub type Frame = (Seq<RGB8>, EffectState);

} // verus!
