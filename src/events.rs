use vstd::prelude::*;
use crate::fixed::Vec2;

verus! {

/// Sound cues for the audio collaborator.
#[derive(Debug, Clone, Copy, PartialEq, Eq, Structural)]
pub enum AudioCue {
    Shoot,
    Hit,
    Explosion,
    Pickup,
    UiSelect,
}

/// A request for an explosion effect.
#[derive(Debug, Clone, Copy, PartialEq, Eq, Structural)]
pub struct ExplosionEvent {
    pub position: Vec2,
    pub large: bool,
}

} // verus!
