//! The messages that the simulation leaves for whoever plays sounds.

use vstd::prelude::*;
use vstd::string::*;

verus! {

/// How the file of a sound is chosen.
#[allow(non_camel_case_types)]
#[derive(Clone, Copy, Debug, PartialEq, Eq, Structural)]
pub enum SoundType {
    /// One of the numbered variants in the sound's directory, picked by lot.
    RANDOM,
    /// The file that the message names.
    FIXED,
}

/// A request to play a sound.
#[derive(Clone, Debug)]
pub struct SoundEvent {
    /// The directory of the sound, below the sounds directory.
    pub path: String,
    pub sound_type: SoundType,
    /// The file's name without its ending; read only for `FIXED`.
    pub file: String,
}

impl SoundEvent {
    /// A footstep on grass: a random variant from `step/grass`.
    pub open spec fn is_footstep(self) -> bool {
        &&& self.path@ == "step/grass"@
        &&& self.sound_type == SoundType::RANDOM
        &&& self.file@ == "4"@
    }

    /// The message for a footstep on grass.
    pub fn footstep() -> (r: SoundEvent)
        ensures
            r.is_footstep(),
    {
        SoundEvent {
            path: String::from_str("step/grass"),
            sound_type: SoundType::RANDOM,
            file: String::from_str("4"),
        }
    }
}

} // verus!
