//! From sound messages to the files to play.

use vstd::prelude::*;
use vstd::string::*;
use crate::rng::components::RngResource;
use crate::sound::components::{SoundEvent, SoundType};

verus! {

/// The name of the variant of a sound that a draw picks: there are four,
/// named `0` to `3`, and the draw counts modulo four.
pub open spec fn variant_name(roll: u32) -> Seq<char> {
    if roll % 4 == 0 {
        "0"@
    } else if roll % 4 == 1 {
        "1"@
    } else if roll % 4 == 2 {
        "2"@
    } else {
        "3"@
    }
}

/// The file that a sound message asks for, given the draw that picks among
/// the variants: `sounds/`, the directory, `/`, the name of the variant or
/// of the file, and `.wav`.
pub open spec fn sound_path_spec(ev: SoundEvent, roll: u32) -> Seq<char> {
    "sounds/"@ + ev.path@ + "/"@ + match ev.sound_type {
        SoundType::RANDOM => variant_name(roll),
        SoundType::FIXED => ev.file@,
    } + ".wav"@
}

/// Works out the file that a sound message asks for.
pub fn sound_path(ev: &SoundEvent, roll: u32) -> (r: String)
    ensures
        r@ == sound_path_spec(*ev, roll),
{
    let mut path: String = String::from_str("sounds/");
    path.append(ev.path.as_str());
    path.append("/");
    match ev.sound_type {
        SoundType::RANDOM => {
            let variant: u32 = roll % 4;
            if variant == 0 {
                path.append("0");
            } else if variant == 1 {
                path.append("1");
            } else if variant == 2 {
                path.append("2");
            } else {
                path.append("3");
            }
        },
        SoundType::FIXED => {
            path.append(ev.file.as_str());
        },
    }
    path.append(".wav");
    path
}

/// Whether `path` is the file that the message asks for under some draw.
pub open spec fn is_path_of(path: Seq<char>, ev: SoundEvent) -> bool {
    exists|roll: u32| path == sound_path_spec(ev, roll)
}

/// Turns the sound messages of a frame into the files to play, in order.
/// For each message that leaves the variant open, one number is drawn.
pub fn on_sound_emit(rng: &mut RngResource, events: &Vec<SoundEvent>) -> (paths: Vec<String>)
    ensures
        paths@.len() == events@.len(),
        forall|i: int| 0 <= i < events@.len() ==> is_path_of(#[trigger] paths@[i]@, events@[i]),
        forall|i: int|
            0 <= i < events@.len() && events@[i].sound_type == SoundType::FIXED ==> (
            #[trigger] paths@[i])@ == sound_path_spec(events@[i], 0),
{
    let mut paths: Vec<String> = Vec::new();
    let n: usize = events.len();
    let mut i: usize = 0;
    while i < n
        invariant
            n == events@.len(),
            i <= n,
            paths@.len() == i,
            forall|k: int| 0 <= k < i ==> is_path_of(#[trigger] paths@[k]@, events@[k]),
            forall|k: int|
                0 <= k < i && events@[k].sound_type == SoundType::FIXED ==> (#[trigger] paths@[k])@
                    == sound_path_spec(events@[k], 0),
        decreases n - i,
    {
        let ev: &SoundEvent = &events[i];
        let roll: u32 = match ev.sound_type {
            SoundType::RANDOM => rng.next_u32(),
            SoundType::FIXED => 0,
        };
        let path: String = sound_path(ev, roll);
        assert(is_path_of(path@, *ev));
        paths.push(path);
        i += 1;
    }
    paths
}

} // verus!
