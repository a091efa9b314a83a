//! Audio cues and their tone commands.
//!
//! The core never touches an audio device: it names cues, and a host maps
//! each cue to the tone commands computed here and fires them.

use vstd::prelude::*;

verus! {

/// Tone channel flag: first pulse channel, default mode.
pub const TONE_MODE1: u32 = 0;

/// Tone channel flag: triangle channel.
pub const TONE_TRIANGLE: u32 = 2;

/// Tone channel flag: noise channel.
pub const TONE_NOISE: u32 = 3;

/// Named audio cues the simulation raises.
#[derive(Clone, Copy, PartialEq, Eq, Structural, Debug)]
pub enum Noise {
    Ting,
    SixSeven,
    TungTungTungSahour,
    KaboomNoise,
    Burn,
}

/// One fire-and-forget tone trigger for the host's audio capability.
#[derive(Clone, Copy, PartialEq, Eq, Structural, Debug)]
pub struct ToneCommand {
    pub frequency: u32,
    pub duration: u32,
    pub volume: u32,
    pub flags: u32,
}

/// The tone commands a cue expands to.
pub open spec fn spec_tones_of(noise: Noise) -> Seq<ToneCommand> {
    match noise {
        Noise::Ting => seq![
            ToneCommand { frequency: 300, duration: 3, volume: 5, flags: TONE_MODE1 },
        ],
        Noise::SixSeven => seq![
            ToneCommand { frequency: 100, duration: 3, volume: 5, flags: TONE_MODE1 },
        ],
        Noise::TungTungTungSahour => seq![
            ToneCommand { frequency: 600, duration: 3, volume: 5, flags: TONE_MODE1 },
        ],
        Noise::KaboomNoise => seq![
            ToneCommand { frequency: 300, duration: 60, volume: 15, flags: TONE_NOISE },
            ToneCommand { frequency: 300, duration: 30, volume: 8, flags: TONE_TRIANGLE },
            ToneCommand { frequency: 300, duration: 25, volume: 9, flags: TONE_TRIANGLE },
        ],
        Noise::Burn => seq![
            ToneCommand { frequency: 300, duration: 20, volume: 5, flags: TONE_NOISE },
        ],
    }
}

/// Expand a cue into the tone commands the host should fire, in order.
pub fn play_me_some_tones______boy(noise: Noise) -> (r: Vec<ToneCommand>)
    ensures
        r@ == spec_tones_of(noise),
{
    let mut r: Vec<ToneCommand> = Vec::new();
    match noise {
        Noise::Ting => {
            r.push(ToneCommand { frequency: 300, duration: 3, volume: 5, flags: TONE_MODE1 });
        },
        Noise::SixSeven => {
            r.push(ToneCommand { frequency: 100, duration: 3, volume: 5, flags: TONE_MODE1 });
        },
        Noise::TungTungTungSahour => {
            r.push(ToneCommand { frequency: 600, duration: 3, volume: 5, flags: TONE_MODE1 });
        },
        Noise::KaboomNoise => {
            r.push(ToneCommand { frequency: 300, duration: 60, volume: 15, flags: TONE_NOISE });
            r.push(ToneCommand { frequency: 300, duration: 30, volume: 8, flags: TONE_TRIANGLE });
            r.push(ToneCommand { frequency: 300, duration: 25, volume: 9, flags: TONE_TRIANGLE });
        },
        Noise::Burn => {
            r.push(ToneCommand { frequency: 300, duration: 20, volume: 5, flags: TONE_NOISE });
        },
    }
    proof {
        assert(r@ =~= spec_tones_of(noise));
    }
    r
}

} // verus!
