//! Sound classification of an analysed audio frame.
use vstd::prelude::*;

verus! {

/// What kind of sound a frame holds.
#[derive(Debug, Clone, Copy, PartialEq, Eq, Structural)]
pub enum SoundType {
    Silence,
    Music,
    Voice,
    Noise,
}

/// The upper-case label of a sound class, as the status bar shows it.
pub open spec fn sound_label(t: SoundType) -> Seq<char> {
    match t {
        SoundType::Silence => "SILENCE"@,
        SoundType::Music => "MUSIC"@,
        SoundType::Voice => "VOICE"@,
        SoundType::Noise => "NOISE"@,
    }
}

impl SoundType {
    /// The upper-case label of the sound class.
    pub fn label(self) -> (s: &'static str)
        ensures
            s@ == sound_label(self),
    {
        match self {
            SoundType::Silence => "SILENCE",
            SoundType::Music => "MUSIC",
            SoundType::Voice => "VOICE",
            SoundType::Noise => "NOISE",
        }
    }
}

/// The outcomes of the level comparisons that decide a frame's class:
/// `silent` when the RMS level is below the silence floor, `treble_dominant` when the
/// treble band clearly exceeds both mid and bass, `mid_dominant` when the mid band is
/// at least close to the bass and clearly exceeds the treble.
#[derive(Debug, Clone, Copy, PartialEq, Eq, Structural)]
pub struct SignalCues {
    pub silent: bool,
    pub treble_dominant: bool,
    pub mid_dominant: bool,
}

/// Silence wins, then wide-band noise, then voice; anything else is music.
pub open spec fn sound_class(cues: SignalCues) -> SoundType {
    if cues.silent {
        SoundType::Silence
    } else if cues.treble_dominant {
        SoundType::Noise
    } else if cues.mid_dominant {
        SoundType::Voice
    } else {
        SoundType::Music
    }
}

/// Classifies a frame from its level comparisons.
pub fn classify(cues: SignalCues) -> (t: SoundType)
    ensures
        t == sound_class(cues),
        cues.silent ==> t == SoundType::Silence,
        t == SoundType::Silence <==> cues.silent,
        t == SoundType::Noise <==> !cues.silent && cues.treble_dominant,
        t == SoundType::Voice <==> !cues.silent && !cues.treble_dominant && cues.mid_dominant,
        t == SoundType::Music <==> !cues.silent && !cues.treble_dominant && !cues.mid_dominant,
{
    if cues.silent {
        SoundType::Silence
    } else if cues.treble_dominant {
        SoundType::Noise
    } else if cues.mid_dominant {
        SoundType::Voice
    } else {
        SoundType::Music
    }
}

/// Classification priorities: a frame below the silence floor is silence whatever its
/// bands say; otherwise wide-band treble is noise; otherwise a dominant mid band is
/// voice; everything else is music. Each class arises exactly on its own cues.
pub proof fn lemma_classification_priorities(cues: SignalCues)
    ensures
        cues.silent ==> sound_class(cues) == SoundType::Silence,
        sound_class(cues) == SoundType::Silence <==> cues.silent,
        sound_class(cues) == SoundType::Noise <==> !cues.silent && cues.treble_dominant,
        sound_class(cues) == SoundType::Voice <==> !cues.silent && !cues.treble_dominant
            && cues.mid_dominant,
        sound_class(cues) == SoundType::Music <==> !cues.silent && !cues.treble_dominant
            && !cues.mid_dominant,
{
}

/// The sound-class labels as the status bar spells them.
pub proof fn lemma_sound_labels()
    ensures
        sound_label(SoundType::Silence) == "SILENCE"@,
        sound_label(SoundType::Music) == "MUSIC"@,
        sound_label(SoundType::Voice) == "VOICE"@,
        sound_label(SoundType::Noise) == "NOISE"@,
{
}

} // verus!
