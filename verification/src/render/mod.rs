//! The visualization modes and the helpers shared by the renderers.
use vstd::prelude::*;

pub mod bars;
pub mod spectrogram;

verus! {

/// A visualization mode. `Auto` lets the auto-mode selector pick one of the others.
#[derive(Debug, Clone, Copy, PartialEq, Eq, Structural)]
pub enum ViewMode {
    Auto,
    Wave,
    Bars,
    Rain,
    Pulse,
    Spectrogram,
    Spinner,
    Particles,
}

/// The lower-case name of a mode, as it is written on the command line.
pub open spec fn mode_name(mode: ViewMode) -> Seq<char> {
    match mode {
        ViewMode::Auto => "auto"@,
        ViewMode::Wave => "wave"@,
        ViewMode::Bars => "bars"@,
        ViewMode::Rain => "rain"@,
        ViewMode::Pulse => "pulse"@,
        ViewMode::Spectrogram => "spectrogram"@,
        ViewMode::Spinner => "spinner"@,
        ViewMode::Particles => "particles"@,
    }
}

/// The upper-case label of a mode, as the status bar shows it.
pub open spec fn mode_label(mode: ViewMode) -> Seq<char> {
    match mode {
        ViewMode::Auto => "AUTO"@,
        ViewMode::Wave => "WAVE"@,
        ViewMode::Bars => "BARS"@,
        ViewMode::Rain => "RAIN"@,
        ViewMode::Pulse => "PULSE"@,
        ViewMode::Spectrogram => "SPECTROGRAM"@,
        ViewMode::Spinner => "SPINNER"@,
        ViewMode::Particles => "PARTICLES"@,
    }
}

impl ViewMode {
    /// The upper-case label of the mode.
    pub fn label(self) -> (s: &'static str)
        ensures
            s@ == mode_label(self),
    {
        match self {
            ViewMode::Auto => "AUTO",
            ViewMode::Wave => "WAVE",
            ViewMode::Bars => "BARS",
            ViewMode::Rain => "RAIN",
            ViewMode::Pulse => "PULSE",
            ViewMode::Spectrogram => "SPECTROGRAM",
            ViewMode::Spinner => "SPINNER",
            ViewMode::Particles => "PARTICLES",
        }
    }

    /// The lower-case name of the mode (what `Display` prints).
    pub fn name(self) -> (s: &'static str)
        ensures
            s@ == mode_name(self),
    {
        match self {
            ViewMode::Auto => "auto",
            ViewMode::Wave => "wave",
            ViewMode::Bars => "bars",
            ViewMode::Rain => "rain",
            ViewMode::Pulse => "pulse",
            ViewMode::Spectrogram => "spectrogram",
            ViewMode::Spinner => "spinner",
            ViewMode::Particles => "particles",
        }
    }
}

/// The mode names and labels as the command line and the status bar spell them.
pub proof fn lemma_mode_names()
    ensures
        mode_name(ViewMode::Auto) == "auto"@ && mode_label(ViewMode::Auto) == "AUTO"@,
        mode_name(ViewMode::Wave) == "wave"@ && mode_label(ViewMode::Wave) == "WAVE"@,
        mode_name(ViewMode::Bars) == "bars"@ && mode_label(ViewMode::Bars) == "BARS"@,
        mode_name(ViewMode::Rain) == "rain"@ && mode_label(ViewMode::Rain) == "RAIN"@,
        mode_name(ViewMode::Pulse) == "pulse"@ && mode_label(ViewMode::Pulse) == "PULSE"@,
        mode_name(ViewMode::Spectrogram) == "spectrogram"@ && mode_label(ViewMode::Spectrogram)
            == "SPECTROGRAM"@,
        mode_name(ViewMode::Spinner) == "spinner"@ && mode_label(ViewMode::Spinner)
            == "SPINNER"@,
        mode_name(ViewMode::Particles) == "particles"@ && mode_label(ViewMode::Particles)
            == "PARTICLES"@,
{
}

} // verus!
