//! The visualizer's mode state machine: manual and auto modes, theme cycling,
//! beat gating with a cooldown, auto-mode switching with hysteresis, and the
//! bounded histories that feed the renderers.
use vstd::prelude::*;
use crate::render::ViewMode;
use crate::signal::SoundType;
use crate::theme::{next_theme, Theme};

verus! {

/// How many energy readings the beat detector averages over.
pub const BEAT_HISTORY_LEN: usize = 43;

/// How many energy readings the beat detector needs before it may report a beat.
pub const BEAT_MIN_HISTORY: usize = 16;

/// Frames without a beat that follow every beat.
pub const BEAT_COOLDOWN_FRAMES: u8 = 6;

/// Frames that auto mode waits after a switch before it switches again without a beat.
pub const AUTO_SWITCH_COOLDOWN_FRAMES: u8 = 18;

/// The level comparisons that auto mode reads for one frame: `strong_beat` when the
/// beat intensity is high, `quiet` when the RMS level is near silence, `mid_leads` when
/// the mid band clearly exceeds the bass, `treble_leads` when the treble clearly
/// exceeds the bass.
#[derive(Debug, Clone, Copy, PartialEq, Eq, Structural)]
pub struct AutoCues {
    pub strong_beat: bool,
    pub quiet: bool,
    pub mid_leads: bool,
    pub treble_leads: bool,
}

/// What the caller has to do after a key press.
#[derive(Debug, Clone, Copy, PartialEq, Eq, Structural)]
pub enum KeyOutcome {
    /// Leave the program.
    Quit,
    /// Nothing more to do.
    Continue,
    /// Raise the input sensitivity by one step.
    RaiseSensitivity,
    /// Lower the input sensitivity by one step.
    LowerSensitivity,
}

/// The answer to a key: `q` quits, `+` and `-` adjust the sensitivity, other keys need
/// nothing more from the caller.
pub open spec fn key_outcome(key: char) -> KeyOutcome {
    if key == 'q' {
        KeyOutcome::Quit
    } else if key == '+' {
        KeyOutcome::RaiseSensitivity
    } else if key == '-' {
        KeyOutcome::LowerSensitivity
    } else {
        KeyOutcome::Continue
    }
}

/// The mode a digit key selects: 1 wave, 2 bars, 3 rain, 4 pulse, 5 spectrogram,
/// 6 spinner, 7 particles, 8 auto.
pub open spec fn key_mode(key: char) -> Option<ViewMode> {
    if key == '1' {
        Some(ViewMode::Wave)
    } else if key == '2' {
        Some(ViewMode::Bars)
    } else if key == '3' {
        Some(ViewMode::Rain)
    } else if key == '4' {
        Some(ViewMode::Pulse)
    } else if key == '5' {
        Some(ViewMode::Spectrogram)
    } else if key == '6' {
        Some(ViewMode::Spinner)
    } else if key == '7' {
        Some(ViewMode::Particles)
    } else if key == '8' {
        Some(ViewMode::Auto)
    } else {
        None
    }
}

/// The mode and detector state of the visualizer.
#[derive(Debug, Clone, Copy)]
pub struct App {
    /// The selected mode; `Auto` shows `auto_mode`.
    pub mode: ViewMode,
    pub mirror: bool,
    pub no_color: bool,
    pub theme: Theme,
    /// The mode auto mode currently shows.
    pub auto_mode: ViewMode,
    /// The manual mode that toggling out of auto mode returns to.
    pub last_manual_mode: ViewMode,
    /// Whether the latest frame was a beat.
    pub beat: bool,
    pub sound_type: SoundType,
    /// How many energy readings the beat history holds.
    pub energy_count: usize,
    /// Frames left before another beat may be reported.
    pub beat_cooldown: u8,
    /// Frames left before auto mode may switch without a beat.
    pub auto_switch_cooldown: u8,
}

/// One frame less on a cooldown counter, stopping at zero.
pub open spec fn count_down(c: u8) -> u8 {
    if c == 0 {
        0
    } else {
        (c - 1) as u8
    }
}

/// The mode auto mode aims for: beats pick particles (strong) or pulse; silence picks the
/// spinner; voice picks the wave (mid-heavy) or pulse; noise picks rain; music picks the
/// spectrogram (treble-heavy) or bars.
pub open spec fn auto_target(beat: bool, sound: SoundType, cues: AutoCues) -> ViewMode {
    if beat {
        if cues.strong_beat {
            ViewMode::Particles
        } else {
            ViewMode::Pulse
        }
    } else if cues.quiet || sound == SoundType::Silence {
        ViewMode::Spinner
    } else {
        match sound {
            SoundType::Voice => if cues.mid_leads {
                ViewMode::Wave
            } else {
                ViewMode::Pulse
            },
            SoundType::Noise => ViewMode::Rain,
            SoundType::Music => if cues.treble_leads {
                ViewMode::Spectrogram
            } else {
                ViewMode::Bars
            },
            SoundType::Silence => ViewMode::Spinner,
        }
    }
}

impl App {
    /// The state's invariant: the remembered manual mode and the auto selection are
    /// real modes, and the counters stay within their limits.
    pub open spec fn wf(self) -> bool {
        &&& self.last_manual_mode != ViewMode::Auto
        &&& self.auto_mode != ViewMode::Auto
        &&& self.energy_count <= BEAT_HISTORY_LEN
        &&& self.beat_cooldown <= BEAT_COOLDOWN_FRAMES
        &&& self.auto_switch_cooldown <= AUTO_SWITCH_COOLDOWN_FRAMES
    }

    /// The mode on screen.
    pub open spec fn shown_mode(self) -> ViewMode {
        if self.mode == ViewMode::Auto {
            self.auto_mode
        } else {
            self.mode
        }
    }

    /// The state after selecting `mode`.
    pub open spec fn after_set_mode(self, mode: ViewMode) -> App {
        App {
            mode,
            last_manual_mode: if mode != ViewMode::Auto {
                mode
            } else {
                self.last_manual_mode
            },
            ..self
        }
    }

    /// The state after toggling between auto mode and the last manual mode.
    pub open spec fn after_toggle(self) -> App {
        if self.mode == ViewMode::Auto {
            App { mode: self.last_manual_mode, ..self }
        } else {
            App { last_manual_mode: self.mode, mode: ViewMode::Auto, ..self }
        }
    }

    /// The state after moving to the next theme.
    pub open spec fn after_cycle_theme(self) -> App {
        App { theme: next_theme(self.theme), ..self }
    }

    /// The state after a key press: digit keys select modes, `m` toggles auto mode,
    /// `t` cycles the theme; other keys leave the state alone.
    pub open spec fn after_key(self, key: char) -> App {
        if key_mode(key) is Some {
            self.after_set_mode(key_mode(key).unwrap())
        } else if key == 'm' {
            self.after_toggle()
        } else if key == 't' {
            self.after_cycle_theme()
        } else {
            self
        }
    }

    /// Whether a frame whose energy spikes (`spike`) counts as a beat.
    pub open spec fn beat_fires(self, spike: bool) -> bool {
        self.energy_count >= BEAT_MIN_HISTORY && self.beat_cooldown == 0 && spike
    }

    /// The state after the beat detector has seen one energy reading.
    pub open spec fn after_beat(self, spike: bool) -> App {
        let beat = self.beat_fires(spike);
        App {
            beat,
            beat_cooldown: if beat {
                BEAT_COOLDOWN_FRAMES
            } else {
                count_down(self.beat_cooldown)
            },
            energy_count: if self.energy_count < BEAT_HISTORY_LEN {
                (self.energy_count + 1) as usize
            } else {
                self.energy_count
            },
            ..self
        }
    }

    /// The state after one auto-mode update: outside auto mode only the switch cooldown
    /// runs down; in auto mode the selection moves to the target when the cooldown is
    /// over or the frame is a beat, and the cooldown restarts.
    pub open spec fn after_auto_update(self, cues: AutoCues) -> App {
        let target = auto_target(self.beat, self.sound_type, cues);
        if self.mode == ViewMode::Auto && target != self.auto_mode && (
        self.auto_switch_cooldown == 0 || self.beat) {
            App { auto_mode: target, auto_switch_cooldown: AUTO_SWITCH_COOLDOWN_FRAMES, ..self }
        } else {
            App { auto_switch_cooldown: count_down(self.auto_switch_cooldown), ..self }
        }
    }

    /// A new state: auto mode starts on the spinner, and the manual mode to return to is
    /// `mode`, or bars when starting in auto mode.
    pub fn new(mode: ViewMode, mirror: bool, no_color: bool, theme: Theme) -> (app: App)
        ensures
            app.mode == mode,
            app.mirror == mirror,
            app.no_color == no_color,
            app.theme == theme,
            app.auto_mode == ViewMode::Spinner,
            app.last_manual_mode == (if mode == ViewMode::Auto {
                ViewMode::Bars
            } else {
                mode
            }),
            !app.beat,
            app.sound_type == SoundType::Silence,
            app.energy_count == 0,
            app.beat_cooldown == 0,
            app.auto_switch_cooldown == 0,
            app.wf(),
    {
        App {
            mode,
            mirror,
            no_color,
            theme,
            auto_mode: ViewMode::Spinner,
            last_manual_mode: if mode == ViewMode::Auto {
                ViewMode::Bars
            } else {
                mode
            },
            beat: false,
            sound_type: SoundType::Silence,
            energy_count: 0,
            beat_cooldown: 0,
            auto_switch_cooldown: 0,
        }
    }

    /// Selects `mode`; a manual mode is also remembered for toggling back from auto.
    pub fn set_mode(&mut self, mode: ViewMode)
        ensures
            *final(self) == old(self).after_set_mode(mode),
            old(self).wf() ==> final(self).wf(),
    {
        if mode != ViewMode::Auto {
            self.last_manual_mode = mode;
        }
        self.mode = mode;
    }

    /// Leaves auto mode for the last manual mode, or enters auto mode remembering the
    /// current manual mode.
    pub fn toggle_auto_manual(&mut self)
        ensures
            *final(self) == old(self).after_toggle(),
            old(self).wf() ==> final(self).wf(),
    {
        if self.mode == ViewMode::Auto {
            self.mode = self.last_manual_mode;
        } else {
            self.last_manual_mode = self.mode;
            self.mode = ViewMode::Auto;
        }
    }

    /// The mode on screen: the auto selection in auto mode, the selected mode otherwise.
    pub fn active_mode(&self) -> (m: ViewMode)
        ensures
            m == self.shown_mode(),
    {
        if self.mode == ViewMode::Auto {
            self.auto_mode
        } else {
            self.mode
        }
    }

    /// Moves to the next colour theme.
    pub fn cycle_theme(&mut self)
        ensures
            *final(self) == old(self).after_cycle_theme(),
            old(self).wf() ==> final(self).wf(),
    {
        self.theme = self.theme.next();
    }

    /// Applies a key press to the state and tells the caller what else to do.
    pub fn handle_key(&mut self, key: char) -> (r: KeyOutcome)
        ensures
            *final(self) == old(self).after_key(key),
            r == key_outcome(key),
            old(self).wf() ==> final(self).wf(),
            key == '1' ==> final(self).mode == ViewMode::Wave,
            key == '2' ==> final(self).mode == ViewMode::Bars,
            key == '3' ==> final(self).mode == ViewMode::Rain,
            key == '4' ==> final(self).mode == ViewMode::Pulse,
            key == '5' ==> final(self).mode == ViewMode::Spectrogram,
            key == '6' ==> final(self).mode == ViewMode::Spinner,
            key == '7' ==> final(self).mode == ViewMode::Particles,
            key == '8' ==> final(self).mode == ViewMode::Auto,
            key == 'q' ==> r == KeyOutcome::Quit,
            key == '+' ==> r == KeyOutcome::RaiseSensitivity,
            key == '-' ==> r == KeyOutcome::LowerSensitivity,
    {
        let mode = if key == '1' {
            Some(ViewMode::Wave)
        } else if key == '2' {
            Some(ViewMode::Bars)
        } else if key == '3' {
            Some(ViewMode::Rain)
        } else if key == '4' {
            Some(ViewMode::Pulse)
        } else if key == '5' {
            Some(ViewMode::Spectrogram)
        } else if key == '6' {
            Some(ViewMode::Spinner)
        } else if key == '7' {
            Some(ViewMode::Particles)
        } else if key == '8' {
            Some(ViewMode::Auto)
        } else {
            None
        };
        match mode {
            Some(m) => self.set_mode(m),
            None => {
                if key == 'm' {
                    self.toggle_auto_manual();
                } else if key == 't' {
                    self.cycle_theme();
                }
            },
        }
        if key == 'q' {
            KeyOutcome::Quit
        } else if key == '+' {
            KeyOutcome::RaiseSensitivity
        } else if key == '-' {
            KeyOutcome::LowerSensitivity
        } else {
            KeyOutcome::Continue
        }
    }

    /// Records one energy reading. `spike` says whether the reading exceeds the adaptive
    /// threshold over the history; a beat is reported only with enough history and no
    /// cooldown running, and every beat starts the cooldown.
    pub fn detect_beat(&mut self, spike: bool)
        ensures
            *final(self) == old(self).after_beat(spike),
            final(self).beat <==> old(self).beat_fires(spike),
            final(self).beat ==> final(self).beat_cooldown == BEAT_COOLDOWN_FRAMES,
            old(self).wf() ==> final(self).wf(),
    {
        self.beat = self.energy_count >= BEAT_MIN_HISTORY && self.beat_cooldown == 0 && spike;
        if self.beat {
            self.beat_cooldown = BEAT_COOLDOWN_FRAMES;
        } else {
            self.beat_cooldown = self.beat_cooldown.saturating_sub(1);
        }
        if self.energy_count < BEAT_HISTORY_LEN {
            self.energy_count = self.energy_count + 1;
        }
    }

    /// The mode auto mode aims for on this frame.
    pub fn choose_auto_mode(&self, cues: AutoCues) -> (m: ViewMode)
        ensures
            m == auto_target(self.beat, self.sound_type, cues),
            m != ViewMode::Auto,
            self.beat ==> m == (if cues.strong_beat {
                ViewMode::Particles
            } else {
                ViewMode::Pulse
            }),
            !self.beat && (cues.quiet || self.sound_type == SoundType::Silence) ==> m
                == ViewMode::Spinner,
            !self.beat && !cues.quiet && self.sound_type == SoundType::Noise ==> m
                == ViewMode::Rain,
            !self.beat && !cues.quiet && self.sound_type == SoundType::Voice ==> m == (
            if cues.mid_leads {
                ViewMode::Wave
            } else {
                ViewMode::Pulse
            }),
            !self.beat && !cues.quiet && self.sound_type == SoundType::Music ==> m == (
            if cues.treble_leads {
                ViewMode::Spectrogram
            } else {
                ViewMode::Bars
            }),
    {
        if self.beat {
            return if cues.strong_beat {
                ViewMode::Particles
            } else {
                ViewMode::Pulse
            };
        }
        if cues.quiet || self.sound_type == SoundType::Silence {
            return ViewMode::Spinner;
        }
        match self.sound_type {
            SoundType::Voice => {
                if cues.mid_leads {
                    ViewMode::Wave
                } else {
                    ViewMode::Pulse
                }
            },
            SoundType::Noise => ViewMode::Rain,
            SoundType::Music => {
                if cues.treble_leads {
                    ViewMode::Spectrogram
                } else {
                    ViewMode::Bars
                }
            },
            SoundType::Silence => ViewMode::Spinner,
        }
    }

    /// Updates the auto selection for this frame.
    pub fn update_auto_mode(&mut self, cues: AutoCues)
        ensures
            *final(self) == old(self).after_auto_update(cues),
            old(self).mode != ViewMode::Auto ==> final(self).auto_mode == old(self).auto_mode,
            final(self).auto_mode != old(self).auto_mode ==> {
                &&& old(self).mode == ViewMode::Auto
                &&& old(self).auto_switch_cooldown == 0 || old(self).beat
                &&& final(self).auto_mode == auto_target(old(self).beat, old(self).sound_type, cues)
                &&& final(self).auto_switch_cooldown == AUTO_SWITCH_COOLDOWN_FRAMES
            },
            final(self).auto_mode == old(self).auto_mode ==> final(self).auto_switch_cooldown
                == (if old(self).auto_switch_cooldown == 0 {
                0
            } else {
                old(self).auto_switch_cooldown - 1
            }),
            old(self).mode == ViewMode::Auto && (old(self).auto_switch_cooldown == 0
                || old(self).beat) ==> final(self).auto_mode == auto_target(
                old(self).beat,
                old(self).sound_type,
                cues,
            ),
            final(self).mode == old(self).mode && final(self).beat == old(self).beat
                && final(self).theme == old(self).theme,
            old(self).wf() ==> final(self).wf(),
    {
        if self.mode != ViewMode::Auto {
            self.auto_switch_cooldown = self.auto_switch_cooldown.saturating_sub(1);
            return;
        }
        let target = self.choose_auto_mode(cues);
        let should_switch = target != self.auto_mode && (self.auto_switch_cooldown == 0
            || self.beat);
        if should_switch {
            self.auto_mode = target;
            self.auto_switch_cooldown = AUTO_SWITCH_COOLDOWN_FRAMES;
        } else {
            self.auto_switch_cooldown = self.auto_switch_cooldown.saturating_sub(1);
        }
    }
}

/// The state after the beat detector has seen the readings `spikes`, oldest first.
pub open spec fn beat_run(s: App, spikes: Seq<bool>) -> App
    decreases spikes.len(),
{
    if spikes.len() == 0 {
        s
    } else {
        beat_run(s, spikes.drop_last()).after_beat(spikes.last())
    }
}

/// One audio frame as the visualizer runs it: the beat detector, then auto mode.
pub open spec fn frame(s: App, spike: bool, cues: AutoCues) -> App {
    s.after_beat(spike).after_auto_update(cues)
}

/// The state after the frames `frames`, oldest first.
pub open spec fn frame_run(s: App, frames: Seq<(bool, AutoCues)>) -> App
    decreases frames.len(),
{
    if frames.len() == 0 {
        s
    } else {
        let last = frames.last();
        frame(frame_run(s, frames.drop_last()), last.0, last.1)
    }
}

/// Toggling twice restores the selected mode; toggling out of auto mode shows the last
/// manual mode, and toggling into auto mode remembers the manual mode it left.
pub proof fn lemma_toggle_round_trip(s: App)
    ensures
        s.after_toggle().after_toggle().mode == s.mode,
        s.mode == ViewMode::Auto ==> s.after_toggle().mode == s.last_manual_mode,
        s.mode != ViewMode::Auto ==> s.after_toggle().mode == ViewMode::Auto
            && s.after_toggle().last_manual_mode == s.mode,
{
}

/// The documented keys round-trip: after picking a manual mode with a digit key, `8`
/// enters auto mode and `m` returns to that manual mode; pressing `m` twice changes
/// no mode.
pub proof fn lemma_keys_round_trip(s: App, key: char)
    ensures
        s.after_key('m').after_key('m').mode == s.mode,
        key_mode(key) is Some && key_mode(key).unwrap() != ViewMode::Auto ==> {
            &&& s.after_key(key).after_key('8').shown_mode() == s.auto_mode
            &&& s.after_key(key).after_key('8').after_key('m').mode == key_mode(key).unwrap()
        },
{
}

/// Under the invariant the screen always shows a concrete visualization, never `Auto`.
pub proof fn lemma_shown_mode_is_concrete(s: App)
    requires
        s.wf(),
    ensures
        s.shown_mode() != ViewMode::Auto,
{
}

/// After selecting a manual mode the screen shows it; after selecting auto mode the
/// screen shows the auto selection.
pub proof fn lemma_set_mode_shows(s: App, mode: ViewMode)
    ensures
        s.after_set_mode(mode).shown_mode() == (if mode == ViewMode::Auto {
            s.auto_mode
        } else {
            mode
        }),
        mode != ViewMode::Auto ==> s.after_set_mode(mode).after_toggle().after_toggle().mode
            == mode,
{
}

/// Cycling the theme four times returns to the starting theme and changes nothing else.
pub proof fn lemma_cycle_theme_returns(s: App)
    ensures
        s.after_cycle_theme().after_cycle_theme().after_cycle_theme().after_cycle_theme() == s,
{
    crate::theme::lemma_theme_cycle(s.theme);
}

/// While the beat cooldown runs, readings never give a beat, whatever they are, and the
/// cooldown drops by one per reading.
pub proof fn lemma_beat_cooldown_runs_down(s: App, spikes: Seq<bool>)
    requires
        spikes.len() <= s.beat_cooldown,
    ensures
        beat_run(s, spikes).beat_cooldown == s.beat_cooldown - spikes.len(),
        spikes.len() > 0 ==> !beat_run(s, spikes).beat,
    decreases spikes.len(),
{
    if spikes.len() > 0 {
        lemma_beat_cooldown_runs_down(s, spikes.drop_last());
    }
}

/// After a beat, the next `BEAT_COOLDOWN_FRAMES` readings give no beat.
pub proof fn lemma_no_beat_after_beat(s: App, spike: bool, spikes: Seq<bool>)
    requires
        s.after_beat(spike).beat,
        1 <= spikes.len() <= BEAT_COOLDOWN_FRAMES,
    ensures
        !beat_run(s.after_beat(spike), spikes).beat,
{
    lemma_beat_cooldown_runs_down(s.after_beat(spike), spikes);
}

/// Until the history holds `BEAT_MIN_HISTORY` readings no reading gives a beat; so a
/// new state reports no beat in its first `BEAT_MIN_HISTORY` readings.
pub proof fn lemma_no_beat_before_history(s: App, spikes: Seq<bool>)
    requires
        s.energy_count + spikes.len() <= BEAT_MIN_HISTORY,
    ensures
        beat_run(s, spikes).energy_count == s.energy_count + spikes.len(),
        spikes.len() > 0 ==> !beat_run(s, spikes).beat,
    decreases spikes.len(),
{
    if spikes.len() > 0 {
        lemma_no_beat_before_history(s, spikes.drop_last());
    }
}

/// Without beats, auto mode keeps its selection while the switch cooldown runs, and the
/// cooldown drops by one per frame.
pub proof fn lemma_auto_mode_steady(s: App, frames: Seq<(bool, AutoCues)>)
    requires
        !s.beat,
        forall|i: int| 0 <= i < frames.len() ==> !(#[trigger] frames[i]).0,
        frames.len() <= s.auto_switch_cooldown,
    ensures
        frame_run(s, frames).auto_mode == s.auto_mode,
        frame_run(s, frames).auto_switch_cooldown == s.auto_switch_cooldown - frames.len(),
        !frame_run(s, frames).beat,
    decreases frames.len(),
{
    if frames.len() > 0 {
        let init = frames.drop_last();
        assert forall|i: int| 0 <= i < init.len() implies !(#[trigger] init[i]).0 by {
            assert(init[i] == frames[i]);
        }
        lemma_auto_mode_steady(s, init);
        assert(!frames[frames.len() - 1].0);
    }
}

/// After auto mode switches, it keeps the new selection for the next
/// `AUTO_SWITCH_COOLDOWN_FRAMES` frames unless a beat arrives.
pub proof fn lemma_auto_switch_then_steady(
    s: App,
    spike: bool,
    cues: AutoCues,
    frames: Seq<(bool, AutoCues)>,
)
    requires
        frame(s, spike, cues).auto_mode != s.auto_mode,
        !frame(s, spike, cues).beat,
        forall|i: int| 0 <= i < frames.len() ==> !(#[trigger] frames[i]).0,
        frames.len() <= AUTO_SWITCH_COOLDOWN_FRAMES,
    ensures
        frame_run(frame(s, spike, cues), frames).auto_mode == frame(s, spike, cues).auto_mode,
{
    lemma_auto_mode_steady(frame(s, spike, cues), frames);
}

/// The newest `cap` items of `items`, or all of them when there are fewer.
pub open spec fn newest<T>(items: Seq<T>, cap: nat) -> Seq<T> {
    if items.len() > cap {
        items.skip(items.len() - cap)
    } else {
        items
    }
}

/// Appends `samples` to the rolling buffer `buf` and drops the oldest items beyond `cap`.
pub fn push_rolling<T: Copy>(buf: &mut Vec<T>, samples: &[T], cap: usize)
    requires
        old(buf).len() + samples.len() <= usize::MAX,
    ensures
        final(buf)@ == newest(old(buf)@ + samples@, cap as nat),
        final(buf)@ == (old(buf)@ + samples@).subrange(
            old(buf)@.len() + samples@.len() - final(buf)@.len(),
            (old(buf)@.len() + samples@.len()) as int,
        ),
        final(buf)@.len() <= cap,
        final(buf)@.len() == (if old(buf)@.len() + samples@.len() > cap {
            cap as nat
        } else {
            old(buf)@.len() + samples@.len()
        }),
{
    let ghost start = buf@;
    let n = samples.len();
    let mut i: usize = 0;
    while i < n
        invariant
            n == samples@.len(),
            i <= n,
            start.len() + n <= usize::MAX,
            buf@ == start + samples@.take(i as int),
        decreases n - i,
    {
        buf.push(samples[i]);
        assert(samples@.take((i + 1) as int) == samples@.take(i as int).push(samples@[i as int]));
        i = i + 1;
    }
    assert(samples@.take(n as int) == samples@);
    let len = buf.len();
    if len > cap {
        let tail = buf.split_off(len - cap);
        *buf = tail;
    }
}

/// Puts `row` in front of `history` (newest first) and keeps at most `limit` rows.
pub fn push_front_bounded<T>(history: &mut Vec<T>, row: T, limit: usize)
    requires
        old(history).len() < usize::MAX,
    ensures
        final(history)@ == (if old(history)@.len() + 1 > limit {
            seq![row].add(old(history)@).take(limit as int)
        } else {
            seq![row].add(old(history)@)
        }),
        final(history)@.len() == (if old(history)@.len() + 1 > limit {
            limit as nat
        } else {
            old(history)@.len() + 1
        }),
        limit > 0 ==> final(history)@[0] == row,
{
    history.insert(0, row);
    if history.len() > limit {
        history.truncate(limit);
    }
    assert(old(history)@.insert(0, row) =~= seq![row].add(old(history)@));
}

/// The documented key table: 1 wave, 2 bars, 3 rain, 4 pulse, 5 spectrogram, 6 spinner,
/// 7 particles (each also remembered as the manual mode), 8 auto, `m` toggles, `t`
/// cycles the theme, `q` quits, `+`/`-` adjust the sensitivity.
pub proof fn lemma_key_table(s: App)
    ensures
        s.after_key('1').mode == ViewMode::Wave && s.after_key('1').last_manual_mode
            == ViewMode::Wave,
        s.after_key('2').mode == ViewMode::Bars && s.after_key('2').last_manual_mode
            == ViewMode::Bars,
        s.after_key('3').mode == ViewMode::Rain && s.after_key('3').last_manual_mode
            == ViewMode::Rain,
        s.after_key('4').mode == ViewMode::Pulse && s.after_key('4').last_manual_mode
            == ViewMode::Pulse,
        s.after_key('5').mode == ViewMode::Spectrogram && s.after_key('5').last_manual_mode
            == ViewMode::Spectrogram,
        s.after_key('6').mode == ViewMode::Spinner && s.after_key('6').last_manual_mode
            == ViewMode::Spinner,
        s.after_key('7').mode == ViewMode::Particles && s.after_key('7').last_manual_mode
            == ViewMode::Particles,
        s.after_key('8').mode == ViewMode::Auto && s.after_key('8').last_manual_mode
            == s.last_manual_mode,
        s.mode == ViewMode::Auto ==> s.after_key('m').mode == s.last_manual_mode,
        s.mode != ViewMode::Auto ==> s.after_key('m').mode == ViewMode::Auto,
        s.after_key('t').theme == next_theme(s.theme) && s.after_key('t').mode == s.mode,
        key_outcome('q') == KeyOutcome::Quit,
        key_outcome('+') == KeyOutcome::RaiseSensitivity,
        key_outcome('-') == KeyOutcome::LowerSensitivity,
        key_outcome('m') == KeyOutcome::Continue && key_outcome('1') == KeyOutcome::Continue,
        s.after_key('x') == s && s.after_key('q') == s,
{
}

/// Auto mode's targets: a beat targets particles when strong and pulse otherwise;
/// without a beat, low input or silence always targets the spinner; otherwise noise
/// targets rain, voice targets the wave (mid-heavy) or pulse, and music targets the
/// spectrogram (treble-heavy) or bars. The target is never `Auto`.
pub proof fn lemma_auto_targets(beat: bool, sound: SoundType, cues: AutoCues)
    ensures
        auto_target(beat, sound, cues) != ViewMode::Auto,
        beat && cues.strong_beat ==> auto_target(beat, sound, cues) == ViewMode::Particles,
        beat && !cues.strong_beat ==> auto_target(beat, sound, cues) == ViewMode::Pulse,
        !beat && (cues.quiet || sound == SoundType::Silence) ==> auto_target(beat, sound, cues)
            == ViewMode::Spinner,
        !beat && !cues.quiet && sound == SoundType::Noise ==> auto_target(beat, sound, cues)
            == ViewMode::Rain,
        !beat && !cues.quiet && sound == SoundType::Voice && cues.mid_leads ==> auto_target(
            beat,
            sound,
            cues,
        ) == ViewMode::Wave,
        !beat && !cues.quiet && sound == SoundType::Voice && !cues.mid_leads ==> auto_target(
            beat,
            sound,
            cues,
        ) == ViewMode::Pulse,
        !beat && !cues.quiet && sound == SoundType::Music && cues.treble_leads ==> auto_target(
            beat,
            sound,
            cues,
        ) == ViewMode::Spectrogram,
        !beat && !cues.quiet && sound == SoundType::Music && !cues.treble_leads ==> auto_target(
            beat,
            sound,
            cues,
        ) == ViewMode::Bars,
{
}

/// Auto switching: the selection changes only in auto mode, only when the switch
/// cooldown is over or the frame is a beat, only to the frame's target, and every
/// switch (beat-driven ones included) restarts the cooldown; frames without a switch
/// run the cooldown down by one.
pub proof fn lemma_auto_switching(s: App, cues: AutoCues)
    ensures
        s.after_auto_update(cues).auto_mode != s.auto_mode ==> {
            &&& s.mode == ViewMode::Auto
            &&& s.auto_switch_cooldown == 0 || s.beat
            &&& s.after_auto_update(cues).auto_mode == auto_target(s.beat, s.sound_type, cues)
            &&& s.after_auto_update(cues).auto_switch_cooldown == AUTO_SWITCH_COOLDOWN_FRAMES
        },
        s.after_auto_update(cues).auto_mode == s.auto_mode ==> s.after_auto_update(
            cues,
        ).auto_switch_cooldown == (if s.auto_switch_cooldown == 0 {
            0
        } else {
            s.auto_switch_cooldown - 1
        }),
        s.mode == ViewMode::Auto && (s.auto_switch_cooldown == 0 || s.beat) ==> s.after_auto_update(
            cues,
        ).auto_mode == auto_target(s.beat, s.sound_type, cues),
        s.mode == ViewMode::Auto && s.beat && auto_target(s.beat, s.sound_type, cues)
            != s.auto_mode ==> s.after_auto_update(cues).auto_switch_cooldown
            == AUTO_SWITCH_COOLDOWN_FRAMES,
{
}

/// Beat gating: a reading is a beat exactly when at least 16 readings are held, no
/// cooldown runs and the reading spikes; a beat sets a 6-frame cooldown, any other
/// reading runs the cooldown down by one; the history count grows by one up to 43.
pub proof fn lemma_beat_rules(s: App, spike: bool)
    ensures
        s.after_beat(spike).beat <==> s.energy_count >= 16 && s.beat_cooldown == 0 && spike,
        s.after_beat(spike).beat ==> s.after_beat(spike).beat_cooldown == 6,
        !s.after_beat(spike).beat ==> s.after_beat(spike).beat_cooldown == (if s.beat_cooldown
            == 0 {
            0
        } else {
            s.beat_cooldown - 1
        }),
        s.energy_count < 43 ==> s.after_beat(spike).energy_count == s.energy_count + 1,
        s.energy_count >= 43 ==> s.after_beat(spike).energy_count == s.energy_count,
        s.after_beat(spike).mode == s.mode && s.after_beat(spike).auto_mode == s.auto_mode,
{
}

} // verus!
