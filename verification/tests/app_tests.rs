use vaudio::app::{
    push_front_bounded, push_rolling, App, AutoCues, KeyOutcome, AUTO_SWITCH_COOLDOWN_FRAMES,
    BEAT_COOLDOWN_FRAMES,
};
use vaudio::render::ViewMode;
use vaudio::signal::SoundType;
use vaudio::theme::Theme;

/// The energy history the visualizer keeps beside the state, with its spike rule.
struct Energy {
    history: Vec<f32>,
}

impl Energy {
    fn new() -> Self {
        Energy { history: Vec::new() }
    }

    fn detect(&mut self, app: &mut App, energy: f32) {
        let avg = if self.history.is_empty() {
            0.0
        } else {
            self.history.iter().sum::<f32>() / self.history.len() as f32
        };
        let threshold = avg * 1.45 + 0.03;
        app.detect_beat(energy > threshold && energy > 0.05);
        push_rolling(&mut self.history, &[energy], 43);
    }
}

fn cues(rms: f32, bass: f32, mid: f32, treble: f32, beat_intensity: f32) -> AutoCues {
    AutoCues {
        strong_beat: beat_intensity > 0.45,
        quiet: rms < 0.03,
        mid_leads: mid > bass * 1.2,
        treble_leads: treble > bass * 1.15,
    }
}

#[test]
fn detect_beat_triggers_on_energy_spikes() {
    let mut app = App::new(ViewMode::Bars, false, false, Theme::Neon);
    let mut energy = Energy::new();
    for _ in 0..20 {
        energy.detect(&mut app, 0.08);
    }

    energy.detect(&mut app, 0.28);

    assert!(app.beat);
}

#[test]
fn detect_beat_uses_cooldown_between_spikes() {
    let mut app = App::new(ViewMode::Bars, false, false, Theme::Neon);
    let mut energy = Energy::new();
    for _ in 0..20 {
        energy.detect(&mut app, 0.08);
    }

    energy.detect(&mut app, 0.28);
    assert_eq!(app.beat_cooldown, BEAT_COOLDOWN_FRAMES);

    energy.detect(&mut app, 0.28);
    assert!(!app.beat);
}

#[test]
fn active_mode_uses_auto_selection_only_in_auto_mode() {
    let mut app = App::new(ViewMode::Bars, false, false, Theme::Neon);
    app.auto_mode = ViewMode::Particles;
    assert_eq!(app.active_mode(), ViewMode::Bars);

    app.set_mode(ViewMode::Auto);
    assert_eq!(app.active_mode(), ViewMode::Particles);
}

#[test]
fn toggle_auto_manual_returns_to_last_manual_mode() {
    let mut app = App::new(ViewMode::Bars, false, false, Theme::Neon);
    app.set_mode(ViewMode::Spectrogram);

    app.toggle_auto_manual();
    assert_eq!(app.mode, ViewMode::Auto);

    app.toggle_auto_manual();
    assert_eq!(app.mode, ViewMode::Spectrogram);
}

#[test]
fn numeric_modes_update_last_manual_mode() {
    let mut app = App::new(ViewMode::Auto, false, false, Theme::Neon);

    app.set_mode(ViewMode::Rain);
    app.toggle_auto_manual();
    app.toggle_auto_manual();

    assert_eq!(app.mode, ViewMode::Rain);
}

#[test]
fn auto_mode_selects_spinner_for_silence() {
    let mut app = App::new(ViewMode::Auto, false, false, Theme::Neon);
    app.sound_type = SoundType::Silence;

    app.update_auto_mode(cues(0.0, 0.0, 0.0, 0.0, 0.0));

    assert_eq!(app.auto_mode, ViewMode::Spinner);
}

#[test]
fn auto_mode_selects_particles_for_strong_beats() {
    let mut app = App::new(ViewMode::Auto, false, false, Theme::Neon);
    app.beat = true;

    app.update_auto_mode(cues(0.8, 0.0, 0.0, 0.0, 0.9));

    assert_eq!(app.auto_mode, ViewMode::Particles);
}

#[test]
fn auto_mode_selects_bars_for_bass_heavy_music() {
    let mut app = App::new(ViewMode::Auto, false, false, Theme::Neon);
    app.sound_type = SoundType::Music;

    app.update_auto_mode(cues(0.3, 0.6, 0.0, 0.2, 0.0));

    assert_eq!(app.auto_mode, ViewMode::Bars);
}

#[test]
fn new_app_starts_on_spinner_and_remembers_bars_from_auto() {
    let app = App::new(ViewMode::Auto, true, true, Theme::Ice);
    assert_eq!(app.auto_mode, ViewMode::Spinner);
    assert_eq!(app.last_manual_mode, ViewMode::Bars);
    assert_eq!(app.active_mode(), ViewMode::Spinner);
    assert!(app.mirror && app.no_color);
    assert_eq!(app.theme, Theme::Ice);
    let manual = App::new(ViewMode::Wave, false, false, Theme::Neon);
    assert_eq!(manual.last_manual_mode, ViewMode::Wave);
}

#[test]
fn auto_targets_follow_the_documented_mapping() {
    let mut app = App::new(ViewMode::Auto, false, false, Theme::Neon);
    app.sound_type = SoundType::Voice;
    assert_eq!(app.choose_auto_mode(cues(0.3, 0.2, 0.5, 0.1, 0.0)), ViewMode::Wave);
    assert_eq!(app.choose_auto_mode(cues(0.3, 0.5, 0.5, 0.1, 0.0)), ViewMode::Pulse);
    app.sound_type = SoundType::Noise;
    assert_eq!(app.choose_auto_mode(cues(0.3, 0.1, 0.1, 0.6, 0.0)), ViewMode::Rain);
    app.sound_type = SoundType::Music;
    assert_eq!(app.choose_auto_mode(cues(0.3, 0.2, 0.1, 0.6, 0.0)), ViewMode::Spectrogram);
    assert_eq!(app.choose_auto_mode(cues(0.01, 0.2, 0.1, 0.6, 0.0)), ViewMode::Spinner);
    app.beat = true;
    assert_eq!(app.choose_auto_mode(cues(0.3, 0.2, 0.1, 0.6, 0.3)), ViewMode::Pulse);
}

#[test]
fn no_beat_before_sixteen_readings() {
    let mut app = App::new(ViewMode::Bars, false, false, Theme::Neon);
    for _ in 0..16 {
        app.detect_beat(true);
        assert!(!app.beat);
    }
    assert_eq!(app.energy_count, 16);
    app.detect_beat(true);
    assert!(app.beat);
}

#[test]
fn cooldown_blocks_the_next_six_readings() {
    let mut app = App::new(ViewMode::Bars, false, false, Theme::Neon);
    for _ in 0..16 {
        app.detect_beat(false);
    }
    app.detect_beat(true);
    assert!(app.beat);
    for frame in 0..6 {
        app.detect_beat(true);
        assert!(!app.beat, "beat during cooldown frame {}", frame);
    }
    app.detect_beat(true);
    assert!(app.beat);
}

#[test]
fn energy_count_stops_at_history_length() {
    let mut app = App::new(ViewMode::Bars, false, false, Theme::Neon);
    for _ in 0..100 {
        app.detect_beat(false);
    }
    assert_eq!(app.energy_count, 43);
}

#[test]
fn auto_mode_waits_out_the_switch_cooldown() {
    let mut app = App::new(ViewMode::Auto, false, false, Theme::Neon);
    app.sound_type = SoundType::Noise;
    app.update_auto_mode(cues(0.3, 0.1, 0.1, 0.6, 0.0));
    assert_eq!(app.auto_mode, ViewMode::Rain);
    assert_eq!(app.auto_switch_cooldown, AUTO_SWITCH_COOLDOWN_FRAMES);

    app.sound_type = SoundType::Music;
    for _ in 0..18 {
        app.update_auto_mode(cues(0.3, 0.6, 0.1, 0.1, 0.0));
        assert_eq!(app.auto_mode, ViewMode::Rain);
    }
    app.update_auto_mode(cues(0.3, 0.6, 0.1, 0.1, 0.0));
    assert_eq!(app.auto_mode, ViewMode::Bars);
}

#[test]
fn beats_switch_auto_mode_during_cooldown() {
    let mut app = App::new(ViewMode::Auto, false, false, Theme::Neon);
    app.sound_type = SoundType::Noise;
    app.update_auto_mode(cues(0.3, 0.1, 0.1, 0.6, 0.0));
    assert_eq!(app.auto_mode, ViewMode::Rain);
    app.beat = true;
    app.update_auto_mode(cues(0.3, 0.1, 0.1, 0.6, 0.2));
    assert_eq!(app.auto_mode, ViewMode::Pulse);
}

#[test]
fn manual_mode_leaves_auto_selection_alone() {
    let mut app = App::new(ViewMode::Bars, false, false, Theme::Neon);
    app.sound_type = SoundType::Noise;
    app.auto_switch_cooldown = 3;
    app.update_auto_mode(cues(0.3, 0.1, 0.1, 0.6, 0.0));
    assert_eq!(app.auto_mode, ViewMode::Spinner);
    assert_eq!(app.auto_switch_cooldown, 2);
}

#[test]
fn keys_switch_modes_themes_and_quit() {
    let mut app = App::new(ViewMode::Bars, false, false, Theme::Neon);
    assert_eq!(app.handle_key('5'), KeyOutcome::Continue);
    assert_eq!(app.mode, ViewMode::Spectrogram);
    assert_eq!(app.handle_key('8'), KeyOutcome::Continue);
    assert_eq!(app.mode, ViewMode::Auto);
    assert_eq!(app.handle_key('m'), KeyOutcome::Continue);
    assert_eq!(app.mode, ViewMode::Spectrogram);
    assert_eq!(app.handle_key('m'), KeyOutcome::Continue);
    assert_eq!(app.mode, ViewMode::Auto);
    assert_eq!(app.handle_key('t'), KeyOutcome::Continue);
    assert_eq!(app.theme, Theme::Fire);
    assert_eq!(app.handle_key('+'), KeyOutcome::RaiseSensitivity);
    assert_eq!(app.handle_key('-'), KeyOutcome::LowerSensitivity);
    assert_eq!(app.handle_key('x'), KeyOutcome::Continue);
    assert_eq!(app.mode, ViewMode::Auto);
    assert_eq!(app.handle_key('q'), KeyOutcome::Quit);
}

#[test]
fn cycling_theme_four_times_returns() {
    let mut app = App::new(ViewMode::Bars, false, false, Theme::Ice);
    for _ in 0..4 {
        app.cycle_theme();
    }
    assert_eq!(app.theme, Theme::Ice);
}

#[test]
fn rolling_buffer_keeps_the_newest_samples() {
    let mut buf: Vec<f32> = vec![1.0, 2.0, 3.0];
    push_rolling(&mut buf, &[4.0, 5.0], 4);
    assert_eq!(buf, vec![2.0, 3.0, 4.0, 5.0]);
    push_rolling(&mut buf, &[6.0], 10);
    assert_eq!(buf, vec![2.0, 3.0, 4.0, 5.0, 6.0]);
    push_rolling(&mut buf, &[], 2);
    assert_eq!(buf, vec![5.0, 6.0]);
    push_rolling(&mut buf, &[7.0, 8.0, 9.0], 0);
    assert!(buf.is_empty());
}

#[test]
fn history_puts_newest_row_first_and_stays_bounded() {
    let mut history: Vec<Vec<f32>> = Vec::new();
    push_front_bounded(&mut history, vec![0.1], 2);
    push_front_bounded(&mut history, vec![0.2], 2);
    push_front_bounded(&mut history, vec![0.3], 2);
    assert_eq!(history, vec![vec![0.3], vec![0.2]]);
    push_front_bounded(&mut history, vec![0.4], 0);
    assert!(history.is_empty());
}
