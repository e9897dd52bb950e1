use vaudio::render::bars::{column_range, get_block_char};
use vaudio::render::spectrogram;
use vaudio::render::ViewMode;

#[test]
fn column_range_never_returns_empty_ranges_for_wide_terminals() {
    for column in 0..120 {
        let range = column_range(8, column, 120).unwrap();
        assert!(!range.is_empty());
        assert!(range.end <= 8);
    }
}

#[test]
fn column_range_handles_wide_terminals() {
    for column in 0..100 {
        let range = spectrogram::column_range(4, column, 100).unwrap();
        assert!(!range.is_empty());
        assert!(range.end <= 4);
    }
}

#[test]
fn column_range_rejects_missing_columns_and_data() {
    assert_eq!(column_range(0, 0, 10), None);
    assert_eq!(column_range(10, 0, 0), None);
    assert_eq!(column_range(10, 10, 10), None);
    assert_eq!(spectrogram::column_range(10, 11, 10), None);
}

#[test]
fn column_range_is_proportional() {
    assert_eq!(column_range(4, 0, 2), Some(0..2));
    assert_eq!(column_range(4, 1, 2), Some(2..4));
    assert_eq!(column_range(512, 3, 80), Some(19..25));
    assert_eq!(column_range(2, 0, 80), Some(0..1));
    assert_eq!(column_range(2, 79, 80), Some(1..2));
}

#[test]
fn column_ranges_tile_narrow_terminals() {
    let len = 512;
    let columns = 80;
    let mut next_start = 0;
    for column in 0..columns {
        let range = column_range(len, column, columns).unwrap();
        assert_eq!(range.start, next_start);
        next_start = range.end;
    }
    assert_eq!(next_start, len);
}

#[test]
fn column_ranges_cover_every_bin_on_wide_terminals() {
    let len = 7;
    let columns = 30;
    let mut covered = vec![false; len];
    for column in 0..columns {
        let range = column_range(len, column, columns).unwrap();
        for i in range {
            covered[i] = true;
        }
    }
    assert!(covered.iter().all(|c| *c));
}

#[test]
fn block_char_is_full_block() {
    assert_eq!(get_block_char(0, 10), "\u{2588}");
    assert_eq!(get_block_char(9, 10), "\u{2588}");
}

#[test]
fn view_mode_names_and_labels() {
    assert_eq!(ViewMode::Spectrogram.name(), "spectrogram");
    assert_eq!(ViewMode::Auto.name(), "auto");
    assert_eq!(ViewMode::Particles.label(), "PARTICLES");
    assert_eq!(ViewMode::Wave.label(), "WAVE");
}
