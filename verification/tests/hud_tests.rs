use vaudio::app::App;
use vaudio::hud::level_meter;
use vaudio::render::ViewMode;
use vaudio::theme::Theme;

#[test]
fn mode_label_shows_auto_target() {
    let mut app = App::new(ViewMode::Auto, false, false, Theme::Neon);
    app.auto_mode = ViewMode::Bars;
    assert_eq!(app.mode_label(), "AUTO > BARS");
    app.set_mode(ViewMode::Wave);
    assert_eq!(app.mode_label(), "WAVE");
}

#[test]
fn level_meters_fill_from_the_left() {
    assert_eq!(level_meter(8, 10), "[########--]");
    assert_eq!(level_meter(0, 5), "[-----]");
    assert_eq!(level_meter(9, 5), "[#####]");
    assert_eq!(level_meter(0, 0), "[]");
}
