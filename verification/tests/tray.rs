use creditbar::models::Severity;
use creditbar::tray::{alpha_channel, icon_rgba, severity_color, tray_title};

#[test]
fn colors_per_severity() {
    assert_eq!(severity_color(Severity::Idle), [200, 200, 205]);
    assert_eq!(severity_color(Severity::Normal), [52, 199, 89]);
    assert_eq!(severity_color(Severity::Warn), [255, 204, 0]);
    assert_eq!(severity_color(Severity::Alert), [255, 69, 58]);
}

#[test]
fn tint_keeps_alpha() {
    let alpha = vec![0u8, 128, 255];
    let rgba = icon_rgba(&alpha, Severity::Warn);
    assert_eq!(rgba, vec![255, 204, 0, 0, 255, 204, 0, 128, 255, 204, 0, 255]);
    assert_eq!(alpha_channel(&rgba), alpha);
    assert_eq!(alpha_channel(&[1, 2, 3, 4, 5, 6]), vec![4]);
}

#[test]
fn tray_titles() {
    assert_eq!(tray_title(6999), "");
    assert_eq!(tray_title(7000), "70%");
    assert_eq!(tray_title(7349), "73%");
    assert_eq!(tray_title(7350), "74%");
    assert_eq!(tray_title(10000), "100%");
}
