use mproc::color_mode::ColorMode;

#[test]
fn file_output_colors_only_on_always() {
    assert!(!ColorMode::Auto.file());
    assert!(ColorMode::Always.file());
    assert!(!ColorMode::Never.file());
}

#[test]
fn resolve_follows_the_destination_only_on_auto() {
    assert!(ColorMode::Auto.resolve(true));
    assert!(!ColorMode::Auto.resolve(false));
    assert!(ColorMode::Always.resolve(false));
    assert!(!ColorMode::Never.resolve(true));
}

#[test]
fn default_mode_is_auto() {
    assert_eq!(ColorMode::default(), ColorMode::Auto);
}

#[test]
fn always_and_never_override_every_destination() {
    assert!(ColorMode::Always.stdout());
    assert!(ColorMode::Always.stderr());
    assert!(!ColorMode::Never.stdout());
    assert!(!ColorMode::Never.stderr());
}
