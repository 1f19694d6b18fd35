use winghost::platform::PlatformSupport;
use winghost::theme::{Rgb, Theme, ThemeChoice};

#[test]
fn theme_names() {
    assert_eq!(ThemeChoice::Midnight.name(), "Midnight");
    assert_eq!(ThemeChoice::Light.name(), "Light");
    assert_eq!(ThemeChoice::Matrix.name(), "Matrix");
}

#[test]
fn theme_palettes() {
    assert_eq!(
        ThemeChoice::Midnight.theme(),
        Theme { foreground: Rgb(204, 211, 224), background: Rgb(13, 17, 23), cursor: Rgb(110, 168, 254) }
    );
    assert_eq!(
        ThemeChoice::Light.theme(),
        Theme { foreground: Rgb(31, 35, 40), background: Rgb(246, 248, 250), cursor: Rgb(9, 105, 218) }
    );
    assert_eq!(
        ThemeChoice::Matrix.theme(),
        Theme { foreground: Rgb(95, 255, 135), background: Rgb(3, 18, 8), cursor: Rgb(190, 255, 205) }
    );
}

#[test]
fn all_themes_listed_once_in_menu_order() {
    assert_eq!(ThemeChoice::ALL, [ThemeChoice::Midnight, ThemeChoice::Light, ThemeChoice::Matrix]);
}

#[test]
fn platform_descriptions() {
    assert_eq!(PlatformSupport::Windows.to_string(), "Windows/ConPTY planned");
    assert_eq!(PlatformSupport::Unsupported.to_string(), "unsupported host");
}

#[test]
fn platform_for_target() {
    assert_eq!(PlatformSupport::for_target(true), PlatformSupport::Windows);
    assert_eq!(PlatformSupport::for_target(false), PlatformSupport::Unsupported);
}

#[test]
fn current_platform_follows_the_path_separator() {
    let windows = std::path::MAIN_SEPARATOR == '\\';
    assert_eq!(PlatformSupport::current(), PlatformSupport::for_target(windows));
}
