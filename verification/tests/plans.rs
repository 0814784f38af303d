use vibe::accent::set_accent_policy;
use vibe::colour::{pack, parse_colour};
use vibe::dwm;
use vibe::dwm_win32::{
    apply_acrylic, apply_mica, clear_acrylic, clear_mica, force_dark_theme, force_light_theme,
};
use vibe::native::{
    extend_client_area, reset_client_area, set_backdrop, set_window_attribute, AccentPolicy,
    AccentState, BackdropType, Margins, NativeCall, DWMWA_MICA_EFFECT,
    DWMWA_SYSTEMBACKDROP_TYPE, DWMWA_USE_IMMERSIVE_DARK_MODE, WCA_ACCENT_POLICY,
};
use vibe::version::WindowsVersion;
use vibe::VibeError;

const VISTA: WindowsVersion = WindowsVersion { major: 6, minor: 0, build: 6002 };
const WIN8: WindowsVersion = WindowsVersion { major: 6, minor: 2, build: 9200 };
const WIN8_1: WindowsVersion = WindowsVersion { major: 6, minor: 3, build: 9600 };
const WIN7: WindowsVersion = WindowsVersion { major: 6, minor: 1, build: 7601 };
const WIN10_1803: WindowsVersion = WindowsVersion { major: 10, minor: 0, build: 17134 };
const WIN10_1809: WindowsVersion = WindowsVersion { major: 10, minor: 0, build: 17763 };
const WIN11_21H2: WindowsVersion = WindowsVersion { major: 10, minor: 0, build: 22000 };
const WIN11_PREVIEW: WindowsVersion = WindowsVersion { major: 10, minor: 0, build: 22523 };
const WIN11_22H2: WindowsVersion = WindowsVersion { major: 10, minor: 0, build: 22621 };

fn frame(width: i32) -> NativeCall {
    NativeCall::ExtendFrameIntoClientArea {
        margins: Margins { left: width, right: width, top: width, bottom: width },
    }
}

fn attribute(attribute: i32, value: i32) -> NativeCall {
    NativeCall::SetWindowAttribute { attribute, value }
}

fn accent(accent_state: u32, accent_flags: u32, gradient_colour: u32) -> NativeCall {
    NativeCall::SetWindowCompositionAttribute {
        attrib: 0x13,
        policy: AccentPolicy { accent_state, accent_flags, gradient_colour, animation_id: 0 },
    }
}

#[test]
fn the_attribute_numbers_are_those_of_the_compositor() {
    assert_eq!(DWMWA_USE_IMMERSIVE_DARK_MODE, 20);
    assert_eq!(DWMWA_MICA_EFFECT, 1029);
    assert_eq!(DWMWA_SYSTEMBACKDROP_TYPE, 38);
    assert_eq!(WCA_ACCENT_POLICY, 19);
}

#[test]
fn accent_states_and_backdrops_have_their_codes() {
    assert_eq!(AccentState::Disabled.code(), 0);
    assert_eq!(AccentState::EnableBlurBehind.code(), 3);
    assert_eq!(AccentState::EnableAcrylicBlurBehind.code(), 4);
    assert_eq!(BackdropType::Disable.code(), 1);
    assert_eq!(BackdropType::MainWindow.code(), 2);
    assert_eq!(BackdropType::TransientWindow.code(), 3);
    assert_eq!(BackdropType::TabbedWindow.code(), 4);
}

#[test]
fn the_frame_is_extended_by_minus_one_and_reset_by_zero() {
    assert_eq!(extend_client_area(), frame(-1));
    assert_eq!(reset_client_area(), frame(0));
}

#[test]
fn attribute_calls_carry_what_they_were_given() {
    assert_eq!(set_window_attribute(1029, 1), attribute(1029, 1));
    assert_eq!(set_backdrop(BackdropType::MainWindow), attribute(38, 2));
    assert_eq!(set_backdrop(BackdropType::TransientWindow), attribute(38, 3));
    assert_eq!(set_backdrop(BackdropType::Disable), attribute(38, 1));
}

#[test]
fn a_colour_is_packed_red_first_alpha_last() {
    assert_eq!(pack(0x11, 0x22, 0x33, 0x44), 0x4433_2211);
    assert_eq!(pack(0, 0, 0, 0), 0);
    assert_eq!(pack(255, 255, 255, 255), u32::MAX);
    assert_eq!(pack(40, 40, 40, 1), 0x0128_2828);
}

#[test]
fn acrylic_gets_an_alpha_of_one_for_zero() {
    assert_eq!(
        set_accent_policy(AccentState::EnableAcrylicBlurBehind, Some([1, 2, 3, 0])),
        accent(4, 0, 0x0103_0201)
    );
}

#[test]
fn acrylic_keeps_an_alpha_that_is_not_zero() {
    assert_eq!(
        set_accent_policy(AccentState::EnableAcrylicBlurBehind, Some([1, 2, 3, 2])),
        accent(4, 0, 0x0203_0201)
    );
    assert_eq!(
        set_accent_policy(AccentState::EnableAcrylicBlurBehind, Some([9, 8, 7, 255])),
        accent(4, 0, 0xff07_0809)
    );
}

#[test]
fn blur_keeps_an_alpha_of_zero() {
    assert_eq!(
        set_accent_policy(AccentState::EnableBlurBehind, Some([1, 2, 3, 0])),
        accent(3, 2, 0x0003_0201)
    );
}

#[test]
fn an_accent_without_a_colour_is_all_zero() {
    assert_eq!(set_accent_policy(AccentState::Disabled, None), accent(0, 2, 0));
    assert_eq!(set_accent_policy(AccentState::EnableBlurBehind, None), accent(3, 2, 0));
    assert_eq!(
        set_accent_policy(AccentState::EnableAcrylicBlurBehind, None),
        accent(4, 0, 0x0100_0000)
    );
}

#[test]
fn colour_strings_are_read_as_css() {
    assert_eq!(parse_colour(Some("#ff0000")), Some([255, 0, 0, 255]));
    assert_eq!(parse_colour(Some("#0102037f")), Some([1, 2, 3, 127]));
    assert_eq!(parse_colour(Some("rgba(1, 2, 3, 0)")), Some([1, 2, 3, 0]));
    assert_eq!(parse_colour(Some("transparent")), Some([0, 0, 0, 0]));
    assert_eq!(parse_colour(Some("rebeccapurple")), Some([102, 51, 153, 255]));
    assert_eq!(parse_colour(Some("hsl(120, 100%, 50%)")), Some([0, 255, 0, 255]));
}

#[test]
fn a_string_that_names_no_colour_gives_none() {
    assert_eq!(parse_colour(Some("no such colour")), None);
    assert_eq!(parse_colour(Some("")), None);
    assert_eq!(parse_colour(Some("#12")), None);
    assert_eq!(parse_colour(None), None);
}

#[test]
fn dark_theme_on_windows_11_sets_attribute_20() {
    assert_eq!(force_dark_theme(WIN11_21H2), Ok(vec![attribute(20, 1)]));
    assert_eq!(force_dark_theme(WIN11_22H2), Ok(vec![attribute(20, 1)]));
    assert_eq!(force_light_theme(WIN11_21H2), Ok(vec![attribute(20, 0)]));
}

#[test]
fn dark_theme_on_windows_10_sets_attribute_19() {
    assert_eq!(force_dark_theme(WIN10_1809), Ok(vec![attribute(19, 1)]));
    assert_eq!(force_light_theme(WIN10_1809), Ok(vec![attribute(19, 0)]));
}

#[test]
fn themes_are_refused_before_1809() {
    assert_eq!(
        force_dark_theme(WIN10_1803),
        Err(VibeError::UnsupportedPlatform(
            "\"force_dark_theme()\" is only available on Windows 10 v1809+ or Windows 11"
        ))
    );
    assert_eq!(
        force_light_theme(WIN7),
        Err(VibeError::UnsupportedPlatform(
            "\"force_light_theme()\" is only available on Windows 10 v1809+ or Windows 11"
        ))
    );
}

#[test]
fn mica_on_22h2_is_the_main_window_backdrop() {
    assert_eq!(apply_mica(WIN11_22H2), Ok(vec![frame(-1), attribute(38, 2)]));
    assert_eq!(clear_mica(WIN11_22H2), Ok(vec![frame(0), attribute(38, 1)]));
}

#[test]
fn mica_on_windows_11_before_22h2_is_its_own_attribute() {
    assert_eq!(apply_mica(WIN11_21H2), Ok(vec![frame(-1), attribute(1029, 1)]));
    assert_eq!(clear_mica(WIN11_21H2), Ok(vec![frame(0), attribute(1029, 0)]));
    assert_eq!(apply_mica(WIN11_PREVIEW), Ok(vec![frame(-1), attribute(1029, 1)]));
}

#[test]
fn mica_is_refused_before_windows_11() {
    let refusal = VibeError::UnsupportedPlatform("\"apply_mica()\" is only available on Windows 11");
    assert_eq!(apply_mica(WIN10_1803), Err(refusal));
    assert_eq!(
        clear_mica(WIN10_1809),
        Err(VibeError::UnsupportedPlatform("\"clear_mica()\" is only available on Windows 11"))
    );
}

#[test]
fn plain_acrylic_on_22h2_is_the_transient_backdrop() {
    assert_eq!(
        apply_acrylic(WIN11_22H2, false, true, Some([1, 2, 3, 4])),
        Ok(vec![frame(-1), attribute(38, 3)])
    );
    assert_eq!(clear_acrylic(WIN11_22H2, false), Ok(vec![frame(0), attribute(38, 1)]));
}

#[test]
fn unified_acrylic_on_22h2_is_still_an_accent() {
    assert_eq!(
        apply_acrylic(WIN11_22H2, true, true, Some([1, 2, 3, 4])),
        Ok(vec![accent(4, 0, 0x0403_0201)])
    );
    assert_eq!(
        apply_acrylic(WIN11_22H2, true, false, Some([1, 2, 3, 4])),
        Ok(vec![accent(3, 2, 0x0403_0201)])
    );
    assert_eq!(clear_acrylic(WIN11_22H2, true), Ok(vec![accent(0, 2, 0)]));
}

#[test]
fn acrylic_before_22h2_is_an_accent() {
    assert_eq!(
        apply_acrylic(WIN11_21H2, false, true, Some([10, 20, 30, 40])),
        Ok(vec![accent(4, 0, 0x281e_140a)])
    );
    assert_eq!(
        apply_acrylic(WIN7, false, false, Some([10, 20, 30, 40])),
        Ok(vec![accent(3, 2, 0x281e_140a)])
    );
    assert_eq!(clear_acrylic(WIN7, false), Ok(vec![accent(0, 2, 0)]));
}

#[test]
fn windows_8_and_8_1_draw_acrylic_by_accent() {
    for version in [WIN8, WIN8_1] {
        assert_eq!(
            apply_acrylic(version, false, true, Some([10, 20, 30, 40])),
            Ok(vec![accent(4, 0, 0x281e_140a)])
        );
        assert_eq!(
            apply_acrylic(version, true, false, None),
            Ok(vec![accent(3, 2, 0x0028_2828)])
        );
        assert_eq!(clear_acrylic(version, false), Ok(vec![accent(0, 2, 0)]));
        assert_eq!(clear_acrylic(version, true), Ok(vec![accent(0, 2, 0)]));
    }
}

#[test]
fn themes_are_refused_on_windows_8_1() {
    assert_eq!(
        force_dark_theme(WIN8_1),
        Err(VibeError::UnsupportedPlatform(
            "\"force_dark_theme()\" is only available on Windows 10 v1809+ or Windows 11"
        ))
    );
}

#[test]
fn the_theme_attribute_changes_its_number_at_windows_11() {
    let last_of_10 = WindowsVersion { major: 10, minor: 0, build: 21999 };
    assert_eq!(force_dark_theme(last_of_10), Ok(vec![attribute(19, 1)]));
    assert_eq!(force_light_theme(last_of_10), Ok(vec![attribute(19, 0)]));
    assert_eq!(dwm::force_dark_theme(last_of_10), Ok(vec![attribute(19, 1)]));
    assert_eq!(dwm::force_dark_theme(WIN11_21H2), Ok(vec![attribute(20, 1)]));
}

#[test]
fn acrylic_without_a_colour_is_dark_grey() {
    assert_eq!(apply_acrylic(WIN10_1809, true, true, None), Ok(vec![accent(4, 0, 0x0128_2828)]));
    assert_eq!(apply_acrylic(WIN10_1809, true, false, None), Ok(vec![accent(3, 2, 0x0028_2828)]));
}

#[test]
fn acrylic_is_refused_where_there_are_no_accents() {
    assert_eq!(
        apply_acrylic(VISTA, false, true, None),
        Err(VibeError::UnsupportedPlatform("\"apply_acrylic()\" is only available on Windows 7+"))
    );
    assert_eq!(
        clear_acrylic(VISTA, true),
        Err(VibeError::UnsupportedPlatform("\"clear_acrylic()\" is only available on Windows 7+"))
    );
    assert_eq!(
        apply_acrylic(WindowsVersion::unknown(), true, true, None),
        Err(VibeError::UnsupportedPlatform("\"apply_acrylic()\" is only available on Windows 7+"))
    );
}

#[test]
fn preview_builds_take_the_backdrop_from_22523() {
    assert_eq!(dwm::apply_mica(WIN11_PREVIEW), Ok(vec![frame(-1), attribute(38, 2)]));
    assert_eq!(dwm::clear_mica(WIN11_PREVIEW), Ok(vec![attribute(38, 1)]));
    assert_eq!(dwm::apply_acrylic(WIN11_PREVIEW), Ok(vec![frame(-1), attribute(38, 3)]));
    assert_eq!(dwm::clear_acrylic(WIN11_PREVIEW), Ok(vec![attribute(38, 1)]));
}

#[test]
fn preview_dispatch_before_22523() {
    assert_eq!(dwm::apply_mica(WIN11_21H2), Ok(vec![frame(-1), attribute(1029, 1)]));
    assert_eq!(dwm::clear_mica(WIN11_21H2), Ok(vec![attribute(1029, 0)]));
    assert_eq!(dwm::apply_acrylic(WIN11_21H2), Ok(vec![accent(4, 0, 0x0128_2828)]));
    assert_eq!(dwm::apply_acrylic(WIN10_1809), Ok(vec![accent(4, 0, 0x0128_2828)]));
    assert_eq!(dwm::clear_acrylic(WIN10_1809), Ok(vec![accent(0, 2, 0)]));
}

#[test]
fn preview_dispatch_refuses_old_releases() {
    assert_eq!(
        dwm::apply_acrylic(WIN7),
        Err(VibeError::UnsupportedPlatform(
            "\"apply_acrylic()\" is only available on Windows 10 v1809+ or Windows 11"
        ))
    );
    assert_eq!(
        dwm::clear_acrylic(WIN10_1803),
        Err(VibeError::UnsupportedPlatform(
            "\"clear_acrylic()\" is only available on Windows 10 v1809+ or Windows 11"
        ))
    );
    assert_eq!(
        dwm::apply_mica(WIN10_1809),
        Err(VibeError::UnsupportedPlatform("\"apply_mica()\" is only available on Windows 11"))
    );
    assert_eq!(
        dwm::clear_mica(WIN10_1809),
        Err(VibeError::UnsupportedPlatform("\"clear_mica()\" is only available on Windows 11"))
    );
}

#[test]
fn preview_dispatch_sets_themes_like_the_other() {
    assert_eq!(dwm::force_dark_theme(WIN11_21H2), Ok(vec![attribute(20, 1)]));
    assert_eq!(dwm::force_light_theme(WIN10_1809), Ok(vec![attribute(19, 0)]));
    assert_eq!(
        dwm::force_dark_theme(WIN10_1803),
        Err(VibeError::UnsupportedPlatform(
            "\"force_dark_theme()\" is only available on Windows 10 v1809+ or Windows 11"
        ))
    );
    assert_eq!(
        dwm::force_light_theme(WIN10_1803),
        Err(VibeError::UnsupportedPlatform(
            "\"force_light_theme()\" is only available on Windows 10 v1809+ or Windows 11"
        ))
    );
}
