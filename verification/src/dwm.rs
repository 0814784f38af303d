//! The same decisions for machines that run preview builds of Windows 11.
//!
//! The backdrop attribute is taken from build 22523 on, where it first
//! appeared. Accent policies are used on Windows 10 1809 and later only, always
//! with acrylic in the default tint, and the frame is left as it is when an
//! effect is cleared.

use vstd::prelude::*;
use crate::accent::{accent_set, given, set_accent_policy};
use crate::native::{
    attribute_set,
    backdrop_set,
    extend_client_area,
    frame_extended,
    set_backdrop,
    set_window_attribute,
    AccentState,
    BackdropType,
    NativeCall,
    DWMWA_MICA_EFFECT,
    DWMWA_USE_IMMERSIVE_DARK_MODE,
};
use crate::version::WindowsVersion;
use crate::{or_unsupported, plan_view, VibeError};

verus! {

/// Windows 10 release 1809, or any build after it, those of Windows 11
/// included: an accent policy can draw acrylic, and the title bar can be dark.
pub open spec fn spec_is_win10_swca(version: WindowsVersion) -> bool {
    version.build >= 17763
}

/// Whether accent policies can draw acrylic. See [`spec_is_win10_swca`].
#[verifier::when_used_as_spec(spec_is_win10_swca)]
pub fn is_win10_swca(version: WindowsVersion) -> (yes: bool)
    ensures
        yes == spec_is_win10_swca(version),
{
    version.build >= 17763
}

/// Windows 11.
pub open spec fn spec_is_win11(version: WindowsVersion) -> bool {
    version.build >= 22000
}

/// Whether this is Windows 11. See [`spec_is_win11`].
#[verifier::when_used_as_spec(spec_is_win11)]
pub fn is_win11(version: WindowsVersion) -> (yes: bool)
    ensures
        yes == spec_is_win11(version),
{
    version.build >= 22000
}

/// Windows 11 from the first build that has the backdrop attribute.
pub open spec fn spec_is_win11_dwmsbt(version: WindowsVersion) -> bool {
    version.build >= 22523
}

/// Whether system backdrops can be selected. See [`spec_is_win11_dwmsbt`].
#[verifier::when_used_as_spec(spec_is_win11_dwmsbt)]
pub fn is_win11_dwmsbt(version: WindowsVersion) -> (yes: bool)
    ensures
        yes == spec_is_win11_dwmsbt(version),
{
    version.build >= 22523
}

/// No capability ends: what a build of Windows can do, every later build can
/// do too.
pub proof fn lemma_capabilities_stay(older: WindowsVersion, newer: WindowsVersion)
    requires
        newer.build >= older.build,
    ensures
        is_win10_swca(older) ==> is_win10_swca(newer),
        is_win11(older) ==> is_win11(newer),
        is_win11_dwmsbt(older) ==> is_win11_dwmsbt(newer),
{
}

/// The capabilities lie one inside the other: each build that has system
/// backdrops is Windows 11, and each build of Windows 11 has accent policies.
pub proof fn lemma_capabilities_are_nested(version: WindowsVersion)
    ensures
        is_win11_dwmsbt(version) ==> is_win11(version),
        is_win11(version) ==> is_win10_swca(version),
{
}

/// Where the kernel could not be asked, no capability is taken for granted.
pub proof fn lemma_unknown_has_no_capability()
    ensures
        !is_win10_swca(WindowsVersion::unknown()),
        !is_win11(WindowsVersion::unknown()),
        !is_win11_dwmsbt(WindowsVersion::unknown()),
{
}

/// The tint of every accent here: dark grey, fully transparent.
pub open spec fn fixed_tint() -> Seq<u8> {
    seq![40u8, 40u8, 40u8, 0u8]
}

/// The calls that set the title bar's theme to `value` (one for dark, zero for
/// light), or `None` where the release has no such attribute.
pub open spec fn theme_forced(version: WindowsVersion, value: i32) -> Option<Seq<NativeCall>> {
    if is_win11(version) {
        Some(seq![attribute_set(DWMWA_USE_IMMERSIVE_DARK_MODE, value)])
    } else if is_win10_swca(version) {
        Some(seq![attribute_set((DWMWA_USE_IMMERSIVE_DARK_MODE - 1) as i32, value)])
    } else {
        None
    }
}

/// The calls that put acrylic on the window, or `None` before Windows 10 1809.
pub open spec fn acrylic_applied(version: WindowsVersion) -> Option<Seq<NativeCall>> {
    if is_win11_dwmsbt(version) {
        Some(seq![frame_extended(), backdrop_set(BackdropType::TransientWindow)])
    } else if is_win10_swca(version) {
        Some(seq![accent_set(AccentState::EnableAcrylicBlurBehind, fixed_tint())])
    } else {
        None
    }
}

/// The calls that take acrylic off the window, or `None` before Windows 10
/// 1809.
pub open spec fn acrylic_cleared(version: WindowsVersion) -> Option<Seq<NativeCall>> {
    if is_win11_dwmsbt(version) {
        Some(seq![backdrop_set(BackdropType::Disable)])
    } else if is_win10_swca(version) {
        Some(seq![accent_set(AccentState::Disabled, given(None))])
    } else {
        None
    }
}

/// The calls that put Mica on the window, or `None` before Windows 11.
pub open spec fn mica_applied(version: WindowsVersion) -> Option<Seq<NativeCall>> {
    if is_win11_dwmsbt(version) {
        Some(seq![frame_extended(), backdrop_set(BackdropType::MainWindow)])
    } else if is_win11(version) {
        Some(seq![frame_extended(), attribute_set(DWMWA_MICA_EFFECT, 1)])
    } else {
        None
    }
}

/// The calls that take Mica off the window, or `None` before Windows 11.
pub open spec fn mica_cleared(version: WindowsVersion) -> Option<Seq<NativeCall>> {
    if is_win11_dwmsbt(version) {
        Some(seq![backdrop_set(BackdropType::Disable)])
    } else if is_win11(version) {
        Some(seq![attribute_set(DWMWA_MICA_EFFECT, 0)])
    } else {
        None
    }
}

/// An operation that a build of Windows has calls for, every later build has
/// calls for too.
pub proof fn lemma_support_stays(older: WindowsVersion, newer: WindowsVersion, value: i32)
    requires
        newer.build >= older.build,
    ensures
        theme_forced(older, value) is Some ==> theme_forced(newer, value) is Some,
        mica_applied(older) is Some ==> mica_applied(newer) is Some,
        mica_cleared(older) is Some ==> mica_cleared(newer) is Some,
        acrylic_applied(older) is Some ==> acrylic_applied(newer) is Some,
        acrylic_cleared(older) is Some ==> acrylic_cleared(newer) is Some,
{
}

/// Whatever is applied can be cleared, by calls that act on the attribute that
/// was set. The frame, once extended, stays extended.
pub proof fn lemma_clearing_matches_applying(version: WindowsVersion)
    ensures
        mica_applied(version) matches Some(applied) ==> mica_cleared(version) matches Some(cleared)
            && cleared.len() == 1 && cleared[0].target() == applied.last().target(),
        acrylic_applied(version) matches Some(applied) ==> acrylic_cleared(version) matches Some(
            cleared,
        ) && cleared.len() == 1 && cleared[0].target() == applied.last().target(),
{
}

/// Plans a dark title bar. See [`theme_forced`].
pub fn force_dark_theme(version: WindowsVersion) -> (plan: Result<Vec<NativeCall>, VibeError>)
    ensures
        plan_view(plan) == or_unsupported(
            theme_forced(version, 1),
            "\"force_dark_theme()\" is only available on Windows 10 v1809+ or Windows 11"@,
        ),
{
    if is_win11(version) {
        let calls = vec![set_window_attribute(DWMWA_USE_IMMERSIVE_DARK_MODE, 1)];
        assert(calls@ =~= theme_forced(version, 1).unwrap());
        Ok(calls)
    } else if is_win10_swca(version) {
        let calls = vec![set_window_attribute(DWMWA_USE_IMMERSIVE_DARK_MODE - 1, 1)];
        assert(calls@ =~= theme_forced(version, 1).unwrap());
        Ok(calls)
    } else {
        Err(
            VibeError::UnsupportedPlatform(
                "\"force_dark_theme()\" is only available on Windows 10 v1809+ or Windows 11",
            ),
        )
    }
}

/// Plans a light title bar. See [`theme_forced`].
pub fn force_light_theme(version: WindowsVersion) -> (plan: Result<Vec<NativeCall>, VibeError>)
    ensures
        plan_view(plan) == or_unsupported(
            theme_forced(version, 0),
            "\"force_light_theme()\" is only available on Windows 10 v1809+ or Windows 11"@,
        ),
{
    if is_win11(version) {
        let calls = vec![set_window_attribute(DWMWA_USE_IMMERSIVE_DARK_MODE, 0)];
        assert(calls@ =~= theme_forced(version, 0).unwrap());
        Ok(calls)
    } else if is_win10_swca(version) {
        let calls = vec![set_window_attribute(DWMWA_USE_IMMERSIVE_DARK_MODE - 1, 0)];
        assert(calls@ =~= theme_forced(version, 0).unwrap());
        Ok(calls)
    } else {
        Err(
            VibeError::UnsupportedPlatform(
                "\"force_light_theme()\" is only available on Windows 10 v1809+ or Windows 11",
            ),
        )
    }
}

/// Plans acrylic. See [`acrylic_applied`].
pub fn apply_acrylic(version: WindowsVersion) -> (plan: Result<Vec<NativeCall>, VibeError>)
    ensures
        plan_view(plan) == or_unsupported(
            acrylic_applied(version),
            "\"apply_acrylic()\" is only available on Windows 10 v1809+ or Windows 11"@,
        ),
{
    if is_win11_dwmsbt(version) {
        let calls = vec![extend_client_area(), set_backdrop(BackdropType::TransientWindow)];
        assert(calls@ =~= acrylic_applied(version).unwrap());
        Ok(calls)
    } else if is_win10_swca(version) {
        let tint: [u8; 4] = [40, 40, 40, 0];
        assert(tint@ =~= fixed_tint());
        let calls = vec![set_accent_policy(AccentState::EnableAcrylicBlurBehind, Some(tint))];
        assert(calls@ =~= acrylic_applied(version).unwrap());
        Ok(calls)
    } else {
        Err(
            VibeError::UnsupportedPlatform(
                "\"apply_acrylic()\" is only available on Windows 10 v1809+ or Windows 11",
            ),
        )
    }
}

/// Plans the end of acrylic. See [`acrylic_cleared`].
pub fn clear_acrylic(version: WindowsVersion) -> (plan: Result<Vec<NativeCall>, VibeError>)
    ensures
        plan_view(plan) == or_unsupported(
            acrylic_cleared(version),
            "\"clear_acrylic()\" is only available on Windows 10 v1809+ or Windows 11"@,
        ),
{
    if is_win11_dwmsbt(version) {
        let calls = vec![set_backdrop(BackdropType::Disable)];
        assert(calls@ =~= acrylic_cleared(version).unwrap());
        Ok(calls)
    } else if is_win10_swca(version) {
        let calls = vec![set_accent_policy(AccentState::Disabled, None)];
        assert(calls@ =~= acrylic_cleared(version).unwrap());
        Ok(calls)
    } else {
        Err(
            VibeError::UnsupportedPlatform(
                "\"clear_acrylic()\" is only available on Windows 10 v1809+ or Windows 11",
            ),
        )
    }
}

/// Plans Mica. See [`mica_applied`].
pub fn apply_mica(version: WindowsVersion) -> (plan: Result<Vec<NativeCall>, VibeError>)
    ensures
        plan_view(plan) == or_unsupported(
            mica_applied(version),
            "\"apply_mica()\" is only available on Windows 11"@,
        ),
{
    if is_win11_dwmsbt(version) {
        let calls = vec![extend_client_area(), set_backdrop(BackdropType::MainWindow)];
        assert(calls@ =~= mica_applied(version).unwrap());
        Ok(calls)
    } else if is_win11(version) {
        let calls = vec![extend_client_area(), set_window_attribute(DWMWA_MICA_EFFECT, 1)];
        assert(calls@ =~= mica_applied(version).unwrap());
        Ok(calls)
    } else {
        Err(VibeError::UnsupportedPlatform("\"apply_mica()\" is only available on Windows 11"))
    }
}

/// Plans the end of Mica. See [`mica_cleared`].
pub fn clear_mica(version: WindowsVersion) -> (plan: Result<Vec<NativeCall>, VibeError>)
    ensures
        plan_view(plan) == or_unsupported(
            mica_cleared(version),
            "\"clear_mica()\" is only available on Windows 11"@,
        ),
{
    if is_win11_dwmsbt(version) {
        let calls = vec![set_backdrop(BackdropType::Disable)];
        assert(calls@ =~= mica_cleared(version).unwrap());
        Ok(calls)
    } else if is_win11(version) {
        let calls = vec![set_window_attribute(DWMWA_MICA_EFFECT, 0)];
        assert(calls@ =~= mica_cleared(version).unwrap());
        Ok(calls)
    } else {
        Err(VibeError::UnsupportedPlatform("\"clear_mica()\" is only available on Windows 11"))
    }
}

} // verus!
