//! What each Windows release can do, and the calls by which it does it.
//!
//! System backdrops are selected by attribute from Windows 11 22H2 on; Windows
//! 11 before that has an attribute for Mica alone. Accent policies serve
//! wherever the composition attribute exists.

use vstd::prelude::*;
use crate::accent::{accent_policy, accent_set, given, lemma_colour_is_forwarded, set_accent_policy};
use crate::colour::channels;
use crate::native::{
    apart_from,
    attribute_set,
    backdrop_set,
    covered_by,
    extend_client_area,
    frame_extended,
    frame_reset,
    reset_client_area,
    set_backdrop,
    set_window_attribute,
    AccentState,
    BackdropType,
    NativeCall,
    DWMWA_MICA_EFFECT,
    DWMWA_USE_IMMERSIVE_DARK_MODE,
};
use crate::version::WindowsVersion;
use crate::{or_unsupported, plan_view, VibeError};

verus! {

/// Release 6.1, which is Windows 7, or any release after it: the composition
/// attribute is there to set an accent policy under. The build number plays no
/// part.
pub open spec fn spec_is_win7(version: WindowsVersion) -> bool {
    version.major > 6 || (version.major == 6 && version.minor >= 1)
}

/// Whether accent policies can be used. See [`spec_is_win7`].
#[verifier::when_used_as_spec(spec_is_win7)]
pub fn is_win7(version: WindowsVersion) -> (yes: bool)
    ensures
        yes == spec_is_win7(version),
{
    version.major > 6 || (version.major == 6 && version.minor >= 1)
}

/// Windows 10 release 1809, or any build after it, those of Windows 11
/// included: the title bar can be dark.
pub open spec fn spec_is_win10_1809(version: WindowsVersion) -> bool {
    version.build >= 17763
}

/// Whether dark title bars are to be had. See [`spec_is_win10_1809`].
#[verifier::when_used_as_spec(spec_is_win10_1809)]
pub fn is_win10_1809(version: WindowsVersion) -> (yes: bool)
    ensures
        yes == spec_is_win10_1809(version),
{
    version.build >= 17763
}

/// Windows 11.
pub open spec fn spec_is_win11(version: WindowsVersion) -> bool {
    version.build >= 22000
}

/// Whether this is Windows 11. See [`spec_is_win11`].
#[verifier::when_used_as_spec(spec_is_win11)]
pub fn is_win11(version: WindowsVersion) -> (yes: bool)
    ensures
        yes == spec_is_win11(version),
{
    version.build >= 22000
}

/// Windows 11 from release 22H2 on.
pub open spec fn spec_is_win11_22h2(version: WindowsVersion) -> bool {
    version.build >= 22621
}

/// Whether system backdrops can be selected. See [`spec_is_win11_22h2`].
#[verifier::when_used_as_spec(spec_is_win11_22h2)]
pub fn is_win11_22h2(version: WindowsVersion) -> (yes: bool)
    ensures
        yes == spec_is_win11_22h2(version),
{
    version.build >= 22621
}

/// Whether `newer` is the release of `older` or one after it, at a build that
/// is not below that of `older`.
pub open spec fn not_before(newer: WindowsVersion, older: WindowsVersion) -> bool {
    &&& newer.major > older.major || (newer.major == older.major && newer.minor >= older.minor)
    &&& newer.build >= older.build
}

/// No capability ends: what a build of Windows can do, every later build can
/// do too, of the same release and of every release after it.
pub proof fn lemma_capabilities_stay(older: WindowsVersion, newer: WindowsVersion)
    requires
        not_before(newer, older),
    ensures
        is_win7(older) ==> is_win7(newer),
        is_win10_1809(older) ==> is_win10_1809(newer),
        is_win11(older) ==> is_win11(newer),
        is_win11_22h2(older) ==> is_win11_22h2(newer),
{
}

/// The capabilities lie one inside the other: each build that has system
/// backdrops is Windows 11, and each build of Windows 11 has dark title bars.
pub proof fn lemma_capabilities_are_nested(version: WindowsVersion)
    ensures
        is_win11_22h2(version) ==> is_win11(version),
        is_win11(version) ==> is_win10_1809(version),
{
}

/// Where the kernel could not be asked, no capability is taken for granted.
pub proof fn lemma_unknown_has_no_capability()
    ensures
        !is_win7(WindowsVersion::unknown()),
        !is_win10_1809(WindowsVersion::unknown()),
        !is_win11(WindowsVersion::unknown()),
        !is_win11_22h2(WindowsVersion::unknown()),
{
}

/// The calls that set the title bar's theme to `value` (one for dark, zero for
/// light), or `None` where the release has no such attribute. Windows 11 has
/// the attribute under its own number, the builds before it one below.
pub open spec fn theme_forced(version: WindowsVersion, value: i32) -> Option<Seq<NativeCall>> {
    if is_win11(version) {
        Some(seq![attribute_set(DWMWA_USE_IMMERSIVE_DARK_MODE, value)])
    } else if is_win10_1809(version) {
        Some(seq![attribute_set((DWMWA_USE_IMMERSIVE_DARK_MODE - 1) as i32, value)])
    } else {
        None
    }
}

/// The colour of an accent where the request names none: dark grey, fully
/// transparent.
pub open spec fn default_tint() -> Seq<u8> {
    seq![40u8, 40u8, 40u8, 0u8]
}

/// The calls that put acrylic or blur on the window, or `None` where the
/// release has neither a transient backdrop nor accent policies. A request
/// that is not `unified` takes the system backdrop where there is one, and
/// then its colour and `acrylic_blurbehind` play no part.
pub open spec fn acrylic_applied(
    version: WindowsVersion,
    unified: bool,
    acrylic_blurbehind: bool,
    colour: Option<[u8; 4]>,
) -> Option<Seq<NativeCall>> {
    if !unified && is_win11_22h2(version) {
        Some(seq![frame_extended(), backdrop_set(BackdropType::TransientWindow)])
    } else if is_win7(version) {
        Some(
            seq![
                accent_set(
                    if acrylic_blurbehind {
                        AccentState::EnableAcrylicBlurBehind
                    } else {
                        AccentState::EnableBlurBehind
                    },
                    match colour {
                        Some(c) => c@,
                        None => default_tint(),
                    },
                ),
            ],
        )
    } else {
        None
    }
}

/// The calls that take off what [`acrylic_applied`] put on for the same
/// `unified`, or `None` where that is `None`.
pub open spec fn acrylic_cleared(version: WindowsVersion, unified: bool) -> Option<
    Seq<NativeCall>,
> {
    if !unified && is_win11_22h2(version) {
        Some(seq![frame_reset(), backdrop_set(BackdropType::Disable)])
    } else if is_win7(version) {
        Some(seq![accent_set(AccentState::Disabled, given(None))])
    } else {
        None
    }
}

/// The calls that put Mica on the window, or `None` before Windows 11.
pub open spec fn mica_applied(version: WindowsVersion) -> Option<Seq<NativeCall>> {
    if is_win11_22h2(version) {
        Some(seq![frame_extended(), backdrop_set(BackdropType::MainWindow)])
    } else if is_win11(version) {
        Some(seq![frame_extended(), attribute_set(DWMWA_MICA_EFFECT, 1)])
    } else {
        None
    }
}

/// The calls that take Mica off the window, or `None` before Windows 11.
pub open spec fn mica_cleared(version: WindowsVersion) -> Option<Seq<NativeCall>> {
    if is_win11_22h2(version) {
        Some(seq![frame_reset(), backdrop_set(BackdropType::Disable)])
    } else if is_win11(version) {
        Some(seq![frame_reset(), attribute_set(DWMWA_MICA_EFFECT, 0)])
    } else {
        None
    }
}

/// An operation that a build of Windows has calls for, every later build has
/// calls for too, of the same release and of every release after it.
pub proof fn lemma_support_stays(
    older: WindowsVersion,
    newer: WindowsVersion,
    value: i32,
    unified: bool,
    acrylic_blurbehind: bool,
    colour: Option<[u8; 4]>,
)
    requires
        not_before(newer, older),
    ensures
        theme_forced(older, value) is Some ==> theme_forced(newer, value) is Some,
        mica_applied(older) is Some ==> mica_applied(newer) is Some,
        mica_cleared(older) is Some ==> mica_cleared(newer) is Some,
        acrylic_applied(older, unified, acrylic_blurbehind, colour) is Some ==> acrylic_applied(
            newer,
            unified,
            acrylic_blurbehind,
            colour,
        ) is Some,
        acrylic_cleared(older, unified) is Some ==> acrylic_cleared(newer, unified) is Some,
{
}

/// Mica is to be had on Windows 11 and nowhere else, and from 22H2 on it is
/// the main-window backdrop.
pub proof fn lemma_mica_needs_windows_11(version: WindowsVersion)
    ensures
        mica_applied(version) is Some <==> version.build >= 22000,
        mica_cleared(version) is Some <==> version.build >= 22000,
        version.build >= 22621 ==> mica_applied(version) == Some(
            seq![frame_extended(), backdrop_set(BackdropType::MainWindow)],
        ),
{
}

/// Where acrylic or blur is drawn by an accent policy, the colour of the
/// request is the colour of the policy: red, green and blue as they were
/// given, and alpha too, except that acrylic gets an alpha of one where zero
/// was given.
pub proof fn lemma_acrylic_forwards_colour(
    version: WindowsVersion,
    unified: bool,
    acrylic_blurbehind: bool,
    colour: [u8; 4],
)
    requires
        is_win7(version),
        unified || !is_win11_22h2(version),
    ensures
        ({
            let calls = acrylic_applied(version, unified, acrylic_blurbehind, Some(colour));
            &&& calls matches Some(calls)
            &&& calls.len() == 1
            &&& calls[0] matches NativeCall::SetWindowCompositionAttribute { policy, .. }
            &&& channels(policy.gradient_colour) == seq![
                colour[0],
                colour[1],
                colour[2],
                if acrylic_blurbehind && colour[3] == 0 {
                    1u8
                } else {
                    colour[3]
                },
            ]
        }),
{
    let accent_state = if acrylic_blurbehind {
        AccentState::EnableAcrylicBlurBehind
    } else {
        AccentState::EnableBlurBehind
    };
    lemma_colour_is_forwarded(accent_state, colour@);
    let sent = channels(accent_policy(accent_state, colour@).gradient_colour);
    assert(sent =~= seq![
        colour[0],
        colour[1],
        colour[2],
        if acrylic_blurbehind && colour[3] == 0 {
            1u8
        } else {
            colour[3]
        },
    ]);
}

/// Clearing reaches whatever applying touched: each thing that the calls for
/// an effect act on, the calls that clear it act on again.
pub proof fn lemma_clearing_covers_applying(
    version: WindowsVersion,
    unified: bool,
    acrylic_blurbehind: bool,
    colour: Option<[u8; 4]>,
)
    ensures
        mica_applied(version) matches Some(applied) ==> mica_cleared(version) matches Some(cleared)
            && covered_by(applied, cleared),
        acrylic_applied(version, unified, acrylic_blurbehind, colour) matches Some(applied)
            ==> acrylic_cleared(version, unified) matches Some(cleared) && covered_by(
            applied,
            cleared,
        ),
{
    if let Some(applied) = mica_applied(version) {
        let cleared = mica_cleared(version).unwrap();
        assert(cleared[0].target() == applied[0].target());
        assert(cleared[1].target() == applied[1].target());
    }
    if let Some(applied) = acrylic_applied(version, unified, acrylic_blurbehind, colour) {
        let cleared = acrylic_cleared(version, unified).unwrap();
        assert(cleared[0].target() == applied[0].target());
        if applied.len() == 2 {
            assert(cleared[1].target() == applied[1].target());
        }
    }
}

/// Themes and effects do not meet: no call that sets a theme acts on anything
/// that a call for an effect acts on.
pub proof fn lemma_themes_are_apart_from_effects(
    version: WindowsVersion,
    value: i32,
    unified: bool,
    acrylic_blurbehind: bool,
    colour: Option<[u8; 4]>,
)
    ensures
        theme_forced(version, value) matches Some(theme) ==> {
            &&& mica_applied(version) matches Some(calls) ==> apart_from(theme, calls)
            &&& mica_cleared(version) matches Some(calls) ==> apart_from(theme, calls)
            &&& acrylic_applied(version, unified, acrylic_blurbehind, colour) matches Some(calls)
                ==> apart_from(theme, calls)
            &&& acrylic_cleared(version, unified) matches Some(calls) ==> apart_from(theme, calls)
        },
{
}

/// Plans a dark title bar. See [`theme_forced`].
pub fn force_dark_theme(version: WindowsVersion) -> (plan: Result<Vec<NativeCall>, VibeError>)
    ensures
        plan_view(plan) == or_unsupported(
            theme_forced(version, 1),
            "\"force_dark_theme()\" is only available on Windows 10 v1809+ or Windows 11"@,
        ),
{
    if is_win11(version) {
        let calls = vec![set_window_attribute(DWMWA_USE_IMMERSIVE_DARK_MODE, 1)];
        assert(calls@ =~= theme_forced(version, 1).unwrap());
        Ok(calls)
    } else if is_win10_1809(version) {
        let calls = vec![set_window_attribute(DWMWA_USE_IMMERSIVE_DARK_MODE - 1, 1)];
        assert(calls@ =~= theme_forced(version, 1).unwrap());
        Ok(calls)
    } else {
        Err(
            VibeError::UnsupportedPlatform(
                "\"force_dark_theme()\" is only available on Windows 10 v1809+ or Windows 11",
            ),
        )
    }
}

/// Plans a light title bar. See [`theme_forced`].
pub fn force_light_theme(version: WindowsVersion) -> (plan: Result<Vec<NativeCall>, VibeError>)
    ensures
        plan_view(plan) == or_unsupported(
            theme_forced(version, 0),
            "\"force_light_theme()\" is only available on Windows 10 v1809+ or Windows 11"@,
        ),
{
    if is_win11(version) {
        let calls = vec![set_window_attribute(DWMWA_USE_IMMERSIVE_DARK_MODE, 0)];
        assert(calls@ =~= theme_forced(version, 0).unwrap());
        Ok(calls)
    } else if is_win10_1809(version) {
        let calls = vec![set_window_attribute(DWMWA_USE_IMMERSIVE_DARK_MODE - 1, 0)];
        assert(calls@ =~= theme_forced(version, 0).unwrap());
        Ok(calls)
    } else {
        Err(
            VibeError::UnsupportedPlatform(
                "\"force_light_theme()\" is only available on Windows 10 v1809+ or Windows 11",
            ),
        )
    }
}

/// Plans acrylic, or blur where `acrylic_blurbehind` is false. See
/// [`acrylic_applied`].
pub fn apply_acrylic(
    version: WindowsVersion,
    unified: bool,
    acrylic_blurbehind: bool,
    colour: Option<[u8; 4]>,
) -> (plan: Result<Vec<NativeCall>, VibeError>)
    ensures
        plan_view(plan) == or_unsupported(
            acrylic_applied(version, unified, acrylic_blurbehind, colour),
            "\"apply_acrylic()\" is only available on Windows 7+"@,
        ),
{
    if !unified && is_win11_22h2(version) {
        let calls = vec![extend_client_area(), set_backdrop(BackdropType::TransientWindow)];
        assert(calls@ =~= acrylic_applied(version, unified, acrylic_blurbehind, colour).unwrap());
        Ok(calls)
    } else if is_win7(version) {
        let accent_state = if acrylic_blurbehind {
            AccentState::EnableAcrylicBlurBehind
        } else {
            AccentState::EnableBlurBehind
        };
        let tint: [u8; 4] = match colour {
            Some(c) => c,
            None => [40, 40, 40, 0],
        };
        assert(tint@ =~= match colour {
            Some(c) => c@,
            None => default_tint(),
        });
        let calls = vec![set_accent_policy(accent_state, Some(tint))];
        assert(calls@ =~= acrylic_applied(version, unified, acrylic_blurbehind, colour).unwrap());
        Ok(calls)
    } else {
        Err(VibeError::UnsupportedPlatform("\"apply_acrylic()\" is only available on Windows 7+"))
    }
}

/// Plans the end of acrylic or blur. See [`acrylic_cleared`].
pub fn clear_acrylic(version: WindowsVersion, unified: bool) -> (plan: Result<
    Vec<NativeCall>,
    VibeError,
>)
    ensures
        plan_view(plan) == or_unsupported(
            acrylic_cleared(version, unified),
            "\"clear_acrylic()\" is only available on Windows 7+"@,
        ),
{
    if !unified && is_win11_22h2(version) {
        let calls = vec![reset_client_area(), set_backdrop(BackdropType::Disable)];
        assert(calls@ =~= acrylic_cleared(version, unified).unwrap());
        Ok(calls)
    } else if is_win7(version) {
        let calls = vec![set_accent_policy(AccentState::Disabled, None)];
        assert(calls@ =~= acrylic_cleared(version, unified).unwrap());
        Ok(calls)
    } else {
        Err(VibeError::UnsupportedPlatform("\"clear_acrylic()\" is only available on Windows 7+"))
    }
}

/// Plans Mica. See [`mica_applied`].
pub fn apply_mica(version: WindowsVersion) -> (plan: Result<Vec<NativeCall>, VibeError>)
    ensures
        plan_view(plan) == or_unsupported(
            mica_applied(version),
            "\"apply_mica()\" is only available on Windows 11"@,
        ),
{
    if is_win11_22h2(version) {
        let calls = vec![extend_client_area(), set_backdrop(BackdropType::MainWindow)];
        assert(calls@ =~= mica_applied(version).unwrap());
        Ok(calls)
    } else if is_win11(version) {
        let calls = vec![extend_client_area(), set_window_attribute(DWMWA_MICA_EFFECT, 1)];
        assert(calls@ =~= mica_applied(version).unwrap());
        Ok(calls)
    } else {
        Err(VibeError::UnsupportedPlatform("\"apply_mica()\" is only available on Windows 11"))
    }
}

/// Plans the end of Mica. See [`mica_cleared`].
pub fn clear_mica(version: WindowsVersion) -> (plan: Result<Vec<NativeCall>, VibeError>)
    ensures
        plan_view(plan) == or_unsupported(
            mica_cleared(version),
            "\"clear_mica()\" is only available on Windows 11"@,
        ),
{
    if is_win11_22h2(version) {
        let calls = vec![reset_client_area(), set_backdrop(BackdropType::Disable)];
        assert(calls@ =~= mica_cleared(version).unwrap());
        Ok(calls)
    } else if is_win11(version) {
        let calls = vec![reset_client_area(), set_window_attribute(DWMWA_MICA_EFFECT, 0)];
        assert(calls@ =~= mica_cleared(version).unwrap());
        Ok(calls)
    } else {
        Err(VibeError::UnsupportedPlatform("\"clear_mica()\" is only available on Windows 11"))
    }
}

} // verus!
