//! Decides which compositor calls give a window its dark or light title bar and
//! its Mica, Acrylic or blur backdrop on a given Windows release, and keeps the
//! record of the effect that is active so that it is undone before the next one.
//!
//! Nothing here touches a window. Every operation returns the native calls to
//! make, in order, as plain values; the host makes them.

use vstd::prelude::*;
use vstd::string::*;

use crate::colour::{channels, parse_colour, requested_colour};
use crate::dwm_win32::{is_win11_22h2, is_win7, lemma_acrylic_forwards_colour};
use crate::effect::{Effect, Theme};
use crate::native::NativeCall;
use crate::version::WindowsVersion;

pub mod accent;
pub mod colour;
pub mod dwm;
pub mod dwm_win32;
pub mod effect;
pub mod native;
pub mod version;

verus! {

/// The record of what has been done to the window so far.
#[derive(Clone, Copy, Debug, PartialEq, Eq, Structural)]
pub enum VibeState {
    Uninitialized,
    Initialized,
    Acrylic,
    UnifiedAcrylic,
    Blurbehind,
    Mica,
}

impl VibeState {
    /// The effect that is on the window, if one is.
    pub open spec fn spec_effect(self) -> Option<Effect> {
        match self {
            VibeState::Uninitialized => None,
            VibeState::Initialized => None,
            VibeState::Acrylic => Some(Effect::Acrylic),
            VibeState::UnifiedAcrylic => Some(Effect::UnifiedAcrylic),
            VibeState::Blurbehind => Some(Effect::Blurbehind),
            VibeState::Mica => Some(Effect::Mica),
        }
    }

    /// The effect that is on the window, if one is.
    #[verifier::when_used_as_spec(spec_effect)]
    pub fn effect(self) -> (effect: Option<Effect>)
        ensures
            effect == self.spec_effect(),
    {
        match self {
            VibeState::Uninitialized => None,
            VibeState::Initialized => None,
            VibeState::Acrylic => Some(Effect::Acrylic),
            VibeState::UnifiedAcrylic => Some(Effect::UnifiedAcrylic),
            VibeState::Blurbehind => Some(Effect::Blurbehind),
            VibeState::Mica => Some(Effect::Mica),
        }
    }

    /// The record that `effect` is on the window.
    pub open spec fn spec_with(effect: Effect) -> VibeState {
        match effect {
            Effect::Acrylic => VibeState::Acrylic,
            Effect::UnifiedAcrylic => VibeState::UnifiedAcrylic,
            Effect::Blurbehind => VibeState::Blurbehind,
            Effect::Mica => VibeState::Mica,
        }
    }

    /// The record that `effect` is on the window.
    #[verifier::when_used_as_spec(spec_with)]
    pub fn with(effect: Effect) -> (state: VibeState)
        ensures
            state == Self::spec_with(effect),
    {
        match effect {
            Effect::Acrylic => VibeState::Acrylic,
            Effect::UnifiedAcrylic => VibeState::UnifiedAcrylic,
            Effect::Blurbehind => VibeState::Blurbehind,
            Effect::Mica => VibeState::Mica,
        }
    }
}

/// Why an operation did not go through.
#[derive(Debug, PartialEq, Eq)]
pub enum VibeError {
    /// This Windows release cannot do what was asked. The text names the
    /// operation and the releases that can.
    UnsupportedPlatform(&'static str),
    /// The effect's name is none of the four.
    UnknownEffect(String),
    /// The theme's name is neither of the two.
    UnknownTheme(String),
    /// An effect was asked for, or cleared, before `setup`.
    Uninitialized,
}

/// A [`VibeError`] with its texts as sequences of characters.
pub ghost enum Failure {
    UnsupportedPlatform(Seq<char>),
    UnknownEffect(Seq<char>),
    UnknownTheme(Seq<char>),
    Uninitialized,
}

impl Failure {
    /// The text that the host shows for the error.
    pub open spec fn message(self) -> Seq<char> {
        match self {
            Failure::UnsupportedPlatform(reason) => "Unsupported platform: "@ + reason,
            Failure::UnknownEffect(effect) =>
                "Expected `effect` to be one of ['mica', 'acrylic', 'unified-acrylic', 'blurbehind']; got `"@
                    + effect + "`"@,
            Failure::UnknownTheme(theme) => "Expected `theme` to be one of ['dark', 'light']; got `"@
                + theme + "`"@,
            Failure::Uninitialized => "`vibe` was not setup before calling `applyEffect`!"@,
        }
    }
}

impl View for VibeError {
    type V = Failure;

    open spec fn view(&self) -> Failure {
        match self {
            VibeError::UnsupportedPlatform(reason) => Failure::UnsupportedPlatform(reason@),
            VibeError::UnknownEffect(effect) => Failure::UnknownEffect(effect@),
            VibeError::UnknownTheme(theme) => Failure::UnknownTheme(theme@),
            VibeError::Uninitialized => Failure::Uninitialized,
        }
    }
}

/// A plan or the reason why there is none, both as mathematical values.
pub open spec fn plan_view(plan: Result<Vec<NativeCall>, VibeError>) -> Result<
    Seq<NativeCall>,
    Failure,
> {
    match plan {
        Ok(calls) => Ok(calls@),
        Err(error) => Err(error@),
    }
}

/// The calls, where the release has any for the operation; else the refusal
/// that gives `reason`.
pub open spec fn or_unsupported(calls: Option<Seq<NativeCall>>, reason: Seq<char>) -> Result<
    Seq<NativeCall>,
    Failure,
> {
    match calls {
        Some(calls) => Ok(calls),
        None => Err(Failure::UnsupportedPlatform(reason)),
    }
}

impl VibeError {
    /// The text that the host shows for the error.
    pub fn to_string(&self) -> (text: String)
        ensures
            text@ == self@.message(),
    {
        match self {
            VibeError::UnsupportedPlatform(reason) => {
                let mut text = String::from_str("Unsupported platform: ");
                text.append(reason);
                text
            },
            VibeError::UnknownEffect(effect) => {
                let mut text = String::from_str(
                    "Expected `effect` to be one of ['mica', 'acrylic', 'unified-acrylic', 'blurbehind']; got `",
                );
                text.append(effect.as_str());
                text.append("`");
                text
            },
            VibeError::UnknownTheme(theme) => {
                let mut text = String::from_str(
                    "Expected `theme` to be one of ['dark', 'light']; got `",
                );
                text.append(theme.as_str());
                text.append("`");
                text
            },
            VibeError::Uninitialized => String::from_str(
                "`vibe` was not setup before calling `applyEffect`!",
            ),
        }
    }
}

/// The switch that the host's command line must carry for transparent windows.
pub const TRANSPARENT_VISUALS_SWITCH: &'static str = "enable-transparent-visuals";

/// The calls of an operation, and how it ended. The calls are to be made
/// whether it ended well or not.
#[derive(Debug, PartialEq, Eq)]
pub struct Dispatch {
    pub calls: Vec<NativeCall>,
    pub outcome: Result<(), VibeError>,
}

/// What an operation does: the record it leaves, the calls it asks for, and
/// how it ends.
pub ghost struct Transition {
    pub state: VibeState,
    pub calls: Seq<NativeCall>,
    pub outcome: Result<(), Failure>,
}

/// An outcome with its error as a mathematical value.
pub open spec fn outcome_view(outcome: Result<(), VibeError>) -> Result<(), Failure> {
    match outcome {
        Ok(()) => Ok(()),
        Err(error) => Err(error@),
    }
}

/// The calls that take off the effect that `state` records: those by which
/// this release clears that effect. There are none where no effect is
/// recorded, nor where the release has none for it.
pub open spec fn reversal(state: VibeState, version: WindowsVersion) -> Seq<NativeCall> {
    match state.spec_effect() {
        Some(effect) => match effect.cleared(version) {
            Some(calls) => calls,
            None => Seq::empty(),
        },
        None => Seq::empty(),
    }
}

/// What asking for the effect named `effect` does.
///
/// Before `setup` it is refused, whatever the name. After it, the recorded
/// effect is taken off first. Then the name is looked up, and the effect put
/// on by the calls that this release has for it. Where the name is unknown or
/// the release has no such calls, the request is refused, and the record says
/// that no effect is on: the old one is not put back.
pub open spec fn effect_applied(
    state: VibeState,
    version: WindowsVersion,
    effect: Seq<char>,
    colour: Option<[u8; 4]>,
) -> Transition {
    if state == VibeState::Uninitialized {
        Transition { state, calls: Seq::empty(), outcome: Err(Failure::Uninitialized) }
    } else {
        match Effect::named(effect) {
            None => Transition {
                state: VibeState::Initialized,
                calls: reversal(state, version),
                outcome: Err(Failure::UnknownEffect(effect)),
            },
            Some(wanted) => match wanted.applied(version, colour) {
                Some(calls) => Transition {
                    state: VibeState::spec_with(wanted),
                    calls: reversal(state, version) + calls,
                    outcome: Ok(()),
                },
                None => Transition {
                    state: VibeState::Initialized,
                    calls: reversal(state, version),
                    outcome: Err(Failure::UnsupportedPlatform(wanted.refusal())),
                },
            },
        }
    }
}

/// Whether a request for the effect named `effect` looks at its colour. It
/// does after `setup`, where the name is that of acrylic or of blur.
pub open spec fn colour_is_read(state: VibeState, effect: Seq<char>) -> bool {
    &&& state != VibeState::Uninitialized
    &&& Effect::named(effect) matches Some(wanted)
    &&& wanted.takes_colour()
}

/// A colour that is not looked at plays no part in what the request does.
pub proof fn lemma_unread_colour_plays_no_part(
    state: VibeState,
    version: WindowsVersion,
    effect: Seq<char>,
    one: Option<[u8; 4]>,
    other: Option<[u8; 4]>,
)
    requires
        !colour_is_read(state, effect),
    ensures
        effect_applied(state, version, effect, one) == effect_applied(
            state,
            version,
            effect,
            other,
        ),
{
}

/// Before `setup` every request for an effect is refused as one that came too
/// early, whatever it names: the name is not even looked at. Nothing is
/// called and the record stays as it was.
pub proof fn lemma_effect_needs_setup(
    version: WindowsVersion,
    effect: Seq<char>,
    colour: Option<[u8; 4]>,
)
    ensures
        effect_applied(VibeState::Uninitialized, version, effect, colour) == (Transition {
            state: VibeState::Uninitialized,
            calls: Seq::empty(),
            outcome: Err(Failure::Uninitialized),
        }),
{
}

/// After `setup` a request that names no effect is refused with the name it
/// gave, and leaves the record saying that no effect is on.
pub proof fn lemma_unknown_effect_is_refused(
    state: VibeState,
    version: WindowsVersion,
    effect: Seq<char>,
    colour: Option<[u8; 4]>,
)
    requires
        state != VibeState::Uninitialized,
        Effect::named(effect) is None,
    ensures
        effect_applied(state, version, effect, colour).outcome == Err::<(), Failure>(
            Failure::UnknownEffect(effect),
        ),
        effect_applied(state, version, effect, colour).state == VibeState::Initialized,
{
}

/// The effect on the window goes before the next one comes: the calls of a
/// request begin with those that take off the recorded effect, chosen by the
/// record and not by the request. When the request goes through, the calls
/// that put the new effect on follow and the record names it; when it does
/// not, nothing follows.
pub proof fn lemma_recorded_effect_goes_first(
    state: VibeState,
    version: WindowsVersion,
    effect: Seq<char>,
    colour: Option<[u8; 4]>,
)
    requires
        state != VibeState::Uninitialized,
    ensures
        ({
            let done = effect_applied(state, version, effect, colour);
            let undo = reversal(state, version);
            &&& undo.is_prefix_of(done.calls)
            &&& done.outcome is Err ==> done.calls == undo && done.state == VibeState::Initialized
            &&& done.outcome is Ok ==> {
                &&& Effect::named(effect) matches Some(wanted)
                &&& wanted.applied(version, colour) matches Some(calls)
                &&& done.calls == undo + calls
                &&& done.state == VibeState::spec_with(wanted)
            }
        }),
{
    let done = effect_applied(state, version, effect, colour);
    let undo = reversal(state, version);
    assert(done.calls.subrange(0, undo.len() as int) =~= undo);
}

/// Once `setup` has been, it has been: no request for an effect takes the
/// record back to where nothing was set up, and a record that names an effect
/// names the one whose calls went out last.
pub proof fn lemma_setup_lasts(
    state: VibeState,
    version: WindowsVersion,
    effect: Seq<char>,
    colour: Option<[u8; 4]>,
)
    requires
        state != VibeState::Uninitialized,
    ensures
        effect_applied(state, version, effect, colour).state != VibeState::Uninitialized,
        effect_applied(state, version, effect, colour).state.spec_effect() matches Some(now)
            ==> Effect::named(effect) == Some(now) && now.applied(version, colour) is Some,
{
}

/// The colour of a request is the colour that the compositor gets. Where
/// acrylic or blur is asked for with a colour and an accent policy draws it,
/// the last call of the request sets that policy, and the bytes of its
/// gradient are the colour's red, green, blue and alpha. One thing is changed
/// on the way: acrylic, unified or not, gets an alpha of one where the colour
/// has zero.
pub proof fn lemma_requested_colour_is_forwarded(
    state: VibeState,
    version: WindowsVersion,
    effect: Seq<char>,
    colour: [u8; 4],
)
    requires
        state != VibeState::Uninitialized,
        Effect::named(effect) matches Some(wanted) && wanted.takes_colour() && (wanted.unified()
            || !is_win11_22h2(version)),
        is_win7(version),
    ensures
        ({
            let done = effect_applied(state, version, effect, Some(colour));
            &&& done.outcome is Ok
            &&& done.calls.len() > 0
            &&& done.calls.last() matches NativeCall::SetWindowCompositionAttribute { policy, .. }
            &&& channels(policy.gradient_colour) == seq![
                colour[0],
                colour[1],
                colour[2],
                if Effect::named(effect) != Some(Effect::Blurbehind) && colour[3] == 0 {
                    1u8
                } else {
                    colour[3]
                },
            ]
        }),
{
    let wanted = Effect::named(effect).unwrap();
    lemma_acrylic_forwards_colour(
        version,
        wanted.unified(),
        wanted != Effect::Blurbehind,
        colour,
    );
}

/// Nothing is on the window after `setup`, or after a clearing, so there is
/// nothing to take off.
pub proof fn lemma_nothing_to_reverse(version: WindowsVersion)
    ensures
        reversal(VibeState::Uninitialized, version) == Seq::<NativeCall>::empty(),
        reversal(VibeState::Initialized, version) == Seq::<NativeCall>::empty(),
{
}

/// What asking for the theme named `theme` does: the calls that set it, or a
/// refusal where the name is unknown or the release has no dark title bars.
pub open spec fn theme_requested(version: WindowsVersion, theme: Seq<char>) -> Result<
    Seq<NativeCall>,
    Failure,
> {
    match Theme::named(theme) {
        Some(wanted) => wanted.forced(version),
        None => Err(Failure::UnknownTheme(theme)),
    }
}

/// Makes the library ready, once. The first call returns the switch that the
/// host has to append to its command line; every later call returns `None`
/// and changes nothing.
pub fn setup(state: &mut VibeState) -> (switch: Option<&'static str>)
    ensures
        *final(state) == if *old(state) == VibeState::Uninitialized {
            VibeState::Initialized
        } else {
            *old(state)
        },
        match switch {
            Some(text) => *old(state) == VibeState::Uninitialized && text@
                == TRANSPARENT_VISUALS_SWITCH@,
            None => *old(state) != VibeState::Uninitialized,
        },
{
    match *state {
        VibeState::Uninitialized => {
            *state = VibeState::Initialized;
            Some(TRANSPARENT_VISUALS_SWITCH)
        },
        _ => None,
    }
}

/// Takes off the effect that `state` records, if any.
fn reverse(state: VibeState, version: WindowsVersion) -> (calls: Vec<NativeCall>)
    ensures
        calls@ == reversal(state, version),
{
    match state.effect() {
        Some(effect) => effect.clear(version),
        None => Vec::new(),
    }
}

/// Asks for the effect named `effect`, with `colour` for acrylic and blur.
/// See [`effect_applied`].
pub fn apply_effect_rgba(
    state: &mut VibeState,
    version: WindowsVersion,
    effect: &str,
    colour: Option<[u8; 4]>,
) -> (done: Dispatch)
    ensures
        *final(state) == effect_applied(*old(state), version, effect@, colour).state,
        done.calls@ == effect_applied(*old(state), version, effect@, colour).calls,
        outcome_view(done.outcome) == effect_applied(*old(state), version, effect@, colour).outcome,
{
    if *state == VibeState::Uninitialized {
        return Dispatch { calls: Vec::new(), outcome: Err(VibeError::Uninitialized) };
    }
    let mut calls = reverse(*state, version);
    *state = VibeState::Initialized;
    let wanted = match Effect::from_name(effect) {
        Some(wanted) => wanted,
        None => {
            return Dispatch { calls, outcome: Err(VibeError::UnknownEffect(effect.to_owned())) };
        },
    };
    match wanted.apply(version, colour) {
        Ok(mut applied) => {
            calls.append(&mut applied);
            *state = VibeState::with(wanted);
            Dispatch { calls, outcome: Ok(()) }
        },
        Err(error) => Dispatch { calls, outcome: Err(error) },
    }
}

/// Whether a request for the effect named `effect` looks at its colour. See
/// [`colour_is_read`].
pub fn reads_colour(state: VibeState, effect: &str) -> (yes: bool)
    ensures
        yes == colour_is_read(state, effect@),
{
    if state == VibeState::Uninitialized {
        false
    } else {
        match Effect::from_name(effect) {
            Some(wanted) => wanted.takes_colour(),
            None => false,
        }
    }
}

/// Asks for the effect named `effect`. The colour is read out of `colour`
/// where the request looks at it; a string that names no colour counts as
/// none. See [`effect_applied`].
pub fn apply_effect(
    state: &mut VibeState,
    version: WindowsVersion,
    effect: &str,
    colour: Option<&str>,
) -> (done: Dispatch)
    ensures
        *final(state) == effect_applied(
            *old(state),
            version,
            effect@,
            requested_colour(colour),
        ).state,
        done.calls@ == effect_applied(
            *old(state),
            version,
            effect@,
            requested_colour(colour),
        ).calls,
        outcome_view(done.outcome) == effect_applied(
            *old(state),
            version,
            effect@,
            requested_colour(colour),
        ).outcome,
{
    let rgba = if reads_colour(*state, effect) {
        parse_colour(colour)
    } else {
        None
    };
    proof {
        if !colour_is_read(*state, effect@) {
            lemma_unread_colour_plays_no_part(
                *state,
                version,
                effect@,
                rgba,
                requested_colour(colour),
            );
        }
    }
    apply_effect_rgba(state, version, effect, rgba)
}

/// Takes off the effect that is on the window, if any.
pub fn clear_effects(state: &mut VibeState, version: WindowsVersion) -> (plan: Result<
    Vec<NativeCall>,
    VibeError,
>)
    ensures
        *old(state) == VibeState::Uninitialized ==> *final(state) == VibeState::Uninitialized
            && plan_view(plan) == Err::<Seq<NativeCall>, Failure>(Failure::Uninitialized),
        *old(state) != VibeState::Uninitialized ==> *final(state) == VibeState::Initialized
            && plan_view(plan) == Ok::<Seq<NativeCall>, Failure>(reversal(*old(state), version)),
        *old(state) == VibeState::Initialized ==> plan_view(plan) == Ok::<
            Seq<NativeCall>,
            Failure,
        >(Seq::empty()),
{
    if *state == VibeState::Uninitialized {
        return Err(VibeError::Uninitialized);
    }
    let calls = reverse(*state, version);
    *state = VibeState::Initialized;
    Ok(calls)
}

/// Asks for the title bar theme named `theme`, `dark` or `light`. No record
/// is read or kept: a theme can be set before `setup`, and setting it changes
/// nothing for the effects.
pub fn force_theme(version: WindowsVersion, theme: &str) -> (plan: Result<
    Vec<NativeCall>,
    VibeError,
>)
    ensures
        plan_view(plan) == theme_requested(version, theme@),
{
    match Theme::from_name(theme) {
        Some(wanted) => wanted.force(version),
        None => Err(VibeError::UnknownTheme(theme.to_owned())),
    }
}

} // verus!
