//! Accent policies: the blur and acrylic that the compositor draws behind a
//! window where no system backdrop is to be had.

use vstd::prelude::*;
use crate::colour::{channels, gradient, lemma_channels_of_gradient, pack};
use crate::native::{AccentPolicy, AccentState, NativeCall, WCA_ACCENT_POLICY};

verus! {

/// The channels of the colour that a policy is given: those of `colour`, or
/// four zeros where there is none.
pub open spec fn given(colour: Option<[u8; 4]>) -> Seq<u8> {
    match colour {
        Some(c) => c@,
        None => seq![0u8, 0u8, 0u8, 0u8],
    }
}

/// The colour that goes into the policy. Acrylic does not take an alpha of
/// zero: it gets one instead, and every other channel, and every other alpha,
/// goes in as it was given.
pub open spec fn tint(accent_state: AccentState, given: Seq<u8>) -> Seq<u8> {
    if accent_state == AccentState::EnableAcrylicBlurBehind && given[3] == 0 {
        given.update(3, 1u8)
    } else {
        given
    }
}

/// The policy that sets `accent_state` with `colour`.
pub open spec fn accent_policy(accent_state: AccentState, colour: Seq<u8>) -> AccentPolicy {
    AccentPolicy {
        accent_state: accent_state.spec_code(),
        accent_flags: if accent_state == AccentState::EnableAcrylicBlurBehind {
            0
        } else {
            2
        },
        gradient_colour: gradient(tint(accent_state, colour)) as u32,
        animation_id: 0,
    }
}

/// The call that sets `accent_state` with `colour`.
pub open spec fn accent_set(accent_state: AccentState, colour: Seq<u8>) -> NativeCall {
    NativeCall::SetWindowCompositionAttribute {
        attrib: WCA_ACCENT_POLICY,
        policy: accent_policy(accent_state, colour),
    }
}

/// Plans the setting of an accent policy. See [`accent_policy`].
pub fn set_accent_policy(accent_state: AccentState, colour: Option<[u8; 4]>) -> (call: NativeCall)
    ensures
        call == accent_set(accent_state, given(colour)),
{
    let base: [u8; 4] = match colour {
        Some(c) => c,
        None => [0, 0, 0, 0],
    };
    let is_acrylic = accent_state == AccentState::EnableAcrylicBlurBehind;
    let alpha: u8 = if is_acrylic && base[3] == 0 {
        1
    } else {
        base[3]
    };
    let gradient_colour = pack(base[0], base[1], base[2], alpha);
    assert(base@ =~= given(colour));
    assert(tint(accent_state, given(colour)) =~= seq![base[0], base[1], base[2], alpha]);
    NativeCall::SetWindowCompositionAttribute {
        attrib: WCA_ACCENT_POLICY,
        policy: AccentPolicy {
            accent_state: accent_state.code(),
            accent_flags: if is_acrylic {
                0
            } else {
                2
            },
            gradient_colour,
            animation_id: 0,
        },
    }
}

/// A colour reaches the compositor as it was given: the bytes of the policy's
/// gradient are the colour's red, green and blue, and its alpha too, except
/// that acrylic gets an alpha of one where zero was given.
pub proof fn lemma_colour_is_forwarded(accent_state: AccentState, colour: Seq<u8>)
    requires
        colour.len() == 4,
    ensures
        ({
            let sent = channels(accent_policy(accent_state, colour).gradient_colour);
            &&& sent.len() == 4
            &&& sent[0] == colour[0]
            &&& sent[1] == colour[1]
            &&& sent[2] == colour[2]
            &&& sent[3] == if accent_state == AccentState::EnableAcrylicBlurBehind && colour[3]
                == 0 {
                1u8
            } else {
                colour[3]
            }
        }),
{
    lemma_channels_of_gradient(tint(accent_state, colour));
}

} // verus!
