//! The compositor calls that the library plans, as plain values.
//!
//! A plan is a list of [`NativeCall`]s. The host makes each call on the window
//! it was asked about, in the order of the list.

use vstd::prelude::*;

verus! {

/// Window attribute that turns the dark title bar on or off on Windows 11.
/// Windows 10 has it one ordinal lower.
pub const DWMWA_USE_IMMERSIVE_DARK_MODE: i32 = 20;

/// Window attribute that turns Mica on or off on Windows 11 before 22H2.
pub const DWMWA_MICA_EFFECT: i32 = 1029;

/// Window attribute that selects the system backdrop.
pub const DWMWA_SYSTEMBACKDROP_TYPE: i32 = 38;

/// Window composition attribute under which an accent policy is set.
pub const WCA_ACCENT_POLICY: u32 = 0x13;

/// What the compositor draws behind a window under an accent policy.
#[derive(Clone, Copy, Debug, PartialEq, Eq, Structural)]
pub enum AccentState {
    Disabled,
    EnableBlurBehind,
    EnableAcrylicBlurBehind,
}

impl AccentState {
    /// The number that the compositor knows the state by.
    pub open spec fn spec_code(self) -> u32 {
        match self {
            AccentState::Disabled => 0,
            AccentState::EnableBlurBehind => 3,
            AccentState::EnableAcrylicBlurBehind => 4,
        }
    }

    /// The number that the compositor knows the state by.
    #[verifier::when_used_as_spec(spec_code)]
    pub fn code(self) -> (code: u32)
        ensures
            code == self.spec_code(),
    {
        match self {
            AccentState::Disabled => 0,
            AccentState::EnableBlurBehind => 3,
            AccentState::EnableAcrylicBlurBehind => 4,
        }
    }
}

/// A system backdrop that the backdrop attribute can select.
#[derive(Clone, Copy, Debug, PartialEq, Eq, Structural)]
pub enum BackdropType {
    /// No backdrop.
    Disable,
    /// Mica.
    MainWindow,
    /// Acrylic.
    TransientWindow,
    /// Tabbed Mica.
    TabbedWindow,
}

impl BackdropType {
    /// The number that the compositor knows the backdrop by.
    pub open spec fn spec_code(self) -> i32 {
        match self {
            BackdropType::Disable => 1,
            BackdropType::MainWindow => 2,
            BackdropType::TransientWindow => 3,
            BackdropType::TabbedWindow => 4,
        }
    }

    /// The number that the compositor knows the backdrop by.
    #[verifier::when_used_as_spec(spec_code)]
    pub fn code(self) -> (code: i32)
        ensures
            code == self.spec_code(),
    {
        match self {
            BackdropType::Disable => 1,
            BackdropType::MainWindow => 2,
            BackdropType::TransientWindow => 3,
            BackdropType::TabbedWindow => 4,
        }
    }
}

/// The accent policy record, field for field as the compositor reads it.
#[derive(Clone, Copy, Debug, PartialEq, Eq, Structural)]
pub struct AccentPolicy {
    pub accent_state: u32,
    pub accent_flags: u32,
    pub gradient_colour: u32,
    pub animation_id: u32,
}

/// How far the window frame reaches into the client area, per side. A negative
/// width stands for the whole window.
#[derive(Clone, Copy, Debug, PartialEq, Eq, Structural)]
pub struct Margins {
    pub left: i32,
    pub right: i32,
    pub top: i32,
    pub bottom: i32,
}

/// One call for the host to make on the window.
#[derive(Clone, Copy, Debug, PartialEq, Eq, Structural)]
pub enum NativeCall {
    /// `DwmExtendFrameIntoClientArea` with these margins.
    ExtendFrameIntoClientArea { margins: Margins },
    /// `DwmSetWindowAttribute`, setting the attribute to this four-byte value.
    SetWindowAttribute { attribute: i32, value: i32 },
    /// `SetWindowCompositionAttribute`, setting the attribute to this policy.
    SetWindowCompositionAttribute { attrib: u32, policy: AccentPolicy },
}

/// What a call acts on: the window's frame, one of its attributes, or one of
/// its composition attributes.
pub ghost enum Target {
    Frame,
    Attribute(i32),
    Composition(u32),
}

impl NativeCall {
    /// What the call acts on.
    pub open spec fn target(self) -> Target {
        match self {
            NativeCall::ExtendFrameIntoClientArea { .. } => Target::Frame,
            NativeCall::SetWindowAttribute { attribute, .. } => Target::Attribute(attribute),
            NativeCall::SetWindowCompositionAttribute { attrib, .. } => Target::Composition(attrib),
        }
    }
}

/// Whether every target of `calls` is a target of `others` too.
pub open spec fn covered_by(calls: Seq<NativeCall>, others: Seq<NativeCall>) -> bool {
    forall|i: int|
        0 <= i < calls.len() ==> exists|j: int|
            0 <= j < others.len() && #[trigger] others[j].target() == #[trigger] calls[i].target()
}

/// Whether no target of `calls` is a target of `others`.
pub open spec fn apart_from(calls: Seq<NativeCall>, others: Seq<NativeCall>) -> bool {
    forall|i: int, j: int|
        0 <= i < calls.len() && 0 <= j < others.len() ==> #[trigger] calls[i].target()
            != #[trigger] others[j].target()
}

/// The call that lets the backdrop show under the whole window, title bar
/// included.
pub open spec fn frame_extended() -> NativeCall {
    NativeCall::ExtendFrameIntoClientArea {
        margins: Margins { left: -1i32, right: -1i32, top: -1i32, bottom: -1i32 },
    }
}

/// The call that gives the client area back its own frame.
pub open spec fn frame_reset() -> NativeCall {
    NativeCall::ExtendFrameIntoClientArea {
        margins: Margins { left: 0, right: 0, top: 0, bottom: 0 },
    }
}

/// The call that sets a window attribute.
pub open spec fn attribute_set(attribute: i32, value: i32) -> NativeCall {
    NativeCall::SetWindowAttribute { attribute, value }
}

/// The call that selects a system backdrop.
pub open spec fn backdrop_set(backdrop: BackdropType) -> NativeCall {
    attribute_set(DWMWA_SYSTEMBACKDROP_TYPE, backdrop.spec_code())
}

/// Plans the frame's extension over the whole window.
pub fn extend_client_area() -> (call: NativeCall)
    ensures
        call == frame_extended(),
{
    NativeCall::ExtendFrameIntoClientArea {
        margins: Margins { left: -1, right: -1, top: -1, bottom: -1 },
    }
}

/// Plans the frame's return to the window's edge.
pub fn reset_client_area() -> (call: NativeCall)
    ensures
        call == frame_reset(),
{
    NativeCall::ExtendFrameIntoClientArea {
        margins: Margins { left: 0, right: 0, top: 0, bottom: 0 },
    }
}

/// Plans the setting of a window attribute.
pub fn set_window_attribute(attribute: i32, value: i32) -> (call: NativeCall)
    ensures
        call == attribute_set(attribute, value),
{
    NativeCall::SetWindowAttribute { attribute, value }
}

/// Plans the selection of a system backdrop.
pub fn set_backdrop(backdrop: BackdropType) -> (call: NativeCall)
    ensures
        call == backdrop_set(backdrop),
{
    set_window_attribute(DWMWA_SYSTEMBACKDROP_TYPE, backdrop.code())
}

} // verus!
