//! The effects and themes that a request can name.

use vstd::prelude::*;
use crate::dwm_win32::{
    acrylic_applied,
    acrylic_cleared,
    apply_acrylic,
    apply_mica,
    clear_acrylic,
    clear_mica,
    force_dark_theme,
    force_light_theme,
    mica_applied,
    mica_cleared,
    theme_forced,
};
use crate::native::NativeCall;
use crate::version::WindowsVersion;
use crate::{or_unsupported, plan_view, VibeError};

verus! {

/// Whether two strings hold the same characters. They are compared as owned
/// strings, whose equality is specified; the names compared here are short.
pub(crate) fn same_text(a: &str, b: &str) -> (same: bool)
    ensures
        same == (a@ == b@),
{
    a.to_owned() == b.to_owned()
}

/// A backdrop effect.
#[derive(Clone, Copy, Debug, PartialEq, Eq, Structural)]
pub enum Effect {
    Mica,
    Acrylic,
    UnifiedAcrylic,
    Blurbehind,
}

impl Effect {
    /// The effect that a request names, if it names one: `mica`, `acrylic`,
    /// `unified-acrylic` or `blurbehind`, in just these letters.
    pub open spec fn named(name: Seq<char>) -> Option<Effect> {
        if name == "acrylic"@ {
            Some(Effect::Acrylic)
        } else if name == "unified-acrylic"@ {
            Some(Effect::UnifiedAcrylic)
        } else if name == "blurbehind"@ {
            Some(Effect::Blurbehind)
        } else if name == "mica"@ {
            Some(Effect::Mica)
        } else {
            None
        }
    }

    /// Looks an effect up by its name. See [`Effect::named`].
    pub fn from_name(name: &str) -> (effect: Option<Effect>)
        ensures
            effect == Effect::named(name@),
    {
        if same_text(name, "acrylic") {
            Some(Effect::Acrylic)
        } else if same_text(name, "unified-acrylic") {
            Some(Effect::UnifiedAcrylic)
        } else if same_text(name, "blurbehind") {
            Some(Effect::Blurbehind)
        } else if same_text(name, "mica") {
            Some(Effect::Mica)
        } else {
            None
        }
    }

    /// Each of the four names is the name of its own effect, and of no other.
    pub proof fn lemma_names()
        ensures
            Effect::named("mica"@) == Some(Effect::Mica),
            Effect::named("acrylic"@) == Some(Effect::Acrylic),
            Effect::named("unified-acrylic"@) == Some(Effect::UnifiedAcrylic),
            Effect::named("blurbehind"@) == Some(Effect::Blurbehind),
    {
        reveal_strlit("mica");
        reveal_strlit("acrylic");
        reveal_strlit("unified-acrylic");
        reveal_strlit("blurbehind");
        assert("mica"@.len() == 4);
        assert("acrylic"@.len() == 7);
        assert("unified-acrylic"@.len() == 15);
        assert("blurbehind"@.len() == 10);
    }

    /// Whether the effect is one of acrylic or blur, which take a colour. Mica
    /// takes none.
    pub open spec fn spec_takes_colour(self) -> bool {
        self != Effect::Mica
    }

    /// Whether the effect takes a colour. See [`Effect::spec_takes_colour`].
    #[verifier::when_used_as_spec(spec_takes_colour)]
    pub fn takes_colour(self) -> (yes: bool)
        ensures
            yes == self.spec_takes_colour(),
    {
        match self {
            Effect::Mica => false,
            _ => true,
        }
    }

    /// Whether the effect is always drawn by an accent policy, also where a
    /// system backdrop could be had.
    pub open spec fn unified(self) -> bool {
        self == Effect::UnifiedAcrylic || self == Effect::Blurbehind
    }

    /// The calls that put the effect on the window, or `None` where the
    /// release cannot.
    pub open spec fn applied(self, version: WindowsVersion, colour: Option<[u8; 4]>) -> Option<
        Seq<NativeCall>,
    > {
        match self {
            Effect::Mica => mica_applied(version),
            Effect::Acrylic => acrylic_applied(version, false, true, colour),
            Effect::UnifiedAcrylic => acrylic_applied(version, true, true, colour),
            Effect::Blurbehind => acrylic_applied(version, true, false, colour),
        }
    }

    /// Mica is the same whatever colour comes with the request.
    pub proof fn lemma_colour_is_for_acrylic(
        self,
        version: WindowsVersion,
        one: Option<[u8; 4]>,
        other: Option<[u8; 4]>,
    )
        requires
            !self.takes_colour(),
        ensures
            self.applied(version, one) == self.applied(version, other),
    {
    }

    /// The calls that take the effect off the window, or `None` where the
    /// release has none for it.
    pub open spec fn cleared(self, version: WindowsVersion) -> Option<Seq<NativeCall>> {
        match self {
            Effect::Mica => mica_cleared(version),
            _ => acrylic_cleared(version, self.unified()),
        }
    }

    /// What the refusal says where the release cannot put the effect on.
    pub open spec fn refusal(self) -> Seq<char> {
        match self {
            Effect::Mica => "\"apply_mica()\" is only available on Windows 11"@,
            _ => "\"apply_acrylic()\" is only available on Windows 7+"@,
        }
    }

    /// Plans the effect. See [`Effect::applied`].
    pub fn apply(self, version: WindowsVersion, colour: Option<[u8; 4]>) -> (plan: Result<
        Vec<NativeCall>,
        VibeError,
    >)
        ensures
            plan_view(plan) == or_unsupported(self.applied(version, colour), self.refusal()),
    {
        match self {
            Effect::Mica => apply_mica(version),
            Effect::Acrylic => apply_acrylic(version, false, true, colour),
            Effect::UnifiedAcrylic => apply_acrylic(version, true, true, colour),
            Effect::Blurbehind => apply_acrylic(version, true, false, colour),
        }
    }

    /// The plan that takes the effect off. It is empty where the release has
    /// no calls for that: clearing does what can be done and reports nothing.
    pub fn clear(self, version: WindowsVersion) -> (calls: Vec<NativeCall>)
        ensures
            calls@ == match self.cleared(version) {
                Some(calls) => calls,
                None => Seq::empty(),
            },
    {
        let plan = match self {
            Effect::Mica => clear_mica(version),
            Effect::UnifiedAcrylic | Effect::Blurbehind => clear_acrylic(version, true),
            Effect::Acrylic => clear_acrylic(version, false),
        };
        match plan {
            Ok(calls) => calls,
            Err(_) => Vec::new(),
        }
    }
}

/// A title bar theme.
#[derive(Clone, Copy, Debug, PartialEq, Eq, Structural)]
pub enum Theme {
    Dark,
    Light,
}

impl Theme {
    /// The theme that a request names, if it names one: `dark` or `light`.
    pub open spec fn named(name: Seq<char>) -> Option<Theme> {
        if name == "dark"@ {
            Some(Theme::Dark)
        } else if name == "light"@ {
            Some(Theme::Light)
        } else {
            None
        }
    }

    /// Each of the two names is the name of its own theme.
    pub proof fn lemma_names()
        ensures
            Theme::named("dark"@) == Some(Theme::Dark),
            Theme::named("light"@) == Some(Theme::Light),
    {
        reveal_strlit("dark");
        reveal_strlit("light");
        assert("dark"@.len() == 4);
        assert("light"@.len() == 5);
    }

    /// Looks a theme up by its name. See [`Theme::named`].
    pub fn from_name(name: &str) -> (theme: Option<Theme>)
        ensures
            theme == Theme::named(name@),
    {
        if same_text(name, "dark") {
            Some(Theme::Dark)
        } else if same_text(name, "light") {
            Some(Theme::Light)
        } else {
            None
        }
    }

    /// The calls that give the title bar this theme, or the refusal where the
    /// release has no dark title bars.
    pub open spec fn forced(self, version: WindowsVersion) -> Result<Seq<NativeCall>, crate::Failure> {
        match self {
            Theme::Dark => or_unsupported(
                theme_forced(version, 1),
                "\"force_dark_theme()\" is only available on Windows 10 v1809+ or Windows 11"@,
            ),
            Theme::Light => or_unsupported(
                theme_forced(version, 0),
                "\"force_light_theme()\" is only available on Windows 10 v1809+ or Windows 11"@,
            ),
        }
    }

    /// Plans the theme. See [`Theme::forced`].
    pub fn force(self, version: WindowsVersion) -> (plan: Result<Vec<NativeCall>, VibeError>)
        ensures
            plan_view(plan) == self.forced(version),
    {
        match self {
            Theme::Dark => force_dark_theme(version),
            Theme::Light => force_light_theme(version),
        }
    }
}

} // verus!
