//! Choosing the active color scheme from the user's preference.
//!
//! Probing the desktop for its light/dark preference is an OS matter;
//! callers do that probe and pass its outcome in as `system_dark`.

use vstd::prelude::*;
use crate::color::{dark_scheme, light_scheme, ColorScheme, ThemePreference};

verus! {

/// The scheme a preference selects: light and dark pick their theme
/// directly; the system preference follows `system_dark`.
pub fn get_color_scheme(preference: ThemePreference, system_dark: bool) -> (s: ColorScheme)
    ensures
        preference == ThemePreference::Light ==> s == light_scheme(),
        preference == ThemePreference::Dark ==> s == dark_scheme(),
        preference == ThemePreference::System ==> s == if system_dark {
            dark_scheme()
        } else {
            light_scheme()
        },
{
    match preference {
        ThemePreference::Light => ColorScheme::light(),
        ThemePreference::Dark => ColorScheme::dark(),
        ThemePreference::System => {
            if system_dark {
                ColorScheme::dark()
            } else {
                ColorScheme::light()
            }
        },
    }
}

} // verus!
