//! The window's two color schemes and the icon of the theme-toggle button.

use vstd::prelude::*;

verus! {

/// Which icon asset the theme-toggle button shows. The widget shell maps
/// each variant to the bytes of the matching image file.
#[derive(Copy, Clone, Debug, PartialEq, Eq, Structural)]
pub enum ThemeIcon {
    MoonStars,
    MoonStarsFill,
}

/// The color scheme of the window.
#[derive(Copy, Clone, Debug, PartialEq, Eq, Structural)]
pub enum AppTheme {
    Light,
    Dark,
}

impl AppTheme {
    /// The theme opposite to this one.
    pub open spec fn spec_inv(self) -> AppTheme {
        match self {
            AppTheme::Light => AppTheme::Dark,
            AppTheme::Dark => AppTheme::Light,
        }
    }

    /// Returns the inverse theme.
    pub fn inv(self) -> (r: Self)
        ensures
            r == self.spec_inv(),
    {
        match self {
            AppTheme::Light => AppTheme::Dark,
            AppTheme::Dark => AppTheme::Light,
        }
    }

    /// The icon that the theme-toggle button shows under this theme.
    pub open spec fn spec_icon(self) -> ThemeIcon {
        match self {
            AppTheme::Light => ThemeIcon::MoonStars,
            AppTheme::Dark => ThemeIcon::MoonStarsFill,
        }
    }

    /// Theme icon to display.
    pub fn icon(self) -> (r: ThemeIcon)
        ensures
            r == self.spec_icon(),
    {
        match self {
            AppTheme::Light => ThemeIcon::MoonStars,
            AppTheme::Dark => ThemeIcon::MoonStarsFill,
        }
    }
}

impl Default for AppTheme {
    /// The window starts in the dark theme.
    fn default() -> (r: Self)
        ensures
            r == AppTheme::Dark,
    {
        AppTheme::Dark
    }
}

/// Toggling the theme twice gives back the starting theme.
pub proof fn lemma_theme_toggle_involutive(t: AppTheme)
    ensures
        t.spec_inv().spec_inv() == t,
{
}

} // verus!
