//! The plain styling selectors the view layer keys its appearance
//! tables by.  The tables themselves — colors, borders, fonts — live
//! with the rendering toolkit in the shell; this layer only fixes the
//! closed sets of selectors and their starting values.

use vstd::prelude::*;

verus! {

/// The color theme.
#[derive(Debug, Clone, Copy, PartialEq, Eq, Structural)]
pub enum Theme {
    Dark,
    Light,
}

impl Default for Theme {
    fn default() -> (r: Self)
        ensures
            r == Theme::Dark,
    {
        Theme::Dark
    }
}

/// The application-wide appearance selector.
#[derive(Debug, Clone, Copy, PartialEq, Eq, Structural)]
pub enum Application {
    Plain,
}

impl Default for Application {
    fn default() -> (r: Self)
        ensures
            r == Application::Plain,
    {
        Application::Plain
    }
}

/// The container appearance selectors.
#[derive(Debug, Clone, Copy, PartialEq, Eq, Structural)]
pub enum Container {
    Plain,
    Rounded,
    HeavyRounded,
}

impl Default for Container {
    fn default() -> (r: Self)
        ensures
            r == Container::Plain,
    {
        Container::Plain
    }
}

/// The vector-icon appearance selectors.
#[derive(Debug, Clone, Copy, PartialEq, Eq, Structural)]
pub enum Svg {
    Plain,
    Icon,
}

impl Default for Svg {
    fn default() -> (r: Self)
        ensures
            r == Svg::Plain,
    {
        Svg::Plain
    }
}

/// The button appearance selectors.
#[derive(Debug, Clone, Copy, PartialEq, Eq, Structural)]
pub enum Button {
    Plain,
    Circular,
}

impl Default for Button {
    fn default() -> (r: Self)
        ensures
            r == Button::Plain,
    {
        Button::Plain
    }
}

} // verus!
