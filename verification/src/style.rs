//! Styles: an optional foreground, an optional background and a set of
//! effects, and the `|` combinators that build one from colours.
use crate::color::{AnsiColor, Color, RgbColor, XTermColor};
use vstd::prelude::*;
use vstd::std_specs::convert::IntoSpec;
use vstd::std_specs::ops::BitOrSpecImpl;

verus! {

/// A set of text effects, held as a mask with one bit for each effect.
#[derive(Copy, Clone, Debug, PartialEq, Eq, PartialOrd, Ord, Hash, Structural)]
pub struct Effects(pub u16);

impl Effects {
    /// The set that holds the effects of `self` and those of `other`.
    pub open spec fn union(self, other: Effects) -> Effects {
        Effects(self.0 | other.0)
    }

    /// Whether every effect of `other` is among those of `self`.
    pub open spec fn spec_contains(self, other: Effects) -> bool {
        self.0 & other.0 == other.0
    }

    /// The empty set.
    pub fn new() -> (e: Effects)
        ensures
            e == Effects(0),
    {
        Effects(0)
    }

    /// Bold, or increased intensity.
    pub fn bold() -> (e: Effects)
        ensures
            e == Effects(1),
    {
        Effects(1)
    }

    /// Faint, or decreased intensity.
    pub fn dimmed() -> (e: Effects)
        ensures
            e == Effects(2),
    {
        Effects(2)
    }

    /// Italic.
    pub fn italic() -> (e: Effects)
        ensures
            e == Effects(4),
    {
        Effects(4)
    }

    /// Underlined.
    pub fn underline() -> (e: Effects)
        ensures
            e == Effects(8),
    {
        Effects(8)
    }

    /// Blinking.
    pub fn blink() -> (e: Effects)
        ensures
            e == Effects(16),
    {
        Effects(16)
    }

    /// Foreground and background swapped.
    pub fn invert() -> (e: Effects)
        ensures
            e == Effects(32),
    {
        Effects(32)
    }

    /// Concealed.
    pub fn hidden() -> (e: Effects)
        ensures
            e == Effects(64),
    {
        Effects(64)
    }

    /// Crossed out.
    pub fn strikethrough() -> (e: Effects)
        ensures
            e == Effects(128),
    {
        Effects(128)
    }

    /// Whether every effect of `other` is among those of `self`.
    #[verifier::when_used_as_spec(spec_contains)]
    pub fn contains(self, other: Effects) -> (b: bool)
        ensures
            b == self.spec_contains(other),
    {
        self.0 & other.0 == other.0
    }
}

/// The union of two sets of effects.
impl core::ops::BitOr for Effects {
    type Output = Effects;

    fn bitor(self, rhs: Effects) -> (e: Effects) {
        Effects(self.0 | rhs.0)
    }
}

impl BitOrSpecImpl for Effects {
    open spec fn obeys_bitor_spec() -> bool {
        true
    }

    open spec fn bitor_req(self, rhs: Effects) -> bool {
        true
    }

    open spec fn bitor_spec(self, rhs: Effects) -> Effects {
        self.union(rhs)
    }
}

/// `From<T> for T` of the standard library, which `into` goes through where
/// a `Color` stands on the right of `|`: converting a value into its own type
/// hands it back unchanged. This is taken from the documentation of the
/// standard library and is not proved here.
pub assume_specification<T>[ <T as core::convert::From<T>>::from ](t: T) -> (ret: T)
    ensures
        ret == t,
;

/// What text is drawn with: a foreground and a background, each of which may
/// be left unset, and a set of effects.
#[derive(Copy, Clone, Debug, PartialEq, Eq, PartialOrd, Ord, Hash, Structural)]
pub struct Style {
    pub fg: Option<Color>,
    pub bg: Option<Color>,
    pub effects: Effects,
}

impl Style {
    /// The style that has `fg` alone.
    pub open spec fn of_fg(fg: Color) -> Style {
        Style { fg: Some(fg), bg: None, effects: Effects(0) }
    }

    /// The style without colours or effects.
    pub fn new() -> (s: Style)
        ensures
            s == (Style { fg: None, bg: None, effects: Effects(0) }),
    {
        Style { fg: None, bg: None, effects: Effects(0) }
    }

    /// This style with the foreground replaced.
    pub fn fg_color(self, fg: Option<Color>) -> (s: Style)
        ensures
            s == (Style { fg: fg, ..self }),
    {
        Style { fg: fg, bg: self.bg, effects: self.effects }
    }

    /// This style with the background replaced.
    pub fn bg_color(self, bg: Option<Color>) -> (s: Style)
        ensures
            s == (Style { bg: bg, ..self }),
    {
        Style { fg: self.fg, bg: bg, effects: self.effects }
    }

    /// The foreground, if one is set.
    pub fn get_fg_color(self) -> (fg: Option<Color>)
        ensures
            fg == self.fg,
    {
        self.fg
    }

    /// The background, if one is set.
    pub fn get_bg_color(self) -> (bg: Option<Color>)
        ensures
            bg == self.bg,
    {
        self.bg
    }

    /// The effects.
    pub fn get_effects(self) -> (effects: Effects)
        ensures
            effects == self.effects,
    {
        self.effects
    }
}

/// Define style with the effects of `rhs` added
impl core::ops::BitOr<Effects> for Style {
    type Output = Style;

    fn bitor(self, rhs: Effects) -> (s: Style) {
        Style { fg: self.fg, bg: self.bg, effects: self.effects | rhs }
    }
}

impl BitOrSpecImpl<Effects> for Style {
    open spec fn obeys_bitor_spec() -> bool {
        true
    }

    open spec fn bitor_req(self, rhs: Effects) -> bool {
        true
    }

    open spec fn bitor_spec(self, rhs: Effects) -> Style {
        Style { effects: self.effects.union(rhs), ..self }
    }
}

/// Define style with specified foreground and background colors
impl<C: Into<Color>> core::ops::BitOr<C> for Color {
    type Output = Style;

    fn bitor(self, rhs: C) -> (s: Style)
        ensures
            s.fg == Some(self),
            s.bg is Some,
            call_ensures(<C as Into<Color>>::into, (rhs,), s.bg->0),
            s.effects == Effects(0),
    {
        Style::new().fg_color(Some(self)).bg_color(Some(rhs.into()))
    }
}

impl<C: Into<Color>> BitOrSpecImpl<C> for Color {
    open spec fn obeys_bitor_spec() -> bool {
        <C as IntoSpec<Color>>::obeys_into_spec()
    }

    open spec fn bitor_req(self, rhs: C) -> bool {
        true
    }

    open spec fn bitor_spec(self, rhs: C) -> Style {
        Style { bg: Some(<C as IntoSpec<Color>>::into_spec(rhs)), ..Style::of_fg(self) }
    }
}

/// Define style with specified foreground color and effects
impl core::ops::BitOr<Effects> for Color {
    type Output = Style;

    fn bitor(self, rhs: Effects) -> (s: Style) {
        assert(0u16 | rhs.0 == rhs.0) by (bit_vector);
        Style::new().fg_color(Some(self)) | rhs
    }
}

impl BitOrSpecImpl<Effects> for Color {
    open spec fn obeys_bitor_spec() -> bool {
        true
    }

    open spec fn bitor_req(self, rhs: Effects) -> bool {
        true
    }

    open spec fn bitor_spec(self, rhs: Effects) -> Style {
        Style { effects: rhs, ..Style::of_fg(self) }
    }
}

/// Define style with specified foreground and background colors
impl<C: Into<Color>> core::ops::BitOr<C> for AnsiColor {
    type Output = Style;

    fn bitor(self, rhs: C) -> (s: Style)
        ensures
            s.fg == Some(Color::Ansi(self)),
            s.bg is Some,
            call_ensures(<C as Into<Color>>::into, (rhs,), s.bg->0),
            s.effects == Effects(0),
    {
        Style::new().fg_color(Some(Color::from(self))).bg_color(Some(rhs.into()))
    }
}

impl<C: Into<Color>> BitOrSpecImpl<C> for AnsiColor {
    open spec fn obeys_bitor_spec() -> bool {
        <C as IntoSpec<Color>>::obeys_into_spec()
    }

    open spec fn bitor_req(self, rhs: C) -> bool {
        true
    }

    open spec fn bitor_spec(self, rhs: C) -> Style {
        Style { bg: Some(<C as IntoSpec<Color>>::into_spec(rhs)), ..Style::of_fg(Color::Ansi(self)) }
    }
}

/// Define style with specified foreground color and effects
impl core::ops::BitOr<Effects> for AnsiColor {
    type Output = Style;

    fn bitor(self, rhs: Effects) -> (s: Style) {
        assert(0u16 | rhs.0 == rhs.0) by (bit_vector);
        Style::new().fg_color(Some(Color::from(self))) | rhs
    }
}

impl BitOrSpecImpl<Effects> for AnsiColor {
    open spec fn obeys_bitor_spec() -> bool {
        true
    }

    open spec fn bitor_req(self, rhs: Effects) -> bool {
        true
    }

    open spec fn bitor_spec(self, rhs: Effects) -> Style {
        Style { effects: rhs, ..Style::of_fg(Color::Ansi(self)) }
    }
}

/// Define style with specified foreground and background colors
impl<C: Into<Color>> core::ops::BitOr<C> for XTermColor {
    type Output = Style;

    fn bitor(self, rhs: C) -> (s: Style)
        ensures
            s.fg == Some(Color::XTerm(self)),
            s.bg is Some,
            call_ensures(<C as Into<Color>>::into, (rhs,), s.bg->0),
            s.effects == Effects(0),
    {
        Style::new().fg_color(Some(Color::from(self))).bg_color(Some(rhs.into()))
    }
}

impl<C: Into<Color>> BitOrSpecImpl<C> for XTermColor {
    open spec fn obeys_bitor_spec() -> bool {
        <C as IntoSpec<Color>>::obeys_into_spec()
    }

    open spec fn bitor_req(self, rhs: C) -> bool {
        true
    }

    open spec fn bitor_spec(self, rhs: C) -> Style {
        Style { bg: Some(<C as IntoSpec<Color>>::into_spec(rhs)), ..Style::of_fg(Color::XTerm(self)) }
    }
}

/// Define style with specified foreground color and effects
impl core::ops::BitOr<Effects> for XTermColor {
    type Output = Style;

    fn bitor(self, rhs: Effects) -> (s: Style) {
        assert(0u16 | rhs.0 == rhs.0) by (bit_vector);
        Style::new().fg_color(Some(Color::from(self))) | rhs
    }
}

impl BitOrSpecImpl<Effects> for XTermColor {
    open spec fn obeys_bitor_spec() -> bool {
        true
    }

    open spec fn bitor_req(self, rhs: Effects) -> bool {
        true
    }

    open spec fn bitor_spec(self, rhs: Effects) -> Style {
        Style { effects: rhs, ..Style::of_fg(Color::XTerm(self)) }
    }
}

/// Define style with specified foreground and background colors
impl<C: Into<Color>> core::ops::BitOr<C> for RgbColor {
    type Output = Style;

    fn bitor(self, rhs: C) -> (s: Style)
        ensures
            s.fg == Some(Color::Rgb(self)),
            s.bg is Some,
            call_ensures(<C as Into<Color>>::into, (rhs,), s.bg->0),
            s.effects == Effects(0),
    {
        Style::new().fg_color(Some(Color::from(self))).bg_color(Some(rhs.into()))
    }
}

impl<C: Into<Color>> BitOrSpecImpl<C> for RgbColor {
    open spec fn obeys_bitor_spec() -> bool {
        <C as IntoSpec<Color>>::obeys_into_spec()
    }

    open spec fn bitor_req(self, rhs: C) -> bool {
        true
    }

    open spec fn bitor_spec(self, rhs: C) -> Style {
        Style { bg: Some(<C as IntoSpec<Color>>::into_spec(rhs)), ..Style::of_fg(Color::Rgb(self)) }
    }
}

/// Define style with specified foreground color and effects
impl core::ops::BitOr<Effects> for RgbColor {
    type Output = Style;

    fn bitor(self, rhs: Effects) -> (s: Style) {
        assert(0u16 | rhs.0 == rhs.0) by (bit_vector);
        Style::new().fg_color(Some(Color::from(self))) | rhs
    }
}

impl BitOrSpecImpl<Effects> for RgbColor {
    open spec fn obeys_bitor_spec() -> bool {
        true
    }

    open spec fn bitor_req(self, rhs: Effects) -> bool {
        true
    }

    open spec fn bitor_spec(self, rhs: Effects) -> Style {
        Style { effects: rhs, ..Style::of_fg(Color::Rgb(self)) }
    }
}

} // verus!
