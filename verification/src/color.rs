//! Colours and their SGR encodings.
use crate::decimal::{decimal, digit, digit_str, write_decimal};
use vstd::prelude::*;
use vstd::std_specs::convert::FromSpecImpl;
use vstd::string::StringExecFns;

verus! {

/// What a colour is applied to. It selects the numeric range of the encoding
/// and carries no state of its own.
#[derive(Copy, Clone, Debug, PartialEq, Eq, Structural)]
pub enum ColorContext {
    Background,
    Foreground,
    Underline,
}

impl ColorContext {
    /// The SGR parameter that introduces an extended (8-bit or 24-bit)
    /// colour: `38` sets the foreground, `48` the background and `58` the
    /// underline colour.
    pub open spec fn selector(self) -> nat {
        match self {
            ColorContext::Foreground => 38,
            ColorContext::Background => 48,
            ColorContext::Underline => 58,
        }
    }

    /// The selector in decimal, followed by the separator.
    pub open spec fn selector_text(self) -> Seq<char> {
        decimal(self.selector()).push(';')
    }

    /// Appends the selector of an extended colour and its separator to `f`.
    pub fn write_selector(self, f: &mut String)
        ensures
            final(f)@ == old(f)@ + self.selector_text(),
    {
        proof {
            reveal_with_fuel(decimal, 3);
            reveal_strlit("38;");
            reveal_strlit("48;");
            reveal_strlit("58;");
        }
        let text: &'static str = match self {
            ColorContext::Foreground => "38;",
            ColorContext::Background => "48;",
            ColorContext::Underline => "58;",
        };
        assert(text@ =~= self.selector_text());
        f.append(text);
    }
}

/// A colour that can write the numeric body of its escape sequence.
pub trait AnsiColorFmt {
    /// The SGR parameters of this colour in `context`: decimal numbers
    /// separated by semicolons, without introducer or terminator.
    spec fn sgr_body(&self, context: ColorContext) -> Seq<char>;

    /// Appends the SGR parameters of this colour in `context` to `f`.
    fn ansi_fmt(&self, f: &mut String, context: ColorContext)
        ensures
            final(f)@ == old(f)@ + self.sgr_body(context),
    ;
}

/// The 4-bit ANSI colours: eight hues, each in a normal and a bright form.
#[derive(Copy, Clone, Debug, PartialEq, Eq, PartialOrd, Ord, Hash, Structural)]
pub enum AnsiColor {
    /// Black: #0 (foreground code `30`, background code `40`).
    Black,
    /// Red: #1 (foreground code `31`, background code `41`).
    Red,
    /// Green: #2 (foreground code `32`, background code `42`).
    Green,
    /// Yellow: #3 (foreground code `33`, background code `43`).
    Yellow,
    /// Blue: #4 (foreground code `34`, background code `44`).
    Blue,
    /// Magenta: #5 (foreground code `35`, background code `45`).
    Magenta,
    /// Cyan: #6 (foreground code `36`, background code `46`).
    Cyan,
    /// White: #7 (foreground code `37`, background code `47`).
    White,
    /// Bright black: #0 (foreground code `90`, background code `100`).
    BrightBlack,
    /// Bright red: #1 (foreground code `91`, background code `101`).
    BrightRed,
    /// Bright green: #2 (foreground code `92`, background code `102`).
    BrightGreen,
    /// Bright yellow: #3 (foreground code `93`, background code `103`).
    BrightYellow,
    /// Bright blue: #4 (foreground code `94`, background code `104`).
    BrightBlue,
    /// Bright magenta: #5 (foreground code `95`, background code `105`).
    BrightMagenta,
    /// Bright cyan: #6 (foreground code `96`, background code `106`).
    BrightCyan,
    /// Bright white: #7 (foreground code `97`, background code `107`).
    BrightWhite,
}

impl AnsiColor {
    /// The sixteen colours in palette order: the colour at position `i` is
    /// the one that palette index `i` names.
    pub open spec fn palette() -> Seq<AnsiColor> {
        seq![
            AnsiColor::Black,
            AnsiColor::Red,
            AnsiColor::Green,
            AnsiColor::Yellow,
            AnsiColor::Blue,
            AnsiColor::Magenta,
            AnsiColor::Cyan,
            AnsiColor::White,
            AnsiColor::BrightBlack,
            AnsiColor::BrightRed,
            AnsiColor::BrightGreen,
            AnsiColor::BrightYellow,
            AnsiColor::BrightBlue,
            AnsiColor::BrightMagenta,
            AnsiColor::BrightCyan,
            AnsiColor::BrightWhite,
        ]
    }

    /// The index of this colour in the 8-bit palette, `0` to `15`.
    pub open spec fn palette_index(self) -> u8 {
        match self {
            AnsiColor::Black => 0,
            AnsiColor::Red => 1,
            AnsiColor::Green => 2,
            AnsiColor::Yellow => 3,
            AnsiColor::Blue => 4,
            AnsiColor::Magenta => 5,
            AnsiColor::Cyan => 6,
            AnsiColor::White => 7,
            AnsiColor::BrightBlack => 8,
            AnsiColor::BrightRed => 9,
            AnsiColor::BrightGreen => 10,
            AnsiColor::BrightYellow => 11,
            AnsiColor::BrightBlue => 12,
            AnsiColor::BrightMagenta => 13,
            AnsiColor::BrightCyan => 14,
            AnsiColor::BrightWhite => 15,
        }
    }

    /// The hue, `0` to `7`, which a normal colour shares with its bright form.
    pub open spec fn hue(self) -> nat {
        (self.palette_index() % 8) as nat
    }

    /// Whether this colour belongs to the bright group.
    pub open spec fn bright(self) -> bool {
        self.palette_index() >= 8
    }

    /// The legacy two- or three-digit SGR code of this colour: `30`-`37` for
    /// a normal foreground, `40`-`47` for a normal background, `90`-`97` for
    /// a bright foreground and `100`-`107` for a bright background.
    pub open spec fn legacy_code(self, context: ColorContext) -> nat
        recommends
            context != ColorContext::Underline,
    {
        let base: nat = match (context, self.bright()) {
            (ColorContext::Background, true) => 100,
            (ColorContext::Background, false) => 40,
            (_, true) => 90,
            (_, false) => 30,
        };
        base + self.hue()
    }

    /// Render the ANSI code for a foreground color
    pub fn render_fg(self) -> (d: DisplayColor<AnsiColor>)
        ensures
            d.color == self,
            d.context == ColorContext::Foreground,
    {
        DisplayColor { color: self, context: ColorContext::Foreground }
    }

    /// Render the ANSI code for a background color
    pub fn render_bg(self) -> (d: DisplayColor<AnsiColor>)
        ensures
            d.color == self,
            d.context == ColorContext::Background,
    {
        DisplayColor { color: self, context: ColorContext::Background }
    }

    /// Whether this colour belongs to the bright group.
    pub fn is_bright(self) -> (b: bool)
        ensures
            b == self.bright(),
    {
        match self {
            Self::Black => false,
            Self::Red => false,
            Self::Green => false,
            Self::Yellow => false,
            Self::Blue => false,
            Self::Magenta => false,
            Self::Cyan => false,
            Self::White => false,
            Self::BrightBlack => true,
            Self::BrightRed => true,
            Self::BrightGreen => true,
            Self::BrightYellow => true,
            Self::BrightBlue => true,
            Self::BrightMagenta => true,
            Self::BrightCyan => true,
            Self::BrightWhite => true,
        }
    }

    /// The last digit of the legacy code: the hue as one decimal digit.
    pub fn suffix(self) -> (s: &'static str)
        ensures
            s@ == seq![digit(self.hue())],
    {
        proof {
            reveal_strlit("0");
            reveal_strlit("1");
            reveal_strlit("2");
            reveal_strlit("3");
            reveal_strlit("4");
            reveal_strlit("5");
            reveal_strlit("6");
            reveal_strlit("7");
        }
        let s: &'static str = match self {
            Self::Black => "0",
            Self::Red => "1",
            Self::Green => "2",
            Self::Yellow => "3",
            Self::Blue => "4",
            Self::Magenta => "5",
            Self::Cyan => "6",
            Self::White => "7",
            Self::BrightBlack => "0",
            Self::BrightRed => "1",
            Self::BrightGreen => "2",
            Self::BrightYellow => "3",
            Self::BrightBlue => "4",
            Self::BrightMagenta => "5",
            Self::BrightCyan => "6",
            Self::BrightWhite => "7",
        };
        assert(s@ =~= seq![digit(self.hue())]);
        s
    }
}

impl AnsiColorFmt for AnsiColor {
    /// The legacy code in decimal for a foreground or a background. There is
    /// no legacy code for an underline colour: there the body is that of the
    /// palette index of the same colour.
    open spec fn sgr_body(&self, context: ColorContext) -> Seq<char> {
        match context {
            ColorContext::Underline => XTermColor::spec_from_ansi(*self).sgr_body(context),
            _ => decimal(self.legacy_code(context)),
        }
    }

    fn ansi_fmt(&self, f: &mut String, context: ColorContext) {
        proof {
            reveal_with_fuel(decimal, 4);
            reveal_strlit("10");
            reveal_strlit("9");
            reveal_strlit("4");
            reveal_strlit("3");
        }
        let ghost code = self.legacy_code(context);
        match (context, self.is_bright()) {
            (ColorContext::Foreground, true) => {
                f.append("9");
                f.append(self.suffix());
                assert(f@ =~= old(f)@ + decimal(code));
            },
            (ColorContext::Background, true) => {
                f.append("10");
                f.append(self.suffix());
                assert(f@ =~= old(f)@ + decimal(code));
            },
            (ColorContext::Foreground, false) => {
                f.append("3");
                f.append(self.suffix());
                assert(f@ =~= old(f)@ + decimal(code));
            },
            (ColorContext::Background, false) => {
                f.append("4");
                f.append(self.suffix());
                assert(f@ =~= old(f)@ + decimal(code));
            },
            // No per-color codes; must delegate to `XTermColor`
            (ColorContext::Underline, _) => XTermColor::from_ansi(*self).ansi_fmt(f, context),
        }
    }
}

/// Index into the 8-bit ANSI color palette
#[derive(Copy, Clone, Debug, PartialEq, Eq, PartialOrd, Ord, Hash, Structural)]
pub struct XTermColor(pub u8);

impl XTermColor {
    /// The palette index.
    pub open spec fn spec_index(self) -> u8 {
        self.0
    }

    /// The 4-bit colour that this index names: the colour at that position
    /// of the palette for `0` to `15`, none for a larger index.
    pub open spec fn spec_into_ansi(self) -> Option<AnsiColor> {
        if self.0 < 16 {
            Some(AnsiColor::palette()[self.0 as int])
        } else {
            None
        }
    }

    /// The palette index of a 4-bit colour.
    pub open spec fn spec_from_ansi(color: AnsiColor) -> XTermColor {
        XTermColor(color.palette_index())
    }

    /// The palette index.
    #[verifier::when_used_as_spec(spec_index)]
    pub fn index(self) -> (i: u8)
        ensures
            i == self.0,
    {
        self.0
    }

    /// The 4-bit colour that this index names, if it is `0` to `15`.
    #[verifier::when_used_as_spec(spec_into_ansi)]
    pub fn into_ansi(self) -> (r: Option<AnsiColor>)
        ensures
            r == self.spec_into_ansi(),
            r is Some <==> self.index() <= 15,
            r matches Some(a) ==> a.palette_index() == self.index(),
    {
        match self.index() {
            0 => Some(AnsiColor::Black),
            1 => Some(AnsiColor::Red),
            2 => Some(AnsiColor::Green),
            3 => Some(AnsiColor::Yellow),
            4 => Some(AnsiColor::Blue),
            5 => Some(AnsiColor::Magenta),
            6 => Some(AnsiColor::Cyan),
            7 => Some(AnsiColor::White),
            8 => Some(AnsiColor::BrightBlack),
            9 => Some(AnsiColor::BrightRed),
            10 => Some(AnsiColor::BrightGreen),
            11 => Some(AnsiColor::BrightYellow),
            12 => Some(AnsiColor::BrightBlue),
            13 => Some(AnsiColor::BrightMagenta),
            14 => Some(AnsiColor::BrightCyan),
            15 => Some(AnsiColor::BrightWhite),
            _ => None,
        }
    }

    /// The palette index of a 4-bit colour.
    #[verifier::when_used_as_spec(spec_from_ansi)]
    pub fn from_ansi(color: AnsiColor) -> (c: Self)
        ensures
            c == Self::spec_from_ansi(color),
            c.index() == color.palette_index(),
            c.index() <= 15,
    {
        match color {
            AnsiColor::Black => Self(0),
            AnsiColor::Red => Self(1),
            AnsiColor::Green => Self(2),
            AnsiColor::Yellow => Self(3),
            AnsiColor::Blue => Self(4),
            AnsiColor::Magenta => Self(5),
            AnsiColor::Cyan => Self(6),
            AnsiColor::White => Self(7),
            AnsiColor::BrightBlack => Self(8),
            AnsiColor::BrightRed => Self(9),
            AnsiColor::BrightGreen => Self(10),
            AnsiColor::BrightYellow => Self(11),
            AnsiColor::BrightBlue => Self(12),
            AnsiColor::BrightMagenta => Self(13),
            AnsiColor::BrightCyan => Self(14),
            AnsiColor::BrightWhite => Self(15),
        }
    }

    /// Render the ANSI code for a foreground color
    pub fn render_fg(self) -> (d: DisplayColor<XTermColor>)
        ensures
            d.color == self,
            d.context == ColorContext::Foreground,
    {
        DisplayColor { color: self, context: ColorContext::Foreground }
    }

    /// Render the ANSI code for a background color
    pub fn render_bg(self) -> (d: DisplayColor<XTermColor>)
        ensures
            d.color == self,
            d.context == ColorContext::Background,
    {
        DisplayColor { color: self, context: ColorContext::Background }
    }
}

impl AnsiColorFmt for XTermColor {
    /// The selector of the context, then `5`, then the index, each in
    /// decimal and separated by semicolons.
    open spec fn sgr_body(&self, context: ColorContext) -> Seq<char> {
        context.selector_text() + decimal(5).push(';') + decimal(self.0 as nat)
    }

    fn ansi_fmt(&self, f: &mut String, context: ColorContext) {
        proof {
            reveal_with_fuel(decimal, 2);
            reveal_strlit("5;");
        }
        context.write_selector(f);
        f.append("5;");
        write_decimal(f, self.index());
        assert(f@ =~= old(f)@ + self.sgr_body(context));
    }
}

impl From<u8> for XTermColor {
    fn from(inner: u8) -> (c: Self) {
        Self(inner)
    }
}

impl FromSpecImpl<u8> for XTermColor {
    open spec fn obeys_from_spec() -> bool {
        true
    }

    open spec fn from_spec(inner: u8) -> Self {
        XTermColor(inner)
    }
}

impl From<AnsiColor> for XTermColor {
    fn from(inner: AnsiColor) -> (c: Self) {
        Self::from_ansi(inner)
    }
}

impl FromSpecImpl<AnsiColor> for XTermColor {
    open spec fn obeys_from_spec() -> bool {
        true
    }

    open spec fn from_spec(inner: AnsiColor) -> Self {
        XTermColor::spec_from_ansi(inner)
    }
}

/// 24-bit ANSI RGB color codes
#[derive(Copy, Clone, Debug, PartialEq, Eq, PartialOrd, Ord, Hash, Structural)]
pub struct RgbColor(pub u8, pub u8, pub u8);

impl RgbColor {
    /// The red component.
    pub open spec fn spec_r(self) -> u8 {
        self.0
    }

    /// The green component.
    pub open spec fn spec_g(self) -> u8 {
        self.1
    }

    /// The blue component.
    pub open spec fn spec_b(self) -> u8 {
        self.2
    }

    /// The red component.
    #[verifier::when_used_as_spec(spec_r)]
    pub fn r(self) -> (v: u8)
        ensures
            v == self.0,
    {
        self.0
    }

    /// The green component.
    #[verifier::when_used_as_spec(spec_g)]
    pub fn g(self) -> (v: u8)
        ensures
            v == self.1,
    {
        self.1
    }

    /// The blue component.
    #[verifier::when_used_as_spec(spec_b)]
    pub fn b(self) -> (v: u8)
        ensures
            v == self.2,
    {
        self.2
    }

    /// Render the ANSI code for a foreground color
    pub fn render_fg(self) -> (d: DisplayColor<RgbColor>)
        ensures
            d.color == self,
            d.context == ColorContext::Foreground,
    {
        DisplayColor { color: self, context: ColorContext::Foreground }
    }

    /// Render the ANSI code for a background color
    pub fn render_bg(self) -> (d: DisplayColor<RgbColor>)
        ensures
            d.color == self,
            d.context == ColorContext::Background,
    {
        DisplayColor { color: self, context: ColorContext::Background }
    }
}

impl AnsiColorFmt for RgbColor {
    /// The selector of the context, then `2`, then the red, green and blue
    /// components, each in decimal and separated by semicolons.
    open spec fn sgr_body(&self, context: ColorContext) -> Seq<char> {
        context.selector_text() + decimal(2).push(';') + decimal(self.0 as nat).push(';')
            + decimal(self.1 as nat).push(';') + decimal(self.2 as nat)
    }

    fn ansi_fmt(&self, f: &mut String, context: ColorContext) {
        proof {
            reveal_with_fuel(decimal, 2);
            reveal_strlit("2;");
            reveal_strlit(";");
        }
        context.write_selector(f);
        f.append("2;");
        write_decimal(f, self.r());
        f.append(";");
        write_decimal(f, self.g());
        f.append(";");
        write_decimal(f, self.b());
        assert(f@ =~= old(f)@ + self.sgr_body(context));
    }
}

impl From<(u8, u8, u8)> for RgbColor {
    fn from(inner: (u8, u8, u8)) -> (c: Self) {
        let (r, g, b) = inner;
        Self(r, g, b)
    }
}

impl FromSpecImpl<(u8, u8, u8)> for RgbColor {
    open spec fn obeys_from_spec() -> bool {
        true
    }

    open spec fn from_spec(inner: (u8, u8, u8)) -> Self {
        RgbColor(inner.0, inner.1, inner.2)
    }
}

/// Any ANSI color code scheme
#[derive(Copy, Clone, Debug, PartialEq, Eq, PartialOrd, Ord, Hash, Structural)]
pub enum Color {
    Ansi(AnsiColor),
    XTerm(XTermColor),
    Rgb(RgbColor),
}

impl Color {
    /// Render the ANSI code for a foreground color
    pub fn render_fg(self) -> (d: DisplayColor<Color>)
        ensures
            d.color == self,
            d.context == ColorContext::Foreground,
    {
        DisplayColor { color: self, context: ColorContext::Foreground }
    }

    /// Render the ANSI code for a background color
    pub fn render_bg(self) -> (d: DisplayColor<Color>)
        ensures
            d.color == self,
            d.context == ColorContext::Background,
    {
        DisplayColor { color: self, context: ColorContext::Background }
    }

    /// Appends the SGR parameters of the colour held to `f`.
    pub fn ansi_fmt(&self, f: &mut String, context: ColorContext)
        ensures
            final(f)@ == old(f)@ + self.sgr_body(context),
    {
        match self {
            Self::Ansi(color) => color.ansi_fmt(f, context),
            Self::XTerm(color) => color.ansi_fmt(f, context),
            Self::Rgb(color) => color.ansi_fmt(f, context),
        }
    }
}

impl AnsiColorFmt for Color {
    /// The body of the colour held.
    open spec fn sgr_body(&self, context: ColorContext) -> Seq<char> {
        match *self {
            Color::Ansi(color) => color.sgr_body(context),
            Color::XTerm(color) => color.sgr_body(context),
            Color::Rgb(color) => color.sgr_body(context),
        }
    }

    fn ansi_fmt(&self, f: &mut String, context: ColorContext) {
        Color::ansi_fmt(self, f, context)
    }
}

impl From<AnsiColor> for Color {
    fn from(inner: AnsiColor) -> (c: Self) {
        Self::Ansi(inner)
    }
}

impl FromSpecImpl<AnsiColor> for Color {
    open spec fn obeys_from_spec() -> bool {
        true
    }

    open spec fn from_spec(inner: AnsiColor) -> Self {
        Color::Ansi(inner)
    }
}

impl From<XTermColor> for Color {
    fn from(inner: XTermColor) -> (c: Self) {
        Self::XTerm(inner)
    }
}

impl FromSpecImpl<XTermColor> for Color {
    open spec fn obeys_from_spec() -> bool {
        true
    }

    open spec fn from_spec(inner: XTermColor) -> Self {
        Color::XTerm(inner)
    }
}

impl From<RgbColor> for Color {
    fn from(inner: RgbColor) -> (c: Self) {
        Self::Rgb(inner)
    }
}

impl FromSpecImpl<RgbColor> for Color {
    open spec fn obeys_from_spec() -> bool {
        true
    }

    open spec fn from_spec(inner: RgbColor) -> Self {
        Color::Rgb(inner)
    }
}

impl From<u8> for Color {
    fn from(inner: u8) -> (c: Self) {
        Self::XTerm(XTermColor::from(inner))
    }
}

impl FromSpecImpl<u8> for Color {
    open spec fn obeys_from_spec() -> bool {
        true
    }

    open spec fn from_spec(inner: u8) -> Self {
        Color::XTerm(XTermColor(inner))
    }
}

impl From<(u8, u8, u8)> for Color {
    fn from(inner: (u8, u8, u8)) -> (c: Self) {
        Self::Rgb(RgbColor::from(inner))
    }
}

impl FromSpecImpl<(u8, u8, u8)> for Color {
    open spec fn obeys_from_spec() -> bool {
        true
    }

    open spec fn from_spec(inner: (u8, u8, u8)) -> Self {
        Color::Rgb(RgbColor(inner.0, inner.1, inner.2))
    }
}

/// A colour paired with the context it is to be rendered for. Nothing is
/// built until it is written out.
pub struct DisplayColor<C: AnsiColorFmt> {
    pub color: C,
    pub context: ColorContext,
}

impl<C: AnsiColorFmt> DisplayColor<C> {
    /// The whole escape sequence: the introducer `ESC [`, the body of the
    /// colour in the context, and the terminator `m`.
    pub open spec fn rendered(&self) -> Seq<char> {
        seq!['\x1B', '['] + self.color.sgr_body(self.context) + seq!['m']
    }

    /// Appends the escape sequence to `f`, whatever `f` holds.
    pub fn fmt(&self, f: &mut String)
        ensures
            final(f)@ == old(f)@ + self.rendered(),
    {
        proof {
            reveal_strlit("\x1B[");
            reveal_strlit("m");
        }
        f.append("\x1B[");
        self.color.ansi_fmt(f, self.context);
        f.append("m");
        assert(f@ =~= old(f)@ + self.rendered());
    }

    /// The escape sequence as a string of its own.
    pub fn render(&self) -> (s: String)
        ensures
            s@ == self.rendered(),
    {
        let mut s = String::new();
        self.fmt(&mut s);
        assert(s@ =~= self.rendered());
        s
    }
}

} // verus!
