//! What holds of the encodings and the combinators, for every colour.
use crate::color::{AnsiColor, AnsiColorFmt, Color, ColorContext, DisplayColor, XTermColor};
use crate::decimal::{is_body_char, lemma_decimal_digits};
use crate::style::{Effects, Style};
use vstd::prelude::*;
use vstd::std_specs::ops::BitOrSpec;

verus! {

/// Every 4-bit colour is found again from its palette index.
pub proof fn lemma_ansi_round_trip(a: AnsiColor)
    ensures
        XTermColor::from_ansi(a).into_ansi() == Some(a),
        XTermColor::from_ansi(a).index() <= 15,
{
}

/// A palette index above `15` names no 4-bit colour.
pub proof fn lemma_into_ansi_absent(c: XTermColor)
    requires
        c.index() > 15,
    ensures
        c.into_ansi() is None,
{
}

/// A palette index that names a 4-bit colour is the index of that colour:
/// together with the round trip, the two conversions are inverse to each
/// other on `0` to `15`.
pub proof fn lemma_into_ansi_inverse(c: XTermColor)
    requires
        c.index() <= 15,
    ensures
        c.into_ansi() is Some,
        XTermColor::from_ansi(c.into_ansi()->0) == c,
{
}

/// Two 4-bit colours with the same palette index are the same colour.
pub proof fn lemma_palette_index_injective(a: AnsiColor, b: AnsiColor)
    requires
        a.palette_index() == b.palette_index(),
    ensures
        a == b,
{
}

/// The legacy codes fall in four ranges of eight, one for each pair of
/// context and brightness, and the place in the range is the hue.
pub proof fn lemma_legacy_code_ranges(a: AnsiColor)
    ensures
        a.hue() <= 7,
        !a.bright() ==> a.legacy_code(ColorContext::Foreground) == 30 + a.hue(),
        !a.bright() ==> a.legacy_code(ColorContext::Background) == 40 + a.hue(),
        a.bright() ==> a.legacy_code(ColorContext::Foreground) == 90 + a.hue(),
        a.bright() ==> a.legacy_code(ColorContext::Background) == 100 + a.hue(),
{
}

/// A 4-bit colour used for an underline is encoded as its palette index is.
pub proof fn lemma_ansi_underline_is_palette(a: AnsiColor)
    ensures
        a.sgr_body(ColorContext::Underline) == XTermColor::from_ansi(a).sgr_body(
            ColorContext::Underline,
        ),
{
}

/// The body of an escape sequence is never empty, holds decimal digits and
/// semicolons only, and neither starts nor ends with a semicolon.
pub proof fn lemma_body_is_parameters(color: Color, context: ColorContext)
    ensures
        color.sgr_body(context).len() >= 1,
        forall|i: int|
            0 <= i < color.sgr_body(context).len() ==> is_body_char(
                #[trigger] color.sgr_body(context)[i],
            ),
        color.sgr_body(context).first() != ';',
        color.sgr_body(context).last() != ';',
{
    let body = color.sgr_body(context);
    lemma_decimal_digits(context.selector());
    lemma_decimal_digits(2);
    lemma_decimal_digits(5);
    match color {
        Color::Ansi(a) => {
            lemma_decimal_digits(a.legacy_code(context));
            lemma_decimal_digits(a.palette_index() as nat);
        },
        Color::XTerm(x) => {
            lemma_decimal_digits(x.0 as nat);
        },
        Color::Rgb(c) => {
            lemma_decimal_digits(c.0 as nat);
            lemma_decimal_digits(c.1 as nat);
            lemma_decimal_digits(c.2 as nat);
        },
    }
}

/// A rendering is its body between the introducer `ESC [` and the
/// terminator `m`.
pub proof fn lemma_rendered_frame<C: AnsiColorFmt>(d: DisplayColor<C>)
    ensures
        d.rendered().len() == d.color.sgr_body(d.context).len() + 3,
        d.rendered()[0] == '\x1B',
        d.rendered()[1] == '[',
        d.rendered().last() == 'm',
        d.rendered().subrange(2, d.rendered().len() - 1) == d.color.sgr_body(d.context),
{
    assert(d.rendered().subrange(2, d.rendered().len() - 1) =~= d.color.sgr_body(d.context));
}

/// A rendering depends on the colour and the context alone: two renderings
/// of the same pair are the same characters.
pub proof fn lemma_render_repeatable<C: AnsiColorFmt>(first: DisplayColor<C>, second: DisplayColor<C>)
    requires
        first.color == second.color,
        first.context == second.context,
    ensures
        first.rendered() == second.rendered(),
{
}

/// A colour held in a `Color` is encoded as it is by itself.
pub proof fn lemma_color_dispatch(color: Color, context: ColorContext)
    ensures
        color matches Color::Ansi(a) ==> color.sgr_body(context) == a.sgr_body(context),
        color matches Color::XTerm(x) ==> color.sgr_body(context) == x.sgr_body(context),
        color matches Color::Rgb(c) ==> color.sgr_body(context) == c.sgr_body(context),
{
}

/// The union of two sets of effects contains both, and the union with the
/// empty set changes nothing.
pub proof fn lemma_union_contains(first: Effects, second: Effects)
    ensures
        first.union(second).contains(first),
        first.union(second).contains(second),
        first.union(second) == second.union(first),
        Effects(0).union(first) == first,
        first.union(first) == first,
{
    let a = first.0;
    let b = second.0;
    assert((a | b) & a == a) by (bit_vector);
    assert((a | b) & b == b) by (bit_vector);
    assert(a | b == b | a) by (bit_vector);
    assert(0u16 | a == a) by (bit_vector);
    assert(a | a == a) by (bit_vector);
}

/// Adding effects one set after the other is adding their union.
pub proof fn lemma_effects_associate(color: Color, first: Effects, second: Effects)
    ensures
        color.bitor_spec(first).bitor_spec(second) == color.bitor_spec(first.bitor_spec(second)),
{
}

/// A colour combined with a colour is a style with the first as foreground,
/// the second as background and no effects; combined with effects, a style
/// with the colour as foreground, no background and those effects.
pub proof fn lemma_combinators(color: Color, fg: AnsiColor, bg: AnsiColor, effects: Effects)
    ensures
        fg.bitor_spec(bg) == (Style {
            fg: Some(Color::Ansi(fg)),
            bg: Some(Color::Ansi(bg)),
            effects: Effects(0),
        }),
        fg.bitor_spec(effects) == (Style { fg: Some(Color::Ansi(fg)), bg: None, effects }),
        color.bitor_spec(bg) == (Style {
            fg: Some(color),
            bg: Some(Color::Ansi(bg)),
            effects: Effects(0),
        }),
        color.bitor_spec(effects) == (Style { fg: Some(color), bg: None, effects }),
{
}

} // verus!
