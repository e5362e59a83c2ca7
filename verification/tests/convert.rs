use anstyle::{AnsiColor, Color, Effects, RgbColor, Style, XTermColor};

const ALL_ANSI: [AnsiColor; 16] = [
    AnsiColor::Black,
    AnsiColor::Red,
    AnsiColor::Green,
    AnsiColor::Yellow,
    AnsiColor::Blue,
    AnsiColor::Magenta,
    AnsiColor::Cyan,
    AnsiColor::White,
    AnsiColor::BrightBlack,
    AnsiColor::BrightRed,
    AnsiColor::BrightGreen,
    AnsiColor::BrightYellow,
    AnsiColor::BrightBlue,
    AnsiColor::BrightMagenta,
    AnsiColor::BrightCyan,
    AnsiColor::BrightWhite,
];

#[test]
fn ansi_round_trip() {
    for a in ALL_ANSI {
        assert_eq!(XTermColor::from_ansi(a).into_ansi(), Some(a));
    }
}

#[test]
fn from_ansi_gives_the_palette_index() {
    for (i, a) in ALL_ANSI.iter().enumerate() {
        assert_eq!(XTermColor::from_ansi(*a).index() as usize, i);
        assert_eq!(XTermColor::from(*a), XTermColor(i as u8));
    }
    assert_eq!(XTermColor::from_ansi(AnsiColor::Black), XTermColor(0));
    assert_eq!(XTermColor::from_ansi(AnsiColor::White), XTermColor(7));
    assert_eq!(XTermColor::from_ansi(AnsiColor::BrightBlack), XTermColor(8));
    assert_eq!(XTermColor::from_ansi(AnsiColor::BrightWhite), XTermColor(15));
}

#[test]
fn into_ansi_names_the_first_sixteen() {
    for (i, a) in ALL_ANSI.iter().enumerate() {
        assert_eq!(XTermColor(i as u8).into_ansi(), Some(*a));
    }
    assert_eq!(XTermColor(0).into_ansi(), Some(AnsiColor::Black));
    assert_eq!(XTermColor(9).into_ansi(), Some(AnsiColor::BrightRed));
    assert_eq!(XTermColor(15).into_ansi(), Some(AnsiColor::BrightWhite));
}

#[test]
fn into_ansi_is_absent_above_fifteen() {
    for i in 16..=255u8 {
        assert_eq!(XTermColor(i).into_ansi(), None);
    }
}

#[test]
fn conversions_into_color() {
    assert_eq!(Color::from(AnsiColor::Red), Color::Ansi(AnsiColor::Red));
    assert_eq!(Color::from(XTermColor(16)), Color::XTerm(XTermColor(16)));
    assert_eq!(Color::from(RgbColor(1, 2, 3)), Color::Rgb(RgbColor(1, 2, 3)));
    assert_eq!(Color::from(200u8), Color::XTerm(XTermColor(200)));
    assert_eq!(Color::from((1u8, 2u8, 3u8)), Color::Rgb(RgbColor(1, 2, 3)));
    assert_eq!(XTermColor::from(7u8), XTermColor(7));
    assert_eq!(RgbColor::from((9u8, 8u8, 7u8)), RgbColor(9, 8, 7));
}

#[test]
fn from_u8_does_not_fold_into_ansi() {
    assert_eq!(Color::from(1u8), Color::XTerm(XTermColor(1)));
    assert_ne!(Color::from(1u8), Color::Ansi(AnsiColor::Red));
}

#[test]
fn color_with_color() {
    let style = AnsiColor::Black | AnsiColor::White;
    assert_eq!(style.get_fg_color(), Some(Color::Ansi(AnsiColor::Black)));
    assert_eq!(style.get_bg_color(), Some(Color::Ansi(AnsiColor::White)));
    assert_eq!(style.get_effects(), Effects::new());
}

#[test]
fn color_with_bold() {
    let style = AnsiColor::Black | Effects::bold();
    assert_eq!(style.get_fg_color(), Some(Color::Ansi(AnsiColor::Black)));
    assert_eq!(style.get_bg_color(), None);
    assert_eq!(style.get_effects(), Effects::bold());
    assert!(style.get_effects().contains(Effects::bold()));
    assert!(!style.get_effects().contains(Effects::underline()));
}

#[test]
fn every_kind_combines_with_every_kind() {
    let black = Color::from((0u8, 0u8, 0u8));
    let white = Color::from((0xffu8, 0xffu8, 0xffu8));
    let style = black | white;
    assert_eq!(style.get_fg_color(), Some(Color::Rgb(RgbColor(0, 0, 0))));
    assert_eq!(style.get_bg_color(), Some(Color::Rgb(RgbColor(255, 255, 255))));

    let style = XTermColor(16) | XTermColor(231);
    assert_eq!(style.get_fg_color(), Some(Color::XTerm(XTermColor(16))));
    assert_eq!(style.get_bg_color(), Some(Color::XTerm(XTermColor(231))));

    let style = RgbColor(0, 0, 0) | AnsiColor::White;
    assert_eq!(style.get_fg_color(), Some(Color::Rgb(RgbColor(0, 0, 0))));
    assert_eq!(style.get_bg_color(), Some(Color::Ansi(AnsiColor::White)));

    let style = AnsiColor::Red | 200u8;
    assert_eq!(style.get_fg_color(), Some(Color::Ansi(AnsiColor::Red)));
    assert_eq!(style.get_bg_color(), Some(Color::XTerm(XTermColor(200))));

    let style = XTermColor(3) | (1u8, 2u8, 3u8);
    assert_eq!(style.get_bg_color(), Some(Color::Rgb(RgbColor(1, 2, 3))));
}

#[test]
fn effects_accumulate() {
    let style = Color::from((0u8, 0u8, 0u8)) | Effects::bold() | Effects::underline();
    assert_eq!(style.get_fg_color(), Some(Color::Rgb(RgbColor(0, 0, 0))));
    assert_eq!(style.get_bg_color(), None);
    assert_eq!(style.get_effects(), Effects(9));
    assert_eq!(style, Color::from((0u8, 0u8, 0u8)) | (Effects::bold() | Effects::underline()));

    let style = XTermColor(0) | Effects::italic();
    assert_eq!(style.get_fg_color(), Some(Color::XTerm(XTermColor(0))));
    assert_eq!(style.get_effects(), Effects(4));
    let style = RgbColor(1, 1, 1) | Effects::dimmed();
    assert_eq!(style.get_fg_color(), Some(Color::Rgb(RgbColor(1, 1, 1))));
    assert_eq!(style.get_effects(), Effects(2));
}

#[test]
fn effects_are_distinct_bits() {
    let all = [
        Effects::bold(),
        Effects::dimmed(),
        Effects::italic(),
        Effects::underline(),
        Effects::blink(),
        Effects::invert(),
        Effects::hidden(),
        Effects::strikethrough(),
    ];
    for (i, e) in all.iter().enumerate() {
        assert_eq!(e.0, 1u16 << i);
        assert!(e.contains(Effects::new()));
        assert!(!Effects::new().contains(*e));
    }
    assert_eq!(Effects::bold() | Effects::bold(), Effects::bold());
    assert!((Effects::bold() | Effects::blink()).contains(Effects::blink()));
}

#[test]
fn style_builders() {
    let style = Style::new();
    assert_eq!(style.get_fg_color(), None);
    assert_eq!(style.get_bg_color(), None);
    assert_eq!(style.get_effects(), Effects(0));
    let style = style.fg_color(Some(Color::from(1u8))).bg_color(Some(Color::from(2u8)));
    assert_eq!(style.get_fg_color(), Some(Color::XTerm(XTermColor(1))));
    assert_eq!(style.get_bg_color(), Some(Color::XTerm(XTermColor(2))));
    let style = style.fg_color(None);
    assert_eq!(style.get_fg_color(), None);
    assert_eq!(style.get_bg_color(), Some(Color::XTerm(XTermColor(2))));
    let style = (style | Effects::hidden()).bg_color(None);
    assert_eq!(style.get_bg_color(), None);
    assert_eq!(style.get_effects(), Effects::hidden());
}
