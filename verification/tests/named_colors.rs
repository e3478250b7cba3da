use owo_colors::{Color, NamedColor};

#[test]
fn standard_colors_match_documented_table() {
    let table = [
        (NamedColor::Black, "\x1b[30m", "\x1b[40m"),
        (NamedColor::Red, "\x1b[31m", "\x1b[41m"),
        (NamedColor::Green, "\x1b[32m", "\x1b[42m"),
        (NamedColor::Yellow, "\x1b[33m", "\x1b[43m"),
        (NamedColor::Blue, "\x1b[34m", "\x1b[44m"),
        (NamedColor::Magenta, "\x1b[35m", "\x1b[45m"),
        (NamedColor::Cyan, "\x1b[36m", "\x1b[46m"),
        (NamedColor::White, "\x1b[37m", "\x1b[47m"),
        (NamedColor::BrightBlack, "\x1b[90m", "\x1b[100m"),
        (NamedColor::BrightRed, "\x1b[91m", "\x1b[101m"),
        (NamedColor::BrightGreen, "\x1b[92m", "\x1b[102m"),
        (NamedColor::BrightYellow, "\x1b[93m", "\x1b[103m"),
        (NamedColor::BrightBlue, "\x1b[94m", "\x1b[104m"),
        (NamedColor::BrightMagenta, "\x1b[95m", "\x1b[105m"),
        (NamedColor::BrightCyan, "\x1b[96m", "\x1b[106m"),
        (NamedColor::BrightWhite, "\x1b[97m", "\x1b[107m"),
    ];
    for (color, fg, bg) in table {
        assert_eq!(color.ansi_fg(), fg);
        assert_eq!(color.ansi_bg(), bg);
    }
}

#[test]
fn standard_codes_lie_in_documented_ranges() {
    let all = [
        NamedColor::Black,
        NamedColor::Red,
        NamedColor::Green,
        NamedColor::Yellow,
        NamedColor::Blue,
        NamedColor::Magenta,
        NamedColor::Cyan,
        NamedColor::White,
        NamedColor::BrightBlack,
        NamedColor::BrightRed,
        NamedColor::BrightGreen,
        NamedColor::BrightYellow,
        NamedColor::BrightBlue,
        NamedColor::BrightMagenta,
        NamedColor::BrightCyan,
        NamedColor::BrightWhite,
    ];
    for color in all {
        let fg = color.fg_code();
        let bg = color.bg_code();
        assert!((30..=37).contains(&fg) || (90..=97).contains(&fg));
        assert!((40..=47).contains(&bg) || (100..=107).contains(&bg));
        assert_eq!(bg, fg + 10);
    }
}
