use owo_colors::{reset, BgColorDisplay, Color, CustomColor, FgColorDisplay, NamedColor, XtermColor};

#[test]
fn hex_value_in_red() {
    let wrapped = FgColorDisplay::new(NamedColor::Red, format!("{:x}", 255));
    assert_eq!(wrapped.render(), "\x1b[31mff\x1b[0m");
}

#[test]
fn background_of_palette_entry() {
    let wrapped = BgColorDisplay::new(XtermColor::from_index(208), "hi".to_string());
    assert_eq!(wrapped.render(), "\x1b[48;5;208mhi\x1b[0m");
}

#[test]
fn custom_foreground_around_zero() {
    let wrapped = FgColorDisplay::new(CustomColor::<5, 10, 255>, format!("{}", 0));
    assert_eq!(wrapped.render(), "\x1b[38;2;005;010;255m0\x1b[0m");
}

#[test]
fn output_is_code_then_value_then_reset() {
    let color = NamedColor::BrightCyan;
    let inner = format!("{:b}", 5);
    let fg = FgColorDisplay::new(color, inner.clone());
    assert_eq!(fg.render(), format!("{}{}{}", color.ansi_fg(), inner, reset()));
    let bg = BgColorDisplay::new(color, inner.clone());
    assert_eq!(bg.render(), format!("{}{}{}", color.ansi_bg(), inner, reset()));
}

#[test]
fn debug_formatted_value_passes_through_unchanged() {
    let inner = format!("{:?}", "hi");
    let wrapped = FgColorDisplay::new(NamedColor::Green, inner);
    assert_eq!(wrapped.render(), "\x1b[32m\"hi\"\x1b[0m");
}

#[test]
fn rendering_is_repeatable() {
    let fg = FgColorDisplay::new(NamedColor::Green, "same".to_string());
    assert_eq!(fg.render(), fg.render());
    let bg = BgColorDisplay::new(XtermColor::from_index(17), format!("{:?}", "q"));
    assert_eq!(bg.render(), bg.render());
}

#[test]
fn empty_value_still_wrapped() {
    let wrapped = FgColorDisplay::new(NamedColor::Black, String::new());
    assert_eq!(wrapped.render(), "\x1b[30m\x1b[0m");
}

#[test]
fn reset_sequence_exact() {
    assert_eq!(reset(), "\x1b[0m");
}
