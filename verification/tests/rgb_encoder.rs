use owo_colors::{rgb_to_ansi, Color, CustomColor};

#[test]
fn encoder_pads_every_channel_to_three_digits() {
    let vals = [0u8, 1, 9, 10, 99, 100, 255];
    for &r in &vals {
        for &g in &vals {
            for &b in &vals {
                let fg = rgb_to_ansi(r, g, b, true);
                let bg = rgb_to_ansi(r, g, b, false);
                let want_fg = format!("\x1b[38;2;{:03};{:03};{:03}m", r, g, b);
                let want_bg = format!("\x1b[48;2;{:03};{:03};{:03}m", r, g, b);
                assert_eq!(&fg[..], want_fg.as_bytes());
                assert_eq!(&bg[..], want_bg.as_bytes());
                assert_eq!(fg.len(), 19);
                assert_eq!(bg.len(), 19);
            }
        }
    }
}

#[test]
fn encoder_exact_bytes_for_one_triple() {
    let buf = rgb_to_ansi(5, 10, 255, true);
    assert_eq!(&buf[..], b"\x1b[38;2;005;010;255m");
    let buf = rgb_to_ansi(5, 10, 255, false);
    assert_eq!(&buf[..], b"\x1b[48;2;005;010;255m");
}

#[test]
fn custom_color_strings_match_encoder_bytes() {
    let color = CustomColor::<5, 10, 255>;
    assert_eq!(color.ansi_fg(), "\x1b[38;2;005;010;255m");
    assert_eq!(color.ansi_bg(), "\x1b[48;2;005;010;255m");
    assert_eq!(color.ansi_fg().as_bytes(), &rgb_to_ansi(5, 10, 255, true)[..]);
    assert_eq!(color.ansi_bg().as_bytes(), &rgb_to_ansi(5, 10, 255, false)[..]);
}

#[test]
fn custom_color_extremes() {
    assert_eq!(CustomColor::<0, 0, 0>.ansi_fg(), "\x1b[38;2;000;000;000m");
    assert_eq!(CustomColor::<255, 255, 255>.ansi_bg(), "\x1b[48;2;255;255;255m");
}
