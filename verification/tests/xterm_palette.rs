use owo_colors::{Color, XtermColor};

#[test]
fn every_index_has_exact_sequences() {
    for i in 0..=255u8 {
        let color = XtermColor::from_index(i);
        assert_eq!(color.index(), i);
        assert_eq!(color.ansi_fg(), format!("\x1b[38;5;{}m", i));
        assert_eq!(color.ansi_bg(), format!("\x1b[48;5;{}m", i));
    }
}

#[test]
fn named_entries_carry_their_indices() {
    assert_eq!(XtermColor::Black.index(), 0);
    assert_eq!(XtermColor::Maroon.index(), 1);
    assert_eq!(XtermColor::Red.index(), 9);
    assert_eq!(XtermColor::White.index(), 15);
    assert_eq!(XtermColor::CaribbeanGreen.index(), 42);
    assert_eq!(XtermColor::FlushOrange.index(), 208);
    assert_eq!(XtermColor::CodGray.index(), 232);
    assert_eq!(XtermColor::Gallery.index(), 255);
}

#[test]
fn low_indices_use_extended_encoding() {
    // Palette entries 0..=15 mirror the standard colors visually, but they
    // are distinct identities and use the extended-palette encoding.
    assert_eq!(XtermColor::Black.ansi_fg(), "\x1b[38;5;0m");
    assert_eq!(XtermColor::Red.ansi_fg(), "\x1b[38;5;9m");
    assert_eq!(XtermColor::White.ansi_bg(), "\x1b[48;5;15m");
}

#[test]
fn no_two_indices_share_an_entry() {
    let mut seen = [false; 256];
    for i in 0..=255u8 {
        let idx = XtermColor::from_index(i).index() as usize;
        assert!(!seen[idx]);
        seen[idx] = true;
    }
    assert!(seen.iter().all(|&s| s));
}
