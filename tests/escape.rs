use sprompt::{Attribute, Color, Shell};

#[test]
fn color_sequences_bash() {
    assert_eq!("\u{1b}[30m", Color::Black.to_str(false, &Shell::Bash));
    assert_eq!("\u{1b}[31m", Color::Red.to_str(false, &Shell::Bash));
    assert_eq!("\u{1b}[36;1m", Color::Cyan.to_str(true, &Shell::Bash));
    assert_eq!("\u{1b}[37;1m", Color::White.to_str(true, &Shell::Bash));
}

#[test]
fn color_sequences_zsh() {
    assert_eq!("%{\u{1b}[32m%}", Color::Green.to_str(false, &Shell::Zsh));
    assert_eq!("%{\u{1b}[35;1m%}", Color::Magenta.to_str(true, &Shell::Zsh));
    assert_eq!("%{\u{1b}[34m%}", Color::Blue.to_str(false, &Shell::Zsh));
    assert_eq!("%{\u{1b}[33;1m%}", Color::Yellow.to_str(true, &Shell::Zsh));
}

#[test]
fn attribute_sequences() {
    assert_eq!("\u{1b}[0m", Attribute::Reset.to_str(&Shell::Bash));
    assert_eq!("\u{1b}[1m", Attribute::Bold.to_str(&Shell::Bash));
    assert_eq!("%{\u{1b}[4m%}", Attribute::Underline.to_str(&Shell::Zsh));
    assert_eq!("%{\u{1b}[7m%}", Attribute::Reversed.to_str(&Shell::Zsh));
}
