//! Rendering tests: every style renders to the exact ANSI escape sequence.

use tutil::crayon::Color;
use tutil::crayon::Style;
use tutil::crayon::StyledString;

#[test]
fn plain() {
    assert_eq!(Style::default().paint("TEST").to_string(), "TEST");
}

#[test]
fn black() {
    assert_eq!(Color::Black.paint("TEST").to_string(), "\x1b[30mTEST\x1b[0m");
}

#[test]
fn black_background() {
    assert_eq!(
        Color::White.on(Color::Black).paint("TEST").to_string(),
        "\x1b[37;40mTEST\x1b[0m"
    );
}

#[test]
fn red() {
    assert_eq!(Color::Red.paint("TEST").to_string(), "\x1b[31mTEST\x1b[0m");
}

#[test]
fn red_background() {
    assert_eq!(
        Color::Black.on(Color::Red).paint("TEST").to_string(),
        "\x1b[30;41mTEST\x1b[0m"
    );
}

#[test]
fn green() {
    assert_eq!(Color::Green.paint("TEST").to_string(), "\x1b[32mTEST\x1b[0m");
}

#[test]
fn green_background() {
    assert_eq!(
        Color::Black.on(Color::Green).paint("TEST").to_string(),
        "\x1b[30;42mTEST\x1b[0m"
    );
}

#[test]
fn yellow() {
    assert_eq!(Color::Yellow.paint("TEST").to_string(), "\x1b[33mTEST\x1b[0m");
}

#[test]
fn yellow_background() {
    assert_eq!(
        Color::Black.on(Color::Yellow).paint("TEST").to_string(),
        "\x1b[30;43mTEST\x1b[0m"
    );
}

#[test]
fn blue() {
    assert_eq!(Color::Blue.paint("TEST").to_string(), "\x1b[34mTEST\x1b[0m");
}

#[test]
fn blue_background() {
    assert_eq!(
        Color::Black.on(Color::Blue).paint("TEST").to_string(),
        "\x1b[30;44mTEST\x1b[0m"
    );
}

#[test]
fn purple() {
    assert_eq!(Color::Purple.paint("TEST").to_string(), "\x1b[35mTEST\x1b[0m");
}

#[test]
fn purple_background() {
    assert_eq!(
        Color::Black.on(Color::Purple).paint("TEST").to_string(),
        "\x1b[30;45mTEST\x1b[0m"
    );
}

#[test]
fn cyan() {
    assert_eq!(Color::Cyan.paint("TEST").to_string(), "\x1b[36mTEST\x1b[0m");
}

#[test]
fn cyan_background() {
    assert_eq!(
        Color::Black.on(Color::Cyan).paint("TEST").to_string(),
        "\x1b[30;46mTEST\x1b[0m"
    );
}

#[test]
fn white() {
    assert_eq!(Color::White.paint("TEST").to_string(), "\x1b[37mTEST\x1b[0m");
}

#[test]
fn white_background() {
    assert_eq!(
        Color::Black.on(Color::White).paint("TEST").to_string(),
        "\x1b[30;47mTEST\x1b[0m"
    );
}

#[test]
fn fixed() {
    assert_eq!(
        Color::Fixed(220).paint("TEST").to_string(),
        "\x1b[38;5;220mTEST\x1b[0m"
    );
}

#[test]
fn fixed_background() {
    assert_eq!(
        Color::Fixed(220).on(Color::Fixed(245)).paint("TEST").to_string(),
        "\x1b[38;5;220;48;5;245mTEST\x1b[0m"
    );
}

#[test]
fn rgb() {
    assert_eq!(
        Color::Rgb(105, 245, 238).paint("TEST").to_string(),
        "\x1b[38;2;105;245;238mTEST\x1b[0m"
    );
}

#[test]
fn rgb_background() {
    assert_eq!(
        Color::Black.on(Color::Rgb(100, 245, 238)).paint("TEST").to_string(),
        "\x1b[30;48;2;100;245;238mTEST\x1b[0m"
    );
}

#[test]
fn bold() {
    assert_eq!(Style::new().bold().paint("TEST").to_string(), "\x1b[1mTEST\x1b[0m");
}

#[test]
fn dimmed() {
    assert_eq!(Style::new().dimmed().paint("TEST").to_string(), "\x1b[2mTEST\x1b[0m");
}

#[test]
fn italic() {
    assert_eq!(Style::new().italic().paint("TEST").to_string(), "\x1b[3mTEST\x1b[0m");
}

#[test]
fn underline() {
    assert_eq!(Style::new().underline().paint("TEST").to_string(), "\x1b[4mTEST\x1b[0m");
}

#[test]
fn blink() {
    assert_eq!(Style::new().blink().paint("TEST").to_string(), "\x1b[5mTEST\x1b[0m");
}

#[test]
fn reverse() {
    assert_eq!(Style::new().reverse().paint("TEST").to_string(), "\x1b[6mTEST\x1b[0m");
}

#[test]
fn hidden() {
    assert_eq!(Style::new().hidden().paint("TEST").to_string(), "\x1b[7mTEST\x1b[0m");
}

#[test]
fn all_attributes_in_fixed_order() {
    let style = Style::new()
        .hidden()
        .reverse()
        .blink()
        .underline()
        .italic()
        .dimmed()
        .bold();
    assert_eq!(style.paint("TEST").to_string(), "\x1b[1;2;3;4;5;6;7mTEST\x1b[0m");
}

#[test]
fn attributes_and_colors_together() {
    let style = Color::Red.on(Color::Black).bold().underline();
    assert_eq!(style.paint("TEST").to_string(), "\x1b[1;4;31;40mTEST\x1b[0m");
}

#[test]
fn fixed_boundaries() {
    assert_eq!(Color::Fixed(0).paint("X").to_string(), "\x1b[38;5;0mX\x1b[0m");
    assert_eq!(Color::Fixed(9).paint("X").to_string(), "\x1b[38;5;9mX\x1b[0m");
    assert_eq!(Color::Fixed(10).paint("X").to_string(), "\x1b[38;5;10mX\x1b[0m");
    assert_eq!(Color::Fixed(99).paint("X").to_string(), "\x1b[38;5;99mX\x1b[0m");
    assert_eq!(Color::Fixed(100).paint("X").to_string(), "\x1b[38;5;100mX\x1b[0m");
    assert_eq!(Color::Fixed(255).paint("X").to_string(), "\x1b[38;5;255mX\x1b[0m");
}

#[test]
fn rgb_boundaries() {
    assert_eq!(
        Color::Rgb(0, 0, 0).paint("X").to_string(),
        "\x1b[38;2;0;0;0mX\x1b[0m"
    );
    assert_eq!(
        Color::Rgb(255, 255, 255).on(Color::Rgb(0, 128, 7)).paint("X").to_string(),
        "\x1b[38;2;255;255;255;48;2;0;128;7mX\x1b[0m"
    );
}

#[test]
fn empty_text() {
    assert_eq!(Style::new().paint("").to_string(), "");
    assert_eq!(Color::Red.paint("").to_string(), "\x1b[31m\x1b[0m");
}

#[test]
fn plain_text_passes_through_unchanged() {
    let text = "with \x1b[31membedded\x1b[0m control bytes";
    assert_eq!(Style::new().paint(text).to_string(), text);
}

#[test]
fn from_plain_text() {
    let styled = StyledString::from(String::from("hello"));
    assert_eq!(styled.to_string(), "hello");
    assert_eq!(styled, Style::new().paint("hello"));
}
