use cli_utils::colors::{blue, bold, cyan, green, red, reset, Color, ColorString};

#[test]
fn red_wraps_in_red_sequence() {
    assert_eq!(red("Red"), "\x1b[31mRed\x1b[0m");
}

#[test]
fn green_wraps_in_green_sequence() {
    assert_eq!(green("Green"), "\x1b[32mGreen\x1b[0m");
}

#[test]
fn blue_wraps_in_blue_sequence() {
    assert_eq!(blue("Blue"), "\x1b[34mBlue\x1b[0m");
}

#[test]
fn bold_wraps_in_bold_sequence() {
    assert_eq!(bold("Bold"), "\x1b[1mBold\x1b[0m");
}

#[test]
fn cyan_wraps_in_cyan_sequence() {
    assert_eq!(cyan("Cyan"), "\x1b[36mCyan\x1b[0m");
}

#[test]
fn reset_wraps_in_reset_sequence_on_both_sides() {
    assert_eq!(reset("plain"), "\x1b[0mplain\x1b[0m");
}

#[test]
fn colorizers_on_empty_string() {
    assert_eq!(red(""), "\x1b[31m\x1b[0m");
    assert_eq!(green(""), "\x1b[32m\x1b[0m");
    assert_eq!(blue(""), "\x1b[34m\x1b[0m");
    assert_eq!(bold(""), "\x1b[1m\x1b[0m");
    assert_eq!(cyan(""), "\x1b[36m\x1b[0m");
    assert_eq!(reset(""), "\x1b[0m\x1b[0m");
}

#[test]
fn paint_red_scenario() {
    let mut cs = ColorString {
        color: Color::Red,
        string: String::from("fail"),
        colorized: String::new(),
    };
    cs.paint();
    assert_eq!(cs.colorized, "\x1b[31mfail\x1b[0m");
}

#[test]
fn paint_green_equals_green_function() {
    let mut cs = ColorString {
        color: Color::Green,
        string: String::from("Green Text"),
        colorized: String::new(),
    };
    cs.paint();
    assert_eq!(cs.colorized, green("Green Text"));
}

#[test]
fn paint_dispatches_on_every_color() {
    let cases = [
        (Color::Red, "\x1b[31mx\x1b[0m"),
        (Color::Green, "\x1b[32mx\x1b[0m"),
        (Color::Blue, "\x1b[34mx\x1b[0m"),
        (Color::Bold, "\x1b[1mx\x1b[0m"),
        (Color::Cyan, "\x1b[36mx\x1b[0m"),
    ];
    for (color, expected) in cases {
        let mut cs = ColorString {
            color,
            string: String::from("x"),
            colorized: String::new(),
        };
        cs.paint();
        assert_eq!(cs.colorized, expected);
    }
}

#[test]
fn reset_after_paint_overwrites_painted_value() {
    let mut cs = ColorString {
        color: Color::Blue,
        string: String::from("text"),
        colorized: String::new(),
    };
    cs.paint();
    assert_eq!(cs.colorized, "\x1b[34mtext\x1b[0m");
    cs.reset();
    assert_eq!(cs.colorized, "\x1b[0mtext\x1b[0m");
    assert_eq!(cs.string, "text");
}

#[test]
fn colorized_untouched_until_painted() {
    let cs = ColorString {
        color: Color::Cyan,
        string: String::from("pending"),
        colorized: String::new(),
    };
    assert_eq!(cs.colorized, "");
}
