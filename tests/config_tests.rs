use rmatrix::config::{
    update_in_range, Characters, Colors, Config, KeyAction, Options, UpdateError, COLOR_BLUE,
    COLOR_CYAN, COLOR_GREEN, COLOR_MAGENTA, COLOR_RED, COLOR_WHITE, COLOR_YELLOW,
};

fn options() -> Options {
    Options {
        bold: 0,
        console: false,
        oldstyle: false,
        screensaver: false,
        xwindow: false,
        update: 4,
        colour: Colors::Green,
        characters: Characters::Classic,
        rainbow: false,
    }
}

fn config() -> Config {
    Config::default(options())
}

#[test]
fn default_carries_options_and_starts_unpaused() {
    let mut opt = options();
    opt.bold = 2;
    opt.colour = Colors::Magenta;
    opt.characters = Characters::Digits;
    opt.oldstyle = true;
    opt.update = 7;
    let c = Config::default(opt);
    assert_eq!(c.bold, 2);
    assert_eq!(c.colour, 5);
    assert_eq!(c.characters, Characters::Digits);
    assert!(c.oldstyle);
    assert_eq!(c.update, 7);
    assert!(!c.pause);
}

#[test]
fn colour_codes_are_curses_numbers() {
    assert_eq!(Colors::Black.code(), 0);
    assert_eq!(Colors::Red.code(), 1);
    assert_eq!(Colors::Green.code(), 2);
    assert_eq!(Colors::Yellow.code(), 3);
    assert_eq!(Colors::Blue.code(), 4);
    assert_eq!(Colors::Magenta.code(), 5);
    assert_eq!(Colors::Cyan.code(), 6);
    assert_eq!(Colors::White.code(), 7);
}

#[test]
fn unrecognized_keys_change_nothing() {
    for k in ['x', 'Q', ' ', '\n', 'é', 'A', 'Z'] {
        let mut c = config();
        c.rainbow = true;
        c.pause = true;
        let before = c;
        assert_eq!(c.handle_keypress(k), KeyAction::Continue);
        assert_eq!(c, before);
    }
}

#[test]
fn colour_keys_set_colour_and_clear_rainbow() {
    let table = [
        ('a', COLOR_RED),
        ('z', COLOR_GREEN),
        ('e', COLOR_YELLOW),
        ('r', COLOR_BLUE),
        ('t', COLOR_MAGENTA),
        ('u', COLOR_CYAN),
        ('y', COLOR_WHITE),
    ];
    for (k, code) in table {
        let mut c = config();
        c.rainbow = true;
        assert_eq!(c.handle_keypress(k), KeyAction::Continue);
        assert!(!c.rainbow);
        assert_eq!(c.colour, code);
    }
}

#[test]
fn rainbow_key_keeps_colour() {
    let mut c = config();
    c.colour = COLOR_BLUE;
    c.handle_keypress('i');
    assert!(c.rainbow);
    assert_eq!(c.colour, COLOR_BLUE);
}

#[test]
fn pause_twice_restores_pause() {
    let mut c = config();
    c.handle_keypress('p');
    assert!(c.pause);
    c.handle_keypress('p');
    assert!(!c.pause);
    c.handle_keypress('P');
    assert!(c.pause);
    c.handle_keypress('P');
    assert!(!c.pause);
}

#[test]
fn digit_key_overwrites_update() {
    let mut c = config();
    c.update = 9;
    c.handle_keypress('3');
    assert_eq!(c.update, 3);
    for (k, d) in ('0'..='9').zip(0usize..) {
        c.handle_keypress(k);
        assert_eq!(c.update, d);
    }
}

#[test]
fn bold_and_charset_keys() {
    let mut c = config();
    c.handle_keypress('b');
    assert_eq!(c.bold, 1);
    c.handle_keypress('B');
    assert_eq!(c.bold, 2);
    c.handle_keypress('n');
    assert_eq!(c.bold, 0);
    c.handle_keypress('j');
    assert_eq!(c.characters, Characters::Jap);
    c.handle_keypress('c');
    assert_eq!(c.characters, Characters::Classic);
}

#[test]
fn quit_keys_terminate_without_change() {
    for k in ['q', '\u{1b}'] {
        let mut c = config();
        let before = c;
        assert_eq!(c.handle_keypress(k), KeyAction::Terminate);
        assert_eq!(c, before);
    }
}

#[test]
fn screensaver_terminates_on_any_key() {
    for k in ['x', 'p', '3', 'a', 'q'] {
        let mut opt = options();
        opt.screensaver = true;
        let mut c = Config::default(opt);
        let before = c;
        assert_eq!(c.handle_keypress(k), KeyAction::Terminate);
        assert_eq!(c, before);
    }
}

#[test]
fn update_in_range_accepts_digits() {
    assert_eq!(update_in_range("0"), Ok(0));
    assert_eq!(update_in_range("9"), Ok(9));
    assert_eq!(update_in_range("+4"), Ok(4));
    assert_eq!(update_in_range("007"), Ok(7));
}

#[test]
fn update_in_range_rejects_large_values() {
    assert_eq!(update_in_range("10"), Err(UpdateError::OutOfRange));
    assert_eq!(update_in_range("123456"), Err(UpdateError::OutOfRange));
}

#[test]
fn update_in_range_rejects_non_numbers() {
    assert_eq!(update_in_range(""), Err(UpdateError::NotANumber));
    assert_eq!(update_in_range("-1"), Err(UpdateError::NotANumber));
    assert_eq!(update_in_range("fast"), Err(UpdateError::NotANumber));
    assert_eq!(update_in_range(" 3"), Err(UpdateError::NotANumber));
    assert_eq!(update_in_range("+"), Err(UpdateError::NotANumber));
    assert_eq!(
        update_in_range("99999999999999999999999"),
        Err(UpdateError::NotANumber)
    );
}

#[test]
fn frame_delay_grows_with_update() {
    assert_eq!(rmatrix::config::frame_delay_ms(0), 0);
    assert_eq!(rmatrix::config::frame_delay_ms(4), 40);
    assert_eq!(rmatrix::config::frame_delay_ms(9), 90);
    assert_eq!(rmatrix::config::frame_delay_ms(500), 90);
}
