//! The live configuration: startup options, keypress handling and the
//! validation of the update delay given on the command line.
use vstd::prelude::*;

verus! {

/// Curses colour number of black.
pub const COLOR_BLACK: i16 = 0;
/// Curses colour number of red.
pub const COLOR_RED: i16 = 1;
/// Curses colour number of green.
pub const COLOR_GREEN: i16 = 2;
/// Curses colour number of yellow.
pub const COLOR_YELLOW: i16 = 3;
/// Curses colour number of blue.
pub const COLOR_BLUE: i16 = 4;
/// Curses colour number of magenta.
pub const COLOR_MAGENTA: i16 = 5;
/// Curses colour number of cyan.
pub const COLOR_CYAN: i16 = 6;
/// Curses colour number of white.
pub const COLOR_WHITE: i16 = 7;

/// Largest accepted update delay.
pub const UPDATE_MAX: usize = 9;

/// Why a command-line update delay was refused.
#[derive(Copy, Clone, Debug, PartialEq, Eq, Structural)]
pub enum UpdateError {
    /// The text is not an unsigned decimal number.
    NotANumber,
    /// The number is above `UPDATE_MAX`.
    OutOfRange,
}

/// The text after an optional leading `+`.
pub open spec fn unsigned_digits(s: Seq<char>) -> Seq<char> {
    if s.len() > 0 && s[0] == '+' {
        s.drop_first()
    } else {
        s
    }
}

/// Whether every character is an ASCII digit and there is at least one.
pub open spec fn all_digits(s: Seq<char>) -> bool {
    s.len() > 0 && forall|i: int| 0 <= i < s.len() ==> '0' <= #[trigger] s[i] && s[i] <= '9'
}

/// The value of a string of decimal digits, most significant first.
pub open spec fn decimal_value(s: Seq<char>) -> nat
    decreases s.len(),
{
    if s.len() == 0 {
        0
    } else {
        decimal_value(s.drop_last()) * 10 + (s.last() as u32 - '0' as u32) as nat
    }
}

/// Whether `s` reads as a `usize`: an optional `+`, then decimal digits
/// whose value fits.
pub open spec fn parses_as_usize(s: Seq<char>) -> bool {
    all_digits(unsigned_digits(s)) && decimal_value(unsigned_digits(s)) <= usize::MAX
}

/// Relies on `str::parse::<usize>`: it accepts an optional `+` followed by
/// decimal digits only, and fails on anything else or on overflow.
#[verifier::external_body]
fn parse_usize(s: &str) -> (r: Option<usize>)
    ensures
        r.is_some() <==> parses_as_usize(s@),
        r matches Some(n) ==> n as nat == decimal_value(unsigned_digits(s@)),
{
    s.parse::<usize>().ok()
}

/// Reads the update delay given on the command line: a decimal number from
/// 0 to `UPDATE_MAX`.
pub fn update_in_range(s: &str) -> (r: Result<usize, UpdateError>)
    ensures
        !parses_as_usize(s@) <==> r == Err::<usize, UpdateError>(UpdateError::NotANumber),
        r matches Ok(n) ==> n as nat == decimal_value(unsigned_digits(s@)) && n <= UPDATE_MAX,
        r is Ok <==> parses_as_usize(s@) && decimal_value(unsigned_digits(s@)) <= UPDATE_MAX,
{
    match parse_usize(s) {
        None => Err(UpdateError::NotANumber),
        Some(n) => {
            if n <= UPDATE_MAX {
                Ok(n)
            } else {
                Err(UpdateError::OutOfRange)
            }
        },
    }
}

/// The glyph pool the rain draws from.
#[derive(Copy, Clone, Debug, PartialEq, Eq, Structural)]
pub enum Characters {
    Classic,
    Jap,
    Digits,
}

/// The base colours a stream can take.
#[derive(Copy, Clone, Debug, PartialEq, Eq, Structural)]
pub enum Colors {
    Green,
    Red,
    Blue,
    White,
    Yellow,
    Cyan,
    Magenta,
    Black,
}

/// The curses colour number of a base colour.
pub open spec fn colour_code(c: Colors) -> i16 {
    match c {
        Colors::Green => COLOR_GREEN,
        Colors::Red => COLOR_RED,
        Colors::Blue => COLOR_BLUE,
        Colors::White => COLOR_WHITE,
        Colors::Yellow => COLOR_YELLOW,
        Colors::Cyan => COLOR_CYAN,
        Colors::Magenta => COLOR_MAGENTA,
        Colors::Black => COLOR_BLACK,
    }
}

impl Colors {
    /// The curses colour number of this colour.
    pub fn code(self) -> (r: i16)
        ensures
            r == colour_code(self),
            0 <= r <= 7,
    {
        match self {
            Colors::Green => COLOR_GREEN,
            Colors::Red => COLOR_RED,
            Colors::Blue => COLOR_BLUE,
            Colors::White => COLOR_WHITE,
            Colors::Yellow => COLOR_YELLOW,
            Colors::Cyan => COLOR_CYAN,
            Colors::Magenta => COLOR_MAGENTA,
            Colors::Black => COLOR_BLACK,
        }
    }
}

/// What the frame loop does after a keypress.
#[derive(Copy, Clone, Debug, PartialEq, Eq, Structural)]
pub enum KeyAction {
    Continue,
    Terminate,
}

/// The startup options, as parsed and validated from the command line.
#[derive(Copy, Clone, Debug, PartialEq, Eq, Structural)]
pub struct Options {
    pub bold: isize,
    pub console: bool,
    pub oldstyle: bool,
    pub screensaver: bool,
    pub xwindow: bool,
    pub update: usize,
    pub colour: Colors,
    pub characters: Characters,
    pub rainbow: bool,
}

/// The live state read by the renderer every frame.
#[derive(Copy, Clone, Debug, PartialEq, Eq, Structural)]
pub struct Config {
    pub bold: isize,
    pub characters: Characters,
    pub console: bool,
    pub oldstyle: bool,
    pub screensaver: bool,
    pub xwindow: bool,
    pub update: usize,
    pub colour: i16,
    pub rainbow: bool,
    pub pause: bool,
}

/// The configuration built from startup options: every option carried over,
/// the colour as its curses number, not paused.
pub open spec fn config_of(opt: Options) -> Config {
    Config {
        bold: opt.bold,
        characters: opt.characters,
        console: opt.console,
        oldstyle: opt.oldstyle,
        screensaver: opt.screensaver,
        xwindow: opt.xwindow,
        update: opt.update,
        colour: colour_code(opt.colour),
        rainbow: opt.rainbow,
        pause: false,
    }
}

/// Bounds the live configuration keeps: a curses base colour, an update
/// delay from 0 to `UPDATE_MAX`, and a bold level that is not negative.
pub open spec fn config_wf(c: Config) -> bool {
    &&& 0 <= c.colour <= 7
    &&& c.update <= UPDATE_MAX
    &&& c.bold >= 0
}

/// The colour a colour key selects, if the key is one.
pub open spec fn colour_key(k: char) -> Option<Colors> {
    if k == 'a' {
        Some(Colors::Red)
    } else if k == 'z' {
        Some(Colors::Green)
    } else if k == 'e' {
        Some(Colors::Yellow)
    } else if k == 'r' {
        Some(Colors::Blue)
    } else if k == 't' {
        Some(Colors::Magenta)
    } else if k == 'u' {
        Some(Colors::Cyan)
    } else if k == 'y' {
        Some(Colors::White)
    } else {
        None
    }
}

/// Whether a key is a digit key, '0' to '9'.
pub open spec fn is_digit_key(k: char) -> bool {
    '0' <= k && k <= '9'
}

/// The delay a digit key selects.
pub open spec fn digit_value(k: char) -> usize {
    (k as u32 - '0' as u32) as usize
}

/// Whether a key ends the program outside screensaver mode.
pub open spec fn is_quit_key(k: char) -> bool {
    k == '\u{1b}' || k == 'q'
}

/// Whether a key does anything outside screensaver mode.
pub open spec fn is_recognized_key(k: char) -> bool {
    is_quit_key(k) || k == 'b' || k == 'B' || k == 'n' || colour_key(k).is_some() || k == 'i'
        || k == 'j' || k == 'c' || k == 'p' || k == 'P' || is_digit_key(k)
}

/// What a keypress does to the configuration. In screensaver mode and on the
/// quit keys nothing changes: the program ends instead.
pub open spec fn after_key(c: Config, k: char) -> Config {
    if c.screensaver || is_quit_key(k) {
        c
    } else if k == 'b' {
        Config { bold: 1, ..c }
    } else if k == 'B' {
        Config { bold: 2, ..c }
    } else if k == 'n' {
        Config { bold: 0, ..c }
    } else if colour_key(k).is_some() {
        Config { colour: colour_code(colour_key(k).unwrap()), rainbow: false, ..c }
    } else if k == 'i' {
        Config { rainbow: true, ..c }
    } else if k == 'j' {
        Config { characters: Characters::Jap, ..c }
    } else if k == 'c' {
        Config { characters: Characters::Classic, ..c }
    } else if k == 'p' || k == 'P' {
        Config { pause: !c.pause, ..c }
    } else if is_digit_key(k) {
        Config { update: digit_value(k), ..c }
    } else {
        c
    }
}

/// Whether a keypress ends the program.
pub open spec fn key_action(c: Config, k: char) -> KeyAction {
    if c.screensaver || is_quit_key(k) {
        KeyAction::Terminate
    } else {
        KeyAction::Continue
    }
}

impl Config {
    /// The configuration at startup, from the parsed command-line options.
    pub fn default(opt: Options) -> (r: Config)
        ensures
            r == config_of(opt),
            opt.update <= UPDATE_MAX && opt.bold >= 0 ==> config_wf(r),
    {
        Config {
            bold: opt.bold,
            characters: opt.characters,
            console: opt.console,
            oldstyle: opt.oldstyle,
            screensaver: opt.screensaver,
            xwindow: opt.xwindow,
            update: opt.update,
            colour: opt.colour.code(),
            rainbow: opt.rainbow,
            pause: false,
        }
    }

    /// Applies a keypress. Returns `Terminate` in screensaver mode, whatever
    /// the key, and on Escape or `q`; the configuration is then unchanged.
    pub fn handle_keypress(&mut self, keypress: char) -> (r: KeyAction)
        ensures
            *final(self) == after_key(*old(self), keypress),
            r == key_action(*old(self), keypress),
            config_wf(*old(self)) ==> config_wf(*final(self)),
    {
        if self.screensaver {
            return KeyAction::Terminate;
        }
        match keypress {
            '\u{1b}' | 'q' => {
                return KeyAction::Terminate;
            },
            'b' => self.bold = 1,
            'B' => self.bold = 2,
            'n' => self.bold = 0,
            'a' => {
                self.colour = COLOR_RED;
                self.rainbow = false;
            },
            'z' => {
                self.colour = COLOR_GREEN;
                self.rainbow = false;
            },
            'e' => {
                self.colour = COLOR_YELLOW;
                self.rainbow = false;
            },
            'r' => {
                self.colour = COLOR_BLUE;
                self.rainbow = false;
            },
            't' => {
                self.colour = COLOR_MAGENTA;
                self.rainbow = false;
            },
            'i' => {
                self.rainbow = true;
            },
            'u' => {
                self.colour = COLOR_CYAN;
                self.rainbow = false;
            },
            'y' => {
                self.colour = COLOR_WHITE;
                self.rainbow = false;
            },
            'j' => {
                self.characters = Characters::Jap;
            },
            'c' => {
                self.characters = Characters::Classic;
            },
            'p' | 'P' => self.pause = !self.pause,
            '0' => self.update = 0,
            '1' => self.update = 1,
            '2' => self.update = 2,
            '3' => self.update = 3,
            '4' => self.update = 4,
            '5' => self.update = 5,
            '6' => self.update = 6,
            '7' => self.update = 7,
            '8' => self.update = 8,
            '9' => self.update = 9,
            _ => {},
        }
        KeyAction::Continue
    }
}

/// Milliseconds of sleep per update-delay step.
pub const DELAY_STEP_MS: u64 = 10;

/// The pause between frames for an update delay: `DELAY_STEP_MS` per step,
/// counting at most `UPDATE_MAX` steps, so 0 is fastest.
pub fn frame_delay_ms(update: usize) -> (r: u64)
    ensures
        r == DELAY_STEP_MS * (if update > UPDATE_MAX { UPDATE_MAX } else { update }) as u64,
{
    let steps: usize = if update > UPDATE_MAX {
        UPDATE_MAX
    } else {
        update
    };
    DELAY_STEP_MS * steps as u64
}

/// A key that is not in the dispatch table changes no field.
pub proof fn lemma_unrecognized_key_changes_nothing(c: Config, k: char)
    requires
        !is_recognized_key(k),
    ensures
        after_key(c, k) == c,
        !c.screensaver ==> key_action(c, k) == KeyAction::Continue,
{
}

/// A colour key turns rainbow mode off and selects exactly its colour.
pub proof fn lemma_colour_key_sets_colour(c: Config, k: char)
    requires
        !c.screensaver,
        colour_key(k).is_some(),
    ensures
        after_key(c, k).rainbow == false,
        after_key(c, k).colour == colour_code(colour_key(k).unwrap()),
{
}

/// `i` turns rainbow mode on and keeps the base colour.
pub proof fn lemma_rainbow_key_keeps_colour(c: Config)
    requires
        !c.screensaver,
    ensures
        after_key(c, 'i').rainbow == true,
        after_key(c, 'i').colour == c.colour,
{
}

/// Pressing a pause key twice gives back the pause flag it started with.
pub proof fn lemma_pause_twice(c: Config, k: char)
    requires
        k == 'p' || k == 'P',
    ensures
        after_key(after_key(c, k), k).pause == c.pause,
        after_key(after_key(c, k), k) == c,
{
}

/// A digit key sets the update delay to its own value, whatever it was.
pub proof fn lemma_digit_key_overwrites_update(c: Config, k: char)
    requires
        !c.screensaver,
        is_digit_key(k),
    ensures
        after_key(c, k).update == digit_value(k),
        digit_value(k) <= UPDATE_MAX,
{
}

/// In screensaver mode every key ends the program and changes no field.
pub proof fn lemma_screensaver_any_key_terminates(c: Config, k: char)
    requires
        c.screensaver,
    ensures
        key_action(c, k) == KeyAction::Terminate,
        after_key(c, k) == c,
{
}

} // verus!
