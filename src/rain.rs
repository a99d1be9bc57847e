//! The rain engine: one falling stream per screen column, advanced once a
//! frame, producing the cell draws and erases of that frame.
use crate::config::{Characters, Config};
use vstd::prelude::*;

verus! {

/// Largest screen height the engine handles.
pub const MAX_ROWS: usize = 65535;

/// Largest number of frames a stream takes to fall one row.
pub const MAX_SPEED: u64 = 4;

/// Number of glyphs in the classic pool: ASCII `!` to `z`.
pub const CLASSIC_POOL: u64 = 90;

/// Number of glyphs in the Japanese-like pool: half-width katakana.
pub const JAP_POOL: u64 = 56;

/// Number of glyphs in the digit pool.
pub const DIGIT_POOL: u64 = 10;

/// First code point of the half-width katakana pool.
pub const JAP_BASE: u32 = 0xFF66;

/// The random choices one column may use in one frame.
#[derive(Copy, Clone, Debug, PartialEq, Eq, Structural)]
pub struct Picks {
    pub glyph: u64,
    pub head_colour: u64,
    pub tail_colour: u64,
    pub length: u64,
    pub offset: u64,
    pub speed: u64,
    pub delay: u64,
}

/// The falling stream of one column. While dormant only `countdown` moves;
/// while active the stream falls one row every `speed` frames.
#[derive(Copy, Clone, Debug, PartialEq, Eq, Structural)]
pub struct ColumnStream {
    pub active: bool,
    pub head_row: i64,
    pub length: u64,
    pub speed: u64,
    pub phase: u64,
    pub countdown: u64,
    pub glyph: char,
}

/// Rendering attribute of a drawn cell.
#[derive(Copy, Clone, Debug, PartialEq, Eq, Structural)]
pub enum Attr {
    Normal,
    Bold,
    Bright,
}

/// What a cell becomes.
#[derive(Copy, Clone, Debug, PartialEq, Eq, Structural)]
pub enum Cell {
    Blank,
    Glyph { ch: char, colour: i16, head: bool, attr: Attr },
}

/// One draw or erase on the terminal surface.
#[derive(Copy, Clone, Debug, PartialEq, Eq, Structural)]
pub struct DrawOp {
    pub row: usize,
    pub col: usize,
    pub cell: Cell,
}

/// The engine state: one stream per column.
pub struct RainEngine {
    pub streams: Vec<ColumnStream>,
}

/// The range that random lengths, offsets and delays are taken in.
pub open spec fn pick_span(rows: usize) -> u64 {
    if rows == 0 {
        1
    } else {
        rows as u64
    }
}

/// Size of a glyph pool.
pub open spec fn pool_size(set: Characters) -> u64 {
    match set {
        Characters::Classic => CLASSIC_POOL,
        Characters::Jap => JAP_POOL,
        Characters::Digits => DIGIT_POOL,
    }
}

/// First code point of a glyph pool; the pool is the consecutive code points
/// from there.
pub open spec fn pool_base(set: Characters) -> u32 {
    match set {
        Characters::Classic => '!' as u32,
        Characters::Jap => JAP_BASE,
        Characters::Digits => '0' as u32,
    }
}

/// The glyph a random pick selects from a pool.
pub open spec fn glyph_of(set: Characters, pick: u64) -> char {
    (pool_base(set) + pick % pool_size(set)) as u32 as char
}

/// Attribute of a head cell at a bold level.
pub open spec fn head_attr(bold: isize) -> Attr {
    if bold >= 2 {
        Attr::Bright
    } else if bold == 1 {
        Attr::Bold
    } else {
        Attr::Normal
    }
}

/// Attribute of a tail cell at a bold level.
pub open spec fn tail_attr(bold: isize) -> Attr {
    if bold >= 1 {
        Attr::Bold
    } else {
        Attr::Normal
    }
}

/// The colour of a cell: the base colour, or in rainbow mode one of the
/// eight curses colours picked for this cell alone.
pub open spec fn cell_colour(config: Config, pick: u64) -> i16 {
    if config.rainbow {
        (pick % 8) as i16
    } else {
        config.colour
    }
}

/// Bounds every stream keeps, whatever the screen height of each frame.
pub open spec fn stream_wf(s: ColumnStream) -> bool {
    &&& 1 <= s.length <= MAX_ROWS
    &&& 1 <= s.speed <= MAX_SPEED
    &&& s.phase < s.speed
    &&& -(MAX_ROWS as int) - 1 <= s.head_row <= 2 * MAX_ROWS + 1
    &&& s.active ==> s.head_row - s.length <= MAX_ROWS
}

/// A stream at startup: dormant for a random number of frames.
pub open spec fn initial_stream(rows: usize, p: Picks) -> ColumnStream {
    ColumnStream {
        active: false,
        head_row: 0,
        length: 1,
        speed: 1,
        phase: 0,
        countdown: p.delay % pick_span(rows),
        glyph: ' ',
    }
}

/// Whether an active stream falls this frame.
pub open spec fn falls(s: ColumnStream) -> bool {
    s.active && s.phase == 0
}

/// The stream after one frame on a screen of `rows` rows.
pub open spec fn next_stream(s: ColumnStream, rows: usize, config: Config, p: Picks) -> ColumnStream {
    if !s.active {
        if s.countdown > 0 {
            ColumnStream { countdown: (s.countdown - 1) as u64, ..s }
        } else {
            ColumnStream {
                active: true,
                head_row: (-1 - p.offset % pick_span(rows)) as i64,
                length: (1 + p.length % pick_span(rows)) as u64,
                speed: (1 + p.speed % MAX_SPEED) as u64,
                phase: 0,
                countdown: 0,
                glyph: s.glyph,
            }
        }
    } else if s.phase > 0 {
        ColumnStream { phase: (s.phase - 1) as u64, ..s }
    } else if s.head_row + 1 - s.length > rows {
        ColumnStream {
            active: false,
            head_row: (s.head_row + 1) as i64,
            phase: (s.speed - 1) as u64,
            countdown: p.delay % pick_span(rows),
            glyph: glyph_of(config.characters, p.glyph),
            ..s
        }
    } else {
        ColumnStream {
            head_row: (s.head_row + 1) as i64,
            phase: (s.speed - 1) as u64,
            glyph: glyph_of(config.characters, p.glyph),
            ..s
        }
    }
}

/// The draw of one cell, or nothing where the cell is off the screen.
pub open spec fn cell_ops(row: int, col: int, rows: usize, cols: usize, cell: Cell) -> Seq<DrawOp> {
    if 0 <= row < rows && 0 <= col < cols {
        seq![DrawOp { row: row as usize, col: col as usize, cell }]
    } else {
        seq![]
    }
}

/// The draws of one column in one frame. A stream that falls erases the cell
/// leaving its tail (unless `oldstyle`), draws the new head, and redraws the
/// cell the head left in the tail style.
pub open spec fn column_ops(
    s: ColumnStream,
    col: int,
    rows: usize,
    cols: usize,
    config: Config,
    p: Picks,
) -> Seq<DrawOp> {
    if !falls(s) {
        seq![]
    } else {
        let erase = if config.oldstyle {
            Seq::<DrawOp>::empty()
        } else {
            cell_ops(s.head_row - s.length, col, rows, cols, Cell::Blank)
        };
        let head = Cell::Glyph {
            ch: glyph_of(config.characters, p.glyph),
            colour: cell_colour(config, p.head_colour),
            head: true,
            attr: head_attr(config.bold),
        };
        let tail = Cell::Glyph {
            ch: s.glyph,
            colour: cell_colour(config, p.tail_colour),
            head: false,
            attr: tail_attr(config.bold),
        };
        erase + cell_ops(s.head_row + 1, col, rows, cols, head) + cell_ops(
            s.head_row as int,
            col,
            rows,
            cols,
            tail,
        )
    }
}

/// The draws of a frame over the first `streams.len()` columns, column by
/// column.
pub open spec fn frame_ops(
    streams: Seq<ColumnStream>,
    rows: usize,
    cols: usize,
    config: Config,
    picks: Seq<Picks>,
) -> Seq<DrawOp>
    decreases streams.len(),
{
    if streams.len() == 0 {
        seq![]
    } else {
        frame_ops(streams.drop_last(), rows, cols, config, picks) + column_ops(
            streams.last(),
            streams.len() - 1,
            rows,
            cols,
            config,
            picks[streams.len() - 1],
        )
    }
}

/// The streams after one frame: unchanged when paused.
pub open spec fn frame_streams(
    streams: Seq<ColumnStream>,
    rows: usize,
    config: Config,
    picks: Seq<Picks>,
) -> Seq<ColumnStream> {
    if config.pause {
        streams
    } else {
        Seq::new(streams.len(), |i: int| next_stream(streams[i], rows, config, picks[i]))
    }
}

/// The draws of one frame: none when paused.
pub open spec fn frame_draws(
    streams: Seq<ColumnStream>,
    rows: usize,
    cols: usize,
    config: Config,
    picks: Seq<Picks>,
) -> Seq<DrawOp> {
    if config.pause {
        seq![]
    } else {
        frame_ops(streams, rows, cols, config, picks)
    }
}

/// Relies on `char::from_u32`: it returns the character of a code point
/// outside the surrogate range and below 0x110000, and `None` otherwise.
#[verifier::external_body]
fn char_from_code(code: u32) -> (r: Option<char>)
    ensures
        r.is_some() <==> (code < 0xD800 || (0xE000 <= code && code < 0x110000)),
        r matches Some(c) ==> c == code as char,
{
    char::from_u32(code)
}

/// The glyph a random pick selects from the pool of a character set.
pub fn glyph_for(set: Characters, pick: u64) -> (r: char)
    ensures
        r == glyph_of(set, pick),
{
    match set {
        Characters::Classic => (33u8 + (pick % CLASSIC_POOL) as u8) as char,
        Characters::Digits => (48u8 + (pick % DIGIT_POOL) as u8) as char,
        Characters::Jap => {
            match char_from_code(JAP_BASE + (pick % JAP_POOL) as u32) {
                Some(c) => c,
                None => ' ',
            }
        },
    }
}

/// Appends the draw of one cell unless it is off the screen.
fn push_cell(ops: &mut Vec<DrawOp>, row: i64, col: usize, rows: usize, cols: usize, cell: Cell)
    ensures
        final(ops)@ == old(ops)@ + cell_ops(row as int, col as int, rows, cols, cell),
{
    if row >= 0 && (row as u64) < (rows as u64) && col < cols {
        ops.push(DrawOp { row: row as usize, col, cell });
    }
}

/// The colour of a cell in the current colour mode.
fn pick_colour(config: &Config, pick: u64) -> (r: i16)
    ensures
        r == cell_colour(*config, pick),
{
    if config.rainbow {
        (pick % 8) as i16
    } else {
        config.colour
    }
}

/// Advances one column by one frame, appending its draws to `ops`.
pub fn step_column(
    s: ColumnStream,
    col: usize,
    rows: usize,
    cols: usize,
    config: &Config,
    p: Picks,
    ops: &mut Vec<DrawOp>,
) -> (r: ColumnStream)
    requires
        stream_wf(s),
        rows <= MAX_ROWS,
    ensures
        r == next_stream(s, rows, *config, p),
        stream_wf(r),
        final(ops)@ == old(ops)@ + column_ops(s, col as int, rows, cols, *config, p),
{
    let span: u64 = if rows == 0 {
        1
    } else {
        rows as u64
    };
    if !s.active {
        if s.countdown > 0 {
            return ColumnStream { countdown: s.countdown - 1, ..s };
        }
        return ColumnStream {
            active: true,
            head_row: -1 - (p.offset % span) as i64,
            length: 1 + p.length % span,
            speed: 1 + p.speed % MAX_SPEED,
            phase: 0,
            countdown: 0,
            glyph: s.glyph,
        };
    }
    if s.phase > 0 {
        return ColumnStream { phase: s.phase - 1, ..s };
    }
    let ch = glyph_for(config.characters, p.glyph);
    if !config.oldstyle {
        push_cell(ops, s.head_row - s.length as i64, col, rows, cols, Cell::Blank);
    }
    let head_attr = if config.bold >= 2 {
        Attr::Bright
    } else if config.bold == 1 {
        Attr::Bold
    } else {
        Attr::Normal
    };
    let tail_attr = if config.bold >= 1 {
        Attr::Bold
    } else {
        Attr::Normal
    };
    let head = Cell::Glyph {
        ch,
        colour: pick_colour(config, p.head_colour),
        head: true,
        attr: head_attr,
    };
    push_cell(ops, s.head_row + 1, col, rows, cols, head);
    let tail = Cell::Glyph {
        ch: s.glyph,
        colour: pick_colour(config, p.tail_colour),
        head: false,
        attr: tail_attr,
    };
    push_cell(ops, s.head_row, col, rows, cols, tail);
    let head_row = s.head_row + 1;
    if head_row - s.length as i64 > rows as i64 {
        ColumnStream {
            active: false,
            head_row,
            phase: s.speed - 1,
            countdown: p.delay % span,
            glyph: ch,
            ..s
        }
    } else {
        ColumnStream { head_row, phase: s.speed - 1, glyph: ch, ..s }
    }
}

impl RainEngine {
    /// Well-formed: every stream keeps its bounds.
    pub open spec fn wf(&self) -> bool {
        forall|i: int| 0 <= i < self.streams@.len() ==> stream_wf(#[trigger] self.streams@[i])
    }

    /// One dormant stream per column, each waiting its own random number of
    /// frames, so that the columns do not start together.
    pub fn new(columns: usize, rows: usize, picks: &Vec<Picks>) -> (r: RainEngine)
        requires
            picks@.len() == columns,
        ensures
            r.wf(),
            r.streams@.len() == columns,
            forall|i: int|
                0 <= i < columns ==> #[trigger] r.streams@[i] == initial_stream(rows, picks@[i]),
    {
        let span: u64 = if rows == 0 {
            1
        } else {
            rows as u64
        };
        let mut streams: Vec<ColumnStream> = Vec::new();
        let mut i: usize = 0;
        while i < columns
            invariant
                i <= columns,
                picks@.len() == columns,
                span == pick_span(rows),
                streams@.len() == i,
                forall|j: int| 0 <= j < i ==> #[trigger] streams@[j] == initial_stream(rows, picks@[j]),
            decreases columns - i,
        {
            streams.push(
                ColumnStream {
                    active: false,
                    head_row: 0,
                    length: 1,
                    speed: 1,
                    phase: 0,
                    countdown: picks[i].delay % span,
                    glyph: ' ',
                },
            );
            i = i + 1;
        }
        RainEngine { streams }
    }

    /// Advances every column by one frame on a screen of `rows` by `cols`
    /// cells and returns the draws of the frame, column by column. When
    /// paused, nothing moves and nothing is drawn.
    pub fn advance_and_draw(&mut self, config: &Config, rows: usize, cols: usize, picks: &Vec<Picks>) -> (ops: Vec<DrawOp>)
        requires
            old(self).wf(),
            picks@.len() == old(self).streams@.len(),
            rows <= MAX_ROWS,
        ensures
            final(self).wf(),
            final(self).streams@.len() == old(self).streams@.len(),
            final(self).streams@ == frame_streams(old(self).streams@, rows, *config, picks@),
            ops@ == frame_draws(old(self).streams@, rows, cols, *config, picks@),
    {
        let mut ops: Vec<DrawOp> = Vec::new();
        if config.pause {
            return ops;
        }
        let ghost start = self.streams@;
        let n = self.streams.len();
        let mut i: usize = 0;
        while i < n
            invariant
                i <= n,
                n == start.len(),
                picks@.len() == n,
                rows <= MAX_ROWS,
                self.streams@.len() == n,
                forall|j: int| 0 <= j < n ==> stream_wf(#[trigger] start[j]),
                forall|j: int| 0 <= j < n ==> stream_wf(#[trigger] self.streams@[j]),
                forall|j: int|
                    0 <= j < i ==> #[trigger] self.streams@[j] == next_stream(start[j], rows, *config, picks@[j]),
                forall|j: int| i <= j < n ==> #[trigger] self.streams@[j] == start[j],
                ops@ == frame_ops(start.subrange(0, i as int), rows, cols, *config, picks@),
            decreases n - i,
        {
            let s = self.streams[i];
            let next = step_column(s, i, rows, cols, config, picks[i], &mut ops);
            self.streams.set(i, next);
            assert(start.subrange(0, i + 1).drop_last() == start.subrange(0, i as int));
            i = i + 1;
        }
        assert(start.subrange(0, n as int) == start);
        assert(self.streams@ == frame_streams(start, rows, *config, picks@));
        ops
    }
}

/// A stream goes dormant only once its tail end is below the last row.
pub proof fn lemma_dormant_only_past_bottom(s: ColumnStream, rows: usize, config: Config, p: Picks)
    requires
        stream_wf(s),
        rows <= MAX_ROWS,
        s.active,
        !next_stream(s, rows, config, p).active,
    ensures
        next_stream(s, rows, config, p).head_row - next_stream(s, rows, config, p).length > rows,
{
}

/// A dormant stream comes back with its head at or above the first row.
pub proof fn lemma_respawn_above_top(s: ColumnStream, rows: usize, config: Config, p: Picks)
    requires
        rows <= MAX_ROWS,
        !s.active,
        next_stream(s, rows, config, p).active,
    ensures
        next_stream(s, rows, config, p).head_row <= 0,
        stream_wf(next_stream(s, rows, config, p)),
{
}

/// While paused, two frames in a row draw the same thing, nothing, and leave
/// every stream where it was.
pub proof fn lemma_paused_frames_identical(
    streams: Seq<ColumnStream>,
    rows: usize,
    cols: usize,
    config: Config,
    first: Seq<Picks>,
    second: Seq<Picks>,
)
    requires
        config.pause,
    ensures
        frame_draws(streams, rows, cols, config, first) == frame_draws(
            frame_streams(streams, rows, config, first),
            rows,
            cols,
            config,
            second,
        ),
        frame_draws(streams, rows, cols, config, first).len() == 0,
        frame_streams(frame_streams(streams, rows, config, first), rows, config, second) == streams,
{
}

/// In old-style mode a frame never erases a cell.
pub proof fn lemma_oldstyle_never_erases(
    streams: Seq<ColumnStream>,
    rows: usize,
    cols: usize,
    config: Config,
    picks: Seq<Picks>,
)
    requires
        config.oldstyle,
    ensures
        forall|i: int|
            0 <= i < frame_draws(streams, rows, cols, config, picks).len() ==> (#[trigger] frame_draws(
                streams,
                rows,
                cols,
                config,
                picks,
            )[i]).cell != Cell::Blank,
    decreases streams.len(),
{
    if streams.len() > 0 && !config.pause {
        lemma_oldstyle_never_erases(streams.drop_last(), rows, cols, config, picks);
    }
}

} // verus!
