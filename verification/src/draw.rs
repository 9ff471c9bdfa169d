//! From cells to requests on the surface.
//!
//! Drawing is planned here and carried out elsewhere: a plan is a list of
//! [`DrawOp`]s, to be sent to the surface in order. Every glyph gets a
//! drawing context of its own, made for its color just before it is drawn
//! and freed right after.

use vstd::prelude::*;
use vstd::slice::slice_subrange;
use crate::content::Printable;
use crate::grid::{
    lemma_pixel_origin, Position, Rect, FONT_HEIGHT, FONT_OFFSET_X, FONT_OFFSET_Y, FONT_WIDTH,
};

verus! {

/// The character that stands for a cell filled with color: the full block.
pub const BLOCK_GLYPH: char = '\u{2588}';

/// The character that ends a row of text.
pub const NEWLINE: char = '\n';

/// The character that leaves a cell as it is.
pub const SPACE: char = ' ';

/// One request on the surface.
#[derive(Clone, Copy, Debug, PartialEq, Eq)]
pub enum DrawOp {
    /// Make a drawing context that draws in `foreground`. It is the context
    /// of every request that follows, up to the next `FreeContext`.
    CreateContext { foreground: u32 },
    /// Fill `rect` in the context's color.
    FillRectangle { rect: Rect },
    /// Erase `rect` to the background. Needs no context.
    ClearArea { rect: Rect },
    /// Draw the one character that the byte `glyph` stands for, from the
    /// baseline origin (`x`, `y`), in the context's color. Nothing follows
    /// it: the request reaches no further than the cell it is drawn in.
    ImageText { x: i16, y: i16, glyph: u8 },
    /// Free the context that the last `CreateContext` made.
    FreeContext,
}

/// What a request does, without its numbers.
#[derive(Clone, Copy, Debug, PartialEq, Eq, Structural)]
pub enum OpKind {
    CreateContext,
    FillRectangle,
    ClearArea,
    ImageText,
    FreeContext,
}

impl DrawOp {
    /// The kind of this request.
    pub open spec fn spec_kind(self) -> OpKind {
        match self {
            DrawOp::CreateContext { .. } => OpKind::CreateContext,
            DrawOp::FillRectangle { .. } => OpKind::FillRectangle,
            DrawOp::ClearArea { .. } => OpKind::ClearArea,
            DrawOp::ImageText { .. } => OpKind::ImageText,
            DrawOp::FreeContext => OpKind::FreeContext,
        }
    }

    /// The kind of this request.
    #[verifier::when_used_as_spec(spec_kind)]
    pub fn kind(self) -> (kind: OpKind)
        ensures
            kind == self.spec_kind(),
    {
        match self {
            DrawOp::CreateContext { .. } => OpKind::CreateContext,
            DrawOp::FillRectangle { .. } => OpKind::FillRectangle,
            DrawOp::ClearArea { .. } => OpKind::ClearArea,
            DrawOp::ImageText { .. } => OpKind::ImageText,
            DrawOp::FreeContext => OpKind::FreeContext,
        }
    }
}

/// How many requests of `kind` there are in `ops`.
pub open spec fn count_kind(ops: Seq<DrawOp>, kind: OpKind) -> nat
    decreases ops.len(),
{
    if ops.len() == 0 {
        0
    } else {
        count_kind(ops.drop_last(), kind) + if ops.last().kind() == kind {
            1nat
        } else {
            0nat
        }
    }
}

/// Whether `ops` keeps to the discipline of contexts, read from a state in
/// which a context is open or not: a context is made only when none is
/// open, freed only when one is, fills and text come only while one is
/// open, and none is left open at the end.
pub open spec fn scoped_from(ops: Seq<DrawOp>, open: bool) -> bool
    decreases ops.len(),
{
    if ops.len() == 0 {
        !open
    } else {
        let rest = ops.subrange(1, ops.len() as int);
        match ops[0] {
            DrawOp::CreateContext { .. } => !open && scoped_from(rest, true),
            DrawOp::FreeContext => open && scoped_from(rest, false),
            DrawOp::FillRectangle { .. } | DrawOp::ImageText { .. } => open && scoped_from(
                rest,
                open,
            ),
            DrawOp::ClearArea { .. } => scoped_from(rest, open),
        }
    }
}

/// Whether `ops` keeps to the discipline of contexts from start to end.
pub open spec fn scoped(ops: Seq<DrawOp>) -> bool {
    scoped_from(ops, false)
}

/// Whether every pixel coordinate that drawing a glyph at `at` names fits
/// the surface's signed 16-bit range: the cell's origin and its text origin.
pub open spec fn can_draw_at(at: Position) -> bool {
    &&& i16::MIN <= at.pixel_x()
    &&& at.pixel_x() + FONT_OFFSET_X <= i16::MAX
    &&& i16::MIN <= at.pixel_y()
    &&& at.pixel_y() + FONT_HEIGHT - FONT_OFFSET_Y <= i16::MAX
}

/// The rectangle of the cell at `at`.
pub open spec fn cell_rect(at: Position) -> Rect {
    Rect {
        x: at.pixel_x() as i16,
        y: at.pixel_y() as i16,
        width: FONT_WIDTH,
        height: FONT_HEIGHT,
    }
}

/// The byte that a character is drawn as: the low eight bits of its code.
pub open spec fn glyph_byte(c: char) -> u8 {
    (c as u32 % 256) as u8
}

/// The cell right of `at`.
pub open spec fn next_column(at: Position) -> Position {
    Position { col: (at.col + 1) as i16, row: at.row }
}

/// The first cell of the row below `at`.
pub open spec fn next_row(at: Position) -> Position {
    Position { col: 0, row: (at.row + 1) as i16 }
}

/// The requests that draw `cell` at `at`.
///
/// The full block is one filled rectangle, the size of a cell. Any other
/// character is the cell erased and then that one character as text, its
/// origin `FONT_OFFSET_X` right of the cell's left edge and `FONT_OFFSET_Y`
/// above its bottom edge. Either is wrapped in a context of the cell's color.
pub open spec fn glyph_ops(at: Position, cell: Printable) -> Seq<DrawOp> {
    if cell.value == BLOCK_GLYPH {
        seq![
            DrawOp::CreateContext { foreground: cell.color },
            DrawOp::FillRectangle { rect: cell_rect(at) },
            DrawOp::FreeContext,
        ]
    } else {
        seq![
            DrawOp::CreateContext { foreground: cell.color },
            DrawOp::ClearArea { rect: cell_rect(at) },
            DrawOp::ImageText {
                x: (at.pixel_x() + FONT_OFFSET_X) as i16,
                y: (at.pixel_y() + FONT_HEIGHT - FONT_OFFSET_Y) as i16,
                glyph: glyph_byte(cell.value),
            },
            DrawOp::FreeContext,
        ]
    }
}

/// `first` put before the requests of a laid-out text.
pub open spec fn precede(first: Seq<DrawOp>, laid_out: Option<(Position, Seq<DrawOp>)>) -> Option<
    (Position, Seq<DrawOp>),
> {
    match laid_out {
        Some((end, ops)) => Some((end, first + ops)),
        None => None,
    }
}

/// Where the cursor ends and what is drawn when `text` is printed in one
/// `color` with the cursor at `at`.
///
/// A newline moves to the first cell of the next row and a space moves one
/// cell right; neither draws. Any other character is drawn as a glyph where
/// the cursor is, and moves it one cell right. `None` if the cursor would
/// leave the 16-bit range, or if a glyph falls where the surface has no
/// coordinates.
pub open spec fn text_layout(at: Position, color: u32, text: Seq<char>) -> Option<
    (Position, Seq<DrawOp>),
>
    decreases text.len(),
{
    if text.len() == 0 {
        Some((at, Seq::empty()))
    } else {
        let rest = text.subrange(1, text.len() as int);
        if text[0] == NEWLINE {
            if at.row < i16::MAX {
                text_layout(next_row(at), color, rest)
            } else {
                None
            }
        } else if text[0] == SPACE {
            if at.col < i16::MAX {
                text_layout(next_column(at), color, rest)
            } else {
                None
            }
        } else if can_draw_at(at) {
            precede(
                glyph_ops(at, Printable { value: text[0], color }),
                text_layout(next_column(at), color, rest),
            )
        } else {
            None
        }
    }
}

/// Whether a glyph can be drawn at `at`.
pub fn check_draw_at(at: Position) -> (ok: bool)
    ensures
        ok == can_draw_at(at),
        ok ==> at.col < i16::MAX,
{
    proof {
        lemma_pixel_origin(at);
    }
    let x: i32 = at.left();
    let y: i32 = at.top();
    let text_x: i32 = x + FONT_OFFSET_X as i32;
    let text_y: i32 = y + FONT_HEIGHT as i32 - FONT_OFFSET_Y as i32;
    -32768 <= x && text_x <= 32767 && -32768 <= y && text_y <= 32767
}

/// The low eight bits of a character's code.
pub fn low_byte(c: char) -> (byte: u8)
    ensures
        byte == glyph_byte(c),
{
    let code: u32 = c as u32;
    assert((code & 0xff) == code % 256) by (bit_vector);
    (code & 0xff) as u8
}

/// Adds the requests that draw `cell` at `at` to the end of `ops`.
pub fn push_glyph(ops: &mut Vec<DrawOp>, at: Position, cell: Printable)
    requires
        can_draw_at(at),
    ensures
        final(ops)@ == old(ops)@ + glyph_ops(at, cell),
{
    proof {
        lemma_pixel_origin(at);
    }
    let x: i16 = at.left() as i16;
    let y: i16 = at.top() as i16;
    let rect = Rect { x, y, width: FONT_WIDTH, height: FONT_HEIGHT };
    ops.push(DrawOp::CreateContext { foreground: cell.color });
    if cell.value == BLOCK_GLYPH {
        ops.push(DrawOp::FillRectangle { rect });
    } else {
        ops.push(DrawOp::ClearArea { rect });
        ops.push(
            DrawOp::ImageText {
                x: x + FONT_OFFSET_X,
                y: y + (FONT_HEIGHT as i16 - FONT_OFFSET_Y),
                glyph: low_byte(cell.value),
            },
        );
    }
    ops.push(DrawOp::FreeContext);
}

/// Plans the drawing of one cell at `at`.
///
/// Returns the requests, or `None` exactly when a glyph cannot be drawn at
/// `at`.
pub fn draw_glyph(at: Position, cell: Printable) -> (plan: Option<Vec<DrawOp>>)
    ensures
        match plan {
            Some(ops) => can_draw_at(at) && ops@ == glyph_ops(at, cell),
            None => !can_draw_at(at),
        },
{
    if check_draw_at(at) {
        let mut ops: Vec<DrawOp> = Vec::new();
        push_glyph(&mut ops, at, cell);
        Some(ops)
    } else {
        None
    }
}

/// Plans the printing of `text` in one `color`, with the cursor at `at`.
///
/// Returns where the cursor ends and the requests, or `None` exactly when
/// the text cannot be laid out from `at`.
pub fn draw_text(at: Position, color: u32, text: &[char]) -> (plan: Option<
    (Position, Vec<DrawOp>),
>)
    ensures
        match plan {
            Some((end, ops)) => text_layout(at, color, text@) == Some((end, ops@)),
            None => text_layout(at, color, text@) is None,
        },
{
    let mut cursor = at;
    let mut rest = text;
    let mut ops: Vec<DrawOp> = Vec::new();
    assert(Seq::<DrawOp>::empty() + Seq::<DrawOp>::empty() == Seq::<DrawOp>::empty());
    while rest.len() > 0
        invariant
            text_layout(at, color, text@) == precede(ops@, text_layout(cursor, color, rest@)),
        decreases rest.len(),
    {
        let c = rest[0];
        let ghost before = ops@;
        let ghost tail = text_layout(
            next_column(cursor),
            color,
            rest@.subrange(1, rest.len() as int),
        );
        if c == NEWLINE {
            if cursor.row == i16::MAX {
                return None;
            }
            cursor = Position { col: 0, row: cursor.row + 1 };
        } else if c == SPACE {
            if cursor.col == i16::MAX {
                return None;
            }
            cursor = Position { col: cursor.col + 1, row: cursor.row };
        } else {
            if !check_draw_at(cursor) {
                return None;
            }
            let cell = Printable { value: c, color };
            push_glyph(&mut ops, cursor, cell);
            proof {
                if let Some((_, later)) = tail {
                    assert(before + (glyph_ops(cursor, cell) + later) == ops@ + later);
                }
            }
            cursor = Position { col: cursor.col + 1, row: cursor.row };
        }
        rest = slice_subrange(rest, 1, rest.len());
    }
    assert(ops@ + Seq::<DrawOp>::empty() == ops@);
    Some((cursor, ops))
}

/// The full block is drawn by exactly one filled rectangle and no text; any
/// other character by exactly one erased rectangle and one text request and
/// no fill. Either takes exactly one context.
pub proof fn law_glyph_requests(at: Position, cell: Printable)
    ensures
        count_kind(glyph_ops(at, cell), OpKind::CreateContext) == 1,
        count_kind(glyph_ops(at, cell), OpKind::FreeContext) == 1,
        cell.value == BLOCK_GLYPH ==> {
            &&& count_kind(glyph_ops(at, cell), OpKind::FillRectangle) == 1
            &&& count_kind(glyph_ops(at, cell), OpKind::ClearArea) == 0
            &&& count_kind(glyph_ops(at, cell), OpKind::ImageText) == 0
        },
        cell.value != BLOCK_GLYPH ==> {
            &&& count_kind(glyph_ops(at, cell), OpKind::FillRectangle) == 0
            &&& count_kind(glyph_ops(at, cell), OpKind::ClearArea) == 1
            &&& count_kind(glyph_ops(at, cell), OpKind::ImageText) == 1
        },
{
    reveal_with_fuel(count_kind, 5);
    let ops = glyph_ops(at, cell);
    if cell.value == BLOCK_GLYPH {
        assert(ops.drop_last() == seq![ops[0], ops[1]]);
        assert(ops.drop_last().drop_last() == seq![ops[0]]);
        assert(ops.drop_last().drop_last().drop_last() == Seq::<DrawOp>::empty());
    } else {
        assert(ops.drop_last() == seq![ops[0], ops[1], ops[2]]);
        assert(ops.drop_last().drop_last() == seq![ops[0], ops[1]]);
        assert(ops.drop_last().drop_last().drop_last() == seq![ops[0]]);
        assert(ops.drop_last().drop_last().drop_last().drop_last() == Seq::<DrawOp>::empty());
    }
}

/// The requests of one glyph keep to the discipline of contexts.
pub proof fn law_glyph_scoped(at: Position, cell: Printable)
    ensures
        scoped(glyph_ops(at, cell)),
{
    reveal_with_fuel(scoped_from, 5);
    let ops = glyph_ops(at, cell);
    let ops1 = ops.subrange(1, ops.len() as int);
    let ops2 = ops1.subrange(1, ops1.len() as int);
    let ops3 = ops2.subrange(1, ops2.len() as int);
    if cell.value == BLOCK_GLYPH {
        assert(ops3.len() == 0);
    } else {
        let ops4 = ops3.subrange(1, ops3.len() as int);
        assert(ops4.len() == 0);
    }
}

/// Two lists that keep to the discipline of contexts still do so when one
/// follows the other.
pub proof fn lemma_scoped_concat(first: Seq<DrawOp>, second: Seq<DrawOp>, open: bool)
    requires
        scoped_from(first, open),
        scoped(second),
    ensures
        scoped_from(first + second, open),
    decreases first.len(),
{
    if first.len() == 0 {
        assert(first + second == second);
    } else {
        let whole = first + second;
        let rest = first.subrange(1, first.len() as int);
        assert(whole.subrange(1, whole.len() as int) == rest + second);
        assert(whole[0] == first[0]);
        match first[0] {
            DrawOp::CreateContext { .. } => lemma_scoped_concat(rest, second, true),
            DrawOp::FreeContext => lemma_scoped_concat(rest, second, false),
            _ => lemma_scoped_concat(rest, second, open),
        }
    }
}

/// Whatever text is printed, the requests keep to the discipline of
/// contexts: every context that is made is freed before the next is made,
/// and nothing is filled or written outside one.
pub proof fn law_text_scoped(at: Position, color: u32, text: Seq<char>)
    ensures
        text_layout(at, color, text) matches Some((_, ops)) ==> scoped(ops),
    decreases text.len(),
{
    if text.len() > 0 {
        let rest = text.subrange(1, text.len() as int);
        if text[0] == NEWLINE {
            law_text_scoped(next_row(at), color, rest);
        } else if text[0] == SPACE {
            law_text_scoped(next_column(at), color, rest);
        } else {
            law_text_scoped(next_column(at), color, rest);
            if let Some((_, later)) = text_layout(next_column(at), color, rest) {
                let glyph = glyph_ops(at, Printable { value: text[0], color });
                law_glyph_scoped(at, Printable { value: text[0], color });
                lemma_scoped_concat(glyph, later, false);
            }
        }
    }
}

/// Whether `text` holds no newline.
pub open spec fn one_line(text: Seq<char>) -> bool {
    forall|i: int| 0 <= i < text.len() ==> text[i] != NEWLINE
}

/// Text without a newline stays in its row, and moves the cursor right by
/// one column for each of its characters, drawn or not.
pub proof fn law_line_advances(at: Position, color: u32, text: Seq<char>)
    requires
        one_line(text),
    ensures
        text_layout(at, color, text) matches Some((end, _)) ==> end.row == at.row && end.col
            == at.col + text.len(),
    decreases text.len(),
{
    if text.len() > 0 {
        let rest = text.subrange(1, text.len() as int);
        assert forall|i: int| 0 <= i < rest.len() implies rest[i] != NEWLINE by {
            assert(rest[i] == text[i + 1]);
        }
        assert(text[0] != NEWLINE);
        law_line_advances(next_column(at), color, rest);
        if text[0] != SPACE && can_draw_at(at) {
            lemma_pixel_origin(at);
        }
    }
}

/// Whether `text` holds spaces only.
pub open spec fn all_spaces(text: Seq<char>) -> bool {
    forall|i: int| 0 <= i < text.len() ==> text[i] == SPACE
}

/// A run of spaces moves the cursor right by its length and draws nothing.
pub proof fn law_spaces_draw_nothing(at: Position, color: u32, text: Seq<char>)
    requires
        all_spaces(text),
        at.col + text.len() <= i16::MAX,
    ensures
        text_layout(at, color, text) == Some(
            (Position { col: (at.col + text.len()) as i16, row: at.row }, Seq::<DrawOp>::empty()),
        ),
    decreases text.len(),
{
    if text.len() > 0 {
        let rest = text.subrange(1, text.len() as int);
        assert forall|i: int| 0 <= i < rest.len() implies rest[i] == SPACE by {
            assert(rest[i] == text[i + 1]);
        }
        law_spaces_draw_nothing(next_column(at), color, rest);
    }
}

} // verus!
