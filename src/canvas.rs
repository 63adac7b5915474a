//! A canvas that records drawing operations, and glyph groups placed on it.
use vstd::prelude::*;

verus! {

/// The colours of the tableau.
#[derive(Clone, Copy, Debug, PartialEq, Eq, Structural)]
pub enum Color {
    White,
    Yellow,
    Red,
    Green,
    Blue,
    Brown,
    Purple,
    Orange,
}

/// What part of the screen a clear operation wipes.
#[derive(Clone, Copy, Debug, PartialEq, Eq, Structural)]
pub enum ClearKind {
    /// The whole screen.
    All,
    /// Every cell from the cursor up to the top left corner.
    AboveCursor,
    /// The line that the cursor stands on.
    CurrentLine,
}

/// One operation on the terminal. Coordinates count from 1.
#[derive(Clone, Copy, Debug, PartialEq, Eq)]
pub enum DrawOp {
    MoveTo { x: u16, y: u16 },
    Print { text: &'static str, color: Color },
    Clear { kind: ClearKind },
}

/// One positioned, coloured piece of text: its place is given relative to
/// an anchor point.
#[derive(Clone, Copy, Debug, PartialEq, Eq)]
pub struct GlyphSpan {
    pub dx: i32,
    pub dy: i32,
    pub text: &'static str,
    pub color: Color,
}

/// The span at (`dx`, `dy`) from the anchor.
pub open spec fn span(dx: int, dy: int, text: &'static str, color: Color) -> GlyphSpan {
    GlyphSpan { dx: dx as i32, dy: dy as i32, text, color }
}

/// The largest coordinate that a terminal can address.
pub const MAX_COORD: i64 = 65535;

/// `v` brought into the coordinates a terminal can address, 1 to `MAX_COORD`.
pub open spec fn spec_clamp(v: int) -> int {
    if v < 1 {
        1
    } else if v > MAX_COORD {
        MAX_COORD as int
    } else {
        v
    }
}

/// `v` brought into the coordinates a terminal can address, 1 to `MAX_COORD`.
pub fn clamp_coord(v: i64) -> (r: u16)
    ensures
        r == spec_clamp(v as int),
        r >= 1,
{
    if v < 1 {
        1
    } else if v > MAX_COORD {
        65535
    } else {
        v as u16
    }
}

/// The operations that draw `s` with the anchor at (`ax`, `ay`): a move to
/// its clamped place, then the text.
pub open spec fn span_ops(s: GlyphSpan, ax: int, ay: int) -> Seq<DrawOp> {
    seq![
        DrawOp::MoveTo {
            x: spec_clamp(ax + s.dx) as u16,
            y: spec_clamp(ay + s.dy) as u16,
        },
        DrawOp::Print { text: s.text, color: s.color },
    ]
}

/// The operations that draw each span of `spans` in turn.
pub open spec fn group_ops(spans: Seq<GlyphSpan>, ax: int, ay: int) -> Seq<DrawOp>
    decreases spans.len(),
{
    if spans.len() == 0 {
        Seq::empty()
    } else {
        group_ops(spans.drop_last(), ax, ay) + span_ops(spans.last(), ax, ay)
    }
}

/// Whether `op` is a move to a place with both coordinates at least 1.
pub open spec fn on_screen(op: DrawOp) -> bool {
    op matches DrawOp::MoveTo { x, y } ==> x >= 1 && y >= 1
}

/// Whether `op` wipes the whole screen.
pub open spec fn is_full_clear(op: DrawOp) -> bool {
    op == DrawOp::Clear { kind: ClearKind::All }
}

/// The number of operations in `ops` that wipe the whole screen.
pub open spec fn full_clears(ops: Seq<DrawOp>) -> nat
    decreases ops.len(),
{
    if ops.len() == 0 {
        0
    } else {
        full_clears(ops.drop_last()) + if is_full_clear(ops.last()) { 1nat } else { 0nat }
    }
}

pub proof fn lemma_full_clears_concat(a: Seq<DrawOp>, b: Seq<DrawOp>)
    ensures
        full_clears(a + b) == full_clears(a) + full_clears(b),
    decreases b.len(),
{
    if b.len() == 0 {
        assert(a + b =~= a);
    } else {
        lemma_full_clears_concat(a, b.drop_last());
        assert((a + b).drop_last() =~= a + b.drop_last());
    }
}

/// A glyph group moves and prints, and never clears.
pub proof fn lemma_group_ops_no_clear(spans: Seq<GlyphSpan>, ax: int, ay: int)
    ensures
        full_clears(group_ops(spans, ax, ay)) == 0,
        forall|i: int|
            0 <= i < group_ops(spans, ax, ay).len() ==> on_screen(
                #[trigger] group_ops(spans, ax, ay)[i],
            ),
    decreases spans.len(),
{
    if spans.len() > 0 {
        lemma_group_ops_no_clear(spans.drop_last(), ax, ay);
        let s = spans.last();
        lemma_full_clears_concat(group_ops(spans.drop_last(), ax, ay), span_ops(s, ax, ay));
        assert(full_clears(span_ops(s, ax, ay)) == 0) by {
            reveal_with_fuel(full_clears, 3);
            assert(span_ops(s, ax, ay).drop_last() =~= seq![span_ops(s, ax, ay)[0]]);
            assert(seq![span_ops(s, ax, ay)[0]].drop_last() =~= Seq::<DrawOp>::empty());
        }
    }
}

/// A recorder of drawing operations, in the order they are issued. The
/// caller carries them out on the terminal.
pub struct Canvas {
    ops: Vec<DrawOp>,
}

impl View for Canvas {
    type V = Seq<DrawOp>;

    closed spec fn view(&self) -> Seq<DrawOp> {
        self.ops@
    }
}

impl Canvas {
    /// A canvas with nothing recorded.
    pub fn new() -> (r: Canvas)
        ensures
            r@ == Seq::<DrawOp>::empty(),
    {
        Canvas { ops: Vec::new() }
    }

    /// Moves the cursor to column `x`, row `y`.
    pub fn move_to(&mut self, x: u16, y: u16)
        ensures
            final(self)@ == old(self)@.push(DrawOp::MoveTo { x, y }),
    {
        self.ops.push(DrawOp::MoveTo { x, y });
    }

    /// Prints `text` in `color` at the cursor.
    pub fn print_styled(&mut self, text: &'static str, color: Color)
        ensures
            final(self)@ == old(self)@.push(DrawOp::Print { text, color }),
    {
        self.ops.push(DrawOp::Print { text, color });
    }

    /// Wipes the part of the screen that `kind` names.
    pub fn clear(&mut self, kind: ClearKind)
        ensures
            final(self)@ == old(self)@.push(DrawOp::Clear { kind }),
    {
        self.ops.push(DrawOp::Clear { kind });
    }

    /// The number of operations recorded.
    pub fn len(&self) -> (r: usize)
        ensures
            r == self@.len(),
    {
        self.ops.len()
    }

    /// Hands out the operations recorded, in order, and leaves the canvas empty.
    pub fn take_ops(&mut self) -> (r: Vec<DrawOp>)
        ensures
            r@ == old(self)@,
            final(self)@ == Seq::<DrawOp>::empty(),
    {
        let mut out: Vec<DrawOp> = Vec::new();
        std::mem::swap(&mut self.ops, &mut out);
        out
    }

    /// Draws `s` with the anchor at (`ax`, `ay`), its place clamped to the
    /// coordinates a terminal can address.
    pub fn draw_span(&mut self, s: &GlyphSpan, ax: i64, ay: i64)
        requires
            -65536 <= ax <= 65536,
            -65536 <= ay <= 65536,
        ensures
            final(self)@ == old(self)@ + span_ops(*s, ax as int, ay as int),
    {
        let x = clamp_coord(ax + s.dx as i64);
        let y = clamp_coord(ay + s.dy as i64);
        self.move_to(x, y);
        self.print_styled(s.text, s.color);
        assert(final(self)@ =~= old(self)@ + span_ops(*s, ax as int, ay as int));
    }

    /// Draws each span of `spans` in turn with the anchor at (`ax`, `ay`).
    pub fn draw_group(&mut self, spans: &Vec<GlyphSpan>, ax: i64, ay: i64)
        requires
            -65536 <= ax <= 65536,
            -65536 <= ay <= 65536,
        ensures
            final(self)@ == old(self)@ + group_ops(spans@, ax as int, ay as int),
    {
        let ghost start = self@;
        let mut i: usize = 0;
        while i < spans.len()
            invariant
                i <= spans@.len(),
                -65536 <= ax <= 65536,
                -65536 <= ay <= 65536,
                self@ == start + group_ops(spans@.take(i as int), ax as int, ay as int),
            decreases spans@.len() - i,
        {
            self.draw_span(&spans[i], ax, ay);
            proof {
                assert(spans@.take(i + 1).drop_last() =~= spans@.take(i as int));
                assert(self@ =~= start + group_ops(spans@.take(i + 1), ax as int, ay as int));
            }
            i = i + 1;
        }
        assert(spans@.take(i as int) =~= spans@);
    }
}

} // verus!
