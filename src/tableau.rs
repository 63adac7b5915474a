//! The tableau: the stable, the holy family and the magi, anchored at the
//! bottom centre of the terminal.
use vstd::prelude::*;
use crate::canvas::{
    group_ops,
    lemma_full_clears_concat,
    lemma_group_ops_no_clear,
    full_clears,
    on_screen,
    span,
    Canvas,
    ClearKind,
    Color,
    DrawOp,
    GlyphSpan,
};
use crate::scene::Scene;

verus! {

/// The narrowest terminal on which the tableau is drawn without the magi.
pub const MIN_WIDTH: u16 = 30;

/// The narrowest terminal on which the tableau is drawn with the magi, who
/// stand far to the right of the stable.
pub const MIN_WIDTH_WITH_MAGI: u16 = 84;

/// The lowest terminal on which the tableau is drawn.
pub const MIN_HEIGHT: u16 = 12;

/// The size of the terminal, in columns and rows.
#[derive(Clone, Copy, Debug, PartialEq, Eq, Structural)]
pub struct Dimensions {
    pub width: u16,
    pub height: u16,
}

/// The narrowest terminal on which the tableau of `scene` is drawn.
pub open spec fn min_width(scene: Scene) -> int {
    if scene == Scene::Epiphany {
        MIN_WIDTH_WITH_MAGI as int
    } else {
        MIN_WIDTH as int
    }
}

/// Whether the tableau of `scene` is drawn at `dims`; below this size a
/// message takes its place.
pub open spec fn fits(scene: Scene, dims: Dimensions) -> bool {
    dims.width >= min_width(scene) && dims.height >= MIN_HEIGHT
}

/// The narrowest terminal on which the tableau of `scene` is drawn.
pub fn required_width(scene: Scene) -> (r: u16)
    ensures
        r == min_width(scene),
{
    match scene {
        Scene::Epiphany => MIN_WIDTH_WITH_MAGI,
        _ => MIN_WIDTH,
    }
}

/// Whether the tableau of `scene` is drawn at `dims`.
pub fn tableau_fits(scene: Scene, dims: Dimensions) -> (r: bool)
    ensures
        r == fits(scene, dims),
{
    dims.width >= required_width(scene) && dims.height >= MIN_HEIGHT
}

/// The stable, its roof, its walls and the empty manger.
pub open spec fn spec_stable_manger() -> Seq<GlyphSpan> {
    seq![
        span(-2, -11, "./^\\.", Color::Brown),
        span(-5, -10, ".%%.", Color::Brown),
        span(2, -10, ".%%.", Color::Brown),
        span(-8, -9, ".%%.", Color::Brown),
        span(5, -9, ".%%.", Color::Brown),
        span(-11, -8, ".%%.", Color::Brown),
        span(8, -8, ".%%.", Color::Brown),
        span(-14, -7, ".%%.", Color::Brown),
        span(11, -7, ".%%.", Color::Brown),
        span(-13, -6, "##", Color::Brown),
        span(12, -6, "##", Color::Brown),
        span(-13, -5, "##", Color::Brown),
        span(12, -5, "##", Color::Brown),
        span(-13, -4, "##", Color::Brown),
        span(12, -4, "##", Color::Brown),
        span(-13, -3, "##", Color::Brown),
        span(12, -3, "##", Color::Brown),
        span(-13, -2, "##", Color::Brown),
        span(12, -2, "##", Color::Brown),
        span(-13, -1, "##", Color::Brown),
        span(12, -1, "##", Color::Brown),
        span(-2, -2, "\"\"\"\"\"", Color::Yellow),
        span(-3, -1, "/ \\ / \\", Color::Brown),
    ]
}

/// Mary on the left of the manger, Joseph with his staff on the right.
pub open spec fn spec_mary_joseph() -> Seq<GlyphSpan> {
    seq![
        span(-6, -4, ".@", Color::Blue),
        span(-6, -3, "%%#", Color::Blue),
        span(-6, -2, "%%", Color::Blue),
        span(-7, -1, "%%%", Color::Blue),
        span(5, -5, "?", Color::Brown),
        span(5, -4, "|", Color::Brown),
        span(5, -3, "|", Color::Brown),
        span(5, -2, "|", Color::Brown),
        span(5, -1, "|", Color::Brown),
        span(7, -5, "@", Color::Green),
        span(6, -4, "#%", Color::Green),
        span(7, -3, "%%%", Color::Green),
        span(7, -2, "%%%", Color::Green),
        span(8, -1, "%%%", Color::Green),
    ]
}

/// The infant, in the manger.
pub open spec fn spec_infant() -> Seq<GlyphSpan> {
    seq![
        span(-2, -3, "@##", Color::White),
    ]
}

/// The three magi and a camel, to the right of the stable.
pub open spec fn spec_magi() -> Seq<GlyphSpan> {
    seq![
        span(18, -6, "_     _     _", Color::Yellow),
        span(33, -6, "@   %", Color::Brown),
        span(18, -5, "@", Color::Red),
        span(24, -5, "@", Color::Purple),
        span(30, -5, "@", Color::Orange),
        span(34, -5, "#%%%%%%", Color::Brown),
        span(16, -4, "#", Color::Yellow),
        span(18, -4, "%%\\", Color::Red),
        span(22, -4, "^", Color::Green),
        span(34, -4, "#%%%%%%", Color::Brown),
        span(24, -4, "%%\\ o", Color::Purple),
        span(30, -4, "%%\\", Color::Orange),
        span(35, -4, "%%%%%%%%", Color::Brown),
        span(16, -3, "#", Color::Yellow),
        span(17, -3, "#%%%", Color::Red),
        span(22, -3, "#", Color::Green),
        span(23, -3, "#%%%", Color::Purple),
        span(28, -3, "#", Color::Purple),
        span(29, -3, "#%%%", Color::Orange),
        span(35, -3, "#%%%%=", Color::Brown),
        span(18, -2, "%%%", Color::Red),
        span(24, -2, "%%%", Color::Purple),
        span(30, -2, "%%%", Color::Orange),
        span(35, -2, "=    =", Color::Brown),
        span(18, -1, "%%%", Color::Red),
        span(24, -1, "%%%", Color::Purple),
        span(30, -1, "%%%", Color::Orange),
        span(34, -1, ".=   .=", Color::Brown),
    ]
}

/// The spans of the tableau for `scene`: the stable always, the holy family
/// from anticipation on, the infant from the nativity on, the magi at
/// epiphany.
pub open spec fn spec_tableau(scene: Scene) -> Seq<GlyphSpan> {
    spec_stable_manger() + (if scene.spec_id() >= 1 {
        spec_mary_joseph()
    } else {
        Seq::empty()
    }) + (if scene.spec_id() >= 2 {
        spec_infant()
    } else {
        Seq::empty()
    }) + (if scene.spec_id() == 3 {
        spec_magi()
    } else {
        Seq::empty()
    })
}

/// What is shown in place of the tableau on a terminal that is too small.
pub open spec fn too_small_ops() -> Seq<DrawOp> {
    seq![
        DrawOp::MoveTo { x: 1, y: 1 },
        DrawOp::Print { text: "terminal too small", color: Color::White },
    ]
}

/// The full redraw of `scene` at `dims`: the screen is cleared, then the
/// tableau is drawn centred on the middle column and standing on the bottom
/// row, or the message if the terminal is too small.
pub open spec fn scene_ops(scene: Scene, dims: Dimensions) -> Seq<DrawOp> {
    seq![DrawOp::Clear { kind: ClearKind::All }] + if fits(scene, dims) {
        group_ops(spec_tableau(scene), dims.width as int / 2, dims.height as int)
    } else {
        too_small_ops()
    }
}

/// The stable, its roof, its walls and the empty manger.
pub fn stable_manger_spans() -> (r: Vec<GlyphSpan>)
    ensures
        r@ == spec_stable_manger(),
{
    let r = vec![
        GlyphSpan { dx: -2, dy: -11, text: "./^\\.", color: Color::Brown },
        GlyphSpan { dx: -5, dy: -10, text: ".%%.", color: Color::Brown },
        GlyphSpan { dx: 2, dy: -10, text: ".%%.", color: Color::Brown },
        GlyphSpan { dx: -8, dy: -9, text: ".%%.", color: Color::Brown },
        GlyphSpan { dx: 5, dy: -9, text: ".%%.", color: Color::Brown },
        GlyphSpan { dx: -11, dy: -8, text: ".%%.", color: Color::Brown },
        GlyphSpan { dx: 8, dy: -8, text: ".%%.", color: Color::Brown },
        GlyphSpan { dx: -14, dy: -7, text: ".%%.", color: Color::Brown },
        GlyphSpan { dx: 11, dy: -7, text: ".%%.", color: Color::Brown },
        GlyphSpan { dx: -13, dy: -6, text: "##", color: Color::Brown },
        GlyphSpan { dx: 12, dy: -6, text: "##", color: Color::Brown },
        GlyphSpan { dx: -13, dy: -5, text: "##", color: Color::Brown },
        GlyphSpan { dx: 12, dy: -5, text: "##", color: Color::Brown },
        GlyphSpan { dx: -13, dy: -4, text: "##", color: Color::Brown },
        GlyphSpan { dx: 12, dy: -4, text: "##", color: Color::Brown },
        GlyphSpan { dx: -13, dy: -3, text: "##", color: Color::Brown },
        GlyphSpan { dx: 12, dy: -3, text: "##", color: Color::Brown },
        GlyphSpan { dx: -13, dy: -2, text: "##", color: Color::Brown },
        GlyphSpan { dx: 12, dy: -2, text: "##", color: Color::Brown },
        GlyphSpan { dx: -13, dy: -1, text: "##", color: Color::Brown },
        GlyphSpan { dx: 12, dy: -1, text: "##", color: Color::Brown },
        GlyphSpan { dx: -2, dy: -2, text: "\"\"\"\"\"", color: Color::Yellow },
        GlyphSpan { dx: -3, dy: -1, text: "/ \\ / \\", color: Color::Brown },
    ];
    assert(r@ =~= spec_stable_manger());
    r
}

/// Mary on the left of the manger, Joseph with his staff on the right.
pub fn mary_joseph_spans() -> (r: Vec<GlyphSpan>)
    ensures
        r@ == spec_mary_joseph(),
{
    let r = vec![
        GlyphSpan { dx: -6, dy: -4, text: ".@", color: Color::Blue },
        GlyphSpan { dx: -6, dy: -3, text: "%%#", color: Color::Blue },
        GlyphSpan { dx: -6, dy: -2, text: "%%", color: Color::Blue },
        GlyphSpan { dx: -7, dy: -1, text: "%%%", color: Color::Blue },
        GlyphSpan { dx: 5, dy: -5, text: "?", color: Color::Brown },
        GlyphSpan { dx: 5, dy: -4, text: "|", color: Color::Brown },
        GlyphSpan { dx: 5, dy: -3, text: "|", color: Color::Brown },
        GlyphSpan { dx: 5, dy: -2, text: "|", color: Color::Brown },
        GlyphSpan { dx: 5, dy: -1, text: "|", color: Color::Brown },
        GlyphSpan { dx: 7, dy: -5, text: "@", color: Color::Green },
        GlyphSpan { dx: 6, dy: -4, text: "#%", color: Color::Green },
        GlyphSpan { dx: 7, dy: -3, text: "%%%", color: Color::Green },
        GlyphSpan { dx: 7, dy: -2, text: "%%%", color: Color::Green },
        GlyphSpan { dx: 8, dy: -1, text: "%%%", color: Color::Green },
    ];
    assert(r@ =~= spec_mary_joseph());
    r
}

/// The infant, in the manger.
pub fn infant_spans() -> (r: Vec<GlyphSpan>)
    ensures
        r@ == spec_infant(),
{
    let r = vec![
        GlyphSpan { dx: -2, dy: -3, text: "@##", color: Color::White },
    ];
    assert(r@ =~= spec_infant());
    r
}

/// The three magi and a camel, to the right of the stable.
pub fn magi_spans() -> (r: Vec<GlyphSpan>)
    ensures
        r@ == spec_magi(),
{
    let r = vec![
        GlyphSpan { dx: 18, dy: -6, text: "_     _     _", color: Color::Yellow },
        GlyphSpan { dx: 33, dy: -6, text: "@   %", color: Color::Brown },
        GlyphSpan { dx: 18, dy: -5, text: "@", color: Color::Red },
        GlyphSpan { dx: 24, dy: -5, text: "@", color: Color::Purple },
        GlyphSpan { dx: 30, dy: -5, text: "@", color: Color::Orange },
        GlyphSpan { dx: 34, dy: -5, text: "#%%%%%%", color: Color::Brown },
        GlyphSpan { dx: 16, dy: -4, text: "#", color: Color::Yellow },
        GlyphSpan { dx: 18, dy: -4, text: "%%\\", color: Color::Red },
        GlyphSpan { dx: 22, dy: -4, text: "^", color: Color::Green },
        GlyphSpan { dx: 34, dy: -4, text: "#%%%%%%", color: Color::Brown },
        GlyphSpan { dx: 24, dy: -4, text: "%%\\ o", color: Color::Purple },
        GlyphSpan { dx: 30, dy: -4, text: "%%\\", color: Color::Orange },
        GlyphSpan { dx: 35, dy: -4, text: "%%%%%%%%", color: Color::Brown },
        GlyphSpan { dx: 16, dy: -3, text: "#", color: Color::Yellow },
        GlyphSpan { dx: 17, dy: -3, text: "#%%%", color: Color::Red },
        GlyphSpan { dx: 22, dy: -3, text: "#", color: Color::Green },
        GlyphSpan { dx: 23, dy: -3, text: "#%%%", color: Color::Purple },
        GlyphSpan { dx: 28, dy: -3, text: "#", color: Color::Purple },
        GlyphSpan { dx: 29, dy: -3, text: "#%%%", color: Color::Orange },
        GlyphSpan { dx: 35, dy: -3, text: "#%%%%=", color: Color::Brown },
        GlyphSpan { dx: 18, dy: -2, text: "%%%", color: Color::Red },
        GlyphSpan { dx: 24, dy: -2, text: "%%%", color: Color::Purple },
        GlyphSpan { dx: 30, dy: -2, text: "%%%", color: Color::Orange },
        GlyphSpan { dx: 35, dy: -2, text: "=    =", color: Color::Brown },
        GlyphSpan { dx: 18, dy: -1, text: "%%%", color: Color::Red },
        GlyphSpan { dx: 24, dy: -1, text: "%%%", color: Color::Purple },
        GlyphSpan { dx: 30, dy: -1, text: "%%%", color: Color::Orange },
        GlyphSpan { dx: 34, dy: -1, text: ".=   .=", color: Color::Brown },
    ];
    assert(r@ =~= spec_magi());
    r
}

/// Whether every span of `spans` stands at most `left` columns left of the
/// anchor, at most `up` rows above it and above its row, and ends before
/// column `right` from it.
pub open spec fn spans_within(spans: Seq<GlyphSpan>, left: int, up: int, right: int) -> bool {
    forall|i: int|
        0 <= i < spans.len() ==> {
            &&& #[trigger] spans[i].dx >= -left
            &&& spans[i].dy >= -up
            &&& spans[i].dy <= -1
            &&& spans[i].dx + spans[i].text@.len() <= right
        }
}

proof fn lemma_groups_within()
    ensures
        spans_within(spec_stable_manger(), 14, 11, 15),
        spans_within(spec_mary_joseph(), 14, 11, 15),
        spans_within(spec_infant(), 14, 11, 15),
        spans_within(spec_magi(), 14, 11, 43),
{
    reveal_strlit("\"\"\"\"\"");
    reveal_strlit("#");
    reveal_strlit("##");
    reveal_strlit("#%");
    reveal_strlit("#%%%");
    reveal_strlit("#%%%%%%");
    reveal_strlit("#%%%%=");
    reveal_strlit("%%");
    reveal_strlit("%%#");
    reveal_strlit("%%%");
    reveal_strlit("%%%%%%%%");
    reveal_strlit("%%\\");
    reveal_strlit("%%\\ o");
    reveal_strlit(".%%.");
    reveal_strlit("./^\\.");
    reveal_strlit(".=   .=");
    reveal_strlit(".@");
    reveal_strlit("/ \\ / \\");
    reveal_strlit("=    =");
    reveal_strlit("?");
    reveal_strlit("@");
    reveal_strlit("@   %");
    reveal_strlit("@##");
    reveal_strlit("^");
    reveal_strlit("_     _     _");
    reveal_strlit("|");
}

proof fn lemma_widen_within(a: Seq<GlyphSpan>, left: int, up: int, right: int, wider: int)
    requires
        spans_within(a, left, up, right),
        right <= wider,
    ensures
        spans_within(a, left, up, wider),
{
    assert forall|i: int| 0 <= i < a.len() implies #[trigger] a[i].dx >= -left && a[i].dy >= -up
        && a[i].dy <= -1 && a[i].dx + a[i].text@.len() <= wider by {
        assert(a[i].dx >= -left);
    }
}

proof fn lemma_concat_within(a: Seq<GlyphSpan>, b: Seq<GlyphSpan>, left: int, up: int, right: int)
    requires
        spans_within(a, left, up, right),
        spans_within(b, left, up, right),
    ensures
        spans_within(a + b, left, up, right),
{
    assert forall|i: int| 0 <= i < (a + b).len() implies #[trigger] (a + b)[i].dx >= -left && (
    a + b)[i].dy >= -up && (a + b)[i].dy <= -1 && (a + b)[i].dx + (a + b)[i].text@.len()
        <= right by {
        if i >= a.len() {
            assert((a + b)[i] == b[i - a.len()]);
            assert(b[i - a.len()].dx >= -left);
        } else {
            assert((a + b)[i] == a[i]);
            assert(a[i].dx >= -left);
        }
    }
}

/// On a terminal of at least the size that `scene` needs, the tableau
/// needs no clamping and stays on the screen: every span starts at a column
/// and a row of at least 1, its last character stands at most at the last
/// column, and its row is above the bottom one.
pub proof fn lemma_tableau_fits(scene: Scene, dims: Dimensions)
    requires
        fits(scene, dims),
    ensures
        forall|i: int|
            0 <= i < spec_tableau(scene).len() ==> {
                let s = #[trigger] spec_tableau(scene)[i];
                &&& dims.width as int / 2 + s.dx >= 1
                &&& dims.width as int / 2 + s.dx + s.text@.len() - 1 <= dims.width
                &&& 1 <= dims.height + s.dy < dims.height
            },
{
    lemma_groups_within();
    let right = if scene == Scene::Epiphany { 43int } else { 15int };
    let e = Seq::<GlyphSpan>::empty();
    assert(spans_within(e, 14, 11, right));
    lemma_widen_within(spec_stable_manger(), 14, 11, 15, right);
    lemma_widen_within(spec_mary_joseph(), 14, 11, 15, right);
    lemma_widen_within(spec_infant(), 14, 11, 15, right);
    let t = spec_tableau(scene);
    let a = spec_stable_manger();
    let b = if scene.spec_id() >= 1 { spec_mary_joseph() } else { e };
    let c = if scene.spec_id() >= 2 { spec_infant() } else { e };
    let d = if scene.spec_id() == 3 { spec_magi() } else { e };
    lemma_concat_within(a, b, 14, 11, right);
    lemma_concat_within(a + b, c, 14, 11, right);
    lemma_concat_within(a + b + c, d, 14, 11, right);
    assert(t == a + b + c + d);
    assert forall|i: int| 0 <= i < t.len() implies {
        let s = #[trigger] t[i];
        &&& dims.width as int / 2 + s.dx >= 1
        &&& dims.width as int / 2 + s.dx + s.text@.len() - 1 <= dims.width
        &&& 1 <= dims.height + s.dy < dims.height
    } by {
        assert(t[i].dx >= -14);
    }
}

/// Every move of a full redraw, at any size, goes to a column and a row of
/// at least 1, and a full redraw clears the whole screen exactly once.
pub proof fn lemma_scene_ops_on_screen(scene: Scene, dims: Dimensions)
    ensures
        forall|i: int|
            0 <= i < scene_ops(scene, dims).len() ==> on_screen(#[trigger] scene_ops(scene, dims)[i]),
        full_clears(scene_ops(scene, dims)) == 1,
{
    let head = seq![DrawOp::Clear { kind: ClearKind::All }];
    let body = if fits(scene, dims) {
        group_ops(spec_tableau(scene), dims.width as int / 2, dims.height as int)
    } else {
        too_small_ops()
    };
    lemma_group_ops_no_clear(spec_tableau(scene), dims.width as int / 2, dims.height as int);
    lemma_full_clears_concat(head, body);
    assert(full_clears(head) == 1) by {
        reveal_with_fuel(full_clears, 2);
        assert(head.drop_last() =~= Seq::<DrawOp>::empty());
    }
    assert(full_clears(too_small_ops()) == 0) by {
        reveal_with_fuel(full_clears, 3);
        assert(too_small_ops().drop_last() =~= seq![too_small_ops()[0]]);
        assert(seq![too_small_ops()[0]].drop_last() =~= Seq::<DrawOp>::empty());
    }
    assert forall|i: int| 0 <= i < (head + body).len() implies on_screen(#[trigger] (head + body)[i]) by {
        if i >= 1 {
            assert((head + body)[i] == body[i - 1]);
        }
    }
}

/// Rendering is idempotent: two renders of the same scene at the same
/// dimensions, each on a canvas holding the same stream, leave identical
/// streams.
pub proof fn lemma_render_idempotent(
    scene: Scene,
    dims: Dimensions,
    before: Seq<DrawOp>,
    first: Seq<DrawOp>,
    second: Seq<DrawOp>,
)
    requires
        first == before + scene_ops(scene, dims),
        second == before + scene_ops(scene, dims),
    ensures
        first == second,
        first.len() == before.len() + scene_ops(scene, dims).len(),
{
}

/// The spans of the tableau for `scene`.
pub fn tableau_spans(scene: Scene) -> (r: Vec<GlyphSpan>)
    ensures
        r@ == spec_tableau(scene),
{
    let mut r = stable_manger_spans();
    let id = scene.id();
    let mut mj = if id >= 1 { mary_joseph_spans() } else { Vec::new() };
    r.append(&mut mj);
    let mut inf = if id >= 2 { infant_spans() } else { Vec::new() };
    r.append(&mut inf);
    let mut mg = if id == 3 { magi_spans() } else { Vec::new() };
    r.append(&mut mg);
    assert(r@ =~= spec_tableau(scene));
    r
}

/// Draws the full redraw of `scene` at `dims` on `canvas`.
pub fn render(canvas: &mut Canvas, scene: Scene, dims: Dimensions)
    ensures
        final(canvas)@ == old(canvas)@ + scene_ops(scene, dims),
{
    canvas.clear(ClearKind::All);
    if tableau_fits(scene, dims) {
        let spans = tableau_spans(scene);
        canvas.draw_group(&spans, (dims.width / 2) as i64, dims.height as i64);
    } else {
        canvas.move_to(1, 1);
        canvas.print_styled("terminal too small", Color::White);
    }
    assert(final(canvas)@ =~= old(canvas)@ + scene_ops(scene, dims));
}

} // verus!
