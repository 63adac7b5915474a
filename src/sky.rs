//! The sky band: a flickering star field, the star of Bethlehem and its
//! pulsing rays.
use vstd::prelude::*;
use crate::canvas::{
    full_clears,
    group_ops,
    lemma_full_clears_concat,
    lemma_group_ops_no_clear,
    spec_clamp,
    span,
    Canvas,
    ClearKind,
    Color,
    DrawOp,
    GlyphSpan,
};
use crate::scene::Scene;

verus! {

/// How many stars the field holds on each tick.
pub const STAR_COUNT: usize = 9;

/// The row above which the sky is wiped on each tick.
pub const SKY_ROWS: u16 = 4;

/// Relies on rand's `rng`, the thread's generator, and on `Rng::random_range`,
/// which draws a value in `low..high` and panics only on an empty range.
#[verifier::external_body]
fn random_between(low: u16, high: u16) -> (r: u16)
    requires
        low < high,
    ensures
        low <= r < high,
{
    rand::Rng::random_range(&mut rand::rng(), low..high)
}

/// Whether `stars` is a star field for a terminal `width` columns wide:
/// nine stars, each at a column from 1 to `width - 2` and a row from 1 to 3,
/// or none at all on a terminal narrower than 3 columns.
pub open spec fn is_star_field(stars: Seq<(u16, u16)>, width: int) -> bool {
    &&& stars.len() == (if width >= 3 { STAR_COUNT as int } else { 0 })
    &&& forall|i: int|
        0 <= i < stars.len() ==> 1 <= (#[trigger] stars[i]).0 < width - 1 && 1 <= stars[i].1
            < SKY_ROWS
}

/// A fresh star field, each star at a random place of the sky band.
pub fn random_stars(width: u16) -> (r: Vec<(u16, u16)>)
    ensures
        is_star_field(r@, width as int),
{
    let mut r: Vec<(u16, u16)> = Vec::new();
    if width < 3 {
        return r;
    }
    let mut i: usize = 0;
    while i < STAR_COUNT
        invariant
            width >= 3,
            i <= STAR_COUNT,
            r@.len() == i,
            forall|k: int|
                0 <= k < r@.len() ==> 1 <= (#[trigger] r@[k]).0 < width - 1 && 1 <= r@[k].1
                    < SKY_ROWS,
        decreases STAR_COUNT - i,
    {
        let x = random_between(1, width - 1);
        let y = random_between(1, SKY_ROWS);
        r.push((x, y));
        i = i + 1;
    }
    r
}

/// The stars of `stars` as spans, at their own places from the corner.
pub open spec fn star_spans(stars: Seq<(u16, u16)>) -> Seq<GlyphSpan> {
    stars.map_values(|p: (u16, u16)| span(p.0 as int, p.1 as int, "*", Color::White))
}

/// The star of Bethlehem, its top at row 1: a slanting line of three stars
/// out of season, a small halo in anticipation, a double halo after.
pub open spec fn spec_star_glyph(scene: Scene) -> Seq<GlyphSpan> {
    match scene {
        Scene::OutOfSeason => seq![
            span(2, 1, "*", Color::Yellow),
            span(0, 2, "*", Color::Yellow),
            span(-2, 3, "*", Color::Yellow),
        ],
        Scene::Anticipation => seq![
            span(0, 1, ".", Color::Yellow),
            span(-2, 2, ". * .", Color::Yellow),
            span(0, 3, ".", Color::Yellow),
        ],
        _ => seq![
            span(0, 1, ":", Color::Yellow),
            span(-3, 2, ".. * ..", Color::Yellow),
            span(0, 3, ":", Color::Yellow),
        ],
    }
}

/// The rays below the star at `phase` (1 to 3): a `/`, a `|` and a `\`,
/// `phase` rows below the sky band and spreading by a column a phase.
pub open spec fn spec_ray_spans(phase: int) -> Seq<GlyphSpan> {
    seq![
        span(-1 - phase, 4 + phase, "/", Color::Yellow),
        span(0, 4 + phase, "|", Color::Yellow),
        span(1 + phase, 4 + phase, "\\", Color::Yellow),
    ]
}

/// The wipe of the three rows that the rays take.
pub open spec fn clear_ray_ops() -> Seq<DrawOp> {
    seq![
        DrawOp::MoveTo { x: 1, y: 5 },
        DrawOp::Clear { kind: ClearKind::CurrentLine },
        DrawOp::MoveTo { x: 1, y: 6 },
        DrawOp::Clear { kind: ClearKind::CurrentLine },
        DrawOp::MoveTo { x: 1, y: 7 },
        DrawOp::Clear { kind: ClearKind::CurrentLine },
    ]
}

/// The rays drawn at `phase` below the star centred on column `center`.
pub open spec fn draw_ray_ops(center: int, phase: int) -> Seq<DrawOp> {
    group_ops(spec_ray_spans(phase), center, 0)
}

/// The ray pulse at `phase`: phase 0 wipes the rays, the others draw them.
pub open spec fn ray_ops(center: int, phase: int) -> Seq<DrawOp> {
    if phase == 0 {
        clear_ray_ops()
    } else {
        draw_ray_ops(center, phase)
    }
}

/// The wipe of the sky band, from its bottom right corner up.
pub open spec fn clear_sky_ops(width: int) -> Seq<DrawOp> {
    seq![
        DrawOp::MoveTo { x: spec_clamp(width) as u16, y: SKY_ROWS },
        DrawOp::Clear { kind: ClearKind::AboveCursor },
    ]
}

/// What a tick draws before the rays: the sky wiped, the stars, the star
/// of Bethlehem for `scene` centred on the middle column.
pub open spec fn sky_base_ops(scene: Scene, width: int, stars: Seq<(u16, u16)>) -> Seq<DrawOp> {
    clear_sky_ops(width) + group_ops(star_spans(stars), 0, 0) + group_ops(
        spec_star_glyph(scene),
        width / 2,
        0,
    )
}

/// One tick of the sky: the base, then from the nativity on the ray pulse
/// at `phase`.
pub open spec fn sky_ops(scene: Scene, width: int, phase: int, stars: Seq<(u16, u16)>) -> Seq<
    DrawOp,
> {
    sky_base_ops(scene, width, stars) + if scene.spec_id() > 1 {
        ray_ops(width / 2, phase)
    } else {
        Seq::empty()
    }
}

/// The phase of the tick after one at `phase`.
pub open spec fn next_phase(phase: int) -> int {
    (phase + 1) % 4
}

/// The ray pulse has period four: from any phase, the next four ticks of a
/// scene past anticipation run through every phase once and come back; the
/// one tick at phase 0 wipes the rays, and the other three, at phases 1 to 3,
/// draw them.
pub proof fn lemma_ray_pulse_period(
    scene: Scene,
    width: int,
    phase: int,
    stars: Seq<(u16, u16)>,
)
    requires
        scene.spec_id() > 1,
        0 <= phase < 4,
    ensures
        next_phase(next_phase(next_phase(next_phase(phase)))) == phase,
        set![
            next_phase(phase),
            next_phase(next_phase(phase)),
            next_phase(next_phase(next_phase(phase))),
            next_phase(next_phase(next_phase(next_phase(phase)))),
        ] == set![0int, 1int, 2int, 3int],
        forall|p: int|
            0 <= p < 4 ==> #[trigger] sky_ops(scene, width, p, stars) == sky_base_ops(
                scene,
                width,
                stars,
            ) + if p == 0 {
                clear_ray_ops()
            } else {
                draw_ray_ops(width / 2, p)
            },
        forall|p: int| 1 <= p < 4 ==> #[trigger] draw_ray_ops(width / 2, p) != clear_ray_ops(),
{
    let p1 = next_phase(phase);
    let p2 = next_phase(p1);
    let p3 = next_phase(p2);
    let p4 = next_phase(p3);
    assert(set![p1, p2, p3, p4] =~= set![0int, 1int, 2int, 3int]);
    assert forall|p: int| 1 <= p < 4 implies #[trigger] draw_ray_ops(width / 2, p)
        != clear_ray_ops() by {
        reveal_with_fuel(group_ops, 4);
        let s = spec_ray_spans(p);
        assert(s.drop_last().drop_last().drop_last() =~= Seq::<GlyphSpan>::empty());
        let d = draw_ray_ops(width / 2, p);
        assert(d.len() == 6);
        assert(d[1] == DrawOp::Print { text: "/", color: Color::Yellow });
        assert(d[1] != clear_ray_ops()[1]);
    }
}

/// A tick of the sky wipes part of the screen at most, never all of it.
pub proof fn lemma_sky_ops_no_full_clear(
    scene: Scene,
    width: int,
    phase: int,
    stars: Seq<(u16, u16)>,
)
    ensures
        full_clears(sky_ops(scene, width, phase, stars)) == 0,
{
    let w = clear_sky_ops(width);
    let st = group_ops(star_spans(stars), 0, 0);
    let g = group_ops(spec_star_glyph(scene), width / 2, 0);
    let r = if scene.spec_id() > 1 {
        ray_ops(width / 2, phase)
    } else {
        Seq::empty()
    };
    lemma_group_ops_no_clear(star_spans(stars), 0, 0);
    lemma_group_ops_no_clear(spec_star_glyph(scene), width / 2, 0);
    lemma_group_ops_no_clear(spec_ray_spans(phase), width / 2, 0);
    assert(full_clears(w) == 0) by {
        reveal_with_fuel(full_clears, 3);
        assert(w.drop_last() =~= seq![w[0]]);
        assert(seq![w[0]].drop_last() =~= Seq::<DrawOp>::empty());
    }
    assert(full_clears(clear_ray_ops()) == 0) by {
        let c = clear_ray_ops();
        reveal_with_fuel(full_clears, 7);
        assert(c.drop_last() =~= c.take(5));
        assert(c.take(5).drop_last() =~= c.take(4));
        assert(c.take(4).drop_last() =~= c.take(3));
        assert(c.take(3).drop_last() =~= c.take(2));
        assert(c.take(2).drop_last() =~= c.take(1));
        assert(c.take(1).drop_last() =~= Seq::<DrawOp>::empty());
    }
    assert(full_clears(Seq::<DrawOp>::empty()) == 0);
    lemma_full_clears_concat(w, st);
    lemma_full_clears_concat(w + st, g);
    lemma_full_clears_concat(w + st + g, r);
}

/// The star of Bethlehem for `scene`.
pub fn star_glyph_spans(scene: Scene) -> (r: Vec<GlyphSpan>)
    ensures
        r@ == spec_star_glyph(scene),
{
    let r = match scene {
        Scene::OutOfSeason => vec![
            GlyphSpan { dx: 2, dy: 1, text: "*", color: Color::Yellow },
            GlyphSpan { dx: 0, dy: 2, text: "*", color: Color::Yellow },
            GlyphSpan { dx: -2, dy: 3, text: "*", color: Color::Yellow },
        ],
        Scene::Anticipation => vec![
            GlyphSpan { dx: 0, dy: 1, text: ".", color: Color::Yellow },
            GlyphSpan { dx: -2, dy: 2, text: ". * .", color: Color::Yellow },
            GlyphSpan { dx: 0, dy: 3, text: ".", color: Color::Yellow },
        ],
        _ => vec![
            GlyphSpan { dx: 0, dy: 1, text: ":", color: Color::Yellow },
            GlyphSpan { dx: -3, dy: 2, text: ".. * ..", color: Color::Yellow },
            GlyphSpan { dx: 0, dy: 3, text: ":", color: Color::Yellow },
        ],
    };
    assert(r@ =~= spec_star_glyph(scene));
    r
}

/// The rays at `phase`.
pub fn ray_spans(phase: u8) -> (r: Vec<GlyphSpan>)
    requires
        phase < 4,
    ensures
        r@ == spec_ray_spans(phase as int),
{
    let p = phase as i32;
    let left: i32 = 0 - 1 - p;
    let right: i32 = 1 + p;
    let row: i32 = 4 + p;
    let r = vec![
        GlyphSpan { dx: left, dy: row, text: "/", color: Color::Yellow },
        GlyphSpan { dx: 0, dy: row, text: "|", color: Color::Yellow },
        GlyphSpan { dx: right, dy: row, text: "\\", color: Color::Yellow },
    ];
    assert(r@ =~= spec_ray_spans(phase as int));
    r
}

/// Draws one tick of the sky for `scene` on a terminal `width` columns
/// wide, with the stars at `stars` and the ray pulse at `phase`.
pub fn sky_tick(
    canvas: &mut Canvas,
    scene: Scene,
    width: u16,
    phase: u8,
    stars: &Vec<(u16, u16)>,
)
    requires
        phase < 4,
    ensures
        final(canvas)@ == old(canvas)@ + sky_ops(scene, width as int, phase as int, stars@),
{
    canvas.move_to(if width < 1 { 1 } else { width }, SKY_ROWS);
    canvas.clear(ClearKind::AboveCursor);
    let ghost after_wipe = canvas@;
    assert(after_wipe =~= old(canvas)@ + clear_sky_ops(width as int));

    let mut spans: Vec<GlyphSpan> = Vec::new();
    let mut i: usize = 0;
    while i < stars.len()
        invariant
            i <= stars@.len(),
            spans@ == star_spans(stars@.take(i as int)),
        decreases stars@.len() - i,
    {
        let (x, y) = stars[i];
        spans.push(GlyphSpan { dx: x as i32, dy: y as i32, text: "*", color: Color::White });
        assert(spans@ =~= star_spans(stars@.take(i + 1)));
        i = i + 1;
    }
    assert(stars@.take(i as int) =~= stars@);
    canvas.draw_group(&spans, 0, 0);

    let center = width / 2;
    let glyph = star_glyph_spans(scene);
    canvas.draw_group(&glyph, center as i64, 0);
    let ghost after_base = canvas@;
    assert(after_base =~= old(canvas)@ + sky_base_ops(scene, width as int, stars@));

    if scene.id() > 1 {
        if phase == 0 {
            canvas.move_to(1, 5);
            canvas.clear(ClearKind::CurrentLine);
            canvas.move_to(1, 6);
            canvas.clear(ClearKind::CurrentLine);
            canvas.move_to(1, 7);
            canvas.clear(ClearKind::CurrentLine);
            assert(canvas@ =~= after_base + clear_ray_ops());
        } else {
            let rays = ray_spans(phase);
            canvas.draw_group(&rays, center as i64, 0);
        }
    }
    assert(canvas@ =~= old(canvas)@ + sky_ops(scene, width as int, phase as int, stars@));
}

} // verus!
