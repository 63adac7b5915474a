use natermity::canvas::{Canvas, ClearKind, Color, DrawOp};
use natermity::scene::Scene;
use natermity::sky::{random_stars, ray_spans, sky_tick, star_glyph_spans, STAR_COUNT};

fn tick(scene: Scene, width: u16, phase: u8, stars: &Vec<(u16, u16)>) -> Vec<DrawOp> {
    let mut canvas = Canvas::new();
    sky_tick(&mut canvas, scene, width, phase, stars);
    canvas.take_ops()
}

fn ray_clear() -> Vec<DrawOp> {
    vec![
        DrawOp::MoveTo { x: 1, y: 5 },
        DrawOp::Clear { kind: ClearKind::CurrentLine },
        DrawOp::MoveTo { x: 1, y: 6 },
        DrawOp::Clear { kind: ClearKind::CurrentLine },
        DrawOp::MoveTo { x: 1, y: 7 },
        DrawOp::Clear { kind: ClearKind::CurrentLine },
    ]
}

#[test]
fn ray_pulse_draws_three_phases_and_clears_once() {
    let stars = vec![(5, 2)];
    let mut phase: u8 = 0;
    let mut clears = 0;
    let mut drawn = Vec::new();
    for _ in 0..4 {
        phase = (phase + 1) % 4;
        let ops = tick(Scene::Nativity, 80, phase, &stars);
        let tail = ops[ops.len() - 6..].to_vec();
        if tail == ray_clear() {
            clears += 1;
            assert_eq!(phase, 0);
        } else {
            drawn.push(phase);
            assert_eq!(tail[0], DrawOp::MoveTo { x: 40 - 1 - phase as u16, y: 4 + phase as u16 });
            assert_eq!(tail[1], DrawOp::Print { text: "/", color: Color::Yellow });
            assert_eq!(tail[2], DrawOp::MoveTo { x: 40, y: 4 + phase as u16 });
            assert_eq!(tail[3], DrawOp::Print { text: "|", color: Color::Yellow });
            assert_eq!(tail[4], DrawOp::MoveTo { x: 41 + phase as u16, y: 4 + phase as u16 });
            assert_eq!(tail[5], DrawOp::Print { text: "\\", color: Color::Yellow });
        }
    }
    assert_eq!(clears, 1);
    assert_eq!(drawn, vec![1, 2, 3]);
}

#[test]
fn no_rays_before_the_nativity() {
    let stars = vec![];
    for phase in 0..4u8 {
        for scene in [Scene::OutOfSeason, Scene::Anticipation] {
            let ops = tick(scene, 80, phase, &stars);
            // The wipe of the sky and the three parts of the star.
            assert_eq!(ops.len(), 2 + 6);
        }
    }
}

#[test]
fn sky_tick_wipes_then_draws_stars_and_glyph() {
    let stars = vec![(3, 1), (70, 3)];
    let ops = tick(Scene::OutOfSeason, 80, 2, &stars);
    assert_eq!(
        ops,
        vec![
            DrawOp::MoveTo { x: 80, y: 4 },
            DrawOp::Clear { kind: ClearKind::AboveCursor },
            DrawOp::MoveTo { x: 3, y: 1 },
            DrawOp::Print { text: "*", color: Color::White },
            DrawOp::MoveTo { x: 70, y: 3 },
            DrawOp::Print { text: "*", color: Color::White },
            DrawOp::MoveTo { x: 42, y: 1 },
            DrawOp::Print { text: "*", color: Color::Yellow },
            DrawOp::MoveTo { x: 40, y: 2 },
            DrawOp::Print { text: "*", color: Color::Yellow },
            DrawOp::MoveTo { x: 38, y: 3 },
            DrawOp::Print { text: "*", color: Color::Yellow },
        ]
    );
}

#[test]
fn star_glyph_shapes_follow_the_scene() {
    let texts = |s: Scene| star_glyph_spans(s).iter().map(|g| g.text).collect::<Vec<_>>();
    assert_eq!(texts(Scene::OutOfSeason), vec!["*", "*", "*"]);
    assert_eq!(texts(Scene::Anticipation), vec![".", ". * .", "."]);
    assert_eq!(texts(Scene::Nativity), vec![":", ".. * ..", ":"]);
    assert_eq!(texts(Scene::Epiphany), vec![":", ".. * ..", ":"]);
    assert_eq!(star_glyph_spans(Scene::Epiphany)[1].dx, -3);
}

#[test]
fn rays_spread_with_the_phase() {
    let r = ray_spans(3);
    assert_eq!((r[0].dx, r[0].dy), (-4, 7));
    assert_eq!((r[1].dx, r[1].dy), (0, 7));
    assert_eq!((r[2].dx, r[2].dy), (4, 7));
}

#[test]
fn random_stars_stay_in_the_sky_band() {
    for width in [3u16, 4, 30, 80, u16::MAX] {
        for _ in 0..20 {
            let stars = random_stars(width);
            assert_eq!(stars.len(), STAR_COUNT);
            for (x, y) in stars {
                assert!(1 <= x && x < width - 1);
                assert!((1..4).contains(&y));
            }
        }
    }
    assert!(random_stars(2).is_empty());
    assert!(random_stars(0).is_empty());
}

#[test]
fn random_stars_are_scattered() {
    let mut xs = std::collections::BTreeSet::new();
    let mut ys = std::collections::BTreeSet::new();
    for _ in 0..50 {
        for (x, y) in random_stars(80) {
            xs.insert(x);
            ys.insert(y);
        }
    }
    assert!(xs.len() > 10);
    assert_eq!(ys.len(), 3);
}
