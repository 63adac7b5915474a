//! The decisions of the event loop: what each poll of the terminal leads to.
//! The caller polls, sleeps, reads the clock and carries the drawing out.
use vstd::prelude::*;
use crate::calendar::CalendarDate;
use crate::canvas::{full_clears, lemma_full_clears_concat, Canvas, DrawOp};
use crate::scene::{resolve, spec_resolve, CalendarMode, Scene};
use crate::sky::{
    clear_ray_ops,
    draw_ray_ops,
    is_star_field,
    lemma_ray_pulse_period,
    ray_ops,
    sky_base_ops,
    lemma_sky_ops_no_full_clear,
    next_phase,
    random_stars,
    sky_ops,
    sky_tick,
};
use crate::tableau::{fits, lemma_scene_ops_on_screen, render, scene_ops, tableau_fits, Dimensions};

verus! {

/// How long the loop runs on one resolved scene, in seconds, before it asks
/// the date again.
pub const RESOLVE_INTERVAL_SECS: u64 = 300;

/// What a poll of the terminal brought.
#[derive(Clone, Copy, Debug, PartialEq, Eq, Structural)]
pub enum LoopEvent {
    /// A key was pressed.
    KeyPress,
    /// The terminal now has this size.
    Resize { width: u16, height: u16 },
    /// Nothing that matters: the poll timed out, or brought another event.
    Idle,
}

/// What the loop does after a poll.
#[derive(Clone, Copy, Debug, PartialEq, Eq, Structural)]
pub enum Control {
    /// Carry the drawing out and poll again.
    Continue,
    /// Restore the terminal and end.
    Quit,
}

/// The state the loop carries from one tick to the next.
#[derive(Clone, Copy, Debug, PartialEq, Eq)]
pub struct LoopState {
    pub scene: Scene,
    pub dims: Dimensions,
    /// The phase of the ray pulse, 0 to 3.
    pub phase: u8,
}

/// The state after `event`: a resize takes the new size, and every event
/// but a key press moves the ray pulse on by one phase.
pub open spec fn state_after(s: LoopState, event: LoopEvent) -> LoopState {
    match event {
        LoopEvent::KeyPress => s,
        LoopEvent::Resize { width, height } => LoopState {
            dims: Dimensions { width, height },
            phase: next_phase(s.phase as int) as u8,
            ..s
        },
        LoopEvent::Idle => LoopState { phase: next_phase(s.phase as int) as u8, ..s },
    }
}

/// The sky of a tick in state `s`: nothing on a terminal too small for the
/// tableau.
pub open spec fn tick_sky_ops(s: LoopState, stars: Seq<(u16, u16)>) -> Seq<DrawOp> {
    if fits(s.scene, s.dims) {
        sky_ops(s.scene, s.dims.width as int, s.phase as int, stars)
    } else {
        Seq::empty()
    }
}

/// What a tick in state `s` draws on `event`, with the stars at `stars`:
/// nothing on a key press, a full redraw at the new size and then the sky
/// on a resize, the sky alone otherwise.
pub open spec fn tick_ops(s: LoopState, event: LoopEvent, stars: Seq<(u16, u16)>) -> Seq<DrawOp> {
    let next = state_after(s, event);
    match event {
        LoopEvent::KeyPress => Seq::empty(),
        LoopEvent::Resize { .. } => scene_ops(s.scene, next.dims) + tick_sky_ops(next, stars),
        LoopEvent::Idle => tick_sky_ops(next, stars),
    }
}

/// What the loop does after `event`.
pub open spec fn control_for(event: LoopEvent) -> Control {
    if event == LoopEvent::KeyPress {
        Control::Quit
    } else {
        Control::Continue
    }
}

/// A resize during a tick leads to exactly one full redraw, first, of the
/// scene that was resolved before, at the new size; a tick without a resize
/// redraws nothing.
pub proof fn lemma_resize_redraws_once(s: LoopState, event: LoopEvent, stars: Seq<(u16, u16)>)
    ensures
        event matches LoopEvent::Resize { width, height } ==> {
            &&& state_after(s, event).scene == s.scene
            &&& state_after(s, event).dims == Dimensions { width, height }
            &&& tick_ops(s, event, stars) == scene_ops(s.scene, Dimensions { width, height })
                + tick_sky_ops(state_after(s, event), stars)
            &&& full_clears(tick_ops(s, event, stars)) == 1
        },
        !(event is Resize) ==> full_clears(tick_ops(s, event, stars)) == 0,
{
    let next = state_after(s, event);
    lemma_sky_ops_no_full_clear(next.scene, next.dims.width as int, next.phase as int, stars);
    assert(full_clears(Seq::<DrawOp>::empty()) == 0);
    if let LoopEvent::Resize { width, height } = event {
        lemma_scene_ops_on_screen(s.scene, next.dims);
        lemma_full_clears_concat(scene_ops(s.scene, next.dims), tick_sky_ops(next, stars));
    }
}

/// The phase of the ray pulse on the tick after `k` ticks from `start`.
pub open spec fn pulse_phase(start: int, k: int) -> int {
    (start + k + 1) % 4
}

/// The state after `k` ticks without an event, from `s`.
pub open spec fn idle_state(s: LoopState, k: nat) -> LoopState
    decreases k,
{
    if k == 0 {
        s
    } else {
        state_after(idle_state(s, (k - 1) as nat), LoopEvent::Idle)
    }
}

proof fn lemma_idle_state(s: LoopState, k: nat)
    requires
        s.wf(),
    ensures
        idle_state(s, k) == (LoopState { phase: ((s.phase + k) % 4) as u8, ..s }),
    decreases k,
{
    if k > 0 {
        lemma_idle_state(s, (k - 1) as nat);
    }
}

/// A tick without an event, on a terminal large enough for the tableau,
/// moves the pulse on by one phase and draws the sky at that phase.
proof fn lemma_idle_tick(s: LoopState, stars: Seq<(u16, u16)>)
    requires
        s.wf(),
        fits(s.scene, s.dims),
    ensures
        tick_ops(s, LoopEvent::Idle, stars) == sky_base_ops(s.scene, s.dims.width as int, stars)
            + if s.scene.spec_id() > 1 {
            ray_ops(s.dims.width as int / 2, next_phase(s.phase as int))
        } else {
            Seq::empty()
        },
{
    let next = state_after(s, LoopEvent::Idle);
    assert(next.phase as int == next_phase(s.phase as int));
    assert(tick_ops(s, LoopEvent::Idle, stars) == sky_ops(
        s.scene,
        s.dims.width as int,
        next_phase(s.phase as int),
        stars,
    ));
}

/// What the tick after `k` ticks without an event from `s` shows: the scene
/// and the size stay, the pulse is at `pulse_phase(s.phase, k)`, and the tick
/// draws the sky, then past anticipation the ray pulse at that phase.
pub open spec fn idle_tick_shows(s: LoopState, k: nat, stars: Seq<(u16, u16)>) -> bool {
    let before = idle_state(s, k);
    let after = idle_state(s, k + 1);
    &&& after.scene == s.scene && after.dims == s.dims
    &&& after.phase == pulse_phase(s.phase as int, k as int)
    &&& tick_ops(before, LoopEvent::Idle, stars) == sky_base_ops(
        s.scene,
        s.dims.width as int,
        stars,
    ) + if s.scene.spec_id() > 1 {
        ray_ops(s.dims.width as int / 2, pulse_phase(s.phase as int, k as int))
    } else {
        Seq::empty()
    }
}

proof fn lemma_idle_tick_shows(s: LoopState, k: nat, stars: Seq<(u16, u16)>)
    requires
        s.wf(),
        fits(s.scene, s.dims),
    ensures
        idle_tick_shows(s, k, stars),
{
    lemma_idle_state(s, k);
    lemma_idle_state(s, k + 1);
    lemma_idle_tick(idle_state(s, k), stars);
    assert(next_phase(((s.phase + k) % 4) as u8 as int) == pulse_phase(s.phase as int, k as int));
}

/// Over four ticks without an event, on a terminal large enough for the
/// tableau, the loop comes back to the state it started from, and each tick
/// draws the sky and then, past anticipation, the ray pulse at its own phase
/// (see `idle_tick_shows`). Past anticipation exactly one of the four ticks
/// is at phase 0, where the rays are wiped; the other three draw them, at
/// phases 1 to 3. Up to anticipation no tick touches the rays.
pub proof fn lemma_idle_ray_pulse(s: LoopState, stars: Seq<Seq<(u16, u16)>>)
    requires
        s.wf(),
        fits(s.scene, s.dims),
        stars.len() == 4,
    ensures
        idle_state(s, 4) == s,
        forall|k: nat| k < 4 ==> #[trigger] idle_tick_shows(s, k, stars[k as int]),
        exists|k: int|
            0 <= k < 4 && #[trigger] pulse_phase(s.phase as int, k) == 0 && forall|j: int|
                0 <= j < 4 && j != k ==> #[trigger] pulse_phase(s.phase as int, j) != 0,
        forall|p: int|
            1 <= p < 4 ==> #[trigger] ray_ops(s.dims.width as int / 2, p) == draw_ray_ops(
                s.dims.width as int / 2,
                p,
            ) && draw_ray_ops(s.dims.width as int / 2, p) != clear_ray_ops(),
        ray_ops(s.dims.width as int / 2, 0) == clear_ray_ops(),
{
    lemma_idle_state(s, 4);
    assert forall|k: nat| k < 4 implies #[trigger] idle_tick_shows(s, k, stars[k as int]) by {
        lemma_idle_tick_shows(s, k, stars[k as int]);
    }
    let k: int = 3 - s.phase;
    assert(pulse_phase(s.phase as int, k) == 0);
    lemma_ray_pulse_period(Scene::Nativity, s.dims.width as int, 0, stars[0]);
}

impl LoopState {
    /// Whether the phase is one of the four.
    pub open spec fn wf(&self) -> bool {
        self.phase < 4
    }

    /// The state before the first resolve: out of season, no size known,
    /// the pulse at phase 0.
    pub fn new() -> (r: LoopState)
        ensures
            r.wf(),
            r.scene == Scene::OutOfSeason,
            r.dims == (Dimensions { width: 0, height: 0 }),
            r.phase == 0,
    {
        LoopState { scene: Scene::OutOfSeason, dims: Dimensions { width: 0, height: 0 }, phase: 0 }
    }

    /// Resolves the scene for `date` in `mode`, takes the size `dims`, and
    /// draws the full redraw. The ray pulse keeps its phase.
    pub fn resolve(&mut self, canvas: &mut Canvas, date: &CalendarDate, mode: CalendarMode, dims: Dimensions)
        requires
            old(self).wf(),
            date.wf(),
        ensures
            final(self).wf(),
            final(self).scene == spec_resolve(*date, mode),
            final(self).dims == dims,
            final(self).phase == old(self).phase,
            final(canvas)@ == old(canvas)@ + scene_ops(final(self).scene, dims),
    {
        self.scene = resolve(date, mode);
        self.dims = dims;
        render(canvas, self.scene, dims);
    }

    /// One tick on `event`, with the stars of the sky at `stars`.
    pub fn step(&mut self, canvas: &mut Canvas, event: LoopEvent, stars: &Vec<(u16, u16)>) -> (r: Control)
        requires
            old(self).wf(),
        ensures
            final(self).wf(),
            *final(self) == state_after(*old(self), event),
            final(canvas)@ == old(canvas)@ + tick_ops(*old(self), event, stars@),
            r == control_for(event),
    {
        match event {
            LoopEvent::KeyPress => {
                assert(canvas@ =~= old(canvas)@ + tick_ops(*old(self), event, stars@));
                return Control::Quit;
            },
            LoopEvent::Resize { width, height } => {
                self.dims = Dimensions { width, height };
                render(canvas, self.scene, self.dims);
            },
            LoopEvent::Idle => {},
        }
        self.phase = (self.phase + 1) % 4;
        if tableau_fits(self.scene, self.dims) {
            sky_tick(canvas, self.scene, self.dims.width, self.phase, stars);
        }
        assert(canvas@ =~= old(canvas)@ + tick_ops(*old(self), event, stars@));
        Control::Continue
    }

    /// One tick on `event`, with a fresh random star field for the size
    /// after the event.
    pub fn poll_tick(&mut self, canvas: &mut Canvas, event: LoopEvent) -> (r: Control)
        requires
            old(self).wf(),
        ensures
            final(self).wf(),
            *final(self) == state_after(*old(self), event),
            exists|stars: Seq<(u16, u16)>|
                is_star_field(stars, final(self).dims.width as int) && final(canvas)@ == old(
                    canvas,
                )@ + tick_ops(*old(self), event, stars),
            r == control_for(event),
    {
        let width = match event {
            LoopEvent::Resize { width, .. } => width,
            _ => self.dims.width,
        };
        let stars = random_stars(width);
        self.step(canvas, event, &stars)
    }
}

/// Whether the scene is due to be resolved again, `elapsed_secs` seconds
/// after the last resolve.
pub fn resolve_due(elapsed_secs: u64) -> (r: bool)
    ensures
        r == (elapsed_secs >= RESOLVE_INTERVAL_SECS),
{
    elapsed_secs >= RESOLVE_INTERVAL_SECS
}

} // verus!
