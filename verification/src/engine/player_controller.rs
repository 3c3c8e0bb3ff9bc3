use bevy::time::{Timer, TimerMode};
use core::time::Duration;
use vstd::prelude::*;

verus! {

/// Marker for the player entity.
pub struct Player;

/// Marker for the entity that shakes when the player is hit.
pub struct CameraShake;

/// Marker for the player character controller.
pub struct PlayerCharacter;

/// Nanoseconds in one second.
pub const NANOS_PER_SECOND: u64 = 1_000_000_000;

/// How many periods a repeating timer counts as finished in one tick: bevy
/// keeps the count in a `u32`, so it is taken modulo 2^32.
pub open spec fn finished_count_modulus() -> nat {
    0x1_0000_0000
}

/// Whether a repeating timer at `elapsed` with the given `duration` has just
/// finished after it is advanced by `delta`: always for a zero duration,
/// else when the number of whole periods in the advanced time, kept modulo
/// 2^32, is not zero (so at least one period has passed).
pub open spec fn repeating_tick_finishes(duration: nat, elapsed: nat, delta: nat) -> bool {
    duration == 0 || ((elapsed + delta) / duration) % finished_count_modulus() != 0
}

/// The elapsed time of a repeating timer after it is advanced by `delta`: it
/// wraps around its duration, and a timer of zero duration restarts at zero.
pub open spec fn repeating_tick_elapsed(duration: nat, elapsed: nat, delta: nat) -> nat {
    if elapsed + delta >= duration {
        if duration > 0 {
            (elapsed + delta) % duration
        } else {
            0
        }
    } else {
        elapsed + delta
    }
}

/// Advances a repeating `bevy::time::Timer` of `duration_nanos` that has run
/// for `elapsed_nanos` by `delta_nanos` with `Timer::tick`, and reads back
/// `Timer::elapsed` (in nanoseconds) and `Timer::just_finished`.
/// Claimed of the bevy code: the elapsed time wraps around the duration
/// (it becomes zero for a zero duration), and the timer has just finished
/// exactly when its count of finished periods, a `u32` set to the advanced
/// time divided by the duration (`u32::MAX` for a zero duration), is not
/// zero.
#[verifier::external_body]
fn tick_repeating_timer(duration_nanos: u64, elapsed_nanos: u64, delta_nanos: u64) -> (r: (u128, bool))
    ensures
        r.0 == repeating_tick_elapsed(duration_nanos as nat, elapsed_nanos as nat, delta_nanos as nat),
        r.1 == repeating_tick_finishes(duration_nanos as nat, elapsed_nanos as nat, delta_nanos as nat),
{
    let mut timer = Timer::new(Duration::from_nanos(duration_nanos), TimerMode::Repeating);
    timer.set_elapsed(Duration::from_nanos(elapsed_nanos));
    timer.tick(Duration::from_nanos(delta_nanos));
    (timer.elapsed().as_nanos(), timer.just_finished())
}

/// The repeating timer that paces the player's footstep sounds, in
/// nanoseconds.
#[derive(Clone, Copy, Debug, PartialEq, Eq, Structural)]
pub struct FootstepsTimer {
    pub duration_nanos: u64,
    pub elapsed_nanos: u64,
}

impl FootstepsTimer {
    /// A timer of the given duration that has not run yet.
    pub fn new(duration_nanos: u64) -> (timer: Self)
        ensures
            timer.duration_nanos == duration_nanos,
            timer.elapsed_nanos == 0,
    {
        FootstepsTimer { duration_nanos, elapsed_nanos: 0 }
    }

    /// Advances the timer by `delta_nanos`; returns whether it has just
    /// finished a period.
    pub fn tick(&mut self, delta_nanos: u64) -> (just_finished: bool)
        ensures
            final(self).duration_nanos == old(self).duration_nanos,
            final(self).elapsed_nanos == repeating_tick_elapsed(
                old(self).duration_nanos as nat,
                old(self).elapsed_nanos as nat,
                delta_nanos as nat,
            ),
            just_finished == repeating_tick_finishes(
                old(self).duration_nanos as nat,
                old(self).elapsed_nanos as nat,
                delta_nanos as nat,
            ),
    {
        let (elapsed, just_finished) = tick_repeating_timer(self.duration_nanos, self.elapsed_nanos, delta_nanos);
        proof {
            let d = self.duration_nanos as int;
            let s = self.elapsed_nanos as int + delta_nanos as int;
            if s >= d && d > 0 {
                assert(s % d < d) by (nonlinear_arith)
                    requires d > 0;
            }
        }
        self.elapsed_nanos = elapsed as u64;
        just_finished
    }
}

/// The keys that steer the player in one frame.
#[derive(Clone, Copy, Debug, PartialEq, Eq, Structural)]
pub struct MovementKeys {
    /// Left shift is held.
    pub shift_pressed: bool,
    /// Left shift was let go in this frame.
    pub shift_just_released: bool,
    /// W is held.
    pub forward: bool,
    /// S is held.
    pub backward: bool,
    /// A is held.
    pub left: bool,
    /// D is held.
    pub right: bool,
}

/// One direction the player steps in: along or against the facing
/// direction, or to its left or right.
#[derive(Clone, Copy, Debug, PartialEq, Eq, Structural)]
pub enum Stride {
    Forward,
    Backward,
    Left,
    Right,
}

/// How fast the player moves.
#[derive(Clone, Copy, Debug, PartialEq, Eq, Structural)]
pub enum Gait {
    Walk,
    Run,
}

/// A stride taken in this frame, and whether its footstep sound plays.
#[derive(Clone, Copy, Debug, PartialEq, Eq, Structural)]
pub struct StrideStep {
    pub stride: Stride,
    pub footstep: bool,
}

/// What the player does in one frame: the strides in the order in which
/// they add to the movement direction, and the gait.
pub struct MovementPlan {
    pub strides: Vec<StrideStep>,
    pub gait: Gait,
}

/// The strides of the held keys, in the order W, S, A, D.
pub open spec fn held_strides(keys: MovementKeys) -> Seq<Stride> {
    (if keys.forward { seq![Stride::Forward] } else { Seq::empty() })
        + (if keys.backward { seq![Stride::Backward] } else { Seq::empty() })
        + (if keys.left { seq![Stride::Left] } else { Seq::empty() })
        + (if keys.right { seq![Stride::Right] } else { Seq::empty() })
}

/// The footstep period for this frame: none while running, one second right
/// after the run ends, else unchanged.
pub open spec fn footstep_period(keys: MovementKeys, duration_nanos: nat) -> nat {
    if keys.shift_pressed {
        0
    } else if keys.shift_just_released {
        NANOS_PER_SECOND as nat
    } else {
        duration_nanos
    }
}

/// The elapsed time of a repeating timer after `n` ticks of `delta`.
pub open spec fn elapsed_after_ticks(duration: nat, elapsed: nat, delta: nat, n: nat) -> nat
    decreases n,
{
    if n == 0 {
        elapsed
    } else {
        repeating_tick_elapsed(duration, elapsed_after_ticks(duration, elapsed, delta, (n - 1) as nat), delta)
    }
}

/// Whether the `i`-th tick (from zero) of `delta` finishes a period.
pub open spec fn tick_finishes(duration: nat, elapsed: nat, delta: nat, i: nat) -> bool {
    repeating_tick_finishes(duration, elapsed_after_ticks(duration, elapsed, delta, i), delta)
}

/// The gait for this frame: running while shift is held.
pub open spec fn gait_for(keys: MovementKeys) -> Gait {
    if keys.shift_pressed { Gait::Run } else { Gait::Walk }
}

/// Takes one stride: ticks the footstep timer and records the stride.
fn take_stride(
    timer: &mut FootstepsTimer,
    steps: &mut Vec<StrideStep>,
    stride: Stride,
    delta_nanos: u64,
    Ghost(elapsed0): Ghost<nat>,
)
    requires
        old(timer).elapsed_nanos == elapsed_after_ticks(
            old(timer).duration_nanos as nat,
            elapsed0,
            delta_nanos as nat,
            old(steps)@.len(),
        ),
    ensures
        final(timer).duration_nanos == old(timer).duration_nanos,
        final(timer).elapsed_nanos == elapsed_after_ticks(
            old(timer).duration_nanos as nat,
            elapsed0,
            delta_nanos as nat,
            final(steps)@.len(),
        ),
        final(steps)@ == old(steps)@.push(
            StrideStep {
                stride,
                footstep: tick_finishes(old(timer).duration_nanos as nat, elapsed0, delta_nanos as nat, old(steps)@.len()),
            },
        ),
{
    let footstep = timer.tick(delta_nanos);
    steps.push(StrideStep { stride, footstep });
}

impl PlayerCharacter {
    /// The player's movement for one frame: sets the footstep period from
    /// the shift key, takes a stride for each held key of W, S, A, D in that
    /// order (each ticks the footstep timer by `delta_nanos`, and its
    /// footstep sound plays when the timer has just finished), and picks
    /// running while shift is held, else walking.
    #[verifier::rlimit(40)]
    pub fn player_movement(keys: MovementKeys, timer: &mut FootstepsTimer, delta_nanos: u64) -> (plan: MovementPlan)
        ensures
            final(timer).duration_nanos == footstep_period(keys, old(timer).duration_nanos as nat),
            final(timer).elapsed_nanos == elapsed_after_ticks(
                final(timer).duration_nanos as nat,
                old(timer).elapsed_nanos as nat,
                delta_nanos as nat,
                held_strides(keys).len(),
            ),
            plan.strides@.len() == held_strides(keys).len(),
            forall|i: int| 0 <= i < plan.strides@.len() ==> #[trigger] plan.strides@[i].stride == held_strides(keys)[i],
            forall|i: int| 0 <= i < plan.strides@.len() ==> #[trigger] plan.strides@[i].footstep == tick_finishes(
                final(timer).duration_nanos as nat,
                old(timer).elapsed_nanos as nat,
                delta_nanos as nat,
                i as nat,
            ),
            plan.gait == gait_for(keys),
    {
        let ghost elapsed0 = timer.elapsed_nanos as nat;
        if keys.shift_pressed {
            timer.duration_nanos = 0;
        } else if keys.shift_just_released {
            timer.duration_nanos = NANOS_PER_SECOND;
        }
        let ghost duration = timer.duration_nanos as nat;
        let ghost held = held_strides(keys);
        let mut steps: Vec<StrideStep> = Vec::new();
        if keys.forward {
            take_stride(timer, &mut steps, Stride::Forward, delta_nanos, Ghost(elapsed0));
        }
        if keys.backward {
            take_stride(timer, &mut steps, Stride::Backward, delta_nanos, Ghost(elapsed0));
        }
        if keys.left {
            take_stride(timer, &mut steps, Stride::Left, delta_nanos, Ghost(elapsed0));
        }
        if keys.right {
            take_stride(timer, &mut steps, Stride::Right, delta_nanos, Ghost(elapsed0));
        }
        let gait = if keys.shift_pressed { Gait::Run } else { Gait::Walk };
        MovementPlan { strides: steps, gait }
    }
}

/// Running plays a footstep on every stride: while shift is held the
/// footstep period is zero, so every tick of the timer finishes it.
pub proof fn lemma_running_plays_every_footstep(keys: MovementKeys, duration: nat, elapsed: nat, delta: nat, i: nat)
    requires
        keys.shift_pressed,
    ensures
        tick_finishes(footstep_period(keys, duration), elapsed, delta, i),
{
}

/// A repeating timer of positive duration that has ticked at least once is
/// inside its period: its elapsed time is below its duration.
pub proof fn lemma_ticked_timer_within_period(duration: nat, elapsed: nat, delta: nat, n: nat)
    requires
        duration > 0,
        n > 0,
    ensures
        elapsed_after_ticks(duration, elapsed, delta, n) < duration,
{
    let before = elapsed_after_ticks(duration, elapsed, delta, (n - 1) as nat);
    if before + delta >= duration {
        let s = (before + delta) as int;
        let d = duration as int;
        assert(s % d < d) by (nonlinear_arith)
            requires d > 0;
    }
}

/// With no movement key held the player takes no stride, so no footstep
/// plays and the footstep timer keeps its elapsed time.
pub proof fn lemma_standing_still_keeps_timer(keys: MovementKeys, duration: nat, elapsed: nat, delta: nat)
    requires
        !keys.forward,
        !keys.backward,
        !keys.left,
        !keys.right,
    ensures
        held_strides(keys).len() == 0,
        elapsed_after_ticks(footstep_period(keys, duration), elapsed, delta, held_strides(keys).len()) == elapsed,
{
    assert(held_strides(keys) =~= Seq::<Stride>::empty());
}

/// The sound asset of a footstep in each stride direction.
pub open spec fn footstep_sound_path(stride: Stride) -> Seq<char> {
    match stride {
        Stride::Forward => "sounds/steps/w_forward.ogg"@,
        Stride::Backward => "sounds/steps/s_backward.ogg"@,
        Stride::Left => "sounds/steps/a_left.ogg"@,
        Stride::Right => "sounds/steps/d_right.ogg"@,
    }
}

impl Stride {
    /// The sound asset that plays for a footstep in this direction.
    pub fn footstep_sound(&self) -> (path: &'static str)
        ensures
            path@ == footstep_sound_path(*self),
    {
        match self {
            Stride::Forward => "sounds/steps/w_forward.ogg",
            Stride::Backward => "sounds/steps/s_backward.ogg",
            Stride::Left => "sounds/steps/a_left.ogg",
            Stride::Right => "sounds/steps/d_right.ogg",
        }
    }
}

/// A collision reported by the physics engine between two entities, given
/// by their entity bits.
#[derive(Clone, Copy, Debug, PartialEq, Eq, Structural)]
pub enum CollisionEvent {
    Started(u64, u64),
    Stopped(u64, u64),
}

/// The entity pairs of the collisions that started, in the order reported.
pub open spec fn started_pairs(events: Seq<CollisionEvent>) -> Seq<(u64, u64)>
    decreases events.len(),
{
    if events.len() == 0 {
        Seq::empty()
    } else {
        let earlier = started_pairs(events.drop_last());
        match events.last() {
            CollisionEvent::Started(a, b) => earlier.push((a, b)),
            CollisionEvent::Stopped(_, _) => earlier,
        }
    }
}

impl PlayerCharacter {
    /// The entity pairs whose collision started in this frame, in the order
    /// the events came: the collisions that can damage the player.
    pub fn started_collisions(events: &Vec<CollisionEvent>) -> (pairs: Vec<(u64, u64)>)
        ensures
            pairs@ == started_pairs(events@),
    {
        let mut pairs: Vec<(u64, u64)> = Vec::new();
        let mut i: usize = 0;
        while i < events.len()
            invariant
                i <= events@.len(),
                pairs@ == started_pairs(events@.take(i as int)),
            decreases events@.len() - i,
        {
            assert(events@.take(i as int + 1).drop_last() =~= events@.take(i as int));
            match events[i] {
                CollisionEvent::Started(a, b) => {
                    pairs.push((a, b));
                },
                CollisionEvent::Stopped(_, _) => {},
            }
            i = i + 1;
        }
        assert(events@.take(events@.len() as int) =~= events@);
        pairs
    }
}

/// Every pair that counts as a started collision was reported by a
/// `Started` event.
pub proof fn lemma_started_pairs_come_from_started_events(events: Seq<CollisionEvent>, k: int)
    requires
        0 <= k < started_pairs(events).len(),
    ensures
        exists|i: int|
            0 <= i < events.len() && #[trigger] events[i] == CollisionEvent::Started(
                started_pairs(events)[k].0,
                started_pairs(events)[k].1,
            ),
    decreases events.len(),
{
    let earlier = events.drop_last();
    if k < started_pairs(earlier).len() {
        lemma_started_pairs_come_from_started_events(earlier, k);
        let i = choose|i: int|
            0 <= i < earlier.len() && #[trigger] earlier[i] == CollisionEvent::Started(
                started_pairs(earlier)[k].0,
                started_pairs(earlier)[k].1,
            );
        assert(events[i] == earlier[i]);
    } else {
        assert(events[events.len() - 1] == events.last());
    }
}

/// The parts of the player rig.
#[derive(Clone, Copy, Debug, PartialEq, Eq, Structural)]
pub enum RigPart {
    /// The physical player body.
    Player,
    /// The pivot that pitches the camera.
    CameraPivot,
    /// The camera.
    Camera,
    /// The character model.
    Model,
}

/// The parent/child links of the player rig, in the order they are made:
/// the pivot hangs under the player, the camera under the pivot, and the
/// model under the player.
pub open spec fn rig_links() -> Seq<(RigPart, RigPart)> {
    seq![
        (RigPart::Player, RigPart::CameraPivot),
        (RigPart::CameraPivot, RigPart::Camera),
        (RigPart::Player, RigPart::Model),
    ]
}

impl PlayerCharacter {
    /// The parent/child links that assemble the spawned player rig.
    pub fn player_rig_links() -> (links: Vec<(RigPart, RigPart)>)
        ensures
            links@ == rig_links(),
    {
        let mut links: Vec<(RigPart, RigPart)> = Vec::new();
        links.push((RigPart::Player, RigPart::CameraPivot));
        links.push((RigPart::CameraPivot, RigPart::Camera));
        links.push((RigPart::Player, RigPart::Model));
        links
    }
}

/// The rig is a tree rooted at the player: the player is nobody's child,
/// every other part is the child of exactly one link, and every parent is
/// the player or a child of the player.
pub proof fn lemma_rig_is_tree_rooted_at_player(part: RigPart)
    ensures
        forall|i: int| 0 <= i < rig_links().len() ==> #[trigger] rig_links()[i].1 != RigPart::Player,
        forall|i: int, j: int|
            0 <= i < rig_links().len() && 0 <= j < rig_links().len() && #[trigger] rig_links()[i].1
                == #[trigger] rig_links()[j].1 ==> i == j,
        part != RigPart::Player ==> exists|i: int| 0 <= i < rig_links().len() && #[trigger] rig_links()[i].1 == part,
        forall|i: int|
            0 <= i < rig_links().len() ==> (#[trigger] rig_links()[i]).0 == RigPart::Player || exists|j: int|
                0 <= j < rig_links().len() && (#[trigger] rig_links()[j]).1 == rig_links()[i].0
                    && rig_links()[j].0 == RigPart::Player,
{
    let links = rig_links();
    assert(links[0] == (RigPart::Player, RigPart::CameraPivot));
    assert(links[1] == (RigPart::CameraPivot, RigPart::Camera));
    assert(links[2] == (RigPart::Player, RigPart::Model));
    assert(links[1].0 == RigPart::Player || (links[0].1 == links[1].0 && links[0].0 == RigPart::Player));
    if part == RigPart::CameraPivot {
        assert(links[0].1 == part);
    } else if part == RigPart::Camera {
        assert(links[1].1 == part);
    } else if part == RigPart::Model {
        assert(links[2].1 == part);
    }
}

/// Where a stride comes in the W, S, A, D order.
pub open spec fn stride_rank(stride: Stride) -> int {
    match stride {
        Stride::Forward => 0,
        Stride::Backward => 1,
        Stride::Left => 2,
        Stride::Right => 3,
    }
}

/// Each held movement key gives its stride, and only held keys give one,
/// whatever shift says: the strides are exactly the held keys, each once,
/// in the order W, S, A, D.
pub proof fn lemma_held_keys_give_their_strides(keys: MovementKeys)
    ensures
        held_strides(keys).contains(Stride::Forward) <==> keys.forward,
        held_strides(keys).contains(Stride::Backward) <==> keys.backward,
        held_strides(keys).contains(Stride::Left) <==> keys.left,
        held_strides(keys).contains(Stride::Right) <==> keys.right,
        held_strides(keys).len() == (if keys.forward { 1int } else { 0 }) + (if keys.backward { 1int } else { 0 })
            + (if keys.left { 1int } else { 0 }) + (if keys.right { 1int } else { 0 }),
        forall|i: int, j: int|
            0 <= i < j < held_strides(keys).len() ==> stride_rank(#[trigger] held_strides(keys)[i])
                < stride_rank(#[trigger] held_strides(keys)[j]),
{
    let f: Seq<Stride> = if keys.forward { seq![Stride::Forward] } else { Seq::empty() };
    let b: Seq<Stride> = if keys.backward { seq![Stride::Backward] } else { Seq::empty() };
    let l: Seq<Stride> = if keys.left { seq![Stride::Left] } else { Seq::empty() };
    let r: Seq<Stride> = if keys.right { seq![Stride::Right] } else { Seq::empty() };
    let h = held_strides(keys);
    assert(h == f + b + l + r);
    assert forall|i: int| 0 <= i < h.len() implies stride_rank(#[trigger] h[i]) == (if i < f.len() {
        0int
    } else if i < f.len() + b.len() {
        1int
    } else if i < f.len() + b.len() + l.len() {
        2int
    } else {
        3int
    }) by {
        if i < f.len() {
            assert(h[i] == f[i]);
        } else if i < f.len() + b.len() {
            assert(h[i] == b[i - f.len()]);
        } else if i < f.len() + b.len() + l.len() {
            assert(h[i] == l[i - f.len() - b.len()]);
        } else {
            assert(h[i] == r[i - f.len() - b.len() - l.len()]);
        }
    }
    if keys.forward {
        assert(h[0] == Stride::Forward);
    }
    if keys.backward {
        assert(h[f.len() as int] == Stride::Backward);
    }
    if keys.left {
        assert(h[(f.len() + b.len()) as int] == Stride::Left);
    }
    if keys.right {
        assert(h[(f.len() + b.len() + l.len()) as int] == Stride::Right);
    }
    assert forall|s: Stride| #[trigger] h.contains(s) implies (match s {
        Stride::Forward => keys.forward,
        Stride::Backward => keys.backward,
        Stride::Left => keys.left,
        Stride::Right => keys.right,
    }) by {
        let i = choose|i: int| 0 <= i < h.len() && h[i] == s;
        if i < f.len() {
            assert(h[i] == f[i]);
        } else if i < f.len() + b.len() {
            assert(h[i] == b[i - f.len()]);
        } else if i < f.len() + b.len() + l.len() {
            assert(h[i] == l[i - f.len() - b.len()]);
        } else {
            assert(h[i] == r[i - f.len() - b.len() - l.len()]);
        }
    }
}

/// The shift key changes no stride: two frames with the same movement keys
/// take the same strides, running or not.
pub proof fn lemma_shift_does_not_change_strides(keys: MovementKeys, shift_pressed: bool, shift_just_released: bool)
    ensures
        held_strides(keys) == held_strides(
            MovementKeys {
                shift_pressed,
                shift_just_released,
                forward: keys.forward,
                backward: keys.backward,
                left: keys.left,
                right: keys.right,
            },
        ),
{
}

/// The player runs exactly while shift is held, whichever movement keys are
/// held, and walks otherwise.
pub proof fn lemma_runs_exactly_while_shift_held(keys: MovementKeys)
    ensures
        gait_for(keys) == Gait::Run <==> keys.shift_pressed,
        gait_for(keys) == Gait::Walk <==> !keys.shift_pressed,
{
}

/// The footstep period: none while shift is held, one second in the frame
/// shift is let go, and otherwise the period the timer had.
pub proof fn lemma_footstep_period_follows_shift(keys: MovementKeys, duration: nat)
    ensures
        keys.shift_pressed ==> footstep_period(keys, duration) == 0,
        !keys.shift_pressed && keys.shift_just_released ==> footstep_period(keys, duration) == 1_000_000_000,
        !keys.shift_pressed && !keys.shift_just_released ==> footstep_period(keys, duration) == duration,
{
}

/// A tick shorter than the period, from inside the period, finishes it
/// exactly when the timer reaches its duration, and then carries the excess
/// into the next period.
pub proof fn lemma_short_tick_finishes_at_duration(duration: nat, elapsed: nat, delta: nat)
    requires
        elapsed < duration,
        delta < duration,
    ensures
        repeating_tick_finishes(duration, elapsed, delta) <==> elapsed + delta >= duration,
        repeating_tick_elapsed(duration, elapsed, delta) == (if elapsed + delta >= duration {
            elapsed + delta - duration
        } else {
            (elapsed + delta) as int
        }),
{
    let s = (elapsed + delta) as int;
    let d = duration as int;
    if s >= d {
        assert(s / d == 1 && s % d == s - d) by (nonlinear_arith)
            requires
                d <= s < 2 * d,
        ;
    } else {
        assert(s / d == 0) by (nonlinear_arith)
            requires
                0 <= s < d,
        ;
    }
}

/// Every collision that started counts, the first of the frame too: a
/// `Started(a, b)` event anywhere in the frame puts `(a, b)` among the
/// collisions that can damage the player.
pub proof fn lemma_every_started_event_counts(events: Seq<CollisionEvent>, i: int, a: u64, b: u64)
    requires
        0 <= i < events.len(),
        events[i] == CollisionEvent::Started(a, b),
    ensures
        started_pairs(events).contains((a, b)),
    decreases events.len(),
{
    let earlier = events.drop_last();
    if i == events.len() - 1 {
        assert(started_pairs(events) == started_pairs(earlier).push((a, b)));
        assert(started_pairs(events)[started_pairs(earlier).len() as int] == (a, b));
    } else {
        assert(earlier[i] == events[i]);
        lemma_every_started_event_counts(earlier, i, a, b);
        let k = choose|k: int| 0 <= k < started_pairs(earlier).len() && started_pairs(earlier)[k] == (a, b);
        match events.last() {
            CollisionEvent::Started(c, d) => {
                assert(started_pairs(events) == started_pairs(earlier).push((c, d)));
                assert(started_pairs(events)[k] == (a, b));
            },
            CollisionEvent::Stopped(_, _) => {
                assert(started_pairs(events) == started_pairs(earlier));
            },
        }
    }
}

/// The collisions that count grow with the frame's events: a started event
/// appends its pair after the earlier ones, a stopped event adds nothing,
/// and a frame with one started event counts just that collision.
pub proof fn lemma_started_pairs_extend(events: Seq<CollisionEvent>, a: u64, b: u64)
    ensures
        started_pairs(events.push(CollisionEvent::Started(a, b))) == started_pairs(events).push((a, b)),
        started_pairs(events.push(CollisionEvent::Stopped(a, b))) == started_pairs(events),
        started_pairs(seq![CollisionEvent::Started(a, b)]) == seq![(a, b)],
        started_pairs(Seq::<CollisionEvent>::empty()) == Seq::<(u64, u64)>::empty(),
{
    assert(events.push(CollisionEvent::Started(a, b)).drop_last() =~= events);
    assert(events.push(CollisionEvent::Stopped(a, b)).drop_last() =~= events);
    let single = seq![CollisionEvent::Started(a, b)];
    assert(single.drop_last() =~= Seq::<CollisionEvent>::empty());
    assert(single.last() == CollisionEvent::Started(a, b));
    assert(started_pairs(single) == started_pairs(single.drop_last()).push((a, b)));
    assert(Seq::<(u64, u64)>::empty().push((a, b)) =~= seq![(a, b)]);
}

} // verus!
