//! What holds of timers and animators, whatever they are given.
//!
//! Each function here is a theorem about the definitions that the contracts
//! of [`crate::timer`] and [`crate::animator`] are stated with.

use vstd::prelude::*;
use vstd::arithmetic::div_mod::{lemma_fundamental_div_mod, lemma_mod_bound, lemma_mod_multiples_basic};
use crate::animator::{AnimatorView, LoopStrategy, StageView};
use crate::label::AniText;
use crate::property::{
    AniSprite,
    AniStyle,
    AniTransform,
    Color,
    Sprite,
    Style,
    Transform,
    Val,
    Vec2,
    Vec3,
};
use crate::ratio::{lemma_scaled_one, lemma_scaled_zero, scaled, Ratio};
use crate::timer::{Repeat, TimerView};

verus! {

/// A timer at rest after its budget `b` stays at rest when it is advanced by
/// no time.
proof fn lemma_rest_is_fixed(t: TimerView, b: int)
    requires
        t.duration > 0,
        t.budget() == Some(b),
        0 <= b <= 0xffff_ffff_ffff_ffff * 0xffff_ffff,
        b / (t.duration as int) <= u64::MAX,
    ensures
        t.settled(b).advance(0) == t.settled(b),
{
    let d = t.duration as int;
    let s = t.settled(b);
    lemma_fundamental_div_mod(b, d);
    lemma_mod_bound(b, d);
    vstd::arithmetic::div_mod::lemma_div_pos_is_pos(b, d);
    assert(s.budget() == Some(b));
    let w = s.wrapped(0);
    if b % d == 0 {
        assert(w.elapsed == 0);
        assert(w.times >= s.times);
        assert(w.times * d >= s.times * d) by (nonlinear_arith)
            requires
                w.times >= s.times,
                d > 0,
        ;
        assert(s.times * d == d * (b / d)) by (nonlinear_arith)
            requires
                s.times == b / d,
        ;
    } else {
        assert(w == s);
        assert(s.times * d == d * (b / d)) by (nonlinear_arith)
            requires
                s.times == b / d,
        ;
    }
    assert(w.exhausted());
}

/// The budget of a timer is a count that its resting state can hold.
proof fn lemma_budget_bounds(t: TimerView)
    requires
        t.duration > 0,
        t.budget() is Some,
    ensures
        0 <= t.budget().unwrap() <= 0xffff_ffff_ffff_ffff * 0xffff_ffff,
        t.budget().unwrap() / (t.duration as int) <= u64::MAX,
        t.repeat is Finite ==> t.budget().unwrap() % (t.duration as int) == 0,
{
    let d = t.duration as int;
    match t.repeat {
        Repeat::Finite(n) => {
            assert(0 <= n * d <= 0xffff_ffff_ffff_ffff * 0xffff_ffff) by (nonlinear_arith)
                requires
                    0 <= n <= 0xffff_ffff,
                    0 < d <= 0xffff_ffff_ffff_ffff,
            ;
            vstd::arithmetic::div_mod::lemma_div_by_multiple(n as int, d);
            lemma_mod_multiples_basic(n as int, d);
        },
        Repeat::Infinite => {},
        Repeat::Duration(span) => {
            vstd::arithmetic::div_mod::lemma_div_is_ordered_by_denominator(span as int, 1, d);
        },
    }
}

/// Progress stays in the half-open interval from zero to one, except that a
/// timer that comes to rest after whole passes shows a progress of exactly
/// one.
///
/// This is stated for advances that do not jump over a whole pass and more:
/// the end of a pass is taken once for each advance, so after a longer jump
/// that does not use up the budget the progress is one or more.
pub proof fn law_progress_in_pass(t: TimerView, dt: u64)
    requires
        t.in_pass(),
        t.duration == 0 || t.elapsed + dt < 2 * t.duration || t.wrapped(dt).exhausted(),
    ensures
        t.advance(dt).in_pass() || (t.advance(dt).finished && t.advance(dt).progress().is_one()),
{
    if t.duration > 0 {
        let w = t.wrapped(dt);
        if w.exhausted() {
            lemma_budget_bounds(t);
            lemma_mod_bound(t.budget().unwrap(), t.duration as int);
        }
    }
}

/// Advancing by no time a second time changes nothing.
///
/// This is stated for timers whose progress is below two, and for those that
/// come to rest: a timer further into its pass than that has a pass taken
/// off by each advance, also by one of no time.
pub proof fn law_advance_zero_idempotent(t: TimerView)
    requires
        t.duration == 0 || t.elapsed < 2 * t.duration || t.wrapped(0).exhausted(),
    ensures
        t.advance(0).advance(0) == t.advance(0),
{
    if t.duration > 0 {
        let w = t.wrapped(0);
        if w.exhausted() {
            lemma_budget_bounds(t);
            lemma_rest_is_fixed(t, t.budget().unwrap());
        } else {
            assert(w.wrapped(0) == w);
        }
    }
}

/// A timer with a duration, within its pass and short of its budget, is not
/// changed at all by an advance of no time.
pub proof fn law_advance_zero_keeps(t: TimerView)
    requires
        t.duration > 0,
        t.in_pass(),
        !t.exhausted(),
    ensures
        t.advance(0) == t,
{
}

/// A timer of zero duration that plays at most once is finished after one
/// advance, whatever the time given, and nothing else about it has changed.
pub proof fn law_instant_stage_finishes(t: TimerView, dt: u64)
    requires
        t.duration == 0,
        t.repeat matches Repeat::Finite(n) && n <= 1,
    ensures
        t.advance(dt) == (TimerView { finished: true, ..t }),
{
}

/// A timer that was not finished is finished by an advance exactly if the
/// advance uses up its budget, and then it rests either on the whole passes
/// of the budget or on the budget itself.
pub proof fn law_finished_on_budget(t: TimerView, dt: u64)
    requires
        t.duration > 0,
        !t.finished,
    ensures
        t.advance(dt).finished <==> t.wrapped(dt).exhausted(),
        t.advance(dt).finished ==> {
            let r = t.advance(dt);
            let b = t.budget().unwrap();
            r.times * r.duration == b || r.consumed() == b
        },
{
    if t.wrapped(dt).exhausted() {
        let d = t.duration as int;
        let b = t.budget().unwrap();
        lemma_budget_bounds(t);
        lemma_fundamental_div_mod(b, d);
        lemma_mod_bound(b, d);
        vstd::arithmetic::div_mod::lemma_div_pos_is_pos(b, d);
        let r = t.advance(dt);
        assert(r.times * d == d * (b / d)) by (nonlinear_arith)
            requires
                r.times == b / d,
        ;
    }
}

/// The four baselines of two animators are the same.
pub open spec fn same_baselines(a: AnimatorView, b: AnimatorView) -> bool {
    &&& a.start_sprite == b.start_sprite
    &&& a.start_style == b.start_style
    &&& a.start_transform == b.start_transform
    &&& a.start_text == b.start_text
}

/// Settling the completion of a stage a second time changes nothing: the
/// deltas of a stage are committed at most once for each time it is played.
pub proof fn law_settled_once(a: AnimatorView)
    requires
        a.has_stage(),
    ensures
        a.settled().settled() == a.settled(),
{
}

/// A tick that finds the active stage finished and settled leaves the
/// baselines alone, under the strategies that do not play on in the same
/// tick.
pub proof fn law_settled_stage_keeps_baselines(a: AnimatorView, dt: u64)
    requires
        a.has_stage(),
        a.stage().timer.finished,
        a.stage().settled,
        !a.loops(),
    ensures
        same_baselines(a.tick(dt), a),
{
}

/// Under the strategy that pauses, a stage that finishes in one tick has its
/// deltas committed in that tick, once if it asks for that, and a second
/// tick after the pause has been lifted finds the same stage finished again
/// and commits nothing.
pub proof fn law_fold_exactly_once(a: AnimatorView, dt: u64, again: u64)
    requires
        a.loop_strategy == LoopStrategy::Once,
        !a.pause,
        a.has_stage(),
        !a.stage().settled,
        a.advanced(dt).stage().timer.finished,
    ensures
        ({
            let first = a.tick(dt);
            let second = (AnimatorView { pause: false, ..first }).tick(again);
            &&& same_baselines(
                first,
                if a.stage().retain_change {
                    a.committed()
                } else {
                    a
                },
            )
            &&& first.stage().settled
            &&& second == first
            &&& a.committed_in(dt) == if a.stage().retain_change {
                seq![a.exec_index]
            } else {
                Seq::<usize>::empty()
            }
            &&& (AnimatorView { pause: false, ..first }).committed_in(again) == Seq::<usize>::empty()
        }),
{
    let first = a.tick(dt);
    let lifted = AnimatorView { pause: false, ..first };
    assert(first == a.advanced(dt).settled().moved_on());
    assert(first.stage().timer.finished);
    assert(lifted.advanced(again) == lifted);
    assert(lifted.settled() == lifted);
    assert(lifted.tick(again) == lifted.moved_on());
    assert(lifted.moved_on() =~= first);
}

/// Under the strategy that pauses, the tick in which the active stage
/// finishes pauses the animator with that stage still active, and no later
/// tick changes the animator, so that what the property ticks render stays
/// the same. Where the stage has a duration and a budget of whole passes,
/// that is the rendering at a progress of exactly one.
pub proof fn law_once_pins(a: AnimatorView, dt: u64, later: u64)
    requires
        a.loop_strategy == LoopStrategy::Once,
        !a.pause,
        a.has_stage(),
        a.advanced(dt).stage().timer.finished,
    ensures
        ({
            let rest = a.tick(dt);
            &&& rest.pause
            &&& rest.exec_index == a.exec_index
            &&& rest.has_stage()
            &&& rest.stage().timer.finished
            &&& rest.tick(later) == rest
            &&& (!a.stage().timer.finished && a.stage().timer.duration > 0
                && a.stage().timer.repeat is Finite) ==> rest.stage().timer.progress().is_one()
        }),
{
    let t = a.stage().timer;
    if !t.finished && t.duration > 0 && t.repeat is Finite {
        lemma_budget_bounds(t);
    }
}

/// At a ratio of exactly one a property tick shows the baseline with the
/// whole delta added, in every field that the delta touches.
pub proof fn law_ratio_one_adds_delta(
    sprite: AniSprite,
    style: AniStyle,
    transform: AniTransform,
    stage: StageView,
    r: Ratio,
    live_sprite: Sprite,
    live_style: Style,
    live_transform: Transform,
)
    requires
        r.is_one(),
    ensures
        ({
            let shown = transform.rendered(stage.change_transform, r, live_transform);
            let sum = transform.plus(stage.change_transform);
            &&& !stage.change_transform.translation.is_zero() ==> shown.translation
                == sum.translation
            &&& !stage.change_transform.scale.is_zero() ==> shown.scale == sum.scale
        }),
        ({
            let shown = sprite.rendered(stage.change_sprite, r, live_sprite);
            let sum = sprite.plus(stage.change_sprite);
            &&& !stage.change_sprite.color.is_none() ==> shown.color == sum.color
            &&& !stage.change_sprite.size.is_zero() && live_sprite.custom_size is Some
                ==> shown.custom_size == Some(sum.size)
        }),
        ({
            let shown = style.rendered(stage.change_style, r, live_style);
            let sum = style.plus(stage.change_style);
            &&& stage.change_style.width != Val::Auto ==> shown.width == sum.width
            &&& stage.change_style.height != Val::Auto ==> shown.height == sum.height
            &&& stage.change_style.left != Val::Auto ==> shown.left == sum.left
            &&& stage.change_style.right != Val::Auto ==> shown.right == sum.right
            &&& stage.change_style.top != Val::Auto ==> shown.top == sum.top
            &&& stage.change_style.bottom != Val::Auto ==> shown.bottom == sum.bottom
        }),
{
    lemma_all_scaled_one(r);
}

/// At a ratio of zero, which is where every stage with a duration starts, a
/// property tick shows the baseline in every field that the delta touches.
pub proof fn law_ratio_zero_shows_baseline(
    sprite: AniSprite,
    style: AniStyle,
    transform: AniTransform,
    stage: StageView,
    r: Ratio,
    live_sprite: Sprite,
    live_style: Style,
    live_transform: Transform,
)
    requires
        r.is_zero(),
    ensures
        ({
            let shown = transform.rendered(stage.change_transform, r, live_transform);
            &&& !stage.change_transform.translation.is_zero() ==> shown.translation
                == transform.translation
            &&& !stage.change_transform.scale.is_zero() ==> shown.scale == transform.scale
        }),
        ({
            let shown = sprite.rendered(stage.change_sprite, r, live_sprite);
            &&& !stage.change_sprite.color.is_none() ==> shown.color == sprite.color
            &&& !stage.change_sprite.size.is_zero() && live_sprite.custom_size is Some
                ==> shown.custom_size == Some(sprite.size)
        }),
        ({
            let shown = style.rendered(stage.change_style, r, live_style);
            &&& stage.change_style.width != Val::Auto ==> shown.width == style.width
            &&& stage.change_style.height != Val::Auto ==> shown.height == style.height
            &&& stage.change_style.left != Val::Auto ==> shown.left == style.left
            &&& stage.change_style.right != Val::Auto ==> shown.right == style.right
            &&& stage.change_style.top != Val::Auto ==> shown.top == style.top
            &&& stage.change_style.bottom != Val::Auto ==> shown.bottom == style.bottom
        }),
{
    assert forall|delta: int| #[trigger] scaled(delta, r) == 0 by {
        lemma_scaled_zero(delta, r);
    }
}

/// One of a whole is the whole, for every delta.
proof fn lemma_all_scaled_one(r: Ratio)
    requires
        r.is_one(),
    ensures
        forall|delta: int| #[trigger] scaled(delta, r) == delta,
{
    assert forall|delta: int| #[trigger] scaled(delta, r) == delta by {
        lemma_scaled_one(delta, r);
    }
}

/// Under the strategy that plays every stage once, the tick in which the
/// last stage finishes puts the index behind the last stage.
pub proof fn law_all_once_ends(a: AnimatorView, dt: u64)
    requires
        a.wf(),
        a.loop_strategy == LoopStrategy::AllOnce,
        !a.pause,
        a.has_stage(),
        a.advanced(dt).stage().timer.finished,
    ensures
        a.tick(dt).exec_index == a.exec_index + 1,
        a.exec_index + 1 == a.animations.len() ==> !a.tick(dt).has_stage(),
{
}

/// An animator whose index is behind its last stage is not changed by a
/// timer tick, and its property ticks leave every live component as it is.
/// Once a kind's baseline has been taken, the property tick of that kind
/// does not change the animator either.
pub proof fn law_terminal_is_idle(
    a: AnimatorView,
    dt: u64,
    curve: Ratio,
    sprite: Sprite,
    style: Style,
    transform: Transform,
    text: Seq<AniText>,
)
    requires
        !a.has_stage(),
    ensures
        a.tick(dt) == a,
        a.sprite_rendered(sprite, curve) == sprite,
        a.style_rendered(style, curve) == style,
        a.transform_rendered(transform, curve) == transform,
        a.text_rendered(text, curve) == text,
        !a.init_sprite ==> a.sprite_captured(sprite) == a,
        !a.init_style ==> a.style_captured(style) == a,
        !a.init_transform ==> a.transform_captured(transform) == a,
        !a.init_text ==> a.text_captured(text) == a,
{
}

/// Whether adding `d` to `a` stays within the 64-bit range, and `e` takes
/// away what `d` adds.
pub open spec fn undoes(a: i64, d: i64, e: i64) -> bool {
    i64::MIN <= a + d <= i64::MAX && d + e == 0
}

/// [`undoes`] for each coordinate of a pair.
pub open spec fn vec2_undoes(a: Vec2, d: Vec2, e: Vec2) -> bool {
    undoes(a.x, d.x, e.x) && undoes(a.y, d.y, e.y)
}

/// [`undoes`] for each coordinate of a triple.
pub open spec fn vec3_undoes(a: Vec3, d: Vec3, e: Vec3) -> bool {
    undoes(a.x, d.x, e.x) && undoes(a.y, d.y, e.y) && undoes(a.z, d.z, e.z)
}

/// [`undoes`] for each channel of a colour.
pub open spec fn color_undoes(a: Color, d: Color, e: Color) -> bool {
    &&& undoes(a.red, d.red, e.red)
    &&& undoes(a.green, d.green, e.green)
    &&& undoes(a.blue, d.blue, e.blue)
    &&& undoes(a.alpha, d.alpha, e.alpha)
}

/// [`undoes`] for a length: the two deltas have one unit and opposite
/// amounts, and where the baseline has that unit too, the sum stays in
/// range.
pub open spec fn val_undoes(a: Val, d: Val, e: Val) -> bool {
    match (d, e) {
        (Val::Auto, Val::Auto) => true,
        (Val::Px(x), Val::Px(y)) => x + y == 0 && (a matches Val::Px(v) ==> undoes(v, x, y)),
        (Val::Percent(x), Val::Percent(y)) => x + y == 0 && (a matches Val::Percent(v) ==> undoes(
            v,
            x,
            y,
        )),
        (Val::Vw(x), Val::Vw(y)) => x + y == 0,
        (Val::Vh(x), Val::Vh(y)) => x + y == 0,
        (Val::VMin(x), Val::VMin(y)) => x + y == 0,
        (Val::VMax(x), Val::VMax(y)) => x + y == 0,
        _ => false,
    }
}

/// [`undoes`] for every field of the three payloads that are added up.
pub open spec fn stage_undoes(
    sprite: AniSprite,
    style: AniStyle,
    transform: AniTransform,
    d: StageView,
    e: StageView,
) -> bool {
    &&& color_undoes(sprite.color, d.change_sprite.color, e.change_sprite.color)
    &&& vec2_undoes(sprite.size, d.change_sprite.size, e.change_sprite.size)
    &&& val_undoes(style.width, d.change_style.width, e.change_style.width)
    &&& val_undoes(style.height, d.change_style.height, e.change_style.height)
    &&& val_undoes(style.left, d.change_style.left, e.change_style.left)
    &&& val_undoes(style.right, d.change_style.right, e.change_style.right)
    &&& val_undoes(style.top, d.change_style.top, e.change_style.top)
    &&& val_undoes(style.bottom, d.change_style.bottom, e.change_style.bottom)
    &&& vec3_undoes(
        transform.translation,
        d.change_transform.translation,
        e.change_transform.translation,
    )
    &&& vec3_undoes(transform.scale, d.change_transform.scale, e.change_transform.scale)
}

/// An animator that swings between two stages whose deltas undo each other,
/// seen at any moment of its run: it cycles through both stages, commits
/// their deltas, and its sprite, layout and transform baselines are those
/// given whenever the first stage is active, and those with the first
/// stage's deltas added whenever the second is.
pub open spec fn swings(
    a: AnimatorView,
    sprite: AniSprite,
    style: AniStyle,
    transform: AniTransform,
) -> bool {
    let d = a.animations[0];
    let e = a.animations[1];
    &&& a.animations.len() == 2
    &&& a.loop_strategy == LoopStrategy::LoopAll
    &&& a.exec_index < 2
    &&& d.retain_change && !d.settled
    &&& e.retain_change && !e.settled
    &&& stage_undoes(sprite, style, transform, d, e)
    &&& if a.exec_index == 0 {
        &&& a.start_sprite == sprite
        &&& a.start_style == style
        &&& a.start_transform == transform
    } else {
        &&& a.start_sprite == sprite.plus(d.change_sprite)
        &&& a.start_style == style.plus(d.change_style)
        &&& a.start_transform == transform.plus(d.change_transform)
    }
}

/// One tick keeps a swinging animator swinging, however many stages finish
/// in it.
proof fn lemma_swings_on(
    a: AnimatorView,
    sprite: AniSprite,
    style: AniStyle,
    transform: AniTransform,
    dt: u64,
    fuel: nat,
)
    requires
        swings(a, sprite, style, transform),
    ensures
        swings(a.tick_steps(dt, fuel), sprite, style, transform),
    decreases fuel,
{
    if !a.pause {
        let r = a.advanced(dt);
        assert(r.has_stage());
        if r.stage().timer.finished {
            let d = a.animations[0];
            let e = a.animations[1];
            let s = r.settled();
            let b = s.moved_on();
            lemma_undone(sprite, style, transform, d, e);
            assert(s == r.committed().with_stage(StageView { settled: true, ..r.stage() }));
            assert(r.animations.len() == 2);
            assert(s.animations.len() == 2);
            assert(s.exec_index == a.exec_index);
            assert(b.exec_index == ((s.exec_index + 1) % 2) as usize);
            assert(b.animations == crate::animator::all_restarted(s.animations));
            assert(b.animations[0] == s.animations[0].restarted());
            assert(b.animations[1] == s.animations[1].restarted());
            if a.exec_index == 0 {
                assert(b.exec_index == 1);
                assert(r.stage().change_sprite == d.change_sprite);
            } else {
                assert(b.exec_index == 0);
                assert(r.stage().change_sprite == e.change_sprite);
            }
            assert(swings(b, sprite, style, transform));
            if fuel > 0 {
                lemma_swings_on(b, sprite, style, transform, dt, (fuel - 1) as nat);
            }
        }
    }
}

/// Adding the deltas of one stage and then those of a stage that undoes it
/// gives back what one started with.
proof fn lemma_undone(
    sprite: AniSprite,
    style: AniStyle,
    transform: AniTransform,
    d: StageView,
    e: StageView,
)
    requires
        stage_undoes(sprite, style, transform, d, e),
    ensures
        sprite.plus(d.change_sprite).plus(e.change_sprite) == sprite,
        style.plus(d.change_style).plus(e.change_style) == style,
        transform.plus(d.change_transform).plus(e.change_transform) == transform,
{
    lemma_val_undone(style.width, d.change_style.width, e.change_style.width);
    lemma_val_undone(style.height, d.change_style.height, e.change_style.height);
    lemma_val_undone(style.left, d.change_style.left, e.change_style.left);
    lemma_val_undone(style.right, d.change_style.right, e.change_style.right);
    lemma_val_undone(style.top, d.change_style.top, e.change_style.top);
    lemma_val_undone(style.bottom, d.change_style.bottom, e.change_style.bottom);
}

/// Adding a length and then the opposite length gives back the first.
proof fn lemma_val_undone(a: Val, d: Val, e: Val)
    requires
        val_undoes(a, d, e),
    ensures
        a.plus(d).plus(e) == a,
{
}

/// Two stages whose deltas undo each other, committed in turn under the
/// strategy that cycles through all stages, bring the sprite, layout and
/// transform baselines back to where they were each time the first stage
/// comes round, for as long as the animator is ticked.
///
/// Stated as an invariant of the timer tick: see [`swings`]. It asks that no
/// sum leaves the 64-bit range, where it would stop at the end of the range
/// and the way back would end elsewhere.
pub proof fn law_opposite_stages_return(
    a: AnimatorView,
    sprite: AniSprite,
    style: AniStyle,
    transform: AniTransform,
    dt: u64,
)
    requires
        swings(a, sprite, style, transform),
    ensures
        swings(a.tick(dt), sprite, style, transform),
        a.tick(dt).exec_index == 0 ==> {
            &&& a.tick(dt).start_sprite == sprite
            &&& a.tick(dt).start_style == style
            &&& a.tick(dt).start_transform == transform
        },
{
    lemma_swings_on(a, sprite, style, transform, dt, a.animations.len());
}

/// A tick under a looping strategy leaves the animator playing: it is not
/// paused by it and still has an active stage.
proof fn lemma_loops_play_on(a: AnimatorView, dt: u64, fuel: nat)
    requires
        a.loops(),
        a.has_stage(),
        !a.pause,
    ensures
        a.tick_steps(dt, fuel).loops(),
        a.tick_steps(dt, fuel).has_stage(),
        !a.tick_steps(dt, fuel).pause,
        a.tick_steps(dt, fuel).animations.len() == a.animations.len(),
    decreases fuel,
{
    let r = a.advanced(dt);
    if r.stage().timer.finished {
        let s = r.settled();
        let b = s.moved_on();
        assert(s.animations.len() == a.animations.len());
        assert(s.exec_index == a.exec_index);
        if a.loop_strategy == LoopStrategy::LoopAll {
            vstd::arithmetic::div_mod::lemma_mod_bound(
                s.exec_index + 1,
                s.animations.len() as int,
            );
        }
        if fuel > 0 {
            lemma_loops_play_on(b, dt, (fuel - 1) as nat);
        }
    }
}

/// Under the strategies that loop, an animator that plays goes on playing for
/// as long as it is ticked: no tick pauses it or leaves it without an active
/// stage.
pub proof fn law_loops_never_stop(a: AnimatorView, dt: u64)
    requires
        a.loops(),
        a.has_stage(),
        !a.pause,
    ensures
        a.tick(dt).has_stage(),
        !a.tick(dt).pause,
{
    lemma_loops_play_on(a, dt, a.animations.len());
}

/// A paused animator is not changed by a timer tick.
pub proof fn law_paused_is_idle(a: AnimatorView, dt: u64)
    requires
        a.pause,
    ensures
        a.tick(dt) == a,
{
}

} // verus!
