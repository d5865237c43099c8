//! Stages and the animator that plays them.
//!
//! An [`Animator`] owns an ordered list of stages ([`Animation`]), the index
//! of the stage that is playing, a pause flag, a loop strategy and, for each
//! property kind, a baseline taken from the live component the first time
//! that kind is ticked. Each frame the owner of the animator ticks the
//! properties, which renders the active stage at its current progress, and
//! then ticks the timer, which advances the stage and moves on when it is
//! finished.

use vstd::prelude::*;
use crate::ease::EaseMethod;
use crate::label::{text_add, text_captured, text_copy_from, text_plus, text_render, text_rendered, AniText};
use crate::property::{
    lerp_color,
    lerp_val,
    lerp_vec2,
    lerp_vec3,
    AniSprite,
    AniStyle,
    AniTransform,
    Color,
    Sprite,
    Style,
    Transform,
    Val,
    Vec2,
    Vec3,
};
use crate::ratio::Ratio;
use crate::timer::{AniTimer, Repeat, TimerView};

verus! {

/// What happens when the active stage is finished.
#[derive(Clone, Copy, Debug, PartialEq, Eq, Structural)]
pub enum LoopStrategy {
    /// Go on to the next stage; after the last one, stop for good.
    AllOnce,
    /// Go on to the next stage, and from the last one to the first.
    LoopAll,
    /// Play the same stage again.
    LoopOne,
    /// Pause, with the finished stage still the active one.
    Once,
}

/// A kind of change with where it starts and what it adds, or a mere delay.
#[derive(Clone, Copy, Debug, PartialEq, Eq, Structural)]
pub enum AniType {
    Sprite(AniSprite, AniSprite),
    Style(AniStyle, AniStyle),
    Transform(AniTransform, AniTransform),
    Delay,
}

impl Default for AniType {
    fn default() -> (r: AniType)
        ensures
            r == AniType::Delay,
    {
        AniType::Delay
    }
}

impl Default for LoopStrategy {
    fn default() -> (r: LoopStrategy)
        ensures
            r == LoopStrategy::AllOnce,
    {
        LoopStrategy::AllOnce
    }
}

/// What a stage is: its timer, one delta for each property kind, its easing,
/// whether its deltas are committed to the baselines when it finishes, and
/// whether its completion has been dealt with already.
pub struct StageView {
    pub timer: TimerView,
    pub change_sprite: AniSprite,
    pub change_style: AniStyle,
    pub change_transform: AniTransform,
    pub change_text: Seq<AniText>,
    pub ease_method: EaseMethod,
    pub retain_change: bool,
    pub settled: bool,
}

impl StageView {
    /// The stage ready to play from its start.
    pub open spec fn restarted(self) -> StageView {
        StageView { timer: self.timer.reset(), settled: false, ..self }
    }

    /// The stage after `dt` more units of time.
    pub open spec fn advanced(self, dt: u64) -> StageView {
        StageView { timer: self.timer.advance(dt), ..self }
    }

    /// The ratio the stage's deltas are applied with, where `curve` is the
    /// value of the stage's curve at its progress.
    pub open spec fn ratio(self, curve: Ratio) -> Ratio {
        self.ease_method.eased(self.timer.progress(), curve)
    }
}

/// Every stage of `stages` ready to play from its start.
pub open spec fn all_restarted(stages: Seq<StageView>) -> Seq<StageView> {
    Seq::new(stages.len(), |i: int| stages[i].restarted())
}

/// What an animator is.
///
/// A baseline is taken when its kind is ticked while the kind's `init_` flag
/// is set; taking it clears the flag.
pub struct AnimatorView {
    pub exec_index: usize,
    pub pause: bool,
    pub loop_strategy: LoopStrategy,
    pub start_sprite: AniSprite,
    pub start_style: AniStyle,
    pub start_transform: AniTransform,
    pub start_text: Seq<AniText>,
    pub init_sprite: bool,
    pub init_transform: bool,
    pub init_style: bool,
    pub init_text: bool,
    pub animations: Seq<StageView>,
}

impl AnimatorView {
    /// Whether the stages are no more than a machine can count. This holds of
    /// what every [`Animator`] is.
    pub open spec fn wf(self) -> bool {
        self.animations.len() <= usize::MAX
    }

    /// Whether a stage is active: the index has not run past the last stage.
    pub open spec fn has_stage(self) -> bool {
        self.exec_index < self.animations.len()
    }

    /// The active stage.
    pub open spec fn stage(self) -> StageView
        recommends
            self.has_stage(),
    {
        self.animations[self.exec_index as int]
    }

    /// The animator with `s` in the place of the active stage.
    pub open spec fn with_stage(self, s: StageView) -> AnimatorView
        recommends
            self.has_stage(),
    {
        AnimatorView { animations: self.animations.update(self.exec_index as int, s), ..self }
    }

    /// The animator after its active stage has been given `dt` more units of
    /// time. A stage that was finished already is not advanced again.
    pub open spec fn advanced(self, dt: u64) -> AnimatorView
        recommends
            self.has_stage(),
    {
        if self.stage().timer.finished {
            self
        } else {
            self.with_stage(self.stage().advanced(dt))
        }
    }

    /// The baselines with the deltas of the active stage added.
    pub open spec fn committed(self) -> AnimatorView
        recommends
            self.has_stage(),
    {
        let s = self.stage();
        AnimatorView {
            start_sprite: self.start_sprite.plus(s.change_sprite),
            start_style: self.start_style.plus(s.change_style),
            start_transform: self.start_transform.plus(s.change_transform),
            start_text: text_plus(self.start_text, s.change_text),
            ..self
        }
    }

    /// The animator after the completion of its active stage has been dealt
    /// with. The first time, the stage is marked, and where it asks for
    /// that, its deltas are committed to the baselines; a stage that is
    /// marked already changes nothing.
    pub open spec fn settled(self) -> AnimatorView
        recommends
            self.has_stage(),
    {
        let s = self.stage();
        if s.settled {
            self
        } else if s.retain_change {
            self.committed().with_stage(StageView { settled: true, ..s })
        } else {
            self.with_stage(StageView { settled: true, ..s })
        }
    }

    /// The animator after it has left a finished stage as its strategy says.
    pub open spec fn moved_on(self) -> AnimatorView
        recommends
            self.has_stage(),
    {
        match self.loop_strategy {
            LoopStrategy::AllOnce => AnimatorView {
                exec_index: (self.exec_index + 1) as usize,
                ..self
            },
            LoopStrategy::LoopAll => AnimatorView {
                exec_index: ((self.exec_index + 1) % (self.animations.len() as int)) as usize,
                animations: all_restarted(self.animations),
                ..self
            },
            LoopStrategy::LoopOne => self.with_stage(self.stage().restarted()),
            LoopStrategy::Once => AnimatorView { pause: true, ..self },
        }
    }

    /// Whether the strategy plays on in the same tick after a stage has
    /// finished.
    pub open spec fn loops(self) -> bool {
        self.loop_strategy == LoopStrategy::LoopAll || self.loop_strategy == LoopStrategy::LoopOne
    }

    /// The animator after a tick of `dt` units in which at most `fuel`
    /// further stages are started.
    ///
    /// A paused animator, and one whose index is past the last stage, stays
    /// as it is. Otherwise the active stage is advanced, unless it was
    /// finished already. If it is finished now, its completion is settled
    /// and the animator moves on; under a looping strategy the stage that is
    /// active then is ticked in turn, with the same `dt`, while fuel lasts.
    pub open spec fn tick_steps(self, dt: u64, fuel: nat) -> AnimatorView
        decreases fuel,
    {
        if self.pause || !self.has_stage() {
            self
        } else {
            let a = self.advanced(dt);
            if !a.stage().timer.finished {
                a
            } else {
                let b = a.settled().moved_on();
                if b.loops() && fuel > 0 {
                    b.tick_steps(dt, (fuel - 1) as nat)
                } else {
                    b
                }
            }
        }
    }

    /// The animator after a tick of `dt` units. Under a looping strategy one
    /// tick starts at most as many further stages as the animator has.
    pub open spec fn tick(self, dt: u64) -> AnimatorView {
        self.tick_steps(dt, self.animations.len())
    }

    /// Whether settling the active stage commits its deltas.
    pub open spec fn commits(self) -> bool
        recommends
            self.has_stage(),
    {
        !self.stage().settled && self.stage().retain_change
    }

    /// The stages whose deltas are committed to the baselines by
    /// [`Self::tick_steps`], by index, in the order in which that happens.
    pub open spec fn committed_steps(self, dt: u64, fuel: nat) -> Seq<usize>
        decreases fuel,
    {
        if self.pause || !self.has_stage() {
            Seq::empty()
        } else {
            let a = self.advanced(dt);
            if !a.stage().timer.finished {
                Seq::empty()
            } else {
                let first = if a.commits() {
                    seq![a.exec_index]
                } else {
                    Seq::empty()
                };
                let b = a.settled().moved_on();
                if b.loops() && fuel > 0 {
                    first + b.committed_steps(dt, (fuel - 1) as nat)
                } else {
                    first
                }
            }
        }
    }

    /// The stages whose deltas are committed to the baselines by a tick of
    /// `dt` units, by index, in the order in which that happens.
    pub open spec fn committed_in(self, dt: u64) -> Seq<usize> {
        self.committed_steps(dt, self.animations.len())
    }

    /// The ratio the active stage's deltas are applied with.
    pub open spec fn ratio(self, curve: Ratio) -> Ratio
        recommends
            self.has_stage(),
    {
        self.stage().ratio(curve)
    }

    /// The animator after the sprite baseline has been taken from `live`,
    /// where it was due.
    pub open spec fn sprite_captured(self, live: Sprite) -> AnimatorView {
        if self.init_sprite {
            AnimatorView {
                start_sprite: self.start_sprite.captured(live),
                init_sprite: false,
                ..self
            }
        } else {
            self
        }
    }

    /// What a sprite shows after a property tick.
    pub open spec fn sprite_rendered(self, live: Sprite, curve: Ratio) -> Sprite {
        let a = self.sprite_captured(live);
        if a.has_stage() {
            a.start_sprite.rendered(a.stage().change_sprite, a.ratio(curve), live)
        } else {
            live
        }
    }

    /// The animator after the layout baseline has been taken from `live`,
    /// where it was due.
    pub open spec fn style_captured(self, live: Style) -> AnimatorView {
        if self.init_style {
            AnimatorView { start_style: AniStyle::captured(live), init_style: false, ..self }
        } else {
            self
        }
    }

    /// What a layout box shows after a property tick.
    pub open spec fn style_rendered(self, live: Style, curve: Ratio) -> Style {
        let a = self.style_captured(live);
        if a.has_stage() {
            a.start_style.rendered(a.stage().change_style, a.ratio(curve), live)
        } else {
            live
        }
    }

    /// The animator after the transform baseline has been taken from `live`,
    /// where it was due.
    pub open spec fn transform_captured(self, live: Transform) -> AnimatorView {
        if self.init_transform {
            AnimatorView {
                start_transform: AniTransform::captured(live),
                init_transform: false,
                ..self
            }
        } else {
            self
        }
    }

    /// What a transform shows after a property tick.
    pub open spec fn transform_rendered(self, live: Transform, curve: Ratio) -> Transform {
        let a = self.transform_captured(live);
        if a.has_stage() {
            a.start_transform.rendered(a.stage().change_transform, a.ratio(curve), live)
        } else {
            live
        }
    }

    /// The animator after the label baseline has been taken from `live`,
    /// where it was due.
    pub open spec fn text_captured(self, live: Seq<AniText>) -> AnimatorView {
        if self.init_text {
            AnimatorView {
                start_text: text_captured(self.start_text, live),
                init_text: false,
                ..self
            }
        } else {
            self
        }
    }

    /// What a label shows after a property tick.
    pub open spec fn text_rendered(self, live: Seq<AniText>, curve: Ratio) -> Seq<AniText> {
        let a = self.text_captured(live);
        if a.has_stage() {
            text_rendered(a.start_text, a.stage().change_text, a.ratio(curve), live)
        } else {
            live
        }
    }
}

/// One stage of an animation: a timed move of some fields by some deltas.
pub struct Animation {
    timer: AniTimer,
    change_sprite: AniSprite,
    change_style: AniStyle,
    change_transform: AniTransform,
    change_text: Vec<AniText>,
    ease_method: EaseMethod,
    retain_change: bool,
    settled: bool,
}

impl View for Animation {
    type V = StageView;

    closed spec fn view(&self) -> StageView {
        StageView {
            timer: self.timer@,
            change_sprite: self.change_sprite,
            change_style: self.change_style,
            change_transform: self.change_transform,
            change_text: self.change_text@,
            ease_method: self.ease_method,
            retain_change: self.retain_change,
            settled: self.settled,
        }
    }
}

/// The stages of a list, each as what it is.
pub closed spec fn stage_views(stages: Seq<Animation>) -> Seq<StageView> {
    Seq::new(stages.len(), |i: int| stages[i]@)
}

/// Plays a list of stages on the properties of one entity.
pub struct Animator {
    exec_index: usize,
    pause: bool,
    loop_strategy: LoopStrategy,
    start_sprite: AniSprite,
    start_style: AniStyle,
    start_transform: AniTransform,
    start_text: Vec<AniText>,
    init_sprite: bool,
    init_transform: bool,
    init_style: bool,
    init_text: bool,
    animations: Vec<Animation>,
}

impl View for Animator {
    type V = AnimatorView;

    closed spec fn view(&self) -> AnimatorView {
        AnimatorView {
            exec_index: self.exec_index,
            pause: self.pause,
            loop_strategy: self.loop_strategy,
            start_sprite: self.start_sprite,
            start_style: self.start_style,
            start_transform: self.start_transform,
            start_text: self.start_text@,
            init_sprite: self.init_sprite,
            init_transform: self.init_transform,
            init_style: self.init_style,
            init_text: self.init_text,
            animations: stage_views(self.animations@),
        }
    }
}

impl Animator {
    /// What an animator is has a countable number of stages.
    pub proof fn lemma_view_wf(&self)
        ensures
            self@.wf(),
    {
        assert(self.animations.len() == self.animations@.len());
    }

    /// Puts every stage back to its start.
    fn reset_all(&mut self)
        ensures
            final(self)@ == (AnimatorView {
                animations: all_restarted(old(self)@.animations),
                ..old(self)@
            }),
    {
        let mut i: usize = 0;
        while i < self.animations.len()
            invariant
                i <= self.animations.len(),
                self.animations.len() == old(self).animations.len(),
                self@ == (AnimatorView { animations: self@.animations, ..old(self)@ }),
                forall|j: int| 0 <= j < i ==> self.animations[j]@ == old(self).animations[j]@.restarted(),
                forall|j: int|
                    i <= j < self.animations.len() ==> self.animations[j] == old(self).animations[j],
            decreases self.animations.len() - i,
        {
            self.animations[i].timer.reset();
            self.animations[i].settled = false;
            i += 1;
        }
        assert(self@.animations =~= all_restarted(old(self)@.animations));
    }

    /// Deals with the completion of the active stage, and says whether its
    /// deltas were committed.
    fn settle(&mut self) -> (committed: bool)
        requires
            old(self)@.has_stage(),
        ensures
            final(self)@ == old(self)@.settled(),
            committed == old(self)@.commits(),
    {
        let index = self.exec_index;
        let committed = !self.animations[index].settled && self.animations[index].retain_change;
        if !self.animations[index].settled {
            if self.animations[index].retain_change {
                self.start_sprite = self.start_sprite.add(self.animations[index].change_sprite);
                self.start_style = self.start_style.add(self.animations[index].change_style);
                self.start_transform = self.start_transform.add(
                    self.animations[index].change_transform,
                );
                text_add(&mut self.start_text, &self.animations[index].change_text);
            }
            self.animations[index].settled = true;
            assert(self@.animations =~= old(self)@.animations.update(
                index as int,
                StageView { settled: true, ..old(self)@.stage() },
            ));
        }
        committed
    }

    /// Leaves the finished active stage as the strategy says.
    fn move_on(&mut self)
        requires
            old(self)@.has_stage(),
        ensures
            final(self)@ == old(self)@.moved_on(),
    {
        let len = self.animations.len();
        assert(self.exec_index < len);
        match self.loop_strategy {
            LoopStrategy::AllOnce => {
                self.exec_index = self.exec_index + 1;
            },
            LoopStrategy::LoopAll => {
                self.exec_index = (self.exec_index + 1) % len;
                self.reset_all();
            },
            LoopStrategy::LoopOne => {
                let index = self.exec_index;
                self.animations[index].timer.reset();
                self.animations[index].settled = false;
                assert(self@.animations =~= old(self)@.animations.update(
                    index as int,
                    old(self)@.stage().restarted(),
                ));
            },
            LoopStrategy::Once => {
                self.pause = true;
            },
        }
    }

    /// Whether the animator is neither paused nor past its last stage.
    fn is_playing(&self) -> (r: bool)
        ensures
            r == (!self@.pause && self@.has_stage()),
    {
        !self.pause && self.exec_index < self.animations.len()
    }

    /// Whether the active stage is finished.
    fn stage_finished(&self) -> (r: bool)
        requires
            self@.has_stage(),
        ensures
            r == self@.stage().timer.finished,
    {
        self.animations[self.exec_index].timer.is_finish()
    }

    /// Advances the active stage, unless it is finished already.
    fn advance_stage(&mut self, delta: u64)
        requires
            old(self)@.has_stage(),
        ensures
            final(self)@ == old(self)@.advanced(delta),
    {
        let index = self.exec_index;
        if !self.animations[index].timer.is_finish() {
            self.animations[index].timer.tick(delta);
            assert(self@.animations =~= old(self)@.animations.update(
                index as int,
                old(self)@.stage().advanced(delta),
            ));
        }
    }

    /// Whether the strategy plays on in the same tick.
    fn loops(&self) -> (r: bool)
        ensures
            r == self@.loops(),
    {
        match self.loop_strategy {
            LoopStrategy::LoopAll => true,
            LoopStrategy::LoopOne => true,
            _ => false,
        }
    }

    /// One tick in which at most `fuel` further stages are started.
    fn tick_steps(&mut self, delta: u64, fuel: usize, log: &mut Vec<usize>)
        ensures
            final(self)@ == old(self)@.tick_steps(delta, fuel as nat),
            final(log)@ == old(log)@ + old(self)@.committed_steps(delta, fuel as nat),
        decreases fuel,
    {
        if self.is_playing() {
            self.advance_stage(delta);
            if self.stage_finished() {
                let index = self.exec_index;
                if self.settle() {
                    log.push(index);
                }
                self.move_on();
                if self.loops() && fuel > 0 {
                    self.tick_steps(delta, fuel - 1, log);
                }
            }
        }
        assert(log@ =~= old(log)@ + old(self)@.committed_steps(delta, fuel as nat));
    }

    /// Lets `delta` units of time pass for the animator: the timer tick of
    /// one frame.
    ///
    /// Returns the stages whose deltas were committed to the baselines in
    /// this tick, by index, in the order in which that happened.
    pub fn tick(&mut self, delta: u64) -> (committed: Vec<usize>)
        ensures
            final(self)@ == old(self)@.tick(delta),
            committed@ == old(self)@.committed_in(delta),
    {
        let fuel = self.animations.len();
        let mut log: Vec<usize> = Vec::new();
        self.tick_steps(delta, fuel, &mut log);
        assert(log@ =~= old(self)@.committed_in(delta));
        log
    }

    /// The ratio the active stage's deltas are applied with.
    fn stage_ratio(&self, curve: Ratio) -> (r: Ratio)
        requires
            self@.has_stage(),
        ensures
            r == self@.ratio(curve),
    {
        let animation = &self.animations[self.exec_index];
        animation.ease_method.tick(animation.timer.progress(), curve)
    }

    /// Renders the active stage on a sprite: the property tick of one frame
    /// for the appearance kind.
    ///
    /// The first tick takes the sprite as the baseline. With a stage active,
    /// each field whose delta is not zero is set to the baseline moved by
    /// the stage's ratio; with none, the sprite is left as it is. `curve` is
    /// the value of the active stage's curve at its progress; a linear stage
    /// does not use it.
    pub fn tick_sprite(&mut self, sprite: &mut Sprite, curve: Ratio)
        ensures
            final(self)@ == old(self)@.sprite_captured(*old(sprite)),
            *final(sprite) == old(self)@.sprite_rendered(*old(sprite), curve),
    {
        if self.init_sprite {
            self.start_sprite.copy_from(sprite);
            self.init_sprite = false;
        }
        if self.exec_index < self.animations.len() {
            let ratio = self.stage_ratio(curve);
            let change = self.animations[self.exec_index].change_sprite;
            if change.size != Vec2::zero() {
                if sprite.custom_size.is_some() {
                    sprite.custom_size = Some(lerp_vec2(self.start_sprite.size, change.size, ratio));
                }
            }
            if change.color != Color::none() {
                sprite.color = lerp_color(self.start_sprite.color, change.color, ratio);
            }
        }
    }

    /// Renders the active stage on a layout box: the property tick of one
    /// frame for the layout kind.
    ///
    /// The first tick takes the box as the baseline. With a stage active,
    /// each length whose delta is not [`Val::Auto`] is set to the baseline
    /// moved by the stage's ratio; with none, the box is left as it is.
    /// `curve` is the value of the active stage's curve at its progress; a
    /// linear stage does not use it.
    pub fn tick_style(&mut self, style: &mut Style, curve: Ratio)
        ensures
            final(self)@ == old(self)@.style_captured(*old(style)),
            *final(style) == old(self)@.style_rendered(*old(style), curve),
    {
        if self.init_style {
            self.start_style.copy_from(style);
            self.init_style = false;
        }
        if self.exec_index < self.animations.len() {
            let ratio = self.stage_ratio(curve);
            let change = self.animations[self.exec_index].change_style;
            if change.width != Val::Auto {
                style.width = lerp_val(self.start_style.width, change.width, ratio);
            }
            if change.height != Val::Auto {
                style.height = lerp_val(self.start_style.height, change.height, ratio);
            }
            if change.left != Val::Auto {
                style.left = lerp_val(self.start_style.left, change.left, ratio);
            }
            if change.right != Val::Auto {
                style.right = lerp_val(self.start_style.right, change.right, ratio);
            }
            if change.top != Val::Auto {
                style.top = lerp_val(self.start_style.top, change.top, ratio);
            }
            if change.bottom != Val::Auto {
                style.bottom = lerp_val(self.start_style.bottom, change.bottom, ratio);
            }
        }
    }

    /// Renders the active stage on a transform: the property tick of one
    /// frame for the positional kind.
    ///
    /// The first tick takes the transform as the baseline. With a stage
    /// active, each vector whose delta is not zero is set to the baseline
    /// moved by the stage's ratio; with none, the transform is left as it
    /// is. `curve` is the value of the active stage's curve at its progress;
    /// a linear stage does not use it.
    pub fn tick_transform(&mut self, transform: &mut Transform, curve: Ratio)
        ensures
            final(self)@ == old(self)@.transform_captured(*old(transform)),
            *final(transform) == old(self)@.transform_rendered(*old(transform), curve),
    {
        if self.init_transform {
            self.start_transform.copy_from(transform);
            self.init_transform = false;
        }
        if self.exec_index < self.animations.len() {
            let ratio = self.stage_ratio(curve);
            let change = self.animations[self.exec_index].change_transform;
            if change.translation != Vec3::zero() {
                transform.translation = lerp_vec3(
                    self.start_transform.translation,
                    change.translation,
                    ratio,
                );
            }
            if change.scale != Vec3::zero() {
                transform.scale = lerp_vec3(self.start_transform.scale, change.scale, ratio);
            }
        }
    }

    /// Renders the active stage on a label: the property tick of one frame
    /// for the label kind.
    ///
    /// The first tick takes the label's segments as the baseline. With a
    /// stage active, each segment that the stage's delta, the baseline and
    /// the label all have gets the stage's text at once, and its size and
    /// colour, where their delta is not zero, are set to the baseline moved
    /// by the stage's ratio; with none, the label is left as it is. `curve`
    /// is the value of the active stage's curve at its progress; a linear
    /// stage does not use it.
    pub fn tick_text(&mut self, text: &mut Vec<AniText>, curve: Ratio)
        ensures
            final(self)@ == old(self)@.text_captured(old(text)@),
            final(text)@ == old(self)@.text_rendered(old(text)@, curve),
    {
        if self.init_text {
            text_copy_from(&mut self.start_text, text);
            self.init_text = false;
        }
        if self.exec_index < self.animations.len() {
            let ratio = self.stage_ratio(curve);
            text_render(&self.start_text, &self.animations[self.exec_index].change_text, ratio, text);
        }
    }

    /// The number of stages.
    pub fn get_animations_len(&self) -> (r: usize)
        ensures
            r == self@.animations.len(),
    {
        self.animations.len()
    }

    /// The index of the active stage. An index behind the last stage means
    /// that no stage is active.
    pub fn get_exec_index(&self) -> (r: usize)
        ensures
            r == self@.exec_index,
    {
        self.exec_index
    }

    /// Whether the animator is paused.
    pub fn get_pause(&self) -> (r: bool)
        ensures
            r == self@.pause,
    {
        self.pause
    }

    /// Whether the active stage is finished. With no stage active there is
    /// nothing left to finish, and the answer is yes.
    pub fn get_is_finish(&self) -> (r: bool)
        ensures
            r == (!self@.has_stage() || self@.stage().timer.finished),
    {
        if self.exec_index < self.animations.len() {
            self.animations[self.exec_index].timer.is_finish()
        } else {
            true
        }
    }

    /// The sprite baseline.
    pub fn get_start_sprite(&self) -> (r: AniSprite)
        ensures
            r == self@.start_sprite,
    {
        self.start_sprite
    }

    /// The layout baseline.
    pub fn get_start_style(&self) -> (r: AniStyle)
        ensures
            r == self@.start_style,
    {
        self.start_style
    }

    /// The transform baseline.
    pub fn get_start_transform(&self) -> (r: AniTransform)
        ensures
            r == self@.start_transform,
    {
        self.start_transform
    }

    /// The label baseline.
    pub fn get_start_text(&self) -> (r: &Vec<AniText>)
        ensures
            r@ == self@.start_text,
    {
        &self.start_text
    }

    /// The stage at `index`, where there is one.
    pub fn get_animation(&self, index: usize) -> (r: Option<&Animation>)
        ensures
            match r {
                Some(stage) => index < self@.animations.len() && stage@ == self@.animations[index as int],
                None => index >= self@.animations.len(),
            },
    {
        if index < self.animations.len() {
            Some(&self.animations[index])
        } else {
            None
        }
    }

    /// The easing and the progress of the active stage, where there is one:
    /// what a caller needs to work out the `curve` of the property ticks.
    pub fn active_ease(&self) -> (r: Option<(EaseMethod, Ratio)>)
        ensures
            match r {
                Some((ease, progress)) => {
                    &&& self@.has_stage()
                    &&& ease == self@.stage().ease_method
                    &&& progress == self@.stage().timer.progress()
                },
                None => !self@.has_stage(),
            },
    {
        if self.exec_index < self.animations.len() {
            let animation = &self.animations[self.exec_index];
            Some((animation.ease_method, animation.timer.progress()))
        } else {
            None
        }
    }

    /// Jumps to the stage at `index` and plays: the stage that was active,
    /// if there was one, is put back to its start, and the pause is lifted.
    pub fn exec_index(&mut self, index: usize) -> (r: &mut Animator)
        requires
            index < old(self)@.animations.len(),
        ensures
            *final(self) == *final(r),
            r@ == (AnimatorView {
                exec_index: index,
                pause: false,
                animations: if old(self)@.has_stage() {
                    old(self)@.animations.update(
                        old(self)@.exec_index as int,
                        old(self)@.stage().restarted(),
                    )
                } else {
                    old(self)@.animations
                },
                ..old(self)@
            }),
    {
        if self.exec_index < self.animations.len() {
            let active = self.exec_index;
            self.animations[active].timer.reset();
            self.animations[active].settled = false;
            assert(self@.animations =~= old(self)@.animations.update(
                active as int,
                old(self)@.stage().restarted(),
            ));
        }
        self.exec_index = index;
        self.pause = false;
        self
    }

    /// Makes the following stage the active one and lifts the pause. No
    /// timer is touched.
    pub fn exec_next(&mut self) -> (r: &mut Animator)
        requires
            old(self)@.exec_index < usize::MAX,
        ensures
            *final(self) == *final(r),
            r@ == (AnimatorView {
                exec_index: (old(self)@.exec_index + 1) as usize,
                pause: false,
                ..old(self)@
            }),
    {
        self.exec_index += 1;
        self.pause = false;
        self
    }

    /// Appends a stage and hands it out to be set up. The new stage takes no
    /// time, plays once, is linear and moves nothing.
    pub fn add_change(&mut self) -> (r: &mut Animation)
        ensures
            r@ == Animation::fresh(),
            final(self)@ == (AnimatorView {
                animations: old(self)@.animations.push(final(r)@),
                ..old(self)@
            }),
    {
        self.animations.push(Animation::default());
        let last = self.animations.len() - 1;
        proof {
            let ghost before = old(self)@.animations;
            assert forall|s: Animation| #![auto]
                stage_views(self.animations@.update(last as int, s)) =~= before.push(s@) by {}
        }
        &mut self.animations[last]
    }

    /// Asks for the transform baseline to be taken anew at the next tick of
    /// a transform.
    pub fn retain_transform(&mut self) -> (r: &mut Animator)
        ensures
            *final(self) == *final(r),
            r@ == (AnimatorView { init_transform: true, ..old(self)@ }),
    {
        self.init_transform = true;
        self
    }

    /// Asks for the layout baseline to be taken anew at the next tick of a
    /// layout box.
    pub fn retain_style(&mut self) -> (r: &mut Animator)
        ensures
            *final(self) == *final(r),
            r@ == (AnimatorView { init_style: true, ..old(self)@ }),
    {
        self.init_style = true;
        self
    }

    /// Asks for the sprite baseline to be taken anew at the next tick of a
    /// sprite.
    pub fn retain_sprite(&mut self) -> (r: &mut Animator)
        ensures
            *final(self) == *final(r),
            r@ == (AnimatorView { init_sprite: true, ..old(self)@ }),
    {
        self.init_sprite = true;
        self
    }

    /// Sets what happens when the active stage is finished.
    pub fn set_loop_strategy(&mut self, strategy: LoopStrategy) -> (r: &mut Animator)
        ensures
            *final(self) == *final(r),
            r@ == (AnimatorView { loop_strategy: strategy, ..old(self)@ }),
    {
        self.loop_strategy = strategy;
        self
    }

    /// Pauses the animator or lets it play. No timer is touched.
    pub fn set_pause(&mut self, pause: bool) -> (r: &mut Animator)
        ensures
            *final(self) == *final(r),
            r@ == (AnimatorView { pause, ..old(self)@ }),
    {
        self.pause = pause;
        self
    }

    /// Makes the stage at `index` the active one. Nothing else is touched;
    /// an index behind the last stage leaves no stage active.
    pub fn set_exec_index(&mut self, index: usize) -> (r: &mut Animator)
        ensures
            *final(self) == *final(r),
            r@ == (AnimatorView { exec_index: index, ..old(self)@ }),
    {
        self.exec_index = index;
        self
    }
}

impl Animator {
    /// What an animator is before it has been set up: no stages, not paused,
    /// every stage to be played once, each baseline at its rest value and to
    /// be taken at the first tick of its kind.
    pub open spec fn fresh() -> AnimatorView {
        AnimatorView {
            exec_index: 0,
            pause: false,
            loop_strategy: LoopStrategy::AllOnce,
            start_sprite: AniSprite {
                color: Color { red: 0, green: 0, blue: 0, alpha: 0 },
                size: Vec2 { x: 0, y: 0 },
            },
            start_style: AniStyle {
                width: Val::Auto,
                height: Val::Auto,
                left: Val::Auto,
                right: Val::Auto,
                top: Val::Auto,
                bottom: Val::Auto,
            },
            start_transform: AniTransform {
                translation: Vec3 { x: 0, y: 0, z: 0 },
                scale: Vec3 { x: 0, y: 0, z: 0 },
            },
            start_text: Seq::empty(),
            init_sprite: true,
            init_transform: true,
            init_style: true,
            init_text: true,
            animations: Seq::empty(),
        }
    }
}

impl Default for Animator {
    /// An animator without stages that plays every stage once and takes each
    /// baseline at the first tick of its kind.
    fn default() -> (r: Animator)
        ensures
            r@ == Animator::fresh(),
    {
        let r = Animator {
            exec_index: 0,
            pause: false,
            loop_strategy: LoopStrategy::AllOnce,
            start_sprite: AniSprite::default(),
            start_style: AniStyle::default(),
            start_transform: AniTransform::default(),
            start_text: Vec::new(),
            init_sprite: true,
            init_transform: true,
            init_style: true,
            init_text: true,
            animations: Vec::new(),
        };
        assert(r@.start_text =~= Seq::<AniText>::empty());
        assert(r@.animations =~= Seq::<StageView>::empty());
        r
    }
}

impl Default for Animation {
    fn default() -> (r: Animation)
        ensures
            r@ == Animation::fresh(),
    {
        Animation {
            timer: AniTimer::default(),
            change_sprite: AniSprite::default(),
            change_style: AniStyle::default(),
            change_transform: AniTransform::default(),
            change_text: Vec::new(),
            ease_method: EaseMethod::Linear,
            retain_change: false,
            settled: false,
        }
    }
}

impl Animation {
    /// What a stage is before it has been set up.
    pub open spec fn fresh() -> StageView {
        StageView {
            timer: TimerView {
                duration: 0,
                elapsed: 0,
                times: 0,
                repeat: Repeat::Finite(1),
                finished: false,
            },
            change_sprite: AniSprite {
                color: Color { red: 0, green: 0, blue: 0, alpha: 0 },
                size: Vec2 { x: 0, y: 0 },
            },
            change_style: AniStyle {
                width: Val::Auto,
                height: Val::Auto,
                left: Val::Auto,
                right: Val::Auto,
                top: Val::Auto,
                bottom: Val::Auto,
            },
            change_transform: AniTransform {
                translation: Vec3 { x: 0, y: 0, z: 0 },
                scale: Vec3 { x: 0, y: 0, z: 0 },
            },
            change_text: Seq::empty(),
            ease_method: EaseMethod::Linear,
            retain_change: false,
            settled: false,
        }
    }

    /// The timer of the stage.
    pub fn get_timer(&self) -> (r: &AniTimer)
        ensures
            r@ == self@.timer,
    {
        &self.timer
    }

    /// Sets whether the deltas of the stage are committed to the baselines
    /// when it finishes.
    pub fn set_retain_change(&mut self, retain: bool) -> (r: &mut Animation)
        ensures
            *final(self) == *final(r),
            r@ == (StageView { retain_change: retain, ..old(self)@ }),
    {
        self.retain_change = retain;
        self
    }

    /// Sets how often the stage plays.
    pub fn set_repeat(&mut self, repeat: Repeat) -> (r: &mut Animation)
        ensures
            *final(self) == *final(r),
            r@ == (StageView { timer: TimerView { repeat, ..old(self)@.timer }, ..old(self)@ }),
    {
        self.timer.set_repeat(repeat);
        self
    }

    /// Sets the length of one pass of the stage.
    pub fn set_duration(&mut self, duration: u64) -> (r: &mut Animation)
        ensures
            *final(self) == *final(r),
            r@ == (StageView { timer: TimerView { duration, ..old(self)@.timer }, ..old(self)@ }),
    {
        self.timer.set_duration(duration);
        self
    }

    /// Sets the easing of the stage.
    pub fn set_ease(&mut self, ease: EaseMethod) -> (r: &mut Animation)
        ensures
            *final(self) == *final(r),
            r@ == (StageView { ease_method: ease, ..old(self)@ }),
    {
        self.ease_method = ease;
        self
    }

    /// Sets the change of a sprite's size and colour.
    pub fn set_sprite(&mut self, size: Vec2, color: Color) -> (r: &mut Animation)
        ensures
            *final(self) == *final(r),
            r@ == (StageView { change_sprite: AniSprite { color, size }, ..old(self)@ }),
    {
        self.change_sprite.size = size;
        self.change_sprite.color = color;
        self
    }

    /// Sets the change of a sprite's size.
    pub fn set_sprite_size(&mut self, size: Vec2) -> (r: &mut Animation)
        ensures
            *final(self) == *final(r),
            r@ == (StageView {
                change_sprite: AniSprite { size, ..old(self)@.change_sprite },
                ..old(self)@
            }),
    {
        self.change_sprite.size = size;
        self
    }

    /// Sets the change of a sprite's colour.
    pub fn set_sprite_color(&mut self, color: Color) -> (r: &mut Animation)
        ensures
            *final(self) == *final(r),
            r@ == (StageView {
                change_sprite: AniSprite { color, ..old(self)@.change_sprite },
                ..old(self)@
            }),
    {
        self.change_sprite.color = color;
        self
    }

    /// Sets the change of all six lengths of a layout box.
    pub fn set_style(
        &mut self,
        width: Val,
        height: Val,
        left: Val,
        right: Val,
        top: Val,
        bottom: Val,
    ) -> (r: &mut Animation)
        ensures
            *final(self) == *final(r),
            r@ == (StageView {
                change_style: AniStyle { width, height, left, right, top, bottom },
                ..old(self)@
            }),
    {
        self.change_style.width = width;
        self.change_style.height = height;
        self.change_style.left = left;
        self.change_style.right = right;
        self.change_style.top = top;
        self.change_style.bottom = bottom;
        self
    }

    /// Sets the change of a layout box's width and height.
    pub fn set_style_size(&mut self, width: Val, height: Val) -> (r: &mut Animation)
        ensures
            *final(self) == *final(r),
            r@ == (StageView {
                change_style: AniStyle { width, height, ..old(self)@.change_style },
                ..old(self)@
            }),
    {
        self.change_style.width = width;
        self.change_style.height = height;
        self
    }

    /// Sets the change of a layout box's four offsets.
    pub fn set_style_margin(&mut self, left: Val, right: Val, top: Val, bottom: Val) -> (r:
        &mut Animation)
        ensures
            *final(self) == *final(r),
            r@ == (StageView {
                change_style: AniStyle { left, right, top, bottom, ..old(self)@.change_style },
                ..old(self)@
            }),
    {
        self.change_style.left = left;
        self.change_style.right = right;
        self.change_style.top = top;
        self.change_style.bottom = bottom;
        self
    }

    /// Sets the change of a layout box's four offsets to one length.
    pub fn set_style_margin_all(&mut self, margin: Val) -> (r: &mut Animation)
        ensures
            *final(self) == *final(r),
            r@ == (StageView {
                change_style: AniStyle {
                    left: margin,
                    right: margin,
                    top: margin,
                    bottom: margin,
                    ..old(self)@.change_style
                },
                ..old(self)@
            }),
    {
        self.change_style.left = margin;
        self.change_style.right = margin;
        self.change_style.top = margin;
        self.change_style.bottom = margin;
        self
    }

    /// Sets the change of a layout box's left and right offsets to one
    /// length.
    pub fn set_style_margin_x(&mut self, x: Val) -> (r: &mut Animation)
        ensures
            *final(self) == *final(r),
            r@ == (StageView {
                change_style: AniStyle { left: x, right: x, ..old(self)@.change_style },
                ..old(self)@
            }),
    {
        self.change_style.left = x;
        self.change_style.right = x;
        self
    }

    /// Sets the change of a layout box's top and bottom offsets to one
    /// length.
    pub fn set_style_margin_y(&mut self, y: Val) -> (r: &mut Animation)
        ensures
            *final(self) == *final(r),
            r@ == (StageView {
                change_style: AniStyle { top: y, bottom: y, ..old(self)@.change_style },
                ..old(self)@
            }),
    {
        self.change_style.top = y;
        self.change_style.bottom = y;
        self
    }

    /// Sets the change of a layout box's left offset.
    pub fn set_style_left(&mut self, left: Val) -> (r: &mut Animation)
        ensures
            *final(self) == *final(r),
            r@ == (StageView {
                change_style: AniStyle { left, ..old(self)@.change_style },
                ..old(self)@
            }),
    {
        self.change_style.left = left;
        self
    }

    /// Sets the change of a layout box's right offset.
    pub fn set_style_right(&mut self, right: Val) -> (r: &mut Animation)
        ensures
            *final(self) == *final(r),
            r@ == (StageView {
                change_style: AniStyle { right, ..old(self)@.change_style },
                ..old(self)@
            }),
    {
        self.change_style.right = right;
        self
    }

    /// Sets the change of a layout box's top offset.
    pub fn set_style_top(&mut self, top: Val) -> (r: &mut Animation)
        ensures
            *final(self) == *final(r),
            r@ == (StageView {
                change_style: AniStyle { top, ..old(self)@.change_style },
                ..old(self)@
            }),
    {
        self.change_style.top = top;
        self
    }

    /// Sets the change of a layout box's bottom offset.
    pub fn set_style_bottom(&mut self, bottom: Val) -> (r: &mut Animation)
        ensures
            *final(self) == *final(r),
            r@ == (StageView {
                change_style: AniStyle { bottom, ..old(self)@.change_style },
                ..old(self)@
            }),
    {
        self.change_style.bottom = bottom;
        self
    }

    /// Sets the change of a transform's translation and scale.
    pub fn set_transform(&mut self, translation: Vec3, scale: Vec3) -> (r: &mut Animation)
        ensures
            *final(self) == *final(r),
            r@ == (StageView {
                change_transform: AniTransform { translation, scale },
                ..old(self)@
            }),
    {
        self.change_transform.translation = translation;
        self.change_transform.scale = scale;
        self
    }

    /// Sets the change of a transform's translation.
    pub fn set_transform_translation(&mut self, translation: Vec3) -> (r: &mut Animation)
        ensures
            *final(self) == *final(r),
            r@ == (StageView {
                change_transform: AniTransform { translation, ..old(self)@.change_transform },
                ..old(self)@
            }),
    {
        self.change_transform.translation = translation;
        self
    }

    /// Sets the change of a transform's scale.
    pub fn set_transform_scale(&mut self, scale: Vec3) -> (r: &mut Animation)
        ensures
            *final(self) == *final(r),
            r@ == (StageView {
                change_transform: AniTransform { scale, ..old(self)@.change_transform },
                ..old(self)@
            }),
    {
        self.change_transform.scale = scale;
        self
    }

    /// Appends a segment to the stage's label delta and hands it out to be
    /// set up.
    pub fn add_text(&mut self) -> (r: &mut AniText)
        ensures
            r.text@ == Seq::<char>::empty(),
            r.font_size == 0,
            r.color.is_none(),
            final(self)@ == (StageView {
                change_text: old(self)@.change_text.push(*final(r)),
                ..old(self)@
            }),
    {
        self.change_text.push(AniText::default());
        let last = self.change_text.len() - 1;
        proof {
            let ghost before = old(self)@.change_text;
            assert forall|t: AniText| #![auto]
                self.change_text@.update(last as int, t) =~= before.push(t) by {}
        }
        &mut self.change_text[last]
    }
}

} // verus!
