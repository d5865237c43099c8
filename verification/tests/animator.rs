use animator::animator::{AniType, Animator, LoopStrategy};
use animator::ease::EaseMethod;
use animator::label::AniText;
use animator::property::{
    AniSprite, AniStyle, AniTransform, Color, Sprite, Style, Transform, Val, Vec2, Vec3,
};
use animator::ratio::Ratio;
use animator::relate::{relate_trigger, Relate};
use animator::timer::Repeat;

fn at(x: i64, y: i64, z: i64) -> Vec3 {
    Vec3 { x, y, z }
}

fn transform(x: i64) -> Transform {
    Transform { translation: at(x, 0, 0), scale: at(1000, 1000, 1000) }
}

fn unused() -> Ratio {
    Ratio::zero()
}

fn plain_style() -> Style {
    Style {
        width: Val::Px(200),
        height: Val::Px(100),
        left: Val::Px(0),
        right: Val::Auto,
        top: Val::Percent(10),
        bottom: Val::Auto,
    }
}

fn one_stage(strategy: LoopStrategy, duration: u64, dx: i64) -> Animator {
    let mut a = Animator::default();
    a.set_loop_strategy(strategy);
    a.add_change().set_duration(duration).set_transform_translation(at(dx, 0, 0));
    a
}

fn swing(retain: bool) -> Animator {
    let mut a = Animator::default();
    a.set_loop_strategy(LoopStrategy::LoopAll);
    a.add_change()
        .set_retain_change(retain)
        .set_duration(100)
        .set_transform_translation(at(40, -8, 0))
        .set_style_size(Val::Auto, Val::Px(-60))
        .set_sprite_color(Color { red: 10, green: 0, blue: 0, alpha: -50 });
    a.add_change()
        .set_retain_change(retain)
        .set_duration(100)
        .set_transform_translation(at(-40, 8, 0))
        .set_style_size(Val::Auto, Val::Px(60))
        .set_sprite_color(Color { red: -10, green: 0, blue: 0, alpha: 50 });
    a
}

#[test]
fn default_animator_is_empty_and_plays() {
    let a = Animator::default();
    assert_eq!(a.get_animations_len(), 0);
    assert_eq!(a.get_exec_index(), 0);
    assert!(!a.get_pause());
    assert!(a.get_is_finish());
    assert!(a.get_animation(0).is_none());
    assert!(a.active_ease().is_none());
    assert_eq!(a.get_start_sprite(), AniSprite { color: Color::none(), size: Vec2::zero() });
    assert_eq!(
        a.get_start_style(),
        AniStyle {
            width: Val::Auto,
            height: Val::Auto,
            left: Val::Auto,
            right: Val::Auto,
            top: Val::Auto,
            bottom: Val::Auto
        }
    );
    assert_eq!(
        a.get_start_transform(),
        AniTransform { translation: Vec3::zero(), scale: Vec3::zero() }
    );
    assert!(a.get_start_text().is_empty());
    assert_eq!(LoopStrategy::default(), LoopStrategy::AllOnce);
    assert_eq!(AniType::default(), AniType::Delay);
}

#[test]
fn ticking_without_stages_does_nothing() {
    let mut a = Animator::default();
    let mut live = transform(5);
    a.tick(16);
    a.tick_transform(&mut live, unused());
    assert_eq!(live, transform(5));
    assert_eq!(a.get_exec_index(), 0);
    assert!(!a.get_pause());
    // the baseline is taken all the same
    assert_eq!(a.get_start_transform().translation, at(5, 0, 0));
}

#[test]
fn add_change_appends_a_fresh_stage() {
    let mut a = Animator::default();
    a.add_change();
    a.add_change().set_duration(7).set_repeat(Repeat::Infinite);
    assert_eq!(a.get_animations_len(), 2);
    let first = a.get_animation(0).unwrap().get_timer();
    assert_eq!(first.get_duration(), 0);
    assert_eq!(first.get_repeat(), Repeat::Finite(1));
    let second = a.get_animation(1).unwrap().get_timer();
    assert_eq!(second.get_duration(), 7);
    assert_eq!(second.get_repeat(), Repeat::Infinite);
    assert!(a.get_animation(2).is_none());
    assert!(!a.get_is_finish());
}

#[test]
fn one_stage_once_end_to_end() {
    let mut a = one_stage(LoopStrategy::Once, 300, 100);
    let mut live = transform(7);
    a.tick_transform(&mut live, unused());
    assert_eq!(live.translation.x, 7);
    a.tick(150);
    a.tick_transform(&mut live, unused());
    assert_eq!(live.translation, at(57, 0, 0));
    assert_eq!(live.scale, at(1000, 1000, 1000));
    assert!(!a.get_pause());
    a.tick(150);
    a.tick_transform(&mut live, unused());
    assert_eq!(live.translation, at(107, 0, 0));
    assert!(a.get_pause());
    assert_eq!(a.get_exec_index(), 0);
    assert!(a.get_is_finish());
}

#[test]
fn once_keeps_the_final_value_until_resumed() {
    let mut a = one_stage(LoopStrategy::Once, 300, 100);
    let mut live = transform(7);
    a.tick_transform(&mut live, unused());
    a.tick(400);
    assert!(a.get_pause());
    for _ in 0..5 {
        a.tick(100);
        a.tick_transform(&mut live, unused());
        assert_eq!(live.translation.x, 107);
        assert!(a.get_pause());
        assert_eq!(a.get_exec_index(), 0);
        assert_eq!(
            a.get_animation(0).unwrap().get_timer().progress(),
            Ratio { negative: false, num: 300, den: 300 }
        );
    }
    a.exec_index(0);
    assert!(!a.get_pause());
    a.tick_transform(&mut live, unused());
    assert_eq!(live.translation.x, 7);
}

#[test]
fn all_once_runs_through_and_stops() {
    let mut a = Animator::default();
    a.add_change().set_duration(10).set_transform_translation(at(10, 0, 0));
    a.add_change().set_duration(10).set_transform_translation(at(0, 20, 0));
    a.add_change().set_duration(10).set_transform_translation(at(0, 0, 30));
    let mut live = transform(0);
    a.tick_transform(&mut live, unused());
    a.tick(10);
    assert_eq!(a.get_exec_index(), 1);
    a.tick(5);
    a.tick_transform(&mut live, unused());
    assert_eq!(live.translation, at(0, 10, 0));
    a.tick(5);
    assert_eq!(a.get_exec_index(), 2);
    a.tick(10);
    assert_eq!(a.get_exec_index(), 3);
    assert!(a.get_is_finish());
    assert!(!a.get_pause());
    // behind the last stage nothing moves any more
    let mut later = transform(99);
    a.tick(10);
    a.tick_transform(&mut later, unused());
    assert_eq!(later, transform(99));
    assert_eq!(a.get_exec_index(), 3);
    let mut style = plain_style();
    a.tick_style(&mut style, unused());
    assert_eq!(style, plain_style());
    let mut sprite = Sprite { color: Color::none(), custom_size: Some(Vec2 { x: 1, y: 1 }) };
    a.tick_sprite(&mut sprite, unused());
    assert_eq!(sprite, Sprite { color: Color::none(), custom_size: Some(Vec2 { x: 1, y: 1 }) });
    let mut text = vec![AniText::default()];
    a.tick_text(&mut text, unused());
    assert_eq!(text.len(), 1);
    assert_eq!(text[0].text, "");
}

#[test]
fn all_once_without_retain_renders_from_the_first_baseline() {
    let mut a = Animator::default();
    a.add_change().set_duration(10).set_transform_translation(at(10, 0, 0));
    a.add_change().set_duration(10).set_transform_translation(at(10, 0, 0));
    let mut live = transform(0);
    a.tick_transform(&mut live, unused());
    a.tick(10);
    a.tick(5);
    a.tick_transform(&mut live, unused());
    assert_eq!(live.translation.x, 5);
}

#[test]
fn retain_makes_the_next_stage_start_where_the_last_ended() {
    let mut a = Animator::default();
    a.add_change().set_retain_change(true).set_duration(10).set_transform_translation(at(10, 0, 0));
    a.add_change().set_retain_change(true).set_duration(10).set_transform_translation(at(10, 0, 0));
    let mut live = transform(0);
    a.tick_transform(&mut live, unused());
    a.tick(10);
    assert_eq!(a.get_start_transform().translation.x, 10);
    a.tick(5);
    a.tick_transform(&mut live, unused());
    assert_eq!(live.translation.x, 15);
    a.tick(5);
    assert_eq!(a.get_start_transform().translation.x, 20);
}

#[test]
fn fold_happens_once_for_a_stage_seen_finished_twice() {
    let mut a = one_stage(LoopStrategy::Once, 10, 100);
    a.set_exec_index(0);
    let mut live = transform(7);
    a.tick_transform(&mut live, unused());
    // commit on finish
    let mut b = Animator::default();
    b.set_loop_strategy(LoopStrategy::Once);
    b.add_change().set_retain_change(true).set_duration(10).set_transform_translation(at(100, 0, 0));
    b.tick_transform(&mut live, unused());
    b.tick(10);
    assert!(b.get_pause());
    assert_eq!(b.get_start_transform().translation.x, 107);
    // the pause is lifted, the same stage is still finished
    b.set_pause(false);
    b.tick(10);
    assert!(b.get_pause());
    assert_eq!(b.get_start_transform().translation.x, 107);
    b.set_pause(false);
    b.tick(0);
    assert_eq!(b.get_start_transform().translation.x, 107);
    // without retain nothing is committed at all
    a.tick(10);
    assert_eq!(a.get_start_transform().translation.x, 7);
}

#[test]
fn fold_happens_again_when_the_stage_is_played_again() {
    let mut a = Animator::default();
    a.set_loop_strategy(LoopStrategy::Once);
    a.add_change().set_retain_change(true).set_duration(10).set_transform_translation(at(100, 0, 0));
    let mut live = transform(0);
    a.tick_transform(&mut live, unused());
    a.tick(10);
    assert_eq!(a.get_start_transform().translation.x, 100);
    a.exec_index(0);
    a.tick(10);
    assert_eq!(a.get_start_transform().translation.x, 200);
}

#[test]
fn loop_all_with_opposite_stages_returns_to_the_baseline() {
    let mut a = swing(true);
    let mut live = transform(500);
    let mut style = plain_style();
    let mut sprite = Sprite {
        color: Color { red: 100, green: 100, blue: 100, alpha: 1000 },
        custom_size: None,
    };
    a.tick_transform(&mut live, unused());
    a.tick_style(&mut style, unused());
    a.tick_sprite(&mut sprite, unused());
    let origin_transform = a.get_start_transform();
    let origin_style = a.get_start_style();
    let origin_sprite = a.get_start_sprite();
    assert_eq!(origin_transform.translation, at(500, 0, 0));
    assert_eq!(origin_style.height, Val::Px(100));
    for cycle in 0..4 {
        a.tick(60);
        assert_eq!(a.get_exec_index(), 0, "cycle {}", cycle);
        a.tick(40);
        assert_eq!(a.get_exec_index(), 1, "cycle {}", cycle);
        assert_eq!(a.get_start_transform().translation, at(540, -8, 0));
        assert_eq!(a.get_start_style().height, Val::Px(40));
        assert_eq!(a.get_start_sprite().color, Color { red: 110, green: 100, blue: 100, alpha: 950 });
        // the stage that has just become active got the 40 units as well
        a.tick(60);
        assert_eq!(a.get_exec_index(), 0, "cycle {}", cycle);
        assert_eq!(a.get_start_transform(), origin_transform);
        assert_eq!(a.get_start_style(), origin_style);
        assert_eq!(a.get_start_sprite(), origin_sprite);
        assert!(!a.get_pause());
        a.tick(0);
        // back to a fresh first stage with the 60 units of the tick
        a.tick(40);
        assert_eq!(a.get_exec_index(), 1, "cycle {}", cycle);
        a.tick(60);
        assert_eq!(a.get_exec_index(), 0, "cycle {}", cycle);
        assert_eq!(a.get_start_transform(), origin_transform);
        // bring the first stage back to its start for the next round
        a.exec_index(0);
    }
}

#[test]
fn loop_all_gives_the_next_stage_the_same_tick() {
    let mut a = Animator::default();
    a.set_loop_strategy(LoopStrategy::LoopAll);
    a.add_change().set_duration(100);
    a.add_change().set_duration(300);
    a.tick(150);
    assert_eq!(a.get_exec_index(), 1);
    let next = a.get_animation(1).unwrap().get_timer();
    assert_eq!(next.progress(), Ratio { negative: false, num: 150, den: 300 });
    assert!(!next.is_finish());
    let first = a.get_animation(0).unwrap().get_timer();
    assert_eq!(first.progress().num, 0);
    assert!(!first.is_finish());
}

#[test]
fn loop_all_starts_no_more_stages_in_one_tick_than_it_has() {
    let mut a = swing(true);
    let mut live = transform(0);
    a.tick_transform(&mut live, unused());
    // every stage is over after 100 units: the first finishes, and two
    // more are started and finish as well
    a.tick(100);
    assert_eq!(a.get_exec_index(), 1);
    assert_eq!(a.get_start_transform().translation, at(40, -8, 0));
    assert_eq!(a.get_animation(0).unwrap().get_timer().progress().num, 0);
    assert_eq!(a.get_animation(1).unwrap().get_timer().progress().num, 0);
}

#[test]
fn loop_one_plays_the_same_stage_again() {
    let mut a = one_stage(LoopStrategy::LoopOne, 10, 100);
    let mut live = transform(0);
    a.tick_transform(&mut live, unused());
    a.tick(6);
    a.tick(6);
    // finished at 12 units, started again and given the 6 units of the tick
    assert_eq!(a.get_exec_index(), 0);
    assert!(!a.get_pause());
    let timer = a.get_animation(0).unwrap().get_timer();
    assert_eq!(timer.progress(), Ratio { negative: false, num: 6, den: 10 });
    assert!(!timer.is_finish());
    a.tick_transform(&mut live, unused());
    assert_eq!(live.translation.x, 60);
}

#[test]
fn instant_stages_do_not_spin_forever() {
    let mut a = Animator::default();
    a.set_loop_strategy(LoopStrategy::LoopAll);
    a.add_change().set_retain_change(true).set_transform_translation(at(1, 0, 0));
    a.add_change().set_retain_change(true).set_transform_translation(at(1, 0, 0));
    a.add_change().set_retain_change(true).set_transform_translation(at(1, 0, 0));
    a.tick(16);
    // the first stage and three more were finished in this tick
    assert_eq!(a.get_start_transform().translation.x, 4);
    assert_eq!(a.get_exec_index(), 1);
    let mut one = Animator::default();
    one.set_loop_strategy(LoopStrategy::LoopOne);
    one.add_change().set_retain_change(true).set_transform_translation(at(1, 0, 0));
    one.tick(16);
    assert_eq!(one.get_start_transform().translation.x, 2);
    assert_eq!(one.get_exec_index(), 0);
}

#[test]
fn tick_reports_the_stages_it_committed() {
    let mut a = Animator::default();
    a.set_loop_strategy(LoopStrategy::LoopAll);
    a.add_change().set_retain_change(true).set_transform_translation(at(1, 0, 0));
    a.add_change().set_transform_translation(at(1, 0, 0));
    a.add_change().set_retain_change(true).set_transform_translation(at(1, 0, 0));
    assert_eq!(a.tick(16), vec![0, 2, 0]);
    let mut b = Animator::default();
    b.set_loop_strategy(LoopStrategy::Once);
    b.add_change().set_retain_change(true).set_duration(10);
    assert_eq!(b.tick(5), Vec::<usize>::new());
    assert_eq!(b.tick(5), vec![0]);
    assert_eq!(b.tick(5), Vec::<usize>::new());
    b.set_pause(false);
    assert_eq!(b.tick(5), Vec::<usize>::new());
    b.exec_index(0);
    assert_eq!(b.tick(10), vec![0]);
    let mut c = Animator::default();
    c.add_change().set_duration(10);
    assert_eq!(c.tick(10), Vec::<usize>::new());
    assert_eq!(c.get_exec_index(), 1);
}

#[test]
fn paused_animator_does_not_advance() {
    let mut a = one_stage(LoopStrategy::AllOnce, 10, 100);
    a.set_pause(true);
    a.tick(100);
    assert_eq!(a.get_exec_index(), 0);
    assert_eq!(a.get_animation(0).unwrap().get_timer().progress().num, 0);
    assert!(a.get_pause());
    a.set_pause(false);
    a.tick(4);
    assert_eq!(a.get_animation(0).unwrap().get_timer().progress().num, 4);
}

#[test]
fn exec_index_restarts_the_stage_it_leaves() {
    let mut a = Animator::default();
    a.add_change().set_duration(10);
    a.add_change().set_duration(10);
    a.tick(4);
    a.set_pause(true);
    a.exec_index(1);
    assert_eq!(a.get_exec_index(), 1);
    assert!(!a.get_pause());
    assert_eq!(a.get_animation(0).unwrap().get_timer().progress().num, 0);
    // from behind the last stage it only moves the index
    a.set_exec_index(2);
    a.exec_index(0);
    assert_eq!(a.get_exec_index(), 0);
}

#[test]
fn exec_next_and_set_exec_index_touch_no_timer() {
    let mut a = Animator::default();
    a.add_change().set_duration(10);
    a.add_change().set_duration(10);
    a.tick(4);
    a.set_pause(true);
    a.exec_next();
    assert_eq!(a.get_exec_index(), 1);
    assert!(!a.get_pause());
    assert_eq!(a.get_animation(0).unwrap().get_timer().progress().num, 4);
    a.set_pause(true).set_exec_index(0);
    assert_eq!(a.get_exec_index(), 0);
    assert!(a.get_pause());
    assert_eq!(a.get_animation(0).unwrap().get_timer().progress().num, 4);
}

#[test]
fn relation_trigger_starts_the_paused_animator() {
    let mut a = Animator::default();
    a.set_loop_strategy(LoopStrategy::Once).set_pause(true);
    a.add_change().set_duration(300);
    a.add_change().set_duration(300);
    let key = Relate(41);
    assert!(relate_trigger(key, Relate(41), &mut a));
    assert!(!a.get_pause());
    assert_eq!(a.get_exec_index(), 1);
    let timer = a.get_animation(1).unwrap().get_timer();
    assert_eq!(timer.progress(), Ratio { negative: false, num: 0, den: 300 });
    assert_eq!(timer.get_times(), 0);
    assert!(!timer.is_finish());
}

#[test]
fn relation_trigger_wraps_to_the_first_stage() {
    let mut a = Animator::default();
    a.set_loop_strategy(LoopStrategy::Once);
    a.add_change().set_duration(10);
    a.add_change().set_duration(10);
    a.set_exec_index(1);
    a.tick(10);
    assert!(a.get_pause());
    assert!(relate_trigger(Relate(1), Relate(1), &mut a));
    assert_eq!(a.get_exec_index(), 0);
    assert!(!a.get_pause());
    let left = a.get_animation(1).unwrap().get_timer();
    assert_eq!(left.progress().num, 0);
    assert!(!left.is_finish());
}

#[test]
fn relation_trigger_ignores_strangers_and_playing_animators() {
    let mut a = Animator::default();
    a.add_change().set_duration(10);
    a.add_change().set_duration(10);
    a.set_pause(true);
    assert!(!relate_trigger(Relate(1), Relate(2), &mut a));
    assert!(a.get_pause());
    assert_eq!(a.get_exec_index(), 0);
    a.set_pause(false);
    assert!(!relate_trigger(Relate(1), Relate(1), &mut a));
    assert_eq!(a.get_exec_index(), 0);
    let mut empty = Animator::default();
    empty.set_pause(true);
    assert!(!relate_trigger(Relate(1), Relate(1), &mut empty));
    assert!(empty.get_pause());
}

#[test]
fn sprite_tick_moves_colour_and_size() {
    let mut a = Animator::default();
    a.add_change()
        .set_duration(10)
        .set_sprite(Vec2 { x: 20, y: -20 }, Color { red: 0, green: 0, blue: 0, alpha: -100 });
    let mut sprite = Sprite {
        color: Color { red: 1, green: 2, blue: 3, alpha: 200 },
        custom_size: Some(Vec2 { x: 32, y: 32 }),
    };
    a.tick_sprite(&mut sprite, unused());
    a.tick(5);
    a.tick_sprite(&mut sprite, unused());
    assert_eq!(sprite.custom_size, Some(Vec2 { x: 42, y: 22 }));
    assert_eq!(sprite.color, Color { red: 1, green: 2, blue: 3, alpha: 150 });
    assert_eq!(
        a.get_start_sprite(),
        AniSprite { color: Color { red: 1, green: 2, blue: 3, alpha: 200 }, size: Vec2 { x: 32, y: 32 } }
    );
}

#[test]
fn sprite_without_size_gets_none() {
    let mut a = Animator::default();
    a.add_change().set_duration(10).set_sprite_size(Vec2 { x: 20, y: 20 });
    let mut sprite = Sprite { color: Color { red: 9, green: 9, blue: 9, alpha: 9 }, custom_size: None };
    a.tick(5);
    a.tick_sprite(&mut sprite, unused());
    assert_eq!(sprite.custom_size, None);
    assert_eq!(sprite.color, Color { red: 9, green: 9, blue: 9, alpha: 9 });
}

#[test]
fn style_tick_leaves_auto_fields_alone() {
    let mut a = Animator::default();
    a.add_change().set_duration(300).set_style_size(Val::Auto, Val::Px(-100));
    let mut style = plain_style();
    a.tick_style(&mut style, unused());
    a.tick(150);
    style.width = Val::Px(777);
    a.tick_style(&mut style, unused());
    assert_eq!(style.height, Val::Px(50));
    assert_eq!(style.width, Val::Px(777));
    assert_eq!(style.left, Val::Px(0));
    assert_eq!(style.top, Val::Percent(10));
    assert_eq!(style.right, Val::Auto);
}

#[test]
fn style_tick_writes_the_baseline_where_units_differ() {
    let mut a = Animator::default();
    a.add_change()
        .set_duration(10)
        .set_style_margin(Val::Percent(50), Val::Px(5), Val::Percent(20), Val::Px(5));
    let mut style = plain_style();
    a.tick_style(&mut style, unused());
    a.tick(5);
    style.left = Val::Px(33);
    style.right = Val::Px(44);
    a.tick_style(&mut style, unused());
    // left is pixels, the change is percent: the baseline comes back
    assert_eq!(style.left, Val::Px(0));
    // right was auto when the baseline was taken
    assert_eq!(style.right, Val::Auto);
    assert_eq!(style.top, Val::Percent(20));
    assert_eq!(style.bottom, Val::Auto);
}

#[test]
fn style_builders_set_their_fields() {
    let mut a = Animator::default();
    a.add_change()
        .set_style(Val::Px(1), Val::Px(2), Val::Px(3), Val::Px(4), Val::Px(5), Val::Px(6))
        .set_style_margin_x(Val::Px(7))
        .set_style_top(Val::Px(8));
    a.add_change().set_style_margin_all(Val::Px(9)).set_style_margin_y(Val::Px(10)).set_style_left(
        Val::Px(11),
    );
    a.add_change().set_style_right(Val::Px(12)).set_style_bottom(Val::Px(13));
    let zero = Style {
        width: Val::Px(0),
        height: Val::Px(0),
        left: Val::Px(0),
        right: Val::Px(0),
        top: Val::Px(0),
        bottom: Val::Px(0),
    };
    let mut style = zero;
    a.tick(0);
    // the first stage takes no time: it is finished, and the second is active
    assert_eq!(a.get_exec_index(), 1);
    a.set_exec_index(0);
    a.tick_style(&mut style, Ratio::one());
    // a stage of no duration renders at progress zero
    assert_eq!(style, zero);
    let mut b = Animator::default();
    b.add_change()
        .set_ease(EaseMethod::Custom(0))
        .set_style(Val::Px(1), Val::Px(2), Val::Px(3), Val::Px(4), Val::Px(5), Val::Px(6))
        .set_style_margin_x(Val::Px(7))
        .set_style_top(Val::Px(8));
    b.add_change()
        .set_ease(EaseMethod::Custom(0))
        .set_style_margin_all(Val::Px(9))
        .set_style_margin_y(Val::Px(10))
        .set_style_left(Val::Px(11));
    b.add_change().set_ease(EaseMethod::Custom(0)).set_style_right(Val::Px(12)).set_style_bottom(
        Val::Px(13),
    );
    let mut style = zero;
    b.tick_style(&mut style, Ratio::one());
    assert_eq!(
        style,
        Style {
            width: Val::Px(1),
            height: Val::Px(2),
            left: Val::Px(7),
            right: Val::Px(7),
            top: Val::Px(8),
            bottom: Val::Px(6)
        }
    );
    b.set_exec_index(1);
    let mut style = zero;
    b.tick_style(&mut style, Ratio::one());
    assert_eq!(
        style,
        Style {
            width: Val::Px(0),
            height: Val::Px(0),
            left: Val::Px(11),
            right: Val::Px(9),
            top: Val::Px(10),
            bottom: Val::Px(10)
        }
    );
    b.set_exec_index(2);
    let mut style = zero;
    b.tick_style(&mut style, Ratio::one());
    assert_eq!(
        style,
        Style {
            width: Val::Px(0),
            height: Val::Px(0),
            left: Val::Px(0),
            right: Val::Px(12),
            top: Val::Px(0),
            bottom: Val::Px(13)
        }
    );
}

#[test]
fn transform_tick_moves_translation_and_scale() {
    let mut a = Animator::default();
    a.add_change().set_duration(4).set_transform(at(8, 0, -8), at(0, 0, 0));
    a.add_change().set_duration(4).set_transform_scale(at(-1000, 0, 0));
    let mut live = transform(0);
    a.tick_transform(&mut live, unused());
    a.tick(1);
    a.tick_transform(&mut live, unused());
    assert_eq!(live.translation, at(2, 0, -2));
    assert_eq!(live.scale, at(1000, 1000, 1000));
    a.tick(3);
    assert_eq!(a.get_exec_index(), 1);
    a.tick(2);
    live.translation = at(50, 50, 50);
    a.tick_transform(&mut live, unused());
    assert_eq!(live.translation, at(50, 50, 50));
    assert_eq!(live.scale, at(500, 1000, 1000));
}

#[test]
fn curve_value_is_used_by_stages_that_are_not_linear() {
    let mut a = Animator::default();
    a.add_change()
        .set_duration(10)
        .set_ease(EaseMethod::EaseFn(interpolation::EaseFunction::QuadraticIn))
        .set_transform_translation(at(100, 0, 0));
    let mut live = transform(0);
    a.tick_transform(&mut live, unused());
    a.tick(5);
    let (ease, progress) = a.active_ease().unwrap();
    assert!(matches!(ease, EaseMethod::EaseFn(interpolation::EaseFunction::QuadraticIn)));
    assert_eq!(progress, Ratio { negative: false, num: 5, den: 10 });
    a.tick_transform(&mut live, Ratio::new(1, 4));
    assert_eq!(live.translation.x, 25);
    a.tick_transform(&mut live, Ratio::new(-1, 4));
    assert_eq!(live.translation.x, -25);
}

#[test]
fn retain_calls_take_the_baseline_anew() {
    let mut a = one_stage(LoopStrategy::AllOnce, 10, 100);
    let mut live = transform(0);
    a.tick_transform(&mut live, unused());
    a.tick(5);
    live.translation.x = 1000;
    a.tick_transform(&mut live, unused());
    assert_eq!(live.translation.x, 50);
    live.translation.x = 1000;
    a.retain_transform();
    a.tick_transform(&mut live, unused());
    assert_eq!(live.translation.x, 1050);
    assert_eq!(a.get_start_transform().translation.x, 1000);
    let mut style = plain_style();
    a.tick_style(&mut style, unused());
    style.width = Val::Px(1);
    a.tick_style(&mut style, unused());
    assert_eq!(a.get_start_style().width, Val::Px(200));
    a.retain_style();
    a.tick_style(&mut style, unused());
    assert_eq!(a.get_start_style().width, Val::Px(1));
    let mut sprite = Sprite { color: Color::none(), custom_size: Some(Vec2 { x: 1, y: 1 }) };
    a.tick_sprite(&mut sprite, unused());
    sprite.custom_size = Some(Vec2 { x: 2, y: 2 });
    a.tick_sprite(&mut sprite, unused());
    assert_eq!(a.get_start_sprite().size, Vec2 { x: 1, y: 1 });
    a.retain_sprite();
    a.tick_sprite(&mut sprite, unused());
    assert_eq!(a.get_start_sprite().size, Vec2 { x: 2, y: 2 });
}

#[test]
fn text_tick_swaps_text_at_once_and_moves_colour() {
    let mut a = Animator::default();
    a.set_loop_strategy(LoopStrategy::Once);
    {
        let stage = a.add_change();
        stage.set_retain_change(true).set_duration(300);
        stage.add_text().set_text(String::from("open")).set_color(Color {
            red: 0,
            green: 0,
            blue: 0,
            alpha: -500,
        });
        stage.add_text().set_font_size(10);
    }
    let mut live = vec![
        AniText { text: String::from("shut"), font_size: 20, color: Color { red: 0, green: 0, blue: 0, alpha: 1000 } },
        AniText { text: String::from(" "), font_size: 20, color: Color::none() },
        AniText { text: String::from("title"), font_size: 20, color: Color::none() },
    ];
    a.tick_text(&mut live, unused());
    assert_eq!(live[0].text, "open");
    assert_eq!(live[0].color.alpha, 1000);
    assert_eq!(live[1].text, "");
    assert_eq!(live[1].font_size, 20);
    assert_eq!(live[2].text, "title");
    assert_eq!(a.get_start_text().len(), 3);
    assert_eq!(a.get_start_text()[0].text, "shut");
    a.tick(150);
    a.tick_text(&mut live, unused());
    assert_eq!(live[0].color.alpha, 750);
    assert_eq!(live[0].font_size, 20);
    assert_eq!(live[1].font_size, 25);
    a.tick(150);
    assert!(a.get_pause());
    // committed: the baseline now holds the stage's text and what it added
    assert_eq!(a.get_start_text()[0].text, "open");
    assert_eq!(a.get_start_text()[0].color.alpha, 500);
    assert_eq!(a.get_start_text()[1].font_size, 30);
    assert_eq!(a.get_start_text()[2].text, "title");
}

#[test]
fn payload_types_are_plain_values() {
    let t = AniType::Transform(AniTransform::default(), AniTransform::default());
    assert_ne!(t, AniType::Delay);
    let s = AniType::Style(AniStyle::default(), AniStyle::default());
    assert_ne!(s, AniType::Sprite(AniSprite::default(), AniSprite::default()));
}
