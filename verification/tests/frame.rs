use sasquatch::{Circle, Direction, Exact, FrameState, Ratio, FRAME_UNIT};

const UNIT: i32 = FRAME_UNIT as i32;

fn measure(a: u128, b: u128) -> u128 {
    if b == 0 {
        a
    } else {
        measure(b, a % b)
    }
}

fn plain(e: Exact) -> (i128, i128) {
    assert!(e.den > 0);
    let g = measure(e.num.unsigned_abs(), e.den.unsigned_abs()) as i128;
    (e.num / g, e.den / g)
}

fn round(c: Circle) -> [(i128, i128); 3] {
    [plain(c.x), plain(c.y), plain(c.radius)]
}

fn whole(n: i32) -> Ratio {
    Ratio::whole(n)
}

fn run(state: &mut FrameState, ticks: u32) {
    for _ in 0..ticks {
        state.update();
    }
}

#[test]
fn frame_starts_at_the_left_at_depth_one() {
    let state = FrameState::new(600 * UNIT);
    assert_eq!(state.pos_x(), 0);
    assert_eq!(state.horizon(), 600_000);
    assert_eq!(state.pos_z(), 1000);
    assert_eq!(state.inc_x(), Direction::Forward);
    assert_eq!(state.inc_h(), Direction::Forward);
}

#[test]
fn first_tick_moves_each_by_its_step() {
    let mut state = FrameState::new(600 * UNIT);
    state.update();
    assert_eq!(state.pos_x(), 1000);
    assert_eq!(state.inc_x(), Direction::Forward);
    assert_eq!(state.horizon(), 599_700);
    assert_eq!(state.inc_h(), Direction::Backward);
    assert_eq!(state.pos_z(), 1100);
}

#[test]
fn position_turns_at_its_bound() {
    let mut state = FrameState::new(0);
    run(&mut state, 800);
    assert_eq!(state.pos_x(), 800_000);
    assert_eq!(state.inc_x(), Direction::Forward);
    state.update();
    assert_eq!(state.pos_x(), 799_000);
    assert_eq!(state.inc_x(), Direction::Backward);
    run(&mut state, 799);
    assert_eq!(state.pos_x(), 0);
    assert_eq!(state.inc_x(), Direction::Backward);
    state.update();
    assert_eq!(state.pos_x(), 1000);
    assert_eq!(state.inc_x(), Direction::Forward);
}

#[test]
fn horizon_turns_at_its_bound() {
    let mut state = FrameState::new(600 * UNIT);
    run(&mut state, 2000);
    assert_eq!(state.horizon(), 0);
    assert_eq!(state.inc_h(), Direction::Backward);
    state.update();
    assert_eq!(state.horizon(), 300);
    assert_eq!(state.inc_h(), Direction::Forward);
    run(&mut state, 1999);
    assert_eq!(state.horizon(), 600_000);
    state.update();
    assert_eq!(state.horizon(), 599_700);
    assert_eq!(state.inc_h(), Direction::Backward);
}

#[test]
fn depth_wraps_after_one_hundred() {
    let mut state = FrameState::new(0);
    run(&mut state, 989);
    assert_eq!(state.pos_z(), 99_900);
    state.update();
    assert_eq!(state.pos_z(), 0);
    state.update();
    assert_eq!(state.pos_z(), 100);
    state.update();
    assert_eq!(state.pos_z(), 200);
    run(&mut state, 998);
    assert_eq!(state.pos_z(), 0);
}

#[test]
fn depth_grows_by_a_tenth() {
    let mut state = FrameState::new(0);
    for tick in 1..=989 {
        state.update();
        assert_eq!(state.pos_z(), 1000 + 100 * tick);
    }
}

#[test]
fn the_frame_at_depth_zero_is_drawn_at_one_hundredth() {
    let mut state = FrameState::new(600 * UNIT);
    run(&mut state, 990);
    assert_eq!(state.pos_x(), 610_000);
    assert_eq!(state.horizon(), 303_000);
    assert_eq!(state.pos_z(), 0);
    let (circle, grid) = state.compose(whole(800), whole(600));
    assert_eq!(round(circle), [(-20_390, 1), (3, 1), (30_000, 1)]);
    let (x, y) = grid.vanishing_point();
    assert_eq!((plain(x), plain(y)), ((610, 1), (303, 1)));
    let d = grid.dimensions_at_depth(Ratio::new(state.pos_z(), FRAME_UNIT));
    assert_eq!(plain(d.top), (-29_997, 1));
    assert_eq!(plain(d.bottom), (30_003, 1));
    assert_eq!(plain(d.left), (-60_390, 1));
    assert_eq!(plain(d.right), (19_610, 1));
    assert_eq!(plain(d.scale), (100, 1));
}

#[test]
fn a_long_run_stays_within_the_bounds() {
    let mut state = FrameState::new(600 * UNIT);
    for _ in 0..20_000 {
        state.update();
        assert!(0 <= state.pos_x() && state.pos_x() <= 800_000);
        assert!(0 <= state.horizon() && state.horizon() <= 600_000);
        assert!(0 <= state.pos_z() && state.pos_z() < 100_000);
    }
}

#[test]
fn a_horizon_off_the_steps_overshoots_by_less_than_a_step() {
    let mut state = FrameState::new(250);
    let mut highest = i32::MIN;
    let mut lowest = i32::MAX;
    for _ in 0..10_000 {
        state.update();
        highest = highest.max(state.horizon());
        lowest = lowest.min(state.horizon());
    }
    assert_eq!(highest, 600_250);
    assert_eq!(lowest, -50);
}

#[test]
fn a_horizon_outside_the_bounds_heads_back() {
    let mut above = FrameState::new(700 * UNIT);
    above.update();
    assert_eq!(above.horizon(), 699_700);
    assert_eq!(above.inc_h(), Direction::Backward);
    let mut below = FrameState::new(-5 * UNIT);
    below.update();
    assert_eq!(below.horizon(), -4700);
    assert_eq!(below.inc_h(), Direction::Forward);
    let mut far = FrameState::new(i32::MAX);
    far.update();
    assert_eq!(far.horizon(), i32::MAX - 300);
    let mut deep = FrameState::new(i32::MIN);
    deep.update();
    assert_eq!(deep.horizon(), i32::MIN + 300);
}

#[test]
fn first_frame_has_the_circle_in_the_middle() {
    let state = FrameState::new(600 * UNIT);
    let (circle, grid) = state.compose(whole(800), whole(600));
    assert_eq!(round(circle), [(400, 1), (300, 1), (300, 1)]);
    let (x, y) = grid.vanishing_point();
    assert_eq!((plain(x), plain(y)), ((0, 1), (600, 1)));
    let (w, h) = grid.viewport();
    assert_eq!((w.parts(), h.parts()), ((800, 1), (600, 1)));
    assert_eq!(grid.scale().parts(), (1, 1));
    let d = grid.dimensions_at_depth(whole(1));
    assert_eq!(
        [plain(d.top), plain(d.bottom), plain(d.left), plain(d.right), plain(d.scale)],
        [(0, 1), (600, 1), (0, 1), (800, 1), (1, 1)]
    );
}

#[test]
fn tenth_frame_has_the_circle_at_half_size() {
    let mut state = FrameState::new(600 * UNIT);
    run(&mut state, 10);
    assert_eq!(state.pos_x(), 10_000);
    assert_eq!(state.horizon(), 597_000);
    assert_eq!(state.pos_z(), 2000);
    let (circle, grid) = state.compose(whole(800), whole(600));
    assert_eq!(round(circle), [(205, 1), (897, 2), (150, 1)]);
    let (x, y) = grid.vanishing_point();
    assert_eq!((plain(x), plain(y)), ((10, 1), (597, 1)));
}

#[test]
fn the_circle_lies_in_the_middle_of_a_narrow_viewport() {
    let state = FrameState::new(0);
    let (circle, _) = state.compose(Ratio::new(7, 1000), Ratio::new(1, 3));
    assert_eq!(round(circle), [(7, 2000), (1, 6), (300, 1)]);
}

#[test]
fn the_radius_is_three_hundred_over_the_depth() {
    let mut state = FrameState::new(600 * UNIT);
    run(&mut state, 20);
    assert_eq!(state.pos_z(), 3000);
    let (circle, _) = state.compose(whole(800), whole(600));
    assert_eq!(plain(circle.radius), (100, 1));
    let (other, _) = state.compose(Ratio::new(1, 7), whole(-5));
    assert_eq!(plain(other.radius), (100, 1));
    run(&mut state, 967);
    assert_eq!(state.pos_z(), 99_700);
    let (circle, _) = state.compose(whole(800), whole(600));
    assert_eq!(plain(circle.radius), (3000, 997));
}

#[test]
fn the_circle_matches_the_rectangle_at_its_depth() {
    let mut state = FrameState::new(250);
    for _ in 0..1200 {
        state.update();
        let (circle, grid) = state.compose(Ratio::new(1601, 2), Ratio::new(1799, 3));
        let d = grid.dimensions_at_depth(Ratio::new(state.pos_z(), FRAME_UNIT));
        let middle = |a: Exact, b: Exact| {
            plain(Exact { num: a.num * b.den + b.num * a.den, den: 2 * a.den * b.den })
        };
        assert_eq!(plain(circle.x), middle(d.left, d.right));
        assert_eq!(plain(circle.y), middle(d.top, d.bottom));
        assert_eq!(plain(circle.radius), plain(Exact { num: 300 * d.scale.num, den: d.scale.den }));
    }
}

#[test]
fn compose_leaves_the_state() {
    let state = FrameState::new(123);
    let _ = state.compose(Ratio::new(i32::MAX, 65_535), Ratio::new(i32::MIN, 1));
    assert_eq!(state.pos_x(), 0);
    assert_eq!(state.horizon(), 123);
    assert_eq!(state.pos_z(), 1000);
}

#[test]
fn compose_takes_extreme_states() {
    let mut state = FrameState::new(i32::MIN);
    state.update();
    let (circle, _) = state.compose(Ratio::new(i32::MIN, 65_535), Ratio::new(i32::MAX, 65_535));
    assert!(circle.x.den > 0 && circle.y.den > 0 && circle.radius.den > 0);
    assert_eq!(plain(circle.radius), (3000, 11));
}
