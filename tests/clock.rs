use game_engine::clock::{GameLoop, FRAME_SIZE};

fn armed_at(now: u64) -> GameLoop {
    let mut game_loop = GameLoop::new(now);
    game_loop.arm();
    game_loop
}

#[test]
fn frame_sequence_banks_and_steps() {
    let mut game_loop = armed_at(0);
    assert_eq!(game_loop.on_frame(0).updates, 0);
    assert_eq!(game_loop.accumulated_delta(), 0);

    assert_eq!(game_loop.on_frame(10_000).updates, 0);
    assert_eq!(game_loop.accumulated_delta(), 10_000);

    assert_eq!(game_loop.on_frame(20_000).updates, 1);
    assert_eq!(game_loop.accumulated_delta(), 3_333);

    assert_eq!(game_loop.on_frame(40_000).updates, 1);
    assert_eq!(game_loop.accumulated_delta(), 6_666);
    assert_eq!(game_loop.last_frame(), 40_000);
}

#[test]
fn steps_are_banked_time_over_tick() {
    let mut game_loop = armed_at(1_000);
    // 100 ms banked: five whole ticks, 16.665 ms left.
    let plan = game_loop.on_frame(101_000);
    assert_eq!(plan.updates, 100_000 / FRAME_SIZE);
    assert_eq!(plan.updates, 5);
    assert_eq!(game_loop.accumulated_delta(), 100_000 % FRAME_SIZE);
    assert_eq!(game_loop.accumulated_delta(), 16_665);
    assert!(game_loop.accumulated_delta() < FRAME_SIZE);
}

#[test]
fn exactly_one_tick_banked_does_not_step() {
    let mut game_loop = armed_at(0);
    assert_eq!(game_loop.on_frame(FRAME_SIZE).updates, 0);
    assert_eq!(game_loop.accumulated_delta(), FRAME_SIZE);
    assert_eq!(game_loop.on_frame(FRAME_SIZE + 1).updates, 1);
    assert_eq!(game_loop.accumulated_delta(), 1);
}

#[test]
fn whole_ticks_keep_one_tick_banked() {
    let mut game_loop = armed_at(0);
    assert_eq!(game_loop.on_frame(3 * FRAME_SIZE).updates, 2);
    assert_eq!(game_loop.accumulated_delta(), FRAME_SIZE);
}

#[test]
fn earlier_timestamp_banks_nothing() {
    let mut game_loop = armed_at(50_000);
    assert_eq!(game_loop.on_frame(40_000).updates, 0);
    assert_eq!(game_loop.accumulated_delta(), 0);
    assert_eq!(game_loop.last_frame(), 40_000);
}

#[test]
fn each_frame_leaves_one_callback_registered() {
    let mut game_loop = GameLoop::new(0);
    assert_eq!(game_loop.pending_frames(), 0);
    game_loop.arm();
    assert_eq!(game_loop.pending_frames(), 1);
    for t in [5_000u64, 30_000, 31_000, 90_000] {
        game_loop.on_frame(t);
        assert_eq!(game_loop.pending_frames(), 1);
    }
}

#[test]
fn largest_timestamp_saturates() {
    let mut game_loop = armed_at(0);
    game_loop.on_frame(10_000);
    let plan = game_loop.on_frame(u64::MAX);
    assert_eq!(plan.updates, (u64::MAX - 1) / FRAME_SIZE);
    assert!(game_loop.accumulated_delta() <= FRAME_SIZE);
}
