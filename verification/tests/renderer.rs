use toss::progress::ProgressState;
use toss::renderer::{rate_per_second, seconds_left, ProgressFrame, RenderStep, Renderer, TICK_MILLIS};

fn at(transferred: u64, total: u64) -> ProgressState {
    let mut state = ProgressState::new(total);
    state.record(transferred);
    state
}

#[test]
fn tick_interval() {
    assert_eq!(TICK_MILLIS, 50);
}

#[test]
fn draws_while_transfer_is_in_progress() {
    let mut renderer = Renderer::new();
    let step = renderer.tick(at(50, 100), false, 250);
    assert_eq!(
        step,
        RenderStep::Draw(ProgressFrame {
            transferred: 50,
            total: 100,
            percent: 50,
            rate: 200,
            remaining_seconds: Some(0),
        })
    );
    assert!(!renderer.is_finished());
    assert_eq!(renderer.last_drawn(), Some(50));
}

#[test]
fn frame_figures() {
    let mut renderer = Renderer::new();
    let step = renderer.tick(at(1_000_000, 10_000_000), false, 2_000);
    assert_eq!(
        step,
        RenderStep::Draw(ProgressFrame {
            transferred: 1_000_000,
            total: 10_000_000,
            percent: 10,
            rate: 500_000,
            remaining_seconds: Some(18),
        })
    );
}

#[test]
fn stops_when_progress_reaches_total() {
    let mut renderer = Renderer::new();
    assert!(matches!(renderer.tick(at(99, 100), false, 50), RenderStep::Draw(_)));
    assert_eq!(renderer.tick(at(100, 100), false, 100), RenderStep::Stop);
    assert!(renderer.is_finished());
    assert_eq!(renderer.last_drawn(), Some(99));
}

#[test]
fn stops_when_stop_is_requested() {
    let mut renderer = Renderer::new();
    assert!(matches!(renderer.tick(at(10, 100), false, 50), RenderStep::Draw(_)));
    assert_eq!(renderer.tick(at(10, 100), true, 100), RenderStep::Stop);
    assert!(renderer.is_finished());
    assert_eq!(renderer.last_drawn(), Some(10));
}

#[test]
fn stopped_renderer_stays_stopped() {
    let mut renderer = Renderer::new();
    assert_eq!(renderer.tick(at(10, 100), true, 50), RenderStep::Stop);
    assert_eq!(renderer.tick(at(20, 100), false, 100), RenderStep::Stop);
    assert!(renderer.is_finished());
    assert_eq!(renderer.last_drawn(), None);
}

#[test]
fn empty_file_stops_at_first_tick() {
    let mut renderer = Renderer::new();
    assert_eq!(renderer.tick(ProgressState::new(0), false, 50), RenderStep::Stop);
    assert_eq!(renderer.last_drawn(), None);
}

#[test]
fn tolerates_missing_and_repeated_updates() {
    let mut renderer = Renderer::new();
    for (elapsed, seen) in [(50, 0), (100, 0), (150, 70), (200, 70)] {
        match renderer.tick(at(seen, 100), false, elapsed) {
            RenderStep::Draw(frame) => assert_eq!(frame.transferred, seen),
            RenderStep::Stop => panic!("stopped early"),
        }
    }
    assert_eq!(renderer.last_drawn(), Some(70));
}

#[test]
fn rate_is_bytes_per_second() {
    assert_eq!(rate_per_second(500, 250), 2000);
    assert_eq!(rate_per_second(1, 1000), 1);
    assert_eq!(rate_per_second(1, 1001), 0);
    assert_eq!(rate_per_second(999, 1000), 999);
    assert_eq!(rate_per_second(0, 1000), 0);
    assert_eq!(rate_per_second(1_048_576, 1), 1_048_576_000);
}

#[test]
fn rate_is_zero_before_time_has_passed() {
    assert_eq!(rate_per_second(0, 0), 0);
    assert_eq!(rate_per_second(4096, 0), 0);
}

#[test]
fn rate_is_capped() {
    assert_eq!(rate_per_second(u64::MAX, 1), u64::MAX);
    assert_eq!(rate_per_second(u64::MAX, 1000), u64::MAX);
    assert_eq!(rate_per_second(u64::MAX, 2000), u64::MAX / 2);
}

#[test]
fn seconds_left_is_remaining_over_rate() {
    assert_eq!(seconds_left(150, 100), Some(1));
    assert_eq!(seconds_left(200, 100), Some(2));
    assert_eq!(seconds_left(0, 100), Some(0));
    assert_eq!(seconds_left(99, 100), Some(0));
    assert_eq!(seconds_left(u64::MAX, 1), Some(u64::MAX));
}

#[test]
fn seconds_left_is_unknown_at_rate_zero() {
    assert_eq!(seconds_left(150, 0), None);
    assert_eq!(seconds_left(0, 0), None);
    let mut renderer = Renderer::new();
    match renderer.tick(at(0, 100), false, 50) {
        RenderStep::Draw(frame) => {
            assert_eq!(frame.rate, 0);
            assert_eq!(frame.remaining_seconds, None);
            assert_eq!(frame.percent, 0);
        }
        RenderStep::Stop => panic!("stopped early"),
    }
}
