use vkrender::input::{key_handler, movement, InputKey, InputModel, Key, LoopControl, MoveAxes};
use vkrender::timing::{FpsReport, FrameManager, PrintFPSPeriod, TimeManager, NANOS_PER_SECOND};

#[test]
fn frame_pacing_at_target_rate() {
    let mut f = FrameManager::new(1_000);
    assert_eq!(f.target_fps, 120);
    assert!(!f.should_draw_frame(1_000 + 8_333_333));
    assert_eq!(f.frame_start, 1_000);
    assert!(f.should_draw_frame(1_000 + 8_333_334));
    assert_eq!(f.frame_start, 1_000 + 8_333_334);
    assert!(!f.should_draw_frame(500));
}

#[test]
fn frame_rate_reports() {
    let mut f = FrameManager::new(0);
    assert_eq!(f.update_step_on_sec(10, true), None);
    assert_eq!(f.update_step_on_sec(20, true), None);
    assert_eq!(f.frame_count, 2);
    assert_eq!(f.update_step_on_sec(NANOS_PER_SECOND, true), Some(2));
    assert_eq!(f.frame_count, 1);
    assert_eq!(f.sec_start, NANOS_PER_SECOND);
    assert_eq!(f.update_step_on_sec(2 * NANOS_PER_SECOND, false), None);
    assert_eq!(f.frame_count, 1);
    let mut d = FrameManager::new(0);
    for i in 0..25u64 {
        assert_eq!(d.update_step_on_decasec(i, true), None);
    }
    assert_eq!(d.update_step_on_decasec(9 * NANOS_PER_SECOND, true), None);
    assert_eq!(d.update_step_on_decasec(10 * NANOS_PER_SECOND, true), Some(2));
}

#[test]
fn time_manager_tick() {
    let mut t = TimeManager::new(PrintFPSPeriod::Other(2200), 0);
    let u = t.update(4_000_000);
    assert!(!u.draw);
    assert_eq!(t.delta_ns, 4_000_000);
    assert_eq!(t.frame_delta_ns, 4_000_000);
    let u = t.update(9_000_000);
    assert!(u.draw);
    assert_eq!(u.report, None);
    assert_eq!(t.frame_count, 1);
    assert_eq!(t.take_frame_delta(), 9_000_000);
    assert_eq!(t.frame_delta_ns, 0);
    let u = t.update(2_200_000_000);
    assert!(u.draw);
    assert_eq!(u.report, Some(FpsReport { frame_count: 1, timespan_ms: 2200 }));
    assert_eq!(t.frame_count, 1);
    assert_eq!(t.sec_start, 2_200_000_000);
}

#[test]
fn time_manager_periods() {
    let mut t = TimeManager::new(PrintFPSPeriod::FiveSecond, 0);
    assert_eq!(t.update_on_step(5000, 4_999_999_999), None);
    assert_eq!(t.update_on_step(5000, 5_000_000_000), Some(FpsReport { frame_count: 1, timespan_ms: 5000 }));
    let mut s = TimeManager::new(PrintFPSPeriod::Second, 0);
    assert!(s.should_draw_frame(NANOS_PER_SECOND));
    let u = TimeManager::new(PrintFPSPeriod::DecaSecond, 0).update(10 * NANOS_PER_SECOND);
    assert_eq!(u.report, Some(FpsReport { frame_count: 0, timespan_ms: 10000 }));
    let u = TimeManager::new(PrintFPSPeriod::No, 0).update(NANOS_PER_SECOND);
    assert_eq!(u.report, Some(FpsReport { frame_count: 0, timespan_ms: 1000 }));
}

#[test]
fn escape_pressed_exits() {
    let mut m = InputModel::default();
    assert_eq!(key_handler(Some(Key::Escape), true, &mut m), LoopControl::Exit);
    assert_eq!(m, InputModel::default());
    assert_eq!(key_handler(Some(Key::Escape), false, &mut m), LoopControl::Continue);
}

#[test]
fn movement_keys_tracked() {
    let mut m = InputModel::default();
    assert_eq!(m.forward_key, InputKey { key_down: false, key: Key::W });
    assert_eq!(InputKey::new(Key::Z), m.down_key);
    assert_eq!(key_handler(Some(Key::W), true, &mut m), LoopControl::Continue);
    assert!(m.forward_key.key_down);
    key_handler(Some(Key::D), true, &mut m);
    key_handler(Some(Key::Q), true, &mut m);
    key_handler(Some(Key::Z), true, &mut m);
    assert_eq!(movement(&m), MoveAxes { look: -1, cross: 1, up: 0 });
    key_handler(Some(Key::W), false, &mut m);
    key_handler(Some(Key::S), true, &mut m);
    key_handler(Some(Key::A), true, &mut m);
    assert_eq!(movement(&m), MoveAxes { look: 1, cross: 0, up: 0 });
    let before = m;
    assert_eq!(key_handler(Some(Key::Other), true, &mut m), LoopControl::Continue);
    assert_eq!(key_handler(None, true, &mut m), LoopControl::Continue);
    assert_eq!(m, before);
}
