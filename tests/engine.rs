use emerald_core::assets::{Asset, TextureInfo};
use emerald_core::engine::{Emerald, EmeraldDraw, Game, GameEngine, GameSettings, ScreenSize};
use emerald_core::input::{MouseButton, Position, TouchPhase};
use emerald_core::profile::ProfileStats;

const SCREEN: ScreenSize = ScreenSize { width: 800, height: 600 };

#[derive(Default)]
struct FakeGame {
    initialized: u32,
    updates: u32,
    draws: u32,
    deltas: Vec<u64>,
    draw_deltas: Vec<u64>,
    pressed_seen: Vec<bool>,
    fps_seen: Vec<Option<u64>>,
    quit_on_update: bool,
}

impl Game for FakeGame {
    fn initialize(&mut self, mut emd: Emerald<'_>) {
        self.initialized += 1;
        assert_eq!(emd.delta(), 0);
        emd.touches_to_mouse(true);
        emd.logger("ready".to_string());
    }

    fn update(&mut self, mut emd: Emerald<'_>) {
        self.updates += 1;
        self.deltas.push(emd.delta());
        self.fps_seen.push(emd.fps());
        self.pressed_seen.push(emd.input().is_key_just_pressed(42));
        let t = emd.profiler("update".to_string());
        let end = emd.now() + 5;
        emd.finish_profile(t, end);
        let _ = emd.loader().load("hero.png", || Ok(Asset::Texture(TextureInfo { handle: 1, width: 2, height: 3 })));
        if self.quit_on_update {
            emd.quit();
        }
    }

    fn draw(&mut self, mut emd: EmeraldDraw<'_>) {
        self.draws += 1;
        self.draw_deltas.push(emd.delta());
        let t = emd.profiler("draw".to_string());
        emd.finish_profile(t, 0);
    }
}

fn settings() -> GameSettings {
    GameSettings { asset_root: "assets/".to_string(), user_data_root: "save/".to_string() }
}

#[test]
fn three_updates_give_rate_of_window() {
    let t0 = 1_000_000_000u64;
    let mut e = GameEngine::new(FakeGame::default(), settings(), t0, SCREEN);
    assert_eq!(e.game().initialized, 1);
    let r1 = e.update(t0 + 16_000_000, SCREEN);
    let r2 = e.update(t0 + 32_000_000, SCREEN);
    let r3 = e.update(t0 + 82_000_000, SCREEN);
    assert_eq!((r1.delta_ns, r2.delta_ns, r3.delta_ns), (16_000_000, 16_000_000, 50_000_000));
    let window: u128 = 47 * 16_666_667 + 16_000_000 + 16_000_000 + 50_000_000;
    let expected = (50u128 * 1_000_000_000_000 / window) as u64;
    assert_eq!(e.get_fps(), Some(expected));
    assert_eq!(expected, 57_781);
    assert_eq!(e.game().deltas, vec![16_000_000, 16_000_000, 50_000_000]);
    assert_eq!(e.game().fps_seen[2], Some(expected));
}

#[test]
fn draw_delta_does_not_change_next_update() {
    let mut e = GameEngine::new(FakeGame::default(), settings(), 0, SCREEN);
    e.update(10_000_000, SCREEN);
    for t in [11_000_000u64, 12_000_000, 19_000_000] {
        e.draw(t, SCREEN);
    }
    e.update(20_000_000, SCREEN);
    assert_eq!(e.game().deltas, vec![10_000_000, 10_000_000]);
    assert_eq!(e.game().draw_deltas, vec![1_000_000, 2_000_000, 9_000_000]);
    assert_eq!(e.game().initialized, 1);
    assert_eq!(e.game().updates, 2);
}

#[test]
fn backwards_time_gives_zero_delta() {
    let mut e = GameEngine::new(FakeGame::default(), settings(), 1_000, SCREEN);
    let r = e.update(500, SCREEN);
    assert_eq!(r.delta_ns, 0);
    let r = e.update(700, SCREEN);
    assert_eq!(r.delta_ns, 200);
}

#[test]
fn pressed_is_visible_for_exactly_one_update() {
    let mut e = GameEngine::new(FakeGame::default(), settings(), 0, SCREEN);
    e.key_down_event(42, false);
    e.update(10, SCREEN);
    e.key_down_event(42, true);
    e.update(20, SCREEN);
    assert_eq!(e.game().pressed_seen, vec![true, false]);
    e.key_up_event(42);
    e.key_down_event(42, false);
    e.update(30, SCREEN);
    assert_eq!(e.game().pressed_seen, vec![true, false, true]);
}

#[test]
fn draw_twice_keeps_clock_and_input() {
    let mut e = GameEngine::new(FakeGame::default(), settings(), 0, SCREEN);
    e.update(16_000_000, SCREEN);
    e.key_down_event(5, false);
    let fps = e.get_fps();
    e.draw(20_000_000, SCREEN);
    e.draw(25_000_000, SCREEN);
    assert_eq!(e.get_fps(), fps);
    assert_eq!(e.game().draws, 2);
    assert_eq!(e.game().draw_deltas, vec![4_000_000, 9_000_000]);
    let r = e.update(32_000_000, SCREEN);
    assert_eq!(r.delta_ns, 16_000_000);
    assert_eq!(e.game().pressed_seen, vec![false, false]);
}

#[test]
fn draw_before_any_update_is_safe() {
    let mut e = GameEngine::new(FakeGame::default(), settings(), 100, SCREEN);
    assert!(!e.draw(50, SCREEN));
    assert_eq!(e.game().draw_deltas, vec![0]);
}

#[test]
fn pointer_events_are_flipped() {
    struct Pointer {
        seen: Vec<(Position, bool, bool)>,
    }
    impl Game for Pointer {
        fn initialize(&mut self, _emd: Emerald<'_>) {}
        fn update(&mut self, emd: Emerald<'_>) {
            let i = emd.input();
            self.seen.push((
                i.mouse_position(),
                i.is_mouse_just_pressed(MouseButton::Right),
                i.is_mouse_just_released(MouseButton::Right),
            ));
        }
        fn draw(&mut self, _emd: EmeraldDraw<'_>) {}
    }
    let mut e = GameEngine::new(Pointer { seen: vec![] }, settings(), 0, SCREEN);
    e.mouse_motion_event(10, 100, SCREEN);
    e.update(1, SCREEN);
    e.mouse_button_down_event(MouseButton::Right, 11, 0, SCREEN);
    e.mouse_button_up_event(MouseButton::Right, 12, 600, SCREEN);
    e.update(2, SCREEN);
    e.touch_event(TouchPhase::Started, 3, 7, 650, SCREEN);
    e.update(3, SCREEN);
    assert_eq!(
        e.game().seen,
        vec![
            (Position { x: 10, y: 500 }, false, false),
            (Position { x: 12, y: 0 }, true, true),
            (Position { x: 12, y: 0 }, false, false),
        ]
    );
}

#[test]
fn touch_start_presses_left_button_at_flipped_point() {
    struct Watch {
        left: Vec<bool>,
        mouse: Vec<Position>,
    }
    impl Game for Watch {
        fn initialize(&mut self, mut emd: Emerald<'_>) {
            emd.touches_to_mouse(true);
        }
        fn update(&mut self, emd: Emerald<'_>) {
            self.left.push(emd.input().is_mouse_just_pressed(MouseButton::Left));
            self.mouse.push(emd.input().mouse_position());
        }
        fn draw(&mut self, _emd: EmeraldDraw<'_>) {}
    }
    let mut e = GameEngine::new(Watch { left: vec![], mouse: vec![] }, settings(), 0, SCREEN);
    e.touch_event(TouchPhase::Started, 3, 7, 100, SCREEN);
    e.update(1, SCREEN);
    assert_eq!(e.game().left, vec![true]);
    assert_eq!(e.game().mouse, vec![Position { x: 7, y: 500 }]);
}

#[test]
fn quit_and_logs_are_reported() {
    let g = FakeGame { quit_on_update: true, ..FakeGame::default() };
    let mut e = GameEngine::new(g, settings(), 0, SCREEN);
    assert!(!e.quit_requested());
    let r = e.update(1, SCREEN);
    assert!(r.quit_requested);
    assert_eq!(r.log_lines, vec!["ready".to_string()]);
    let r = e.update(2, SCREEN);
    assert!(r.log_lines.is_empty());
    assert!(e.quit_requested());
}

#[test]
fn facade_reaches_profiles_and_roots() {
    struct Roots {
        roots: Vec<String>,
        stats: Vec<ProfileStats>,
    }
    impl Game for Roots {
        fn initialize(&mut self, mut emd: Emerald<'_>) {
            self.roots.push(emd.get_asset_folder_root());
            emd.set_asset_folder_root("pack/".to_string());
            emd.set_user_data_folder_root("home/".to_string());
            self.roots.push(emd.get_asset_folder_root());
            self.roots.push(emd.writer());
            emd.set_delta(7);
            assert_eq!(emd.delta(), 7);
            assert_eq!(emd.screen_size(), SCREEN);
            assert_eq!(emd.fps(), None);
        }
        fn update(&mut self, mut emd: Emerald<'_>) {
            let t = emd.profiler("x".to_string());
            let end = emd.now() + 10;
            emd.finish_profile(t, end);
            emd.set_key_pressed(1, true);
            assert!(emd.input().is_key_down(1));
            emd.set_key_pressed(1, false);
            assert!(!emd.input().is_key_down(1));
            emd.mouse_to_touch(true);
            self.stats.push(emd.profile_stats("x"));
        }
        fn draw(&mut self, _emd: EmeraldDraw<'_>) {}
    }
    let mut e = GameEngine::new(Roots { roots: vec![], stats: vec![] }, settings(), 0, SCREEN);
    e.update(100, SCREEN);
    e.update(200, SCREEN);
    assert_eq!(e.game().roots, vec!["assets/".to_string(), "pack/".to_string(), "home/".to_string()]);
    assert_eq!(
        e.game().stats,
        vec![
            ProfileStats { count: 1, total_ns: 10, mean_ns: 10 },
            ProfileStats { count: 2, total_ns: 20, mean_ns: 10 },
        ]
    );
}

#[test]
fn mirrored_click_is_a_touch_at_flipped_point() {
    struct Touches {
        seen: Vec<Option<emerald_core::input::Touch>>,
    }
    impl Game for Touches {
        fn initialize(&mut self, mut emd: Emerald<'_>) {
            emd.mouse_to_touch(true);
        }
        fn update(&mut self, emd: Emerald<'_>) {
            self.seen.push(emd.input().touch(emerald_core::input::MOUSE_TOUCH_ID));
        }
        fn draw(&mut self, _emd: EmeraldDraw<'_>) {}
    }
    let mut e = GameEngine::new(Touches { seen: vec![] }, settings(), 0, SCREEN);
    e.mouse_button_down_event(MouseButton::Right, 4, 100, SCREEN);
    e.update(1, SCREEN);
    e.mouse_button_up_event(MouseButton::Right, 5, 200, SCREEN);
    e.update(2, SCREEN);
    let t = |x, y, phase| Some(emerald_core::input::Touch { position: Position { x, y }, phase });
    assert_eq!(e.game().seen, vec![t(4, 500, TouchPhase::Started), t(5, 400, TouchPhase::Ended)]);
}

#[test]
fn held_key_survives_rollover_and_logs_flush() {
    struct Held {
        down: Vec<bool>,
    }
    impl Game for Held {
        fn initialize(&mut self, _emd: Emerald<'_>) {}
        fn update(&mut self, mut emd: Emerald<'_>) {
            self.down.push(emd.input().is_key_down(9));
            emd.logger(format!("frame {}", self.down.len()));
        }
        fn draw(&mut self, _emd: EmeraldDraw<'_>) {}
    }
    let mut e = GameEngine::new(Held { down: vec![] }, settings(), 0, SCREEN);
    e.key_down_event(9, false);
    let r1 = e.update(1, SCREEN);
    let r2 = e.update(2, SCREEN);
    assert_eq!(e.game().down, vec![true, true]);
    assert_eq!(r1.log_lines, vec!["frame 1".to_string()]);
    assert_eq!(r2.log_lines, vec!["frame 2".to_string()]);
}
