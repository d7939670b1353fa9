use vstd::prelude::*;
use crate::assets::AssetStore;
use crate::frame_clock::{clamped_delta, reports_fps, warmup_window, FrameClock};
use crate::input::{
    key_down_step, key_up_step, mouse_down_step, mouse_move_step, mouse_to_touch_step,
    mouse_up_step, no_presses, rollover_step, touch_step, touches_to_mouse_step, InputEngine, MouseButton,
    TouchPhase,
};
use crate::profile::{recorded, scope_duration, stats_of, ProfileCache, ProfileStats, ProfileToken};

verus! {

/// Screen size in pixels, after the display scale.
#[derive(Clone, Copy, Debug, PartialEq, Eq, Structural)]
pub struct ScreenSize {
    pub width: u32,
    pub height: u32,
}

/// Where the engine reads assets from and writes user data to.
pub struct GameSettings {
    pub asset_root: String,
    pub user_data_root: String,
}

/// Converts a y coordinate measured from the top of the screen into one measured
/// from the bottom.
pub open spec fn flip_y(screen_height: u32, y: i32) -> i64 {
    (screen_height - y) as i64
}

fn flip(screen_height: u32, y: i32) -> (r: i64)
    ensures
        r == flip_y(screen_height, y),
{
    screen_height as i64 - y as i64
}

/// Scoped access to the engine's subsystems, handed to game logic for one
/// initialize or update callback. It borrows each subsystem once, so nothing else
/// can reach them while it lives.
pub struct Emerald<'c> {
    delta_ns: u64,
    fps_milli: Option<u64>,
    now_ns: u64,
    screen: ScreenSize,
    input: &'c mut InputEngine,
    asset_store: &'c mut AssetStore,
    profile_cache: &'c mut ProfileCache,
    log: &'c mut Vec<String>,
    quit_requested: &'c mut bool,
}

impl<'c> Emerald<'c> {
    pub closed spec fn frame_delta(&self) -> u64 {
        self.delta_ns
    }

    pub closed spec fn frame_fps(&self) -> Option<u64> {
        self.fps_milli
    }

    pub closed spec fn frame_now(&self) -> u64 {
        self.now_ns
    }

    pub closed spec fn frame_screen(&self) -> ScreenSize {
        self.screen
    }

    pub closed spec fn input_state(&self) -> InputEngine {
        *self.input
    }

    pub closed spec fn store(&self) -> AssetStore {
        *self.asset_store
    }

    pub closed spec fn profiles(&self) -> ProfileCache {
        *self.profile_cache
    }

    pub closed spec fn log_lines(&self) -> Seq<String> {
        self.log@
    }

    pub closed spec fn quit_flag(&self) -> bool {
        *self.quit_requested
    }

    /// Builds the facade for one callback over the given subsystems and frame values.
    pub fn new(
        delta_ns: u64,
        fps_milli: Option<u64>,
        now_ns: u64,
        screen: ScreenSize,
        input: &'c mut InputEngine,
        asset_store: &'c mut AssetStore,
        profile_cache: &'c mut ProfileCache,
        log: &'c mut Vec<String>,
        quit_requested: &'c mut bool,
    ) -> (emd: Emerald<'c>)
        ensures
            emd.frame_delta() == delta_ns,
            emd.frame_fps() == fps_milli,
            emd.frame_now() == now_ns,
            emd.frame_screen() == screen,
            emd.input_state() == *old(input),
            emd.store() == *old(asset_store),
            emd.profiles() == *old(profile_cache),
            emd.log_lines() == old(log)@,
            emd.quit_flag() == *old(quit_requested),
    {
        Emerald {
            delta_ns,
            fps_milli,
            now_ns,
            screen,
            input,
            asset_store,
            profile_cache,
            log,
            quit_requested,
        }
    }

    /// Time since the previous frame, in nanoseconds.
    pub fn delta(&self) -> (r: u64)
        ensures
            r == self.frame_delta(),
    {
        self.delta_ns
    }

    /// Overrides the frame delta seen by the rest of this callback, for fixed-step
    /// or deterministic runs; it breaks normal timing.
    pub fn set_delta(&mut self, delta_ns: u64)
        ensures
            final(self).frame_delta() == delta_ns,
            final(self).frame_fps() == old(self).frame_fps(),
            final(self).frame_now() == old(self).frame_now(),
            final(self).input_state() == old(self).input_state(),
            final(self).store() == old(self).store(),
            final(self).profiles() == old(self).profiles(),
            final(self).log_lines() == old(self).log_lines(),
            final(self).quit_flag() == old(self).quit_flag(),
    {
        self.delta_ns = delta_ns;
    }

    /// Time since the epoch at the start of this callback, in nanoseconds.
    pub fn now(&self) -> (r: u64)
        ensures
            r == self.frame_now(),
    {
        self.now_ns
    }

    pub fn screen_size(&self) -> (r: ScreenSize)
        ensures
            r == self.frame_screen(),
    {
        self.screen
    }

    /// Smoothed frame rate in millihertz.
    pub fn fps(&self) -> (r: Option<u64>)
        ensures
            r == self.frame_fps(),
    {
        self.fps_milli
    }

    /// Asks the platform to shut down after this callback.
    pub fn quit(&mut self)
        ensures
            final(self).quit_flag(),
            final(self).input_state() == old(self).input_state(),
            final(self).store() == old(self).store(),
            final(self).profiles() == old(self).profiles(),
            final(self).log_lines() == old(self).log_lines(),
    {
        *self.quit_requested = true;
    }

    pub fn input(&self) -> (r: &InputEngine)
        ensures
            *r == self.input_state(),
    {
        self.input
    }

    /// Makes all touches also register as mouse events.
    pub fn touches_to_mouse(&mut self, enabled: bool)
        ensures
            touches_to_mouse_step(old(self).input_state(), final(self).input_state(), enabled),
            final(self).store() == old(self).store(),
            final(self).profiles() == old(self).profiles(),
            final(self).log_lines() == old(self).log_lines(),
            final(self).quit_flag() == old(self).quit_flag(),
    {
        self.input.set_touches_to_mouse(enabled);
    }

    /// Makes mouse clicks also register as touches.
    pub fn mouse_to_touch(&mut self, enabled: bool)
        ensures
            mouse_to_touch_step(old(self).input_state(), final(self).input_state(), enabled),
            final(self).store() == old(self).store(),
            final(self).profiles() == old(self).profiles(),
            final(self).log_lines() == old(self).log_lines(),
            final(self).quit_flag() == old(self).quit_flag(),
    {
        self.input.set_mouse_to_touch(enabled);
    }

    /// Presses or releases a key as if the platform had reported it.
    pub fn set_key_pressed(&mut self, keycode: u32, is_pressed: bool)
        ensures
            is_pressed ==> key_down_step(old(self).input_state(), final(self).input_state(), keycode),
            !is_pressed ==> key_up_step(old(self).input_state(), final(self).input_state(), keycode),
            final(self).store() == old(self).store(),
            final(self).profiles() == old(self).profiles(),
            final(self).log_lines() == old(self).log_lines(),
            final(self).quit_flag() == old(self).quit_flag(),
    {
        if is_pressed {
            self.input.set_key_down(keycode, false);
        } else {
            self.input.set_key_up(keycode);
        }
    }

    /// The asset store, for loading resources during this callback.
    pub fn loader(&mut self) -> (r: &mut AssetStore)
        ensures
            *r == old(self).store(),
            final(self).store() == *final(r),
            final(self).input_state() == old(self).input_state(),
            final(self).profiles() == old(self).profiles(),
            final(self).log_lines() == old(self).log_lines(),
            final(self).quit_flag() == old(self).quit_flag(),
    {
        &mut *self.asset_store
    }

    pub fn set_asset_folder_root(&mut self, root: String)
        ensures
            final(self).store().asset_root() == root@,
            final(self).store().user_data_root() == old(self).store().user_data_root(),
            final(self).store().assets() == old(self).store().assets(),
            final(self).store().decodes() == old(self).store().decodes(),
            final(self).input_state() == old(self).input_state(),
            final(self).profiles() == old(self).profiles(),
            final(self).log_lines() == old(self).log_lines(),
            final(self).quit_flag() == old(self).quit_flag(),
    {
        self.asset_store.set_asset_folder_root(root);
    }

    pub fn set_user_data_folder_root(&mut self, root: String)
        ensures
            final(self).store().user_data_root() == root@,
            final(self).store().asset_root() == old(self).store().asset_root(),
            final(self).store().assets() == old(self).store().assets(),
            final(self).store().decodes() == old(self).store().decodes(),
            final(self).input_state() == old(self).input_state(),
            final(self).profiles() == old(self).profiles(),
            final(self).log_lines() == old(self).log_lines(),
            final(self).quit_flag() == old(self).quit_flag(),
    {
        self.asset_store.set_user_data_folder_root(root);
    }

    pub fn get_asset_folder_root(&mut self) -> (r: String)
        ensures
            r@ == old(self).store().asset_root(),
            *final(self) == *old(self),
    {
        self.asset_store.get_asset_folder_root()
    }

    pub fn get_user_data_folder_root(&mut self) -> (r: String)
        ensures
            r@ == old(self).store().user_data_root(),
            *final(self) == *old(self),
    {
        self.asset_store.get_user_data_folder_root()
    }

    /// The folder that saves go to: the configured user data root.
    pub fn writer(&mut self) -> (r: String)
        ensures
            r@ == old(self).store().user_data_root(),
            *final(self) == *old(self),
    {
        self.get_user_data_folder_root()
    }

    /// Opens a profiling scope named `name`, started at this callback's time.
    pub fn profiler(&mut self, name: String) -> (t: ProfileToken)
        ensures
            t.name() == name@,
            t.start() == old(self).frame_now(),
            *final(self) == *old(self),
    {
        self.profile_cache.begin(name, self.now_ns)
    }

    /// Closes a profiling scope at `end_ns`, recording its duration.
    pub fn finish_profile(&mut self, token: ProfileToken, end_ns: u64)
        ensures
            final(self).profiles().series() == recorded(
                old(self).profiles().series(),
                token.name(),
                scope_duration(token.start(), end_ns),
            ),
            final(self).input_state() == old(self).input_state(),
            final(self).store() == old(self).store(),
    {
        self.profile_cache.finish(token, end_ns);
    }

    /// Count, total and mean of the durations recorded under `name`.
    pub fn profile_stats(&self, name: &str) -> (r: ProfileStats)
        ensures
            r == stats_of(self.profiles().series_of(name@)),
    {
        self.profile_cache.query(name)
    }

    /// Buffers a line for the log, written out at the end of the frame's update.
    pub fn logger(&mut self, line: String)
        ensures
            final(self).log_lines() == old(self).log_lines().push(line),
            final(self).input_state() == old(self).input_state(),
            final(self).store() == old(self).store(),
    {
        self.log.push(line);
    }
}

/// Scoped access handed to game logic for one draw callback. Input can be read
/// but not changed: drawing leaves the frame's input state as update left it.
pub struct EmeraldDraw<'c> {
    delta_ns: u64,
    fps_milli: Option<u64>,
    now_ns: u64,
    screen: ScreenSize,
    input: &'c InputEngine,
    asset_store: &'c mut AssetStore,
    profile_cache: &'c mut ProfileCache,
    log: &'c mut Vec<String>,
    quit_requested: &'c mut bool,
}

impl<'c> EmeraldDraw<'c> {
    pub closed spec fn frame_delta(&self) -> u64 {
        self.delta_ns
    }

    pub closed spec fn frame_now(&self) -> u64 {
        self.now_ns
    }

    pub closed spec fn frame_fps(&self) -> Option<u64> {
        self.fps_milli
    }

    pub closed spec fn frame_screen(&self) -> ScreenSize {
        self.screen
    }

    pub closed spec fn input_state(&self) -> InputEngine {
        *self.input
    }

    pub closed spec fn log_lines(&self) -> Seq<String> {
        self.log@
    }

    pub closed spec fn quit_flag(&self) -> bool {
        *self.quit_requested
    }

    pub closed spec fn store(&self) -> AssetStore {
        *self.asset_store
    }

    pub closed spec fn profiles(&self) -> ProfileCache {
        *self.profile_cache
    }

    /// Builds the facade for one draw over the given subsystems and frame values.
    pub fn new(
        delta_ns: u64,
        fps_milli: Option<u64>,
        now_ns: u64,
        screen: ScreenSize,
        input: &'c InputEngine,
        asset_store: &'c mut AssetStore,
        profile_cache: &'c mut ProfileCache,
        log: &'c mut Vec<String>,
        quit_requested: &'c mut bool,
    ) -> (emd: EmeraldDraw<'c>)
        ensures
            emd.frame_delta() == delta_ns,
            emd.frame_fps() == fps_milli,
            emd.frame_now() == now_ns,
            emd.frame_screen() == screen,
            emd.input_state() == *input,
            emd.store() == *old(asset_store),
            emd.profiles() == *old(profile_cache),
            emd.log_lines() == old(log)@,
            emd.quit_flag() == *old(quit_requested),
    {
        EmeraldDraw {
            delta_ns,
            fps_milli,
            now_ns,
            screen,
            input,
            asset_store,
            profile_cache,
            log,
            quit_requested,
        }
    }

    /// Time elapsed since the last update, in nanoseconds.
    pub fn delta(&self) -> (r: u64)
        ensures
            r == self.frame_delta(),
    {
        self.delta_ns
    }

    pub fn now(&self) -> (r: u64)
        ensures
            r == self.frame_now(),
    {
        self.now_ns
    }

    pub fn screen_size(&self) -> (r: ScreenSize)
        ensures
            r == self.frame_screen(),
    {
        self.screen
    }

    /// Smoothed frame rate in millihertz.
    pub fn fps(&self) -> (r: Option<u64>)
        ensures
            r == self.frame_fps(),
    {
        self.fps_milli
    }

    /// Asks the platform to shut down.
    pub fn quit(&mut self)
        ensures
            final(self).quit_flag(),
            final(self).store() == old(self).store(),
            final(self).profiles() == old(self).profiles(),
            final(self).log_lines() == old(self).log_lines(),
    {
        *self.quit_requested = true;
    }

    pub fn input(&self) -> (r: &InputEngine)
        ensures
            *r == self.input_state(),
    {
        self.input
    }

    /// The asset store, for loading resources during this callback.
    pub fn loader(&mut self) -> (r: &mut AssetStore)
        ensures
            *r == old(self).store(),
            final(self).store() == *final(r),
            final(self).profiles() == old(self).profiles(),
            final(self).log_lines() == old(self).log_lines(),
            final(self).quit_flag() == old(self).quit_flag(),
    {
        &mut *self.asset_store
    }

    pub fn profiler(&mut self, name: String) -> (t: ProfileToken)
        ensures
            t.name() == name@,
            t.start() == old(self).frame_now(),
            *final(self) == *old(self),
    {
        self.profile_cache.begin(name, self.now_ns)
    }

    pub fn finish_profile(&mut self, token: ProfileToken, end_ns: u64)
        ensures
            final(self).profiles().series() == recorded(
                old(self).profiles().series(),
                token.name(),
                scope_duration(token.start(), end_ns),
            ),
            final(self).store() == old(self).store(),
    {
        self.profile_cache.finish(token, end_ns);
    }

    /// Buffers a line for the log, written out at the end of the next update.
    pub fn logger(&mut self, line: String)
        ensures
            final(self).log_lines() == old(self).log_lines().push(line),
            final(self).store() == old(self).store(),
            final(self).quit_flag() == old(self).quit_flag(),
    {
        self.log.push(line);
    }
}

/// Game logic driven by the engine: initialized once, then updated and drawn
/// every frame.
pub trait Game {
    fn initialize(&mut self, emd: Emerald<'_>);

    fn update(&mut self, emd: Emerald<'_>);

    fn draw(&mut self, emd: EmeraldDraw<'_>);
}

/// What the platform must do after an update: write out the buffered log lines,
/// and shut down if the game asked to.
pub struct FrameReport {
    pub delta_ns: u64,
    pub log_lines: Vec<String>,
    pub quit_requested: bool,
}

/// Which callback of the game was run.
#[derive(Clone, Copy, Debug, PartialEq, Eq, Structural)]
pub enum Phase {
    Initialize,
    Update,
    Draw,
}

/// What one callback of the game was handed in its facade, and what it left.
pub ghost struct Handed {
    pub phase: Phase,
    pub delta_ns: u64,
    pub fps_milli: Option<u64>,
    pub now_ns: u64,
    pub screen: ScreenSize,
    pub input: InputEngine,
    /// The input state as the callback left it.
    pub input_left: InputEngine,
    /// The buffered log lines as the callback left them.
    pub log_left: Seq<String>,
}

/// The callback last run was an update at `now_ns` on `screen`, handed the time
/// since `last`, the rate of `window`, and the input state `input`.
pub open spec fn handed_update(
    calls: Seq<Handed>,
    now_ns: u64,
    screen: ScreenSize,
    last: u64,
    window: Seq<u64>,
    input: InputEngine,
) -> bool {
    &&& calls.len() > 0
    &&& calls.last().phase == Phase::Update
    &&& calls.last().delta_ns == clamped_delta(now_ns, last)
    &&& reports_fps(calls.last().fps_milli, window)
    &&& calls.last().now_ns == now_ns
    &&& calls.last().screen == screen
    &&& calls.last().input == input
}

/// What a draw leaves as it was: the clock, and the input state.
pub open spec fn draw_outcome<G: Game>(before: GameEngine<G>, after: GameEngine<G>) -> bool {
    &&& before.wf() ==> after.wf()
    &&& after.window() == before.window()
    &&& after.last_instant() == before.last_instant()
    &&& after.input_state() == before.input_state()
}

/// Two draws with no update between them leave the input state, including what
/// was pressed and released this frame, and the clock as the update left them.
pub proof fn lemma_draw_twice_keeps_input<G: Game>(
    e0: GameEngine<G>,
    e1: GameEngine<G>,
    e2: GameEngine<G>,
)
    requires
        draw_outcome(e0, e1),
        draw_outcome(e1, e2),
    ensures
        e2.input_state().keys() == e0.input_state().keys(),
        e2.input_state().buttons() == e0.input_state().buttons(),
        e2.window() == e0.window(),
        e2.last_instant() == e0.last_instant(),
{
}

/// Owns every subsystem and the game, and turns the platform's callbacks into
/// calls of the game with a facade over them.
pub struct GameEngine<G: Game> {
    game: G,
    clock: FrameClock,
    input_engine: InputEngine,
    asset_store: AssetStore,
    profile_cache: ProfileCache,
    log: Vec<String>,
    quit_requested: bool,
    calls: Ghost<Seq<Handed>>,
}

impl<G: Game> GameEngine<G> {
    pub closed spec fn wf(&self) -> bool {
        self.clock.wf()
    }

    /// The frame deltas the rate is averaged over, oldest first.
    pub closed spec fn window(&self) -> Seq<u64> {
        self.clock@
    }

    /// When the last update started, in nanoseconds.
    pub closed spec fn last_instant(&self) -> u64 {
        self.clock.last()
    }

    pub closed spec fn input_state(&self) -> InputEngine {
        self.input_engine
    }

    pub closed spec fn quit_flag(&self) -> bool {
        self.quit_requested
    }

    pub closed spec fn store(&self) -> AssetStore {
        self.asset_store
    }

    pub closed spec fn profiles(&self) -> ProfileCache {
        self.profile_cache
    }

    /// Log lines buffered and not yet written out.
    pub closed spec fn log_lines(&self) -> Seq<String> {
        self.log@
    }

    /// The game being driven.
    pub closed spec fn game_value(&self) -> G {
        self.game
    }

    /// Every callback of the game so far, in order, with what it was handed.
    pub closed spec fn calls(&self) -> Seq<Handed> {
        self.calls@
    }

    /// Builds every subsystem, then initializes the game once, with a facade whose
    /// delta is zero and which has no rate yet.
    pub fn new(game: G, settings: GameSettings, now_ns: u64, screen: ScreenSize) -> (r: Self)
        ensures
            r.wf(),
            r.window() == warmup_window(),
            r.last_instant() == now_ns,
            r.calls().len() == 1,
            r.calls()[0].phase == Phase::Initialize,
            r.calls()[0].delta_ns == 0,
            r.calls()[0].fps_milli is None,
            r.calls()[0].now_ns == now_ns,
            r.calls()[0].screen == screen,
            r.calls()[0].input.keys() == no_presses(),
            r.calls()[0].input.buttons() == no_presses(),
            r.calls()[0].input.touches() == Map::<u64, crate::input::Touch>::empty(),
    {
        let mut game = game;
        let mut input_engine = InputEngine::new();
        let mut asset_store = AssetStore::new(settings.asset_root, settings.user_data_root);
        let mut profile_cache = ProfileCache::new();
        let mut log: Vec<String> = Vec::new();
        let mut quit_requested = false;
        let clock = FrameClock::new(now_ns);
        let emd = Emerald::new(
            0,
            None,
            now_ns,
            screen,
            &mut input_engine,
            &mut asset_store,
            &mut profile_cache,
            &mut log,
            &mut quit_requested,
        );
        let ghost handed_delta = emd.frame_delta();
        let ghost handed_fps = emd.frame_fps();
        let ghost handed_now = emd.frame_now();
        let ghost handed_screen = emd.frame_screen();
        let ghost handed_input = emd.input_state();
        game.initialize(emd);
        let ghost handed = Handed {
            phase: Phase::Initialize,
            delta_ns: handed_delta,
            fps_milli: handed_fps,
            now_ns: handed_now,
            screen: handed_screen,
            input: handed_input,
            input_left: input_engine,
            log_left: log@,
        };
        let calls: Ghost<Seq<Handed>> = Ghost(Seq::empty().push(handed));
        GameEngine {
            game,
            clock,
            input_engine,
            asset_store,
            profile_cache,
            log,
            quit_requested,
            calls,
        }
    }

    /// Frame rate averaged over the window, in millihertz.
    pub fn get_fps(&self) -> (r: Option<u64>)
        requires
            self.wf(),
        ensures
            reports_fps(r, self.window()),
    {
        self.clock.fps_milli()
    }

    /// One update: measures the frame delta at `now_ns` and runs the game's update
    /// with it, the rate after it, and the input as the events left it. Then it
    /// flushes the log and rolls the input over, so what was pressed this frame
    /// was visible to the game exactly once.
    pub fn update(&mut self, now_ns: u64, screen: ScreenSize) -> (r: FrameReport)
        requires
            old(self).wf(),
        ensures
            final(self).wf(),
            r.delta_ns == clamped_delta(now_ns, old(self).last_instant()),
            final(self).window() == old(self).window().drop_first().push(r.delta_ns),
            final(self).last_instant() == now_ns,
            final(self).calls().drop_last() == old(self).calls(),
            handed_update(
                final(self).calls(),
                now_ns,
                screen,
                old(self).last_instant(),
                final(self).window(),
                old(self).input_state(),
            ),
            final(self).input_state().keys().pressed.is_empty(),
            final(self).input_state().keys().released.is_empty(),
            final(self).input_state().buttons().pressed.is_empty(),
            final(self).input_state().buttons().released.is_empty(),
            rollover_step(final(self).calls().last().input_left, final(self).input_state()),
            r.log_lines@ == final(self).calls().last().log_left,
            final(self).log_lines().len() == 0,
            r.quit_requested == final(self).quit_flag(),
    {
        let delta = self.clock.tick(now_ns);
        let fps = self.clock.fps_milli();
        let emd = Emerald::new(
            delta,
            fps,
            now_ns,
            screen,
            &mut self.input_engine,
            &mut self.asset_store,
            &mut self.profile_cache,
            &mut self.log,
            &mut self.quit_requested,
        );
        let ghost handed_delta = emd.frame_delta();
        let ghost handed_fps = emd.frame_fps();
        let ghost handed_now = emd.frame_now();
        let ghost handed_screen = emd.frame_screen();
        let ghost handed_input = emd.input_state();
        self.game.update(emd);
        let ghost handed = Handed {
            phase: Phase::Update,
            delta_ns: handed_delta,
            fps_milli: handed_fps,
            now_ns: handed_now,
            screen: handed_screen,
            input: handed_input,
            input_left: self.input_engine,
            log_left: self.log@,
        };
        proof {
            self.calls = Ghost(self.calls@.push(handed));
            assert(self.calls@.drop_last() =~= old(self).calls@);
        }
        let mut log_lines: Vec<String> = Vec::new();
        std::mem::swap(&mut log_lines, &mut self.log);
        self.input_engine.update_and_rollover();
        proof {
            assert(self.input_engine.keys().pressed =~= Set::<u32>::empty());
        }
        FrameReport { delta_ns: delta, log_lines, quit_requested: self.quit_requested }
    }

    /// One draw: runs the game's draw with the time since the last update and the
    /// current rate. The clock does not advance and the input is left as it was,
    /// so drawing any number of times between updates changes neither.
    pub fn draw(&mut self, now_ns: u64, screen: ScreenSize) -> (quit: bool)
        requires
            old(self).wf(),
        ensures
            draw_outcome(*old(self), *final(self)),
            final(self).calls().drop_last() == old(self).calls(),
            final(self).calls().len() == old(self).calls().len() + 1,
            final(self).calls().last().phase == Phase::Draw,
            final(self).calls().last().delta_ns == clamped_delta(now_ns, old(self).last_instant()),
            reports_fps(final(self).calls().last().fps_milli, old(self).window()),
            final(self).calls().last().now_ns == now_ns,
            final(self).calls().last().screen == screen,
            final(self).calls().last().input == old(self).input_state(),
            quit == final(self).quit_flag(),
    {
        let delta = self.clock.elapsed(now_ns);
        let fps = self.clock.fps_milli();
        let emd = EmeraldDraw::new(
            delta,
            fps,
            now_ns,
            screen,
            &self.input_engine,
            &mut self.asset_store,
            &mut self.profile_cache,
            &mut self.log,
            &mut self.quit_requested,
        );
        let ghost handed_delta = emd.frame_delta();
        let ghost handed_fps = emd.frame_fps();
        let ghost handed_now = emd.frame_now();
        let ghost handed_screen = emd.frame_screen();
        let ghost handed_input = emd.input_state();
        self.game.draw(emd);
        let ghost handed = Handed {
            phase: Phase::Draw,
            delta_ns: handed_delta,
            fps_milli: handed_fps,
            now_ns: handed_now,
            screen: handed_screen,
            input: handed_input,
            input_left: self.input_engine,
            log_left: self.log@,
        };
        proof {
            self.calls = Ghost(self.calls@.push(handed));
            assert(self.calls@.drop_last() =~= old(self).calls@);
        }
        self.quit_requested
    }

    pub fn key_down_event(&mut self, keycode: u32, repeat: bool)
        ensures
            key_down_step(old(self).input_state(), final(self).input_state(), keycode),
            final(self).window() == old(self).window(),
            final(self).last_instant() == old(self).last_instant(),
            final(self).wf() == old(self).wf(),
            final(self).calls() == old(self).calls(),
    {
        self.input_engine.set_key_down(keycode, repeat);
    }

    pub fn key_up_event(&mut self, keycode: u32)
        ensures
            key_up_step(old(self).input_state(), final(self).input_state(), keycode),
            final(self).window() == old(self).window(),
            final(self).last_instant() == old(self).last_instant(),
            final(self).wf() == old(self).wf(),
            final(self).calls() == old(self).calls(),
    {
        self.input_engine.set_key_up(keycode);
    }

    /// The platform measures y from the top of the screen; the engine from the bottom.
    pub fn mouse_motion_event(&mut self, x: i32, y: i32, screen: ScreenSize)
        ensures
            mouse_move_step(
                old(self).input_state(),
                final(self).input_state(),
                x as i64,
                flip_y(screen.height, y),
            ),
            final(self).window() == old(self).window(),
            final(self).last_instant() == old(self).last_instant(),
            final(self).wf() == old(self).wf(),
            final(self).calls() == old(self).calls(),
    {
        let fy = flip(screen.height, y);
        self.input_engine.set_mouse_translation(x as i64, fy);
    }

    pub fn mouse_button_down_event(&mut self, button: MouseButton, x: i32, y: i32, screen: ScreenSize)
        ensures
            mouse_down_step(
                old(self).input_state(),
                final(self).input_state(),
                button,
                x as i64,
                flip_y(screen.height, y),
            ),
            final(self).window() == old(self).window(),
            final(self).last_instant() == old(self).last_instant(),
            final(self).wf() == old(self).wf(),
            final(self).calls() == old(self).calls(),
    {
        let fy = flip(screen.height, y);
        self.input_engine.set_mouse_down(button, x as i64, fy);
    }

    pub fn mouse_button_up_event(&mut self, button: MouseButton, x: i32, y: i32, screen: ScreenSize)
        ensures
            mouse_up_step(
                old(self).input_state(),
                final(self).input_state(),
                button,
                x as i64,
                flip_y(screen.height, y),
            ),
            final(self).window() == old(self).window(),
            final(self).last_instant() == old(self).last_instant(),
            final(self).wf() == old(self).wf(),
            final(self).calls() == old(self).calls(),
    {
        let fy = flip(screen.height, y);
        self.input_engine.set_mouse_up(button, x as i64, fy);
    }

    /// Records a touch at the flipped position; with touches mirrored as mouse
    /// events, a touch start presses the left button at that same position.
    pub fn touch_event(&mut self, phase: TouchPhase, id: u64, x: i32, y: i32, screen: ScreenSize)
        ensures
            touch_step(
                old(self).input_state(),
                final(self).input_state(),
                phase,
                id,
                x as i64,
                flip_y(screen.height, y),
            ),
            final(self).window() == old(self).window(),
            final(self).last_instant() == old(self).last_instant(),
            final(self).wf() == old(self).wf(),
            final(self).calls() == old(self).calls(),
    {
        let fy = flip(screen.height, y);
        self.input_engine.touch_event(phase, id, x as i64, fy);
    }

    pub fn game(&self) -> (r: &G)
        ensures
            *r == self.game_value(),
    {
        &self.game
    }

    /// Whether the game has asked the platform to shut down.
    pub fn quit_requested(&self) -> (r: bool)
        ensures
            r == self.quit_flag(),
    {
        self.quit_requested
    }
}

} // verus!
