use vstd::prelude::*;

use crate::geometry::{collide, overlaps, Point, Size, Velocity};
use crate::motion::{
    advanced, clamp_player_x, clamped_player_x, inner_half_span_of, integrate, player_velocity,
    player_velocity_for,
};
use crate::params::{
    ENEMY_HEIGHT, ENEMY_SPAWN_PERIOD, ENEMY_SPEED, ENEMY_WIDTH, PLAYER_HEIGHT, PLAYER_START_Y,
    PLAYER_WIDTH,
};
use crate::spawn::{random_spawn_x, spawn_x_in_range, timer_after, timer_fires, SpawnTimer};

verus! {

/// The box the player steers.
#[derive(Clone, Copy, Debug, PartialEq, Eq, Structural)]
pub struct Player {
    pub position: Point,
    pub velocity: Velocity,
}

/// A falling box.
#[derive(Clone, Copy, Debug, PartialEq, Eq, Structural)]
pub struct Enemy {
    pub position: Point,
    pub velocity: Velocity,
}

/// Whether the game is running or waiting for a restart.
#[derive(Clone, Copy, Debug, PartialEq, Eq, Structural)]
pub enum GameState {
    Playing,
    GameOver,
}

/// What the outside world reports for one tick.
#[derive(Clone, Copy, Debug, PartialEq, Eq, Structural)]
pub struct TickInput {
    /// Time since the previous tick, in microseconds.
    pub elapsed: u64,
    /// The left key is held.
    pub left_held: bool,
    /// The right key is held.
    pub right_held: bool,
    /// The restart key went down during this tick.
    pub restart_pressed: bool,
}

/// Size of the window, in micro-pixels, with the origin at its centre.
#[derive(Clone, Copy, Debug, PartialEq, Eq, Structural)]
pub struct WindowSize {
    pub width: i64,
    pub height: i64,
}

/// What happened during one tick.
#[derive(Clone, Copy, Debug, PartialEq, Eq, Structural)]
pub struct TickReport {
    /// A new enemy appeared.
    pub spawned: bool,
    /// The game went from playing to over.
    pub game_over: bool,
    /// The game went from over back to playing.
    pub restarted: bool,
}

/// The whole state of a game.
pub struct World {
    pub state: GameState,
    pub player: Option<Player>,
    pub enemies: Vec<Enemy>,
    pub spawn_timer: SpawnTimer,
    /// The game-over notice is on screen.
    pub notice_shown: bool,
}

/// The state of a game as a mathematical value.
pub ghost struct WorldModel {
    pub state: GameState,
    pub player: Option<Player>,
    pub enemies: Seq<Enemy>,
    pub spawn_timer: SpawnTimer,
    pub notice_shown: bool,
}

impl View for World {
    type V = WorldModel;

    open spec fn view(&self) -> WorldModel {
        WorldModel {
            state: self.state,
            player: self.player,
            enemies: self.enemies@,
            spawn_timer: self.spawn_timer,
            notice_shown: self.notice_shown,
        }
    }
}

impl WorldModel {
    /// The timer is valid; after the game ends there is no player and the
    /// notice is shown; while playing the notice is hidden.
    pub open spec fn wf(&self) -> bool {
        &&& self.spawn_timer.wf()
        &&& self.state == GameState::GameOver ==> self.player is None && self.notice_shown
        &&& self.state == GameState::Playing ==> !self.notice_shown
    }
}

pub open spec fn player_size() -> Size {
    Size { width: PLAYER_WIDTH, height: PLAYER_HEIGHT }
}

pub open spec fn enemy_size() -> Size {
    Size { width: ENEMY_WIDTH, height: ENEMY_HEIGHT }
}

/// A window size on which the game can run: the player fits across it.
pub open spec fn window_ok(window: WindowSize) -> bool {
    PLAYER_WIDTH <= window.width && 0 <= window.height
}

/// The player as it is placed at the start of a game: centred, near the
/// bottom, at rest.
pub open spec fn start_player() -> Player {
    Player { position: Point { x: 0, y: PLAYER_START_Y }, velocity: Velocity { x: 0, y: 0 } }
}

/// A new enemy at horizontal position `x` on the top edge of a window of
/// height `window_height`, falling at the enemy speed.
pub open spec fn spawned_enemy(x: i64, window_height: i64) -> Enemy {
    Enemy {
        position: Point { x, y: (window_height / 2) as i64 },
        velocity: Velocity { x: 0, y: (-ENEMY_SPEED) as i64 },
    }
}

/// The state of a game when it starts.
pub open spec fn initial_world() -> WorldModel {
    WorldModel {
        state: GameState::Playing,
        player: Some(start_player()),
        enemies: Seq::empty(),
        spawn_timer: SpawnTimer { period: ENEMY_SPAWN_PERIOD, elapsed: 0 },
        notice_shown: false,
    }
}

/// The player's box and the enemy's box overlap.
pub open spec fn hits(p: Player, e: Enemy) -> bool {
    overlaps(p.position, player_size(), e.position, enemy_size())
}

/// There is a player and it overlaps some enemy.
pub open spec fn player_hits_enemy(m: WorldModel) -> bool {
    match m.player {
        Some(p) => exists|i: int| 0 <= i < m.enemies.len() && hits(p, #[trigger] m.enemies[i]),
        None => false,
    }
}

pub open spec fn with_player_input(m: WorldModel, left_held: bool, right_held: bool) -> WorldModel {
    match m.player {
        Some(p) => WorldModel {
            player: Some(Player { velocity: player_velocity_for(left_held, right_held), ..p }),
            ..m
        },
        None => m,
    }
}

pub open spec fn moved_player(p: Player, elapsed: u64, window_width: i64) -> Player {
    let q = advanced(p.position, p.velocity, elapsed);
    Player { position: Point { x: clamped_player_x(q.x, window_width), y: q.y }, ..p }
}

pub open spec fn moved_enemy(e: Enemy, elapsed: u64) -> Enemy {
    Enemy { position: advanced(e.position, e.velocity, elapsed), ..e }
}

pub open spec fn with_entities_moved(m: WorldModel, elapsed: u64, window_width: i64) -> WorldModel {
    WorldModel {
        player: match m.player {
            Some(p) => Some(moved_player(p, elapsed, window_width)),
            None => None,
        },
        enemies: m.enemies.map_values(|e: Enemy| moved_enemy(e, elapsed)),
        ..m
    }
}

pub open spec fn with_timer_ticked(m: WorldModel, elapsed: u64) -> WorldModel {
    WorldModel { spawn_timer: timer_after(m.spawn_timer, elapsed), ..m }
}

pub open spec fn with_enemy_spawned(m: WorldModel, x: i64, window_height: i64) -> WorldModel {
    WorldModel { enemies: m.enemies.push(spawned_enemy(x, window_height)), ..m }
}

/// The game ends, removing the player, when the player overlaps an enemy.
pub open spec fn after_collision_check(m: WorldModel) -> WorldModel {
    if player_hits_enemy(m) {
        WorldModel { state: GameState::GameOver, player: None, ..m }
    } else {
        m
    }
}

/// Leaving the game-over state: enemies and notice go, a fresh player comes.
pub open spec fn restarted(m: WorldModel) -> WorldModel {
    WorldModel {
        state: GameState::Playing,
        player: Some(start_player()),
        enemies: Seq::empty(),
        notice_shown: false,
        ..m
    }
}

/// The world in play after input, movement and spawning, just before the
/// collision check; `x` is the position drawn for an enemy, if one spawns.
pub open spec fn before_collision_check(
    m: WorldModel,
    input: TickInput,
    window: WindowSize,
    x: i64,
) -> WorldModel {
    let a = with_timer_ticked(
        with_entities_moved(
            with_player_input(m, input.left_held, input.right_held),
            input.elapsed,
            window.width,
        ),
        input.elapsed,
    );
    if timer_fires(m.spawn_timer, input.elapsed) {
        with_enemy_spawned(a, x, window.height)
    } else {
        a
    }
}

/// One tick of the game; `x` is the position drawn for an enemy, if one spawns.
pub open spec fn step_spec(m: WorldModel, input: TickInput, window: WindowSize, x: i64) -> WorldModel {
    if m.state == GameState::Playing {
        let b = after_collision_check(before_collision_check(m, input, window, x));
        if b.state == GameState::GameOver {
            WorldModel { notice_shown: true, ..b }
        } else {
            b
        }
    } else if input.restart_pressed {
        restarted(m)
    } else {
        m
    }
}

/// In play, a tick ends the game exactly when, once everything has moved and
/// any new enemy has appeared, the player overlaps an enemy. The player is
/// then removed, the notice shown, and the enemies left where they are.
pub proof fn lemma_collision_ends_game(m: WorldModel, input: TickInput, window: WindowSize, x: i64)
    requires
        m.state == GameState::Playing,
    ensures
        ({
            let b = before_collision_check(m, input, window, x);
            let r = step_spec(m, input, window, x);
            &&& (r.state == GameState::GameOver) == player_hits_enemy(b)
            &&& player_hits_enemy(b) ==> r.player is None && r.notice_shown && r.enemies
                == b.enemies
        }),
{
}

/// Whatever the keys held and however long the tick, a player that is
/// still in play after it lies within the window: its centre is at most
/// `(W - w) / 2` from the centre line, for window width `W` and player width `w`.
pub proof fn lemma_player_stays_in_window(
    m: WorldModel,
    input: TickInput,
    window: WindowSize,
    x: i64,
)
    requires
        m.state == GameState::Playing,
        window_ok(window),
    ensures
        step_spec(m, input, window, x).player matches Some(p) ==> 2 * p.position.x
            <= window.width - PLAYER_WIDTH && -(window.width - PLAYER_WIDTH) <= 2 * p.position.x,
{
}

/// Once the game is over, a tick changes nothing unless the restart key was
/// pressed during it; that tick goes back to play with no enemies, no notice
/// and a fresh player at the start position, at rest.
pub proof fn lemma_only_restart_leaves_game_over(
    m: WorldModel,
    input: TickInput,
    window: WindowSize,
    x: i64,
)
    requires
        m.state == GameState::GameOver,
    ensures
        ({
            let r = step_spec(m, input, window, x);
            &&& !input.restart_pressed ==> r == m
            &&& input.restart_pressed ==> {
                &&& r.state == GameState::Playing
                &&& r.enemies.len() == 0
                &&& !r.notice_shown
                &&& r.player == Some(start_player())
            }
        }),
{
}

/// A tick with no elapsed time and no key moves nothing, spawns nothing and
/// changes no state, provided the player already lies within the window and
/// touches no enemy.
pub proof fn lemma_idle_tick_changes_nothing(m: WorldModel, window: WindowSize, x: i64)
    requires
        m.wf(),
        window_ok(window),
        m.player matches Some(p) ==> -inner_half_span_of(window.width, PLAYER_WIDTH)
            <= p.position.x <= inner_half_span_of(window.width, PLAYER_WIDTH),
        !player_hits_enemy(m),
    ensures
        ({
            let idle = TickInput {
                elapsed: 0,
                left_held: false,
                right_held: false,
                restart_pressed: false,
            };
            let r = step_spec(m, idle, window, x);
            &&& r.state == m.state
            &&& r.enemies == m.enemies
            &&& r.spawn_timer == m.spawn_timer
            &&& r.notice_shown == m.notice_shown
            &&& r.player is Some == m.player is Some
            &&& r.player matches Some(rp) ==> rp.position == m.player->Some_0.position
        }),
{
    let idle = TickInput { elapsed: 0, left_held: false, right_held: false, restart_pressed: false };
    if m.state == GameState::Playing {
        let b = before_collision_check(m, idle, window, x);
        vstd::arithmetic::div_mod::lemma_small_mod(
            m.spawn_timer.elapsed as nat,
            m.spawn_timer.period as nat,
        );
        assert(b.enemies =~= m.enemies);
        if let Some(p) = m.player {
            let bp = b.player->Some_0;
            assert(bp.position == p.position);
            if player_hits_enemy(b) {
                let i = choose|i: int| 0 <= i < b.enemies.len() && hits(bp, #[trigger] b.enemies[i]);
                assert(hits(p, m.enemies[i]));
            }
        }
    }
}

impl World {
    pub open spec fn wf(&self) -> bool {
        self@.wf()
    }

    /// A game at its start: playing, the player in place, no enemies.
    pub fn new() -> (r: World)
        ensures
            r.wf(),
            r@ == initial_world(),
    {
        World {
            state: GameState::Playing,
            player: Some(Player::at_start()),
            enemies: Vec::new(),
            spawn_timer: SpawnTimer::new(ENEMY_SPAWN_PERIOD),
            notice_shown: false,
        }
    }

    /// Places a fresh player at the start position, at rest.
    pub fn setup_game(&mut self)
        ensures
            final(self)@ == (WorldModel { player: Some(start_player()), ..old(self)@ }),
    {
        self.player = Some(Player::at_start());
    }

    /// Sets the player's velocity from the held direction keys.
    pub fn player_movement(&mut self, left_held: bool, right_held: bool)
        ensures
            final(self)@ == with_player_input(old(self)@, left_held, right_held),
    {
        match self.player {
            Some(p) => {
                self.player = Some(
                    Player { position: p.position, velocity: player_velocity(left_held, right_held) },
                );
            },
            None => {},
        }
    }

    /// Moves every entity by its velocity over `elapsed` microseconds, then
    /// keeps the player inside a window of width `window_width`.
    pub fn move_entities(&mut self, elapsed: u64, window_width: i64)
        requires
            PLAYER_WIDTH <= window_width,
        ensures
            final(self)@ == with_entities_moved(old(self)@, elapsed, window_width),
            final(self).player matches Some(p) ==> 2 * p.position.x <= window_width - PLAYER_WIDTH
                && -(window_width - PLAYER_WIDTH) <= 2 * p.position.x,
    {
        match self.player {
            Some(p) => {
                let q = integrate(p.position, p.velocity, elapsed);
                let x: i64 = clamp_player_x(q.x, window_width);
                self.player = Some(Player { position: Point { x, y: q.y }, velocity: p.velocity });
            },
            None => {},
        }
        let ghost before = self.enemies@;
        let ghost mid = self@;
        assert(mid.player matches Some(p) ==> 2 * p.position.x <= window_width - PLAYER_WIDTH
            && -(window_width - PLAYER_WIDTH) <= 2 * p.position.x);
        let mut i: usize = 0;
        while i < self.enemies.len()
            invariant
                self@ == (WorldModel { enemies: self.enemies@, ..mid }),
                self.enemies@.len() == before.len(),
                0 <= i <= before.len(),
                forall|j: int| 0 <= j < i ==> self.enemies@[j] == moved_enemy(before[j], elapsed),
                forall|j: int| i <= j < before.len() ==> self.enemies@[j] == before[j],
            decreases before.len() - i,
        {
            let e = self.enemies[i];
            let moved = Enemy { position: integrate(e.position, e.velocity, elapsed), velocity: e.velocity };
            self.enemies.set(i, moved);
            i = i + 1;
        }
        assert(self.enemies@ =~= before.map_values(|e: Enemy| moved_enemy(e, elapsed)));
    }

    /// Adds an enemy at `x` on the top edge of a window of height `window_height`.
    pub fn spawn_enemy(&mut self, x: i64, window_height: i64)
        requires
            0 <= window_height,
        ensures
            final(self)@ == with_enemy_spawned(old(self)@, x, window_height),
    {
        self.enemies.push(Enemy::spawned_at(x, window_height));
    }

    /// Advances the spawn timer by `elapsed` microseconds; when it fires,
    /// adds one enemy at a random position along the top edge of the window.
    /// Returns whether an enemy was added.
    pub fn enemy_spawner(&mut self, elapsed: u64, window: WindowSize) -> (spawned: bool)
        requires
            old(self)@.spawn_timer.wf(),
            window_ok(window),
        ensures
            final(self)@.spawn_timer.wf(),
            spawned == timer_fires(old(self)@.spawn_timer, elapsed),
            exists|x: i64|
                #[trigger] spawn_x_in_range(window.width, x) && final(self)@ == if spawned {
                    with_enemy_spawned(with_timer_ticked(old(self)@, elapsed), x, window.height)
                } else {
                    with_timer_ticked(old(self)@, elapsed)
                },
    {
        let fired = self.spawn_timer.tick(elapsed);
        assert(self@ == with_timer_ticked(old(self)@, elapsed));
        if fired {
            let x: i64 = random_spawn_x(window.width);
            self.spawn_enemy(x, window.height);
            assert(spawn_x_in_range(window.width, x) && self@ == with_enemy_spawned(with_timer_ticked(old(self)@, elapsed), x, window.height));
        } else {
            let ghost x: i64 = 0;
            assert(spawn_x_in_range(window.width, x) && self@ == with_timer_ticked(old(self)@, elapsed));
        }
        fired
    }

    /// Tests the player against every enemy; on the first overlap found the
    /// player is removed and the game is over. Returns whether that happened.
    pub fn check_collisions(&mut self) -> (hit: bool)
        ensures
            hit == player_hits_enemy(old(self)@),
            final(self)@ == after_collision_check(old(self)@),
    {
        match self.player {
            Some(p) => {
                let mut i: usize = 0;
                while i < self.enemies.len()
                    invariant
                        self@ == old(self)@,
                        self.player == Some(p),
                        0 <= i <= self.enemies@.len(),
                        forall|j: int| 0 <= j < i ==> !hits(p, #[trigger] self.enemies@[j]),
                    decreases self.enemies@.len() - i,
                {
                    let e = self.enemies[i];
                    if collide(
                        p.position,
                        Size { width: PLAYER_WIDTH, height: PLAYER_HEIGHT },
                        e.position,
                        Size { width: ENEMY_WIDTH, height: ENEMY_HEIGHT },
                    ) {
                        assert(hits(p, self.enemies@[i as int]));
                        self.player = None;
                        self.state = GameState::GameOver;
                        return true;
                    }
                    i = i + 1;
                }
                false
            },
            None => false,
        }
    }

    /// Puts the game-over notice on screen.
    pub fn game_over_message(&mut self)
        ensures
            final(self)@ == (WorldModel { notice_shown: true, ..old(self)@ }),
    {
        self.notice_shown = true;
    }

    /// Removes every enemy and the game-over notice.
    pub fn despawn_all_entities(&mut self)
        ensures
            final(self)@ == (WorldModel { enemies: Seq::empty(), notice_shown: false, ..old(self)@ }),
    {
        self.enemies = Vec::new();
        self.notice_shown = false;
    }

    /// After the game is over, a press of the restart key clears the enemies
    /// and the notice and starts a new game with a fresh player. Returns
    /// whether the game restarted.
    pub fn restart_game(&mut self, restart_pressed: bool) -> (restarted_now: bool)
        ensures
            restarted_now == (old(self).state == GameState::GameOver && restart_pressed),
            final(self)@ == if restarted_now {
                restarted(old(self)@)
            } else {
                old(self)@
            },
    {
        if self.state == GameState::GameOver && restart_pressed {
            self.despawn_all_entities();
            self.state = GameState::Playing;
            self.setup_game();
            true
        } else {
            false
        }
    }

    /// One tick of the game. While playing: input, movement, spawning, then
    /// the collision check, which may end the game and show the notice. After
    /// the game is over: only the restart key does anything.
    pub fn step(&mut self, input: TickInput, window: WindowSize) -> (report: TickReport)
        requires
            old(self).wf(),
            window_ok(window),
        ensures
            final(self).wf(),
            exists|x: i64|
                #[trigger] spawn_x_in_range(window.width, x) && final(self)@ == step_spec(old(self)@, input, window, x),
            report.spawned == (old(self).state == GameState::Playing && timer_fires(
                old(self).spawn_timer,
                input.elapsed,
            )),
            report.game_over == (old(self).state == GameState::Playing && final(self).state
                == GameState::GameOver),
            report.restarted == (old(self).state == GameState::GameOver && final(self).state
                == GameState::Playing),
    {
        if self.state == GameState::Playing {
            let ghost m = self@;
            self.player_movement(input.left_held, input.right_held);
            self.move_entities(input.elapsed, window.width);
            let spawned = self.enemy_spawner(input.elapsed, window);
            let ghost mid = self@;
            let game_over = self.check_collisions();
            if game_over {
                self.game_over_message();
            }
            proof {
                let x = choose|x: i64|
                    #[trigger] spawn_x_in_range(window.width, x) && mid == if spawned {
                        with_enemy_spawned(
                            with_timer_ticked(
                                with_entities_moved(
                                    with_player_input(m, input.left_held, input.right_held),
                                    input.elapsed,
                                    window.width,
                                ),
                                input.elapsed,
                            ),
                            x,
                            window.height,
                        )
                    } else {
                        with_timer_ticked(
                            with_entities_moved(
                                with_player_input(m, input.left_held, input.right_held),
                                input.elapsed,
                                window.width,
                            ),
                            input.elapsed,
                        )
                    };
                assert(mid == before_collision_check(m, input, window, x));
                assert(self@ == step_spec(m, input, window, x));
            }
            TickReport { spawned, game_over, restarted: false }
        } else {
            let restarted_now = self.restart_game(input.restart_pressed);
            assert(spawn_x_in_range(window.width, 0) && self@ == step_spec(
                old(self)@,
                input,
                window,
                0,
            ));
            TickReport { spawned: false, game_over: false, restarted: restarted_now }
        }
    }
}

impl Player {
    /// The player at its start position, at rest.
    pub fn at_start() -> (r: Player)
        ensures
            r == start_player(),
    {
        Player { position: Point { x: 0, y: PLAYER_START_Y }, velocity: Velocity { x: 0, y: 0 } }
    }
}

impl Enemy {
    /// A new enemy at `x` on the top edge of a window of height `window_height`.
    pub fn spawned_at(x: i64, window_height: i64) -> (r: Enemy)
        requires
            0 <= window_height,
        ensures
            r == spawned_enemy(x, window_height),
    {
        Enemy {
            position: Point { x, y: window_height / 2 },
            velocity: Velocity { x: 0, y: -ENEMY_SPEED },
        }
    }
}

} // verus!
