use vstd::prelude::*;
use rand::distributions::{Bernoulli, BernoulliError};
use crate::enemy::{Enemy, ENEMY_SPAWN_DENOMINATOR, ENEMY_SPAWN_NUMERATOR, ENEMY_SPEED};
use crate::geometry::{Point, Shape, SCREEN_HEIGHT, SCREEN_WIDTH, STEPS_PER_UNIT};
use crate::helpers::draw_line;
use crate::player::{step_y, Dir, Shooter, PLAYER_X_POS};

verus! {

/// rand's Bernoulli distribution, carried through as an opaque value.
#[verifier::external_type_specification]
#[verifier::external_body]
pub struct ExBernoulli(Bernoulli);

/// The error of rand's Bernoulli constructors.
#[verifier::external_type_specification]
#[verifier::external_body]
pub struct ExBernoulliError(BernoulliError);

/// Relies on rand's `Bernoulli::from_ratio`: it fails exactly when the
/// numerator exceeds the denominator or the denominator is zero.
pub assume_specification[ Bernoulli::from_ratio ](numerator: u32, denominator: u32) -> (r: Result<
    Bernoulli,
    BernoulliError,
>)
    ensures
        r.is_ok() <==> (numerator <= denominator && denominator != 0),
;

/// Half-height of the band around an enemy in which a shot strikes it:
/// 1.1 times the enemy's size (22 units).
pub const HIT_TOLERANCE: i64 = 66;

/// A key, as far as the game tells keys apart.
#[derive(Debug, Clone, Copy, PartialEq, Eq, Structural)]
pub enum Key {
    Up,
    Down,
    Space,
    Q,
    Other,
}

/// What a game is, to its contracts.
pub struct GameView {
    pub player: Shooter,
    pub enemies: Seq<Enemy>,
    pub score: nat,
}

/// A game session: the player, the enemies in the order they appeared, the
/// score, and the chance per tick of a new enemy. The tick does not yet
/// draw on that chance: enemies neither appear nor leave on their own.
#[derive(Debug)]
pub struct State {
    player: Shooter,
    enemies: Vec<Enemy>,
    score: u32,
    distrib: Bernoulli,
}

impl View for State {
    type V = GameView;

    closed spec fn view(&self) -> GameView {
        GameView { player: self.player, enemies: self.enemies@, score: self.score as nat }
    }
}

/// A shot fired at height `h` passes through the band around `e`.
pub open spec fn in_corridor(h: int, e: Enemy) -> bool {
    e.pos.y - HIT_TOLERANCE <= h <= e.pos.y + HIT_TOLERANCE
}

/// No enemy of `es` stands in the way of a shot at height `h`.
pub open spec fn none_in_corridor(es: Seq<Enemy>, h: int) -> bool {
    forall|j: int| 0 <= j < es.len() ==> !in_corridor(h, #[trigger] es[j])
}

/// `es[i]` is the enemy that a shot at height `h` strikes: it is in the band,
/// no enemy in the band is nearer, and none before it is as near.
pub open spec fn is_target(es: Seq<Enemy>, h: int, i: int) -> bool {
    &&& 0 <= i < es.len()
    &&& in_corridor(h, es[i])
    &&& forall|j: int|
        0 <= j < es.len() && in_corridor(h, #[trigger] es[j]) ==> es[i].pos.x <= es[j].pos.x
    &&& forall|j: int| 0 <= j < i && in_corridor(h, #[trigger] es[j]) ==> es[i].pos.x < es[j].pos.x
}

/// The enemy after one tick.
pub open spec fn enemy_step(e: Enemy) -> Enemy {
    Enemy { pos: Point { x: (e.pos.x - ENEMY_SPEED) as i64, y: e.pos.y } }
}

/// The player after one tick.
pub open spec fn shooter_step(s: Shooter) -> Shooter {
    Shooter { pos: Point { x: s.pos.x, y: step_y(s.pos.y as int, s.dir) as i64 }, dir: s.dir }
}

/// The game after one tick: the player moves, then every enemy.
pub open spec fn tick(g: GameView) -> GameView {
    GameView {
        player: shooter_step(g.player),
        enemies: g.enemies.map_values(|e: Enemy| enemy_step(e)),
        score: g.score,
    }
}

/// The game after `n` ticks.
pub open spec fn ticks(g: GameView, n: nat) -> GameView
    decreases n,
{
    if n == 0 {
        g
    } else {
        tick(ticks(g, (n - 1) as nat))
    }
}

/// Every enemy of `es` can drift one more tick without leaving `i64`.
pub open spec fn can_drift(es: Seq<Enemy>) -> bool {
    forall|i: int| 0 <= i < es.len() ==> (#[trigger] es[i]).pos.x >= i64::MIN + ENEMY_SPEED
}

/// What the screen shows of `g`: the lane line, the player, each enemy in
/// order, then the score.
pub open spec fn scene(g: GameView) -> Seq<Shape> {
    seq![draw_line_spec(), Shape::Circle { center: g.player.pos, radius: crate::player::PLAYER_SIZE }]
        + g.enemies.map_values(
        |e: Enemy| Shape::Square { center: e.pos, side: crate::enemy::ENEMY_SIZE },
    ) + seq![Shape::Score(g.score as u32)]
}

/// The lane line, as `draw_line` returns it.
pub open spec fn draw_line_spec() -> Shape {
    Shape::Line {
        from: Point { x: crate::helpers::LINE_X, y: 0 },
        to: Point { x: crate::helpers::LINE_X, y: SCREEN_HEIGHT },
        width: crate::helpers::LINE_WIDTH,
    }
}

/// The game at its start.
pub open spec fn start() -> GameView {
    GameView {
        player: Shooter {
            pos: Point { x: PLAYER_X_POS, y: (SCREEN_HEIGHT / 2) as i64 },
            dir: Dir::Stationary,
        },
        enemies: seq![Enemy { pos: Point { x: (SCREEN_WIDTH - STEPS_PER_UNIT) as i64, y: (SCREEN_HEIGHT / 2) as i64 } }],
        score: 0,
    }
}

/// Two targets of one shot are the same enemy.
proof fn lemma_target_unique(es: Seq<Enemy>, h: int, i: int, k: int)
    requires
        is_target(es, h, i),
        is_target(es, h, k),
    ensures
        i == k,
{
    if i < k {
        assert(es[k].pos.x < es[i].pos.x);
    } else if k < i {
        assert(es[i].pos.x < es[k].pos.x);
    }
}

/// The chance per tick that a new enemy appears.
fn spawn_source() -> Bernoulli {
    match Bernoulli::from_ratio(ENEMY_SPAWN_NUMERATOR, ENEMY_SPAWN_DENOMINATOR) {
        Ok(d) => d,
        Err(_) => vstd::pervasive::unreached(),
    }
}

impl State {
    /// A fresh game: the player at its start, one enemy at the right edge
    /// level with it, score zero.
    pub fn new() -> (r: State)
        ensures
            r@ == start(),
    {
        let distrib = spawn_source();
        let mut enemies: Vec<Enemy> = Vec::new();
        enemies.push(Enemy::new(Point { x: SCREEN_WIDTH - STEPS_PER_UNIT, y: SCREEN_HEIGHT / 2 }));
        let r = State { player: Shooter::new(), enemies, score: 0, distrib };
        assert(r@.enemies =~= start().enemies);
        r
    }

    /// The index of the enemy a shot from the player's height strikes, if any.
    pub fn target(&self) -> (r: Option<usize>)
        ensures
            match r {
                Some(i) => is_target(self@.enemies, self@.player.pos.y as int, i as int),
                None => none_in_corridor(self@.enemies, self@.player.pos.y as int),
            },
    {
        let h = self.player.pos.y;
        let ghost es = self@.enemies;
        let mut best: Option<usize> = None;
        let mut i: usize = 0;
        while i < self.enemies.len()
            invariant
                es == self@.enemies,
                h == self@.player.pos.y,
                0 <= i <= es.len(),
                match best {
                    Some(b) => {
                        &&& b < i
                        &&& in_corridor(h as int, es[b as int])
                        &&& forall|j: int|
                            0 <= j < i && in_corridor(h as int, #[trigger] es[j])
                                ==> es[b as int].pos.x <= es[j].pos.x
                        &&& forall|j: int|
                            0 <= j < b && in_corridor(h as int, #[trigger] es[j])
                                ==> es[b as int].pos.x < es[j].pos.x
                    },
                    None => forall|j: int| 0 <= j < i ==> !in_corridor(h as int, #[trigger] es[j]),
                },
            decreases es.len() - i,
        {
            let e = self.enemies[i];
            let y = e.pos.y as i128;
            let hit = y - (HIT_TOLERANCE as i128) <= h as i128 && h as i128 <= y
                + HIT_TOLERANCE as i128;
            if hit {
                match best {
                    None => {
                        best = Some(i);
                    },
                    Some(b) => {
                        if e.pos.x < self.enemies[b].pos.x {
                            best = Some(i);
                        }
                    },
                }
            }
            i = i + 1;
        }
        best
    }

    /// Fires a shot rightwards from the player's height. The nearest enemy
    /// whose band holds that height is removed, the earliest of equals
    /// first, and the score goes up by one; with none in the way nothing
    /// changes.
    pub fn shoot(&mut self)
        requires
            !none_in_corridor(old(self)@.enemies, old(self)@.player.pos.y as int) ==> old(
                self,
            )@.score < u32::MAX,
        ensures
            final(self)@.player == old(self)@.player,
            none_in_corridor(old(self)@.enemies, old(self)@.player.pos.y as int) ==> {
                &&& final(self)@.enemies == old(self)@.enemies
                &&& final(self)@.score == old(self)@.score
            },
            forall|i: int|
                is_target(old(self)@.enemies, old(self)@.player.pos.y as int, i) ==> {
                    &&& final(self)@.enemies == old(self)@.enemies.remove(i)
                    &&& final(self)@.score == old(self)@.score + 1
                },
            !none_in_corridor(old(self)@.enemies, old(self)@.player.pos.y as int)
                ==> final(self)@.score == old(self)@.score + 1,
    {
        match self.target() {
            None => {},
            Some(i) => {
                self.score = self.score + 1;
                self.enemies.remove(i);
                proof {
                    assert forall|k: int|
                        is_target(old(self)@.enemies, old(self)@.player.pos.y as int, k) implies k
                        == i as int by {
                        lemma_target_unique(
                            old(self)@.enemies,
                            old(self)@.player.pos.y as int,
                            k,
                            i as int,
                        );
                    }
                }
            },
        }
    }

    /// Advances the game by one tick: the player moves, then every enemy
    /// drifts left. No enemy appears or leaves.
    pub fn update(&mut self)
        requires
            can_drift(old(self)@.enemies),
        ensures
            final(self)@ == tick(old(self)@),
    {
        self.player.update();
        let n = self.enemies.len();
        let mut i: usize = 0;
        while i < n
            invariant
                n == self.enemies.len(),
                n == old(self)@.enemies.len(),
                0 <= i <= n,
                self.player == shooter_step(old(self).player),
                self.score == old(self).score,
                can_drift(old(self)@.enemies),
                forall|j: int| 0 <= j < i ==> self@.enemies[j] == enemy_step(old(self)@.enemies[j]),
                forall|j: int| i <= j < n ==> self@.enemies[j] == old(self)@.enemies[j],
            decreases n - i,
        {
            assert(self.enemies@[i as int] == old(self)@.enemies[i as int]);
            assert(old(self)@.enemies[i as int].pos.x >= i64::MIN + ENEMY_SPEED);
            self.enemies[i].update();
            assert(self.enemies@[i as int] == enemy_step(old(self)@.enemies[i as int]));
            i = i + 1;
        }
        assert(self@.enemies =~= tick(old(self)@).enemies);
    }

    /// The score, as the screen shows it.
    pub fn draw_score(&self) -> (r: Shape)
        ensures
            r == Shape::Score(self@.score as u32),
    {
        Shape::Score(self.score)
    }

    /// What to draw for this frame, back to front. Reading the game changes
    /// nothing in it.
    pub fn draw(&self) -> (r: Vec<Shape>)
        ensures
            r@ == scene(self@),
    {
        let mut r: Vec<Shape> = Vec::new();
        r.push(draw_line());
        r.push(self.player.draw());
        let mut i: usize = 0;
        while i < self.enemies.len()
            invariant
                0 <= i <= self.enemies.len(),
                r@.len() == i + 2,
                r@[0] == draw_line_spec(),
                r@[1] == (Shape::Circle { center: self@.player.pos, radius: crate::player::PLAYER_SIZE }),
                forall|j: int|
                    0 <= j < i ==> r@[j + 2] == (Shape::Square {
                        center: self@.enemies[j].pos,
                        side: crate::enemy::ENEMY_SIZE,
                    }),
            decreases self.enemies.len() - i,
        {
            r.push(self.enemies[i].draw());
            i = i + 1;
        }
        r.push(self.draw_score());
        assert(r@ =~= scene(self@));
        r
    }

    /// Reacts to a key going down: the arrows set the player's direction,
    /// space fires. Returns whether the player asked to quit.
    pub fn key_down_event(&mut self, key: Key) -> (quit: bool)
        requires
            key == Key::Space && !none_in_corridor(old(self)@.enemies, old(self)@.player.pos.y as int)
                ==> old(self)@.score < u32::MAX,
        ensures
            quit == (key == Key::Q),
            key == Key::Up ==> final(self)@ == (GameView {
                player: Shooter { dir: Dir::Up, ..old(self)@.player },
                ..old(self)@
            }),
            key == Key::Down ==> final(self)@ == (GameView {
                player: Shooter { dir: Dir::Down, ..old(self)@.player },
                ..old(self)@
            }),
            key == Key::Space ==> {
                &&& final(self)@.player == old(self)@.player
                &&& none_in_corridor(old(self)@.enemies, old(self)@.player.pos.y as int) ==> {
                    &&& final(self)@.enemies == old(self)@.enemies
                    &&& final(self)@.score == old(self)@.score
                }
                &&& forall|i: int|
                    is_target(old(self)@.enemies, old(self)@.player.pos.y as int, i) ==> {
                        &&& final(self)@.enemies == old(self)@.enemies.remove(i)
                        &&& final(self)@.score == old(self)@.score + 1
                    }
            },
            (key == Key::Q || key == Key::Other) ==> final(self)@ == old(self)@,
    {
        match key {
            Key::Space => {
                self.shoot();
                false
            },
            Key::Q => true,
            Key::Up => {
                self.player.set_direction(Dir::Up);
                false
            },
            Key::Down => {
                self.player.set_direction(Dir::Down);
                false
            },
            Key::Other => false,
        }
    }

    /// Reacts to a key coming up: releasing an arrow stops the player.
    pub fn key_up_event(&mut self, key: Key)
        ensures
            (key == Key::Up || key == Key::Down) ==> final(self)@ == (GameView {
                player: Shooter { dir: Dir::Stationary, ..old(self)@.player },
                ..old(self)@
            }),
            !(key == Key::Up || key == Key::Down) ==> final(self)@ == old(self)@,
    {
        match key {
            Key::Up | Key::Down => self.player.set_direction(Dir::Stationary),
            _ => {},
        }
    }

    /// A game with the given player, enemies and score.
    pub fn from_parts(player: Shooter, enemies: Vec<Enemy>, score: u32) -> (r: State)
        ensures
            r@ == (GameView { player, enemies: enemies@, score: score as nat }),
    {
        State { player, enemies, score, distrib: spawn_source() }
    }

    /// The player.
    pub fn player(&self) -> (r: Shooter)
        ensures
            r == self@.player,
    {
        self.player
    }

    /// The enemies, in the order they appeared.
    pub fn enemies(&self) -> (r: &Vec<Enemy>)
        ensures
            r@ == self@.enemies,
    {
        &self.enemies
    }

    /// Enemies struck so far.
    pub fn score(&self) -> (r: u32)
        ensures
            r == self@.score,
    {
        self.score
    }
}

/// However many ticks pass, the player stays in its lane.
pub proof fn lemma_lane_is_fixed(g: GameView, n: nat)
    ensures
        ticks(g, n).player.pos.x == g.player.pos.x,
    decreases n,
{
    if n > 0 {
        lemma_lane_is_fixed(g, (n - 1) as nat);
    }
}

/// After `n` ticks every enemy is still there, at the same height, and has
/// drifted left by exactly `n` times the enemy speed (as long as its x stays
/// within `i64`).
pub proof fn lemma_enemies_drift(g: GameView, n: nat)
    requires
        forall|i: int|
            0 <= i < g.enemies.len() ==> (#[trigger] g.enemies[i]).pos.x - n * ENEMY_SPEED
                >= i64::MIN,
    ensures
        ticks(g, n).enemies.len() == g.enemies.len(),
        forall|i: int|
            0 <= i < g.enemies.len() ==> {
                &&& (#[trigger] ticks(g, n).enemies[i]).pos.x == g.enemies[i].pos.x - n
                    * ENEMY_SPEED
                &&& ticks(g, n).enemies[i].pos.y == g.enemies[i].pos.y
            },
    decreases n,
{
    if n > 0 {
        let m = (n - 1) as nat;
        assert forall|i: int| 0 <= i < g.enemies.len() implies (#[trigger] g.enemies[i]).pos.x
            - m * ENEMY_SPEED >= i64::MIN by {
            assert(m * ENEMY_SPEED <= n * ENEMY_SPEED) by (nonlinear_arith)
                requires
                    m <= n,
            ;
        }
        lemma_enemies_drift(g, m);
        assert forall|i: int| 0 <= i < g.enemies.len() implies {
            &&& (#[trigger] ticks(g, n).enemies[i]).pos.x == g.enemies[i].pos.x - n * ENEMY_SPEED
            &&& ticks(g, n).enemies[i].pos.y == g.enemies[i].pos.y
        } by {
            assert(ticks(g, m).enemies[i].pos.x == g.enemies[i].pos.x - m * ENEMY_SPEED);
            assert(n * ENEMY_SPEED == m * ENEMY_SPEED + ENEMY_SPEED) by (nonlinear_arith)
                requires
                    n == m + 1,
            ;
        }
    }
}

/// A shot strikes an enemy that is alone in its band, wherever it stands.
pub proof fn lemma_lone_enemy_is_struck(es: Seq<Enemy>, h: int, i: int)
    requires
        0 <= i < es.len(),
        in_corridor(h, es[i]),
        forall|j: int| 0 <= j < es.len() && j != i ==> !in_corridor(h, #[trigger] es[j]),
    ensures
        is_target(es, h, i),
{
}

} // verus!
