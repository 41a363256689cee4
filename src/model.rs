//! The player character and the fixed-timestep model that drives it.

use vstd::arithmetic::div_mod::{lemma_fundamental_div_mod, lemma_mod_bound};
use vstd::prelude::*;

use crate::geom::{pixel_of, NANOS_PER_SEC, SUBPIXELS};
use crate::keys::Key;
use crate::motion::{
    accelerated, after_floor_and_ceiling, after_walls, clamp, displacement, moved, saturate,
    settled, step, wall_face, PlayerView, FALL_ACCEL, FALL_SPEED, HALF_PIXEL, JUMP_ACCEL,
    JUMP_SPEED, STOP_ACCEL, WALK_ACCEL, WALK_SPEED,
};
use crate::room::{floor_room, Room, RoomView, TileKind};

verus! {

/// Horizontal motion mode.
#[derive(Clone, Copy, Debug, PartialEq, Eq, Structural)]
pub enum PlayerHorizState {
    Idle,
    MovingLeft,
    MovingRight,
    /// Braking to a stop after moving left.
    StopMovingLeft,
    /// Braking to a stop after moving right.
    StopMovingRight,
}

/// Vertical motion mode.
#[derive(Clone, Copy, Debug, PartialEq, Eq, Structural)]
pub enum PlayerVertState {
    Standing,
    Falling,
    Jumping,
}

/// The player character.
#[derive(Clone, Copy, Debug)]
pub struct Player {
    horiz_state: PlayerHorizState,
    vert_state: PlayerVertState,
    xpos: i64,
    ypos: i64,
    xspeed: i64,
    yspeed: i64,
    width: i64,
    height: i64,
}

impl View for Player {
    type V = PlayerView;

    closed spec fn view(&self) -> PlayerView {
        PlayerView {
            horiz: self.horiz_state,
            vert: self.vert_state,
            x: self.xpos as int,
            y: self.ypos as int,
            vx: self.xspeed as int,
            vy: self.yspeed as int,
            w: self.width as int,
            h: self.height as int,
        }
    }
}

/// A player at rest with the top left corner of its hitbox at `(x, y)`,
/// falling.
pub open spec fn player_at(x: int, y: int) -> PlayerView {
    PlayerView {
        horiz: PlayerHorizState::Idle,
        vert: PlayerVertState::Falling,
        x,
        y,
        vx: 0,
        vy: 0,
        w: PLAYER_WIDTH as int,
        h: PLAYER_HEIGHT as int,
    }
}

/// Hitbox width: 8 pixels.
pub const PLAYER_WIDTH: i64 = 8 * SUBPIXELS;

/// Hitbox height: 20 pixels.
pub const PLAYER_HEIGHT: i64 = 20 * SUBPIXELS;

fn clamp_exec(v: i128, lo: i128, hi: i128) -> (r: i128)
    ensures
        r == clamp(v as int, lo as int, hi as int),
{
    let capped = if v < hi {
        v
    } else {
        hi
    };
    if capped > lo {
        capped
    } else {
        lo
    }
}

/// `a * dt`, for an acceleration `a` of at most a few thousand.
fn speed_change(a: i64, dt: u64) -> (r: i128)
    requires
        -2000 <= a <= 2000,
    ensures
        r == a * dt,
        -2000 * u64::MAX <= r <= 2000 * u64::MAX,
{
    proof {
        assert(-2000 * u64::MAX <= a * dt <= 2000 * u64::MAX) by (nonlinear_arith)
            requires
                -2000 <= a <= 2000,
                0 <= dt <= u64::MAX,
        ;
    }
    a as i128 * dt as i128
}

fn displacement_exec(v: i64, dt: u64) -> (r: i128)
    requires
        -FALL_SPEED <= v <= FALL_SPEED,
    ensures
        r == displacement(v as int, dt as int),
        -FALL_SPEED * u64::MAX <= r <= FALL_SPEED * u64::MAX,
{
    let s: i128 = SUBPIXELS as i128;
    if v >= 0 {
        proof {
            assert(0 <= v * dt <= FALL_SPEED * u64::MAX) by (nonlinear_arith)
                requires
                    0 <= v <= FALL_SPEED,
                    0 <= dt <= u64::MAX,
            ;
        }
        (v as i128 * dt as i128) / s
    } else {
        proof {
            assert(0 <= (-v) * dt <= FALL_SPEED * u64::MAX) by (nonlinear_arith)
                requires
                    0 <= -v <= FALL_SPEED,
                    0 <= dt <= u64::MAX,
            ;
        }
        -(((-(v as i128)) * dt as i128) / s)
    }
}

fn saturate_exec(c: i128) -> (r: i64)
    ensures
        r == saturate(c as int),
{
    clamp_exec(c, i64::MIN as i128, i64::MAX as i128) as i64
}

/// The pixels that probes land in lie within `u32::MAX` of the origin, so
/// the pixel edges of a tile that a probe finds filled, which lies at or
/// right of and below the origin, fit well within `i64` once in nanopixels.
proof fn lemma_tile_edges(p: int, ts: int)
    requires
        -(u32::MAX as int) <= p <= u32::MAX,
        0 < ts <= u32::MAX,
        0 <= p / ts,
    ensures
        0 <= p,
        (p / ts) * ts <= p,
        (p / ts) * ts + ts <= 2 * u32::MAX,
{
    lemma_fundamental_div_mod(p, ts);
    lemma_mod_bound(p, ts);
    assert(0 <= p && (p / ts) * ts <= p) by (nonlinear_arith)
        requires
            0 < ts,
            0 <= p / ts,
            p == ts * (p / ts) + p % ts,
            0 <= p % ts < ts,
    ;
}

/// The kind of the tile beside `(col, row)`, to the left when `left` holds
/// and to the right otherwise.
fn kind_beside(room: &Room, col: i64, row: i64, left: bool) -> (r: TileKind)
    requires
        room@.wf(),
        -(u32::MAX as int) <= col <= u32::MAX,
    ensures
        r == room@.kind_at(
            if left {
                col - 1
            } else {
                col + 1
            },
            row as int,
        ),
{
    if left {
        room.tile_at_index(col - 1, row).kind
    } else {
        room.tile_at_index(col + 1, row).kind
    }
}

impl Player {
    /// A player at rest at `(20, 10)` pixels, falling.
    pub fn new() -> (r: Player)
        ensures
            r@ == player_at(20 * SUBPIXELS, 10 * SUBPIXELS),
            r@.wf(),
    {
        Player::at(20 * SUBPIXELS, 10 * SUBPIXELS)
    }

    /// A player at rest with the top left corner of its hitbox at `(x, y)`
    /// nanopixels, falling.
    pub fn at(x: i64, y: i64) -> (r: Player)
        ensures
            r@ == player_at(x as int, y as int),
            r@.wf(),
    {
        Player {
            horiz_state: PlayerHorizState::Idle,
            vert_state: PlayerVertState::Falling,
            xpos: x,
            ypos: y,
            xspeed: 0,
            yspeed: 0,
            width: PLAYER_WIDTH,
            height: PLAYER_HEIGHT,
        }
    }

    pub fn horiz_state(&self) -> (r: PlayerHorizState)
        ensures
            r == self@.horiz,
    {
        self.horiz_state
    }

    pub fn set_horiz_state(&mut self, state: PlayerHorizState)
        ensures
            final(self)@ == (PlayerView { horiz: state, ..old(self)@ }),
    {
        self.horiz_state = state;
    }

    pub fn vert_state(&self) -> (r: PlayerVertState)
        ensures
            r == self@.vert,
    {
        self.vert_state
    }

    pub fn set_vert_state(&mut self, state: PlayerVertState)
        ensures
            final(self)@ == (PlayerView { vert: state, ..old(self)@ }),
    {
        self.vert_state = state;
    }

    /// Horizontal position of the hitbox's left edge, in nanopixels.
    pub fn xpos(&self) -> (r: i64)
        ensures
            r == self@.x,
    {
        self.xpos
    }

    /// Vertical position of the hitbox's top edge, in nanopixels.
    pub fn ypos(&self) -> (r: i64)
        ensures
            r == self@.y,
    {
        self.ypos
    }

    /// Horizontal speed in nanopixels per second, positive to the right.
    pub fn xspeed(&self) -> (r: i64)
        ensures
            r == self@.vx,
    {
        self.xspeed
    }

    /// Vertical speed in nanopixels per second, positive downwards.
    pub fn yspeed(&self) -> (r: i64)
        ensures
            r == self@.vy,
    {
        self.yspeed
    }

    /// Hitbox width in nanopixels.
    pub fn width(&self) -> (r: i64)
        ensures
            r == self@.w,
    {
        self.width
    }

    /// Hitbox height in nanopixels.
    pub fn height(&self) -> (r: i64)
        ensures
            r == self@.h,
    {
        self.height
    }

    fn accelerate(&mut self, dt: u64)
        requires
            old(self)@.wf(),
        ensures
            final(self)@ == accelerated(old(self)@, dt as int),
            final(self)@.wf(),
    {
        let (xaccel, xmin, xmax): (i64, i64, i64) = match self.horiz_state {
            PlayerHorizState::Idle => (0, 0, 0),
            PlayerHorizState::MovingLeft => (-WALK_ACCEL, -WALK_SPEED, WALK_SPEED),
            PlayerHorizState::MovingRight => (WALK_ACCEL, -WALK_SPEED, WALK_SPEED),
            PlayerHorizState::StopMovingLeft => (STOP_ACCEL, -WALK_SPEED, 0),
            PlayerHorizState::StopMovingRight => (-STOP_ACCEL, 0, WALK_SPEED),
        };
        let yaccel: i64 = match self.vert_state {
            PlayerVertState::Standing => 0,
            PlayerVertState::Falling => FALL_ACCEL,
            PlayerVertState::Jumping => JUMP_ACCEL,
        };
        let vx = clamp_exec(
            self.xspeed as i128 + speed_change(xaccel, dt),
            xmin as i128,
            xmax as i128,
        );
        let vy = clamp_exec(
            self.yspeed as i128 + speed_change(yaccel, dt),
            JUMP_SPEED as i128,
            FALL_SPEED as i128,
        );
        self.xspeed = vx as i64;
        self.yspeed = vy as i64;
    }

    fn integrate(&mut self, dt: u64)
        requires
            old(self)@.wf(),
            -WALK_SPEED <= old(self)@.vx <= WALK_SPEED,
            JUMP_SPEED <= old(self)@.vy <= FALL_SPEED,
        ensures
            final(self)@ == moved(old(self)@, dt as int),
            final(self)@.wf(),
    {
        let dx = displacement_exec(self.xspeed, dt);
        let dy = displacement_exec(self.yspeed, dt);
        self.xpos = saturate_exec(self.xpos as i128 + dx);
        self.ypos = saturate_exec(self.ypos as i128 + dy);
    }

    fn settle(&mut self)
        ensures
            final(self)@ == settled(old(self)@),
    {
        if self.xspeed == 0 {
            self.set_horiz_state(PlayerHorizState::Idle);
        }
        if self.yspeed == JUMP_SPEED {
            self.set_vert_state(PlayerVertState::Falling);
        }
    }

    /// Whether the tile at `(col, row)` is a wall face seen from the left
    /// (`left` false) or from the right (`left` true).
    fn is_wall_face(room: &Room, col: i64, row: i64, kind: TileKind, left: bool) -> (r: bool)
        requires
            room@.wf(),
            -(u32::MAX as int) <= col <= u32::MAX,
            kind == room@.kind_at(col as int, row as int),
        ensures
            r == wall_face(
                room@,
                col as int,
                row as int,
                if left {
                    -1
                } else {
                    1
                },
            ),
    {
        kind == TileKind::Filled && kind_beside(room, col, row, !left) == TileKind::Empty
    }

    fn resolve_walls(&mut self, room: &Room)
        requires
            old(self)@.wf(),
            room@.wf(),
        ensures
            final(self)@ == after_walls(old(self)@, room@),
            final(self)@.wf(),
    {
        let s: i128 = SUBPIXELS as i128;
        let top: i128 = self.ypos as i128 + HALF_PIXEL as i128;
        let bottom: i128 = self.ypos as i128 + self.height as i128 - HALF_PIXEL as i128;
        if self.xspeed > 0 {
            let edge: i128 = self.xpos as i128 + self.width as i128;
            let tile1 = room.tile_at_coord(edge, top);
            let tile2 = room.tile_at_coord(edge, bottom);
            if Self::is_wall_face(room, tile1.x, tile1.y, tile1.kind, false)
                || Self::is_wall_face(room, tile2.x, tile2.y, tile2.kind, false) {
                proof {
                    lemma_tile_edges(pixel_of(edge as int), room@.tile_size as int);
                }
                let left_edge: i128 = tile1.rect.left() as i128 * s;
                assert(0 <= left_edge <= u32::MAX * SUBPIXELS);
                self.xspeed = 0;
                self.xpos = (left_edge - self.width as i128) as i64;
            }
        } else if self.xspeed < 0 {
            let edge: i128 = self.xpos as i128;
            let tile1 = room.tile_at_coord(edge, top);
            let tile2 = room.tile_at_coord(edge, bottom);
            if Self::is_wall_face(room, tile1.x, tile1.y, tile1.kind, true)
                || Self::is_wall_face(room, tile2.x, tile2.y, tile2.kind, true) {
                proof {
                    lemma_tile_edges(pixel_of(edge as int), room@.tile_size as int);
                }
                let right_edge: i128 = tile1.rect.right() as i128 * s;
                assert((tile1.x + 1) * room@.tile_size == tile1.x * room@.tile_size
                    + room@.tile_size) by (nonlinear_arith);
                assert(0 <= right_edge <= 2 * u32::MAX * SUBPIXELS);
                self.xspeed = 0;
                self.xpos = right_edge as i64;
            }
        }
    }

    fn resolve_floor_and_ceiling(&mut self, room: &Room)
        requires
            old(self)@.wf(),
            room@.wf(),
        ensures
            final(self)@ == after_floor_and_ceiling(old(self)@, room@),
            final(self)@.wf(),
    {
        let s: i128 = SUBPIXELS as i128;
        let left: i128 = self.xpos as i128 + HALF_PIXEL as i128;
        let right: i128 = self.xpos as i128 + self.width as i128 - HALF_PIXEL as i128;
        if self.yspeed >= 0 {
            let feet: i128 = self.ypos as i128 + self.height as i128;
            let tile1 = room.tile_at_coord(left, feet);
            let tile2 = room.tile_at_coord(right, feet);
            if tile1.kind == TileKind::Filled || tile2.kind == TileKind::Filled {
                if self.yspeed > 0 {
                    proof {
                        lemma_tile_edges(pixel_of(feet as int), room@.tile_size as int);
                    }
                    let top_edge: i128 = tile1.rect.top() as i128 * s;
                    assert(0 <= top_edge <= u32::MAX * SUBPIXELS);
                    self.set_vert_state(PlayerVertState::Standing);
                    self.yspeed = 0;
                    self.ypos = (top_edge - self.height as i128) as i64;
                }
            } else if self.yspeed == 0 {
                if self.vert_state == PlayerVertState::Standing {
                    self.set_vert_state(PlayerVertState::Falling);
                }
            }
        } else {
            let head: i128 = self.ypos as i128;
            let tile1 = room.tile_at_coord(left, head);
            let tile2 = room.tile_at_coord(right, head);
            if tile1.kind == TileKind::Filled || tile2.kind == TileKind::Filled {
                proof {
                    lemma_tile_edges(pixel_of(head as int), room@.tile_size as int);
                }
                let bottom_edge: i128 = tile1.rect.bottom() as i128 * s;
                assert((tile1.y + 1) * room@.tile_size == tile1.y * room@.tile_size
                    + room@.tile_size) by (nonlinear_arith);
                assert(0 <= bottom_edge <= 2 * u32::MAX * SUBPIXELS);
                self.set_vert_state(PlayerVertState::Falling);
                self.yspeed = 0;
                self.ypos = bottom_edge as i64;
            }
        }
    }

    /// Advances the player by one tick of `dt` nanoseconds against `room`:
    /// speeds, then position, then modes, then collisions with walls, and
    /// last with floors and ceilings.
    pub fn update(&mut self, dt: u64, room: &Room)
        requires
            old(self)@.wf(),
            room@.wf(),
        ensures
            final(self)@ == step(old(self)@, room@, dt as int),
            final(self)@.wf(),
            final(self)@.speeds_bounded(),
    {
        self.accelerate(dt);
        self.integrate(dt);
        self.settle();
        self.resolve_walls(room);
        self.resolve_floor_and_ceiling(room);
    }
}

/// Model ticks per second.
pub const TICKS_PER_SECOND: u64 = 150;

/// The room that a player walking off a room's right edge enters.
pub open spec fn next_room() -> RoomView {
    floor_room(20, 10, 16)
}

/// One tick of the model: the player moves, and on crossing the right edge
/// of the room enters a fresh room at the corresponding position.
pub open spec fn tick(s: (PlayerView, RoomView), dt: int) -> (PlayerView, RoomView) {
    let p = step(s.0, s.1, dt);
    let width = s.1.pixel_width() * SUBPIXELS;
    if p.x >= width {
        (PlayerView { x: p.x - width, ..p }, next_room())
    } else {
        (p, s.1)
    }
}

/// `n` ticks of the model.
pub open spec fn ticks(s: (PlayerView, RoomView), dt: int, n: nat) -> (PlayerView, RoomView)
    decreases n,
{
    if n == 0 {
        s
    } else {
        tick(ticks(s, dt, (n - 1) as nat), dt)
    }
}

/// The player after `key` is pressed: left and right start walking, up
/// starts a jump from standing.
pub open spec fn after_key_pressed(p: PlayerView, key: Key) -> PlayerView {
    match key {
        Key::Left => PlayerView { horiz: PlayerHorizState::MovingLeft, ..p },
        Key::Right => PlayerView { horiz: PlayerHorizState::MovingRight, ..p },
        Key::Up => if p.vert == PlayerVertState::Standing {
            PlayerView { vert: PlayerVertState::Jumping, ..p }
        } else {
            p
        },
        _ => p,
    }
}

/// The player after `key` is released: releasing a walk key brakes a walk
/// in that direction, releasing up ends a jump.
pub open spec fn after_key_released(p: PlayerView, key: Key) -> PlayerView {
    match key {
        Key::Left => if p.horiz == PlayerHorizState::MovingLeft {
            PlayerView { horiz: PlayerHorizState::StopMovingLeft, ..p }
        } else {
            p
        },
        Key::Right => if p.horiz == PlayerHorizState::MovingRight {
            PlayerView { horiz: PlayerHorizState::StopMovingRight, ..p }
        } else {
            p
        },
        Key::Up => if p.vert == PlayerVertState::Jumping {
            PlayerView { vert: PlayerVertState::Falling, ..p }
        } else {
            p
        },
        _ => p,
    }
}

/// The abstract value of a [`Model`].
pub struct ModelView {
    /// Length of a tick in nanoseconds.
    pub frame_duration: nat,
    /// Time not yet consumed by a tick, in nanoseconds.
    pub time_since_last_tick: nat,
    pub player: PlayerView,
    /// The player as it was before the last tick.
    pub old_player: PlayerView,
    pub room: RoomView,
}

impl ModelView {
    pub open spec fn wf(self) -> bool {
        &&& 0 < self.frame_duration <= u64::MAX
        &&& self.time_since_last_tick < self.frame_duration
        &&& self.player.wf()
        &&& self.player.speeds_bounded()
        &&& self.old_player.wf()
        &&& self.room.wf()
    }

    /// The number of ticks that `elapsed` more nanoseconds complete.
    pub open spec fn ticks_due(self, elapsed: int) -> nat {
        ((self.time_since_last_tick + elapsed) / (self.frame_duration as int)) as nat
    }
}

/// The model after `elapsed` more nanoseconds: every tick that has become
/// due is run, and the time left over is kept.
pub open spec fn advanced(m: ModelView, elapsed: int) -> ModelView {
    let total = m.time_since_last_tick + elapsed;
    let n = m.ticks_due(elapsed);
    let start = (m.player, m.room);
    ModelView {
        time_since_last_tick: (total % (m.frame_duration as int)) as nat,
        player: ticks(start, m.frame_duration as int, n).0,
        room: ticks(start, m.frame_duration as int, n).1,
        old_player: if n == 0 {
            m.old_player
        } else {
            ticks(start, m.frame_duration as int, (n - 1) as nat).0
        },
        ..m
    }
}

/// The player as drawn between ticks: the snapshot from before the last
/// tick, moved on by the current speed for the time since that tick.
pub open spec fn rendered(m: ModelView) -> PlayerView {
    let t = m.time_since_last_tick as int;
    PlayerView {
        x: saturate(m.old_player.x + displacement(m.player.vx, t)),
        y: saturate(m.old_player.y + displacement(m.player.vy, t)),
        ..m.old_player
    }
}

/// A model that has not run yet: a fresh player in `room`.
pub open spec fn initial_model(room: RoomView) -> ModelView {
    ModelView {
        frame_duration: (NANOS_PER_SEC / TICKS_PER_SECOND) as nat,
        time_since_last_tick: 0,
        player: player_at(20 * SUBPIXELS, 10 * SUBPIXELS),
        old_player: player_at(20 * SUBPIXELS, 10 * SUBPIXELS),
        room,
    }
}

/// The game model: a player in a room, advanced in ticks of fixed length
/// whatever the rate at which it is driven, and drawn between ticks by
/// interpolation.
pub struct Model {
    frame_duration: u64,
    time_since_last_tick: u64,
    player: Player,
    old_player: Player,
    room: Room,
}

impl View for Model {
    type V = ModelView;

    closed spec fn view(&self) -> ModelView {
        ModelView {
            frame_duration: self.frame_duration as nat,
            time_since_last_tick: self.time_since_last_tick as nat,
            player: self.player@,
            old_player: self.old_player@,
            room: self.room@,
        }
    }
}

impl Model {
    pub fn new(room: Room) -> (r: Model)
        requires
            room@.wf(),
        ensures
            r@ == initial_model(room@),
            r@.wf(),
    {
        let player = Player::new();
        Model {
            frame_duration: NANOS_PER_SEC / TICKS_PER_SECOND,
            time_since_last_tick: 0,
            player,
            old_player: player,
            room,
        }
    }

    /// Replaces the room; the player stays where it is.
    pub fn set_room(&mut self, room: Room)
        requires
            old(self)@.wf(),
            room@.wf(),
        ensures
            final(self)@ == (ModelView { room: room@, ..old(self)@ }),
            final(self)@.wf(),
    {
        self.room = room;
    }

    pub fn player(&self) -> (r: &Player)
        ensures
            r@ == self@.player,
    {
        &self.player
    }

    pub fn old_player(&self) -> (r: &Player)
        ensures
            r@ == self@.old_player,
    {
        &self.old_player
    }

    pub fn room(&self) -> (r: &Room)
        ensures
            r@ == self@.room,
    {
        &self.room
    }

    /// Length of a tick in nanoseconds.
    pub fn frame_duration(&self) -> (r: u64)
        ensures
            r == self@.frame_duration,
    {
        self.frame_duration
    }

    /// Time not yet consumed by a tick, in nanoseconds.
    pub fn time_since_last_tick(&self) -> (r: u64)
        ensures
            r == self@.time_since_last_tick,
    {
        self.time_since_last_tick
    }

    /// Left and right start walking; up starts a jump from standing.
    pub fn key_pressed(&mut self, key: Key)
        requires
            old(self)@.wf(),
        ensures
            final(self)@.wf(),
            final(self)@ == (ModelView {
                player: after_key_pressed(old(self)@.player, key),
                ..old(self)@
            }),
    {
        match key {
            Key::Left => self.player.set_horiz_state(PlayerHorizState::MovingLeft),
            Key::Right => self.player.set_horiz_state(PlayerHorizState::MovingRight),
            Key::Up => {
                if self.player.vert_state() == PlayerVertState::Standing {
                    self.player.set_vert_state(PlayerVertState::Jumping)
                }
            },
            _ => {},
        }
    }

    /// Releasing a walk key brakes a walk in that direction; releasing up
    /// ends a jump.
    pub fn key_released(&mut self, key: Key)
        requires
            old(self)@.wf(),
        ensures
            final(self)@.wf(),
            final(self)@ == (ModelView {
                player: after_key_released(old(self)@.player, key),
                ..old(self)@
            }),
    {
        match key {
            Key::Left => {
                if self.player.horiz_state() == PlayerHorizState::MovingLeft {
                    self.player.set_horiz_state(PlayerHorizState::StopMovingLeft)
                }
            },
            Key::Right => {
                if self.player.horiz_state() == PlayerHorizState::MovingRight {
                    self.player.set_horiz_state(PlayerHorizState::StopMovingRight)
                }
            },
            Key::Up => {
                if self.player.vert_state() == PlayerVertState::Jumping {
                    self.player.set_vert_state(PlayerVertState::Falling)
                }
            },
            _ => {},
        }
    }

    /// Adds `time_passed` nanoseconds and runs every tick that is due,
    /// back to back.
    pub fn update(&mut self, time_passed: u64)
        requires
            old(self)@.wf(),
        ensures
            final(self)@ == advanced(old(self)@, time_passed as int),
            final(self)@.wf(),
    {
        let frame: u64 = self.frame_duration;
        let mut t: u128 = self.time_since_last_tick as u128 + time_passed as u128;
        let ghost total: int = t as int;
        let ghost start = (self.player@, self.room@);
        let ghost old_model = self@;
        let ghost mut k: nat = 0;
        while t >= frame as u128
            invariant
                frame == self@.frame_duration,
                self@.frame_duration == old_model.frame_duration,
                old_model.wf(),
                total == old_model.time_since_last_tick + time_passed,
                t + k * frame == total,
                (self@.player, self@.room) == ticks(start, frame as int, k),
                k == 0 ==> self@.old_player == old_model.old_player,
                k > 0 ==> self@.old_player == ticks(start, frame as int, (k - 1) as nat).0,
                self@.player.wf(),
                self@.player.speeds_bounded(),
                self@.old_player.wf(),
                self@.room.wf(),
            decreases t,
        {
            t = t - frame as u128;
            self.old_player = self.player;
            self.player.update(frame, &self.room);
            proof {
                assert(self.room@.width * self.room@.tile_size <= u64::MAX) by (nonlinear_arith)
                    requires
                        self.room@.width <= u32::MAX,
                        self.room@.tile_size <= u32::MAX,
                ;
            }
            let room_width: i128 = (self.room.width() as u64 * self.room.tile_size() as u64) as i128
                * SUBPIXELS as i128;
            if self.player.xpos as i128 >= room_width {
                self.room = Room::default();
                self.player.xpos = (self.player.xpos as i128 - room_width) as i64;
            }
            proof {
                k = k + 1;
                assert(t + k * frame == total) by (nonlinear_arith)
                    requires
                        t + (k - 1) * frame + frame == total,
                ;
            }
        }
        proof {
            vstd::arithmetic::div_mod::lemma_fundamental_div_mod_converse(
                total,
                frame as int,
                k as int,
                t as int,
            );
        }
        self.time_since_last_tick = t as u64;
    }

    /// The player as it is to be drawn now: the snapshot from before the
    /// last tick, moved on by the current speed for the time that has
    /// passed since that tick. Nothing of the model changes.
    pub fn render_state(&self) -> (r: Player)
        requires
            self@.wf(),
        ensures
            r@ == rendered(self@),
    {
        let mut p = self.old_player;
        let dx = displacement_exec(self.player.xspeed, self.time_since_last_tick);
        let dy = displacement_exec(self.player.yspeed, self.time_since_last_tick);
        p.xpos = saturate_exec(p.xpos as i128 + dx);
        p.ypos = saturate_exec(p.ypos as i128 + dy);
        p
    }
}

} // verus!
