//! The rules of the player's motion over one tick, as spec functions over
//! the abstract player and room.
//!
//! Speeds are in nanopixels per second and accelerations in nanopixels per
//! second per nanosecond (numerically, pixels per second squared), so that an
//! acceleration times a time step in nanoseconds is exactly a change of speed.

use vstd::prelude::*;

use crate::geom::SUBPIXELS;
use crate::model::{PlayerHorizState, PlayerVertState};
use crate::room::{RoomView, TileKind};

verus! {

/// Maximum walk speed: 120 pixels per second.
pub const WALK_SPEED: i64 = 120 * SUBPIXELS;

/// Time to go from rest to `WALK_SPEED`: 0.2 seconds.
pub const WALK_TIME: u64 = 200_000_000;

/// Acceleration while walking, `WALK_SPEED / WALK_TIME`.
pub const WALK_ACCEL: i64 = 600;

/// Deceleration after a walk key is released, larger than `WALK_ACCEL` so
/// that stopping is snappier than starting: `WALK_SPEED` back to rest in
/// 0.15 seconds.
pub const STOP_ACCEL: i64 = 800;

/// Terminal fall speed: 300 pixels per second, downwards.
pub const FALL_SPEED: i64 = 300 * SUBPIXELS;

/// Acceleration while falling: `FALL_SPEED` reached in one second.
pub const FALL_ACCEL: i64 = 300;

/// Jump speed cap: 130 pixels per second, upwards.
pub const JUMP_SPEED: i64 = -130 * SUBPIXELS;

/// Acceleration while jumping: `JUMP_SPEED` reached in 0.1 seconds.
pub const JUMP_ACCEL: i64 = -1300;

/// Half a pixel: collision probes sit this far inside the hitbox's edges.
pub const HALF_PIXEL: i64 = 500_000_000;

/// The abstract value of a [`Player`]: modes, position of the hitbox's top
/// left corner, speed, and hitbox size.
pub struct PlayerView {
    pub horiz: PlayerHorizState,
    pub vert: PlayerVertState,
    pub x: int,
    pub y: int,
    pub vx: int,
    pub vy: int,
    pub w: int,
    pub h: int,
}

impl PlayerView {
    /// Speeds lie within the bounds that every tick leaves them in.
    pub open spec fn speeds_bounded(self) -> bool {
        &&& -WALK_SPEED <= self.vx <= WALK_SPEED
        &&& JUMP_SPEED <= self.vy <= FALL_SPEED
    }

    pub open spec fn wf(self) -> bool {
        &&& i64::MIN <= self.x <= i64::MAX
        &&& i64::MIN <= self.y <= i64::MAX
        &&& i64::MIN <= self.vx <= i64::MAX
        &&& i64::MIN <= self.vy <= i64::MAX
        &&& 0 < self.w <= i64::MAX
        &&& 0 < self.h <= i64::MAX
    }
}

/// `v` held within `[lo, hi]`, capped at `hi` first and then raised to `lo`.
pub open spec fn clamp(v: int, lo: int, hi: int) -> int {
    let capped = if v < hi {
        v
    } else {
        hi
    };
    if capped > lo {
        capped
    } else {
        lo
    }
}

pub open spec fn horiz_accel(h: PlayerHorizState) -> int {
    match h {
        PlayerHorizState::Idle => 0,
        PlayerHorizState::MovingLeft => -WALK_ACCEL,
        PlayerHorizState::MovingRight => WALK_ACCEL as int,
        PlayerHorizState::StopMovingLeft => STOP_ACCEL as int,
        PlayerHorizState::StopMovingRight => -STOP_ACCEL,
    }
}

pub open spec fn horiz_min_speed(h: PlayerHorizState) -> int {
    match h {
        PlayerHorizState::Idle => 0,
        PlayerHorizState::StopMovingRight => 0,
        _ => -WALK_SPEED,
    }
}

pub open spec fn horiz_max_speed(h: PlayerHorizState) -> int {
    match h {
        PlayerHorizState::Idle => 0,
        PlayerHorizState::StopMovingLeft => 0,
        _ => WALK_SPEED as int,
    }
}

pub open spec fn vert_accel(v: PlayerVertState) -> int {
    match v {
        PlayerVertState::Standing => 0,
        PlayerVertState::Falling => FALL_ACCEL as int,
        PlayerVertState::Jumping => JUMP_ACCEL as int,
    }
}

/// The horizontal speed after `dt` nanoseconds in mode `h`, from speed `v`.
pub open spec fn next_horiz_speed(h: PlayerHorizState, v: int, dt: int) -> int {
    clamp(v + horiz_accel(h) * dt, horiz_min_speed(h), horiz_max_speed(h))
}

/// The vertical speed after `dt` nanoseconds in mode `m`, from speed `v`.
pub open spec fn next_vert_speed(m: PlayerVertState, v: int, dt: int) -> int {
    clamp(v + vert_accel(m) * dt, JUMP_SPEED as int, FALL_SPEED as int)
}

/// First phase of a tick: speeds change by acceleration times `dt`, within
/// the bounds of the current modes.
pub open spec fn accelerated(p: PlayerView, dt: int) -> PlayerView {
    PlayerView {
        vx: next_horiz_speed(p.horiz, p.vx, dt),
        vy: next_vert_speed(p.vert, p.vy, dt),
        ..p
    }
}

/// Distance covered in `dt` nanoseconds at speed `v`, in nanopixels,
/// rounded toward zero.
pub open spec fn displacement(v: int, dt: int) -> int {
    if v >= 0 {
        (v * dt) / (SUBPIXELS as int)
    } else {
        -(((-v) * dt) / (SUBPIXELS as int))
    }
}

/// A coordinate held within the range of `i64`.
pub open spec fn saturate(c: int) -> int {
    clamp(c, i64::MIN as int, i64::MAX as int)
}

/// Second phase: the position moves by the already updated speed.
pub open spec fn moved(p: PlayerView, dt: int) -> PlayerView {
    PlayerView {
        x: saturate(p.x + displacement(p.vx, dt)),
        y: saturate(p.y + displacement(p.vy, dt)),
        ..p
    }
}

/// Third phase: a stopped player is idle, and a jump that has reached its
/// speed cap turns into a fall.
pub open spec fn settled(p: PlayerView) -> PlayerView {
    PlayerView {
        horiz: if p.vx == 0 {
            PlayerHorizState::Idle
        } else {
            p.horiz
        },
        vert: if p.vy == JUMP_SPEED {
            PlayerVertState::Falling
        } else {
            p.vert
        },
        ..p
    }
}

/// Tile `(col, row)` is a wall face seen from the side of column
/// `col - dir`: it is filled and that neighbour is empty.
pub open spec fn wall_face(room: RoomView, col: int, row: int, dir: int) -> bool {
    room.kind_at(col, row) == TileKind::Filled && room.kind_at(col - dir, row) == TileKind::Empty
}

/// A probe at the top or at the bottom of the hitbox, in column `col`,
/// finds a wall face seen from the side of `col - dir`.
pub open spec fn probes_wall(p: PlayerView, room: RoomView, col: int, dir: int) -> bool {
    wall_face(room, col, room.index_of(p.y + HALF_PIXEL), dir) || wall_face(
        room,
        col,
        room.index_of(p.y + p.h - HALF_PIXEL),
        dir,
    )
}

/// The column just right of the hitbox.
pub open spec fn right_column(p: PlayerView, room: RoomView) -> int {
    room.index_of(p.x + p.w)
}

/// The column of the hitbox's left edge.
pub open spec fn left_column(p: PlayerView, room: RoomView) -> int {
    room.index_of(p.x)
}

/// Fourth phase: a player moving into a wall face stops with the hitbox
/// touching it.
pub open spec fn after_walls(p: PlayerView, room: RoomView) -> PlayerView {
    if p.vx > 0 && probes_wall(p, room, right_column(p, room), 1) {
        PlayerView {
            vx: 0,
            x: right_column(p, room) * room.tile_size * SUBPIXELS - p.w,
            ..p
        }
    } else if p.vx < 0 && probes_wall(p, room, left_column(p, room), -1) {
        PlayerView { vx: 0, x: (left_column(p, room) + 1) * room.tile_size * SUBPIXELS, ..p }
    } else {
        p
    }
}

/// Either probe along row `row`, half a pixel inside the hitbox's left and
/// right edges, lands in a filled tile.
pub open spec fn probes_filled(p: PlayerView, room: RoomView, row: int) -> bool {
    room.kind_at(room.index_of(p.x + HALF_PIXEL), row) == TileKind::Filled || room.kind_at(
        room.index_of(p.x + p.w - HALF_PIXEL),
        row,
    ) == TileKind::Filled
}

/// The row of the hitbox's bottom edge.
pub open spec fn feet_row(p: PlayerView, room: RoomView) -> int {
    room.index_of(p.y + p.h)
}

/// The row of the hitbox's top edge.
pub open spec fn head_row(p: PlayerView, room: RoomView) -> int {
    room.index_of(p.y)
}

/// Either feet probe lands in a filled tile.
pub open spec fn on_floor(p: PlayerView, room: RoomView) -> bool {
    probes_filled(p, room, feet_row(p, room))
}

/// Last phase: land on a floor, walk off a ledge, or bump a ceiling.
pub open spec fn after_floor_and_ceiling(p: PlayerView, room: RoomView) -> PlayerView {
    if p.vy >= 0 {
        if on_floor(p, room) {
            if p.vy > 0 {
                PlayerView {
                    vert: PlayerVertState::Standing,
                    vy: 0,
                    y: feet_row(p, room) * room.tile_size * SUBPIXELS - p.h,
                    ..p
                }
            } else {
                p
            }
        } else if p.vy == 0 && p.vert == PlayerVertState::Standing {
            PlayerView { vert: PlayerVertState::Falling, ..p }
        } else {
            p
        }
    } else if probes_filled(p, room, head_row(p, room)) {
        PlayerView {
            vert: PlayerVertState::Falling,
            vy: 0,
            y: (head_row(p, room) + 1) * room.tile_size * SUBPIXELS,
            ..p
        }
    } else {
        p
    }
}

/// The player before collisions are resolved in a tick of `dt` nanoseconds.
pub open spec fn unresolved(p: PlayerView, dt: int) -> PlayerView {
    settled(moved(accelerated(p, dt), dt))
}

/// One tick of `dt` nanoseconds against `room`.
pub open spec fn step(p: PlayerView, room: RoomView, dt: int) -> PlayerView {
    after_floor_and_ceiling(after_walls(unresolved(p, dt), room), room)
}

} // verus!
