//! Properties of the motion rules and of the scheduler that follow from
//! their definitions.

use vstd::prelude::*;

use crate::geom::SUBPIXELS;
use crate::model::{advanced, ticks, ModelView, PlayerHorizState, PlayerVertState};
use crate::motion::{
    accelerated, after_walls, feet_row, horiz_accel, next_horiz_speed, on_floor, step,
    unresolved, vert_accel, PlayerView, WALK_ACCEL, WALK_SPEED, WALK_TIME,
};
use crate::room::RoomView;

verus! {

/// Whatever the state, the room and the time step, a tick leaves the
/// horizontal speed within the walk speed and the vertical speed between the
/// jump speed cap and the terminal fall speed.
pub proof fn lemma_speeds_bounded(p: PlayerView, room: RoomView, dt: int)
    ensures
        step(p, room, dt).speeds_bounded(),
{
}

/// The horizontal speed after `n` ticks of `dt` nanoseconds of walking
/// right from rest, with nothing in the way.
pub open spec fn walk_speed(n: nat, dt: int) -> int
    decreases n,
{
    if n == 0 {
        0
    } else {
        next_horiz_speed(PlayerHorizState::MovingRight, walk_speed((n - 1) as nat, dt), dt)
    }
}

/// Walking right from rest, the speed grows by exactly the walk
/// acceleration times the time walked until it reaches the walk speed, and
/// then stays at it: it is exactly the walk speed once `WALK_TIME` has been
/// walked, and never more.
pub proof fn lemma_walk_reaches_speed_exactly(n: nat, dt: int)
    requires
        dt >= 0,
    ensures
        walk_speed(n, dt) == if n * dt * WALK_ACCEL < WALK_SPEED {
            n * dt * WALK_ACCEL
        } else {
            WALK_SPEED as int
        },
        n * dt >= WALK_TIME ==> walk_speed(n, dt) == WALK_SPEED,
        n * dt < WALK_TIME ==> walk_speed(n, dt) < WALK_SPEED,
    decreases n,
{
    let t = n * dt;
    assert(t * WALK_ACCEL == 600 * t) by (nonlinear_arith)
        requires
            WALK_ACCEL == 600,
    ;
    if n == 0 {
        assert(t == 0) by (nonlinear_arith)
            requires
                t == n * dt,
                n == 0,
        ;
    } else {
        let m: nat = (n - 1) as nat;
        lemma_walk_reaches_speed_exactly(m, dt);
        let before = m * dt;
        assert(t == before + dt && before >= 0) by (nonlinear_arith)
            requires
                t == n * dt,
                before == m * dt,
                m + 1 == n,
                dt >= 0,
        ;
        assert(before * WALK_ACCEL == 600 * before) by (nonlinear_arith)
            requires
                WALK_ACCEL == 600,
        ;
        assert(horiz_accel(PlayerHorizState::MovingRight) * dt == 600 * dt) by (nonlinear_arith)
            requires
                horiz_accel(PlayerHorizState::MovingRight) == 600,
        ;
    }
}

/// `n` ticks of `dt` nanoseconds of the player against `room`.
pub open spec fn player_ticks(p: PlayerView, room: RoomView, dt: int, n: nat) -> PlayerView
    decreases n,
{
    if n == 0 {
        p
    } else {
        step(player_ticks(p, room, dt, (n - 1) as nat), room, dt)
    }
}

/// In a tick of `dt` nanoseconds from `p`, a wall stops the player.
pub open spec fn wall_stops(p: PlayerView, room: RoomView, dt: int) -> bool {
    after_walls(unresolved(p, dt), room).vx != unresolved(p, dt).vx
}

/// A player that starts walking right from rest, and that no wall stops,
/// keeps walking right with exactly the walk speed rule's speed after each
/// tick: exactly `WALK_SPEED` once `WALK_TIME` has been walked, and less
/// before.
pub proof fn lemma_walking_reaches_speed_exactly(p: PlayerView, room: RoomView, dt: int, n: nat)
    requires
        p.horiz == PlayerHorizState::MovingRight,
        p.vx == 0,
        dt > 0,
        forall|k: nat| k < n ==> !wall_stops(#[trigger] player_ticks(p, room, dt, k), room, dt),
    ensures
        player_ticks(p, room, dt, n).horiz == PlayerHorizState::MovingRight,
        player_ticks(p, room, dt, n).vx == walk_speed(n, dt),
        n * dt >= WALK_TIME ==> player_ticks(p, room, dt, n).vx == WALK_SPEED,
        n * dt < WALK_TIME ==> player_ticks(p, room, dt, n).vx < WALK_SPEED,
    decreases n,
{
    lemma_walk_reaches_speed_exactly(n, dt);
    if n > 0 {
        let m: nat = (n - 1) as nat;
        lemma_walking_reaches_speed_exactly(p, room, dt, m);
        let q = player_ticks(p, room, dt, m);
        assert(!wall_stops(q, room, dt));
        assert(n * dt * WALK_ACCEL > 0) by (nonlinear_arith)
            requires
                n >= 1,
                dt > 0,
                WALK_ACCEL == 600,
        ;
        assert(walk_speed(n, dt) > 0);
        assert(unresolved(q, dt).vx == walk_speed(n, dt));
    }
}

/// A player that is idle and at rest stays idle and at rest.
pub proof fn lemma_rest_stays_at_rest(p: PlayerView, room: RoomView, dt: int)
    requires
        p.horiz == PlayerHorizState::Idle,
        p.vx == 0,
    ensures
        step(p, room, dt).vx == 0,
        step(p, room, dt).horiz == PlayerHorizState::Idle,
{
}

/// A falling player whose feet land in a filled tile during a tick ends the
/// tick standing, at rest vertically, with the bottom of its hitbox exactly
/// on the top edge of that tile (in nanopixels).
pub proof fn lemma_floor_snap(p: PlayerView, room: RoomView, dt: int)
    requires
        p.wf(),
        room.wf(),
        p.vert == PlayerVertState::Falling,
        p.vy >= 0,
        dt > 0,
        on_floor(after_walls(unresolved(p, dt), room), room),
    ensures
        step(p, room, dt).vy == 0,
        step(p, room, dt).vert == PlayerVertState::Standing,
        step(p, room, dt).y + step(p, room, dt).h == feet_row(
            after_walls(unresolved(p, dt), room),
            room,
        ) * room.tile_size * SUBPIXELS,
{
    let a = accelerated(p, dt);
    assert(vert_accel(p.vert) == 300);
    assert(vert_accel(p.vert) * dt > 0) by (nonlinear_arith)
        requires
            vert_accel(p.vert) == 300,
            dt > 0,
    ;
    assert(a.vy > 0);
    let m = after_walls(unresolved(p, dt), room);
    assert(m.vy == a.vy);
    assert(m.vy > 0);
}

/// A standing player at rest vertically whose feet probes find no filled
/// tile at the end of a tick has walked off a ledge: it is falling.
pub proof fn lemma_ledge_walk_off(p: PlayerView, room: RoomView, dt: int)
    requires
        p.wf(),
        p.vert == PlayerVertState::Standing,
        p.vy == 0,
        !on_floor(step(p, room, dt), room),
    ensures
        step(p, room, dt).vert == PlayerVertState::Falling,
{
}

/// With no time pending, adding `k` tick lengths and `r` nanoseconds more
/// runs exactly `k` ticks and leaves `r` nanoseconds pending.
pub proof fn lemma_catch_up(m: ModelView, k: nat, r: nat)
    requires
        m.wf(),
        m.time_since_last_tick == 0,
        r < m.frame_duration,
    ensures
        m.ticks_due((k * m.frame_duration + r) as int) == k,
        advanced(m, (k * m.frame_duration + r) as int).time_since_last_tick == r,
        advanced(m, (k * m.frame_duration + r) as int).player == ticks(
            (m.player, m.room),
            m.frame_duration as int,
            k,
        ).0,
{
    vstd::arithmetic::div_mod::lemma_fundamental_div_mod_converse(
        (k * m.frame_duration + r) as int,
        m.frame_duration as int,
        k as int,
        r as int,
    );
}

} // verus!
