use grot::geom::SUBPIXELS;
use grot::model::{Player, PlayerHorizState, PlayerVertState};
use grot::motion::{FALL_SPEED, JUMP_SPEED, WALK_SPEED};
use grot::room::{Room, TileKind};

const TICK: u64 = 6_666_666;
const S: i64 = SUBPIXELS;

/// Lets the player fall until it stands, returning the ticks it took.
fn land(player: &mut Player, room: &Room) -> u32 {
    let mut ticks = 0;
    while player.vert_state() != PlayerVertState::Standing {
        player.update(TICK, room);
        ticks += 1;
        assert!(ticks < 10_000, "the player never landed");
    }
    ticks
}

#[test]
fn one_tick_of_falling_from_rest() {
    let room = Room::new(20, 10, 16);
    let mut player = Player::new();
    player.update(TICK, &room);
    assert_eq!(player.yspeed(), 1_999_999_800);
    assert_eq!(player.ypos(), 10_013_333_330);
    assert_eq!(player.xpos(), 20 * S);
    assert_eq!(player.xspeed(), 0);
    assert_eq!(player.vert_state(), PlayerVertState::Falling);
    assert_eq!(player.horiz_state(), PlayerHorizState::Idle);
}

#[test]
fn falling_player_lands_on_the_floor() {
    let room = Room::new(20, 10, 16);
    let mut player = Player::at(10 * S, 10 * S);
    assert_eq!(player.width(), 8 * S);
    assert_eq!(player.height(), 20 * S);
    let ticks = land(&mut player, &room);
    assert!(ticks > 1);
    assert_eq!(player.ypos(), 9 * 16 * S - 20 * S);
    assert_eq!(player.ypos(), 124 * S);
    assert_eq!(player.ypos() + player.height(), 144 * S);
    assert_eq!(player.yspeed(), 0);
    assert_eq!(player.vert_state(), PlayerVertState::Standing);
}

#[test]
fn standing_player_stays_put() {
    let room = Room::new(20, 10, 16);
    let mut player = Player::at(10 * S, 10 * S);
    land(&mut player, &room);
    for _ in 0..100 {
        player.update(TICK, &room);
        assert_eq!(player.ypos(), 124 * S);
        assert_eq!(player.xpos(), 10 * S);
        assert_eq!(player.vert_state(), PlayerVertState::Standing);
    }
}

#[test]
fn speeds_stay_within_bounds() {
    let room = Room::new(20, 10, 16);
    let mut player = Player::at(10 * S, 10 * S);
    player.set_horiz_state(PlayerHorizState::MovingRight);
    for i in 0..2000 {
        if i == 300 {
            player.set_horiz_state(PlayerHorizState::MovingLeft);
        }
        if i % 200 == 0 && player.vert_state() == PlayerVertState::Standing {
            player.set_vert_state(PlayerVertState::Jumping);
        }
        player.update(TICK, &room);
        assert!(player.xspeed().abs() <= WALK_SPEED);
        assert!(JUMP_SPEED <= player.yspeed() && player.yspeed() <= FALL_SPEED);
    }
}

#[test]
fn walk_speed_is_reached_exactly_at_walk_time() {
    let room = Room::new(100, 100, 16);
    let mut player = Player::at(10 * S, 10 * S);
    player.set_horiz_state(PlayerHorizState::MovingRight);
    let dt: u64 = 5_000_000;
    for _ in 0..39 {
        player.update(dt, &room);
    }
    assert_eq!(player.xspeed(), 117_000_000_000);
    player.update(dt, &room);
    assert_eq!(player.xspeed(), WALK_SPEED);
    player.update(dt, &room);
    assert_eq!(player.xspeed(), WALK_SPEED);
}

#[test]
fn walk_speed_at_the_model_tick_rate() {
    let room = Room::new(100, 100, 16);
    let mut player = Player::at(10 * S, 10 * S);
    player.set_horiz_state(PlayerHorizState::MovingRight);
    for _ in 0..30 {
        player.update(TICK, &room);
    }
    assert_eq!(player.xspeed(), 119_999_988_000);
    player.update(TICK, &room);
    assert_eq!(player.xspeed(), WALK_SPEED);
}

#[test]
fn idle_player_at_rest_stays_idle() {
    let room = Room::new(20, 10, 16);
    let mut player = Player::at(10 * S, 10 * S);
    for _ in 0..500 {
        player.update(TICK, &room);
        assert_eq!(player.xspeed(), 0);
        assert_eq!(player.horiz_state(), PlayerHorizState::Idle);
    }
}

#[test]
fn braking_stops_at_exactly_zero_and_turns_idle() {
    let room = Room::new(100, 100, 16);
    let mut player = Player::at(10 * S, 10 * S);
    player.set_horiz_state(PlayerHorizState::MovingRight);
    for _ in 0..40 {
        player.update(TICK, &room);
    }
    player.set_horiz_state(PlayerHorizState::StopMovingRight);
    let mut ticks = 0;
    while player.xspeed() != 0 {
        player.update(TICK, &room);
        assert!(player.xspeed() >= 0);
        ticks += 1;
        assert!(ticks < 1000);
    }
    // 120 px/s at 800 px/s² takes 0.15 s: 22 ticks and a little, fewer
    // than the 30 it takes to reach walk speed.
    assert_eq!(ticks, 23);
    assert_eq!(player.horiz_state(), PlayerHorizState::Idle);
}

#[test]
fn walking_into_a_wall_stops_flush_against_it() {
    let mut room = Room::new(20, 10, 16);
    room.toggle_tile_at_index(3, 8).unwrap();
    let mut player = Player::at(10 * S, 10 * S);
    land(&mut player, &room);
    player.set_horiz_state(PlayerHorizState::MovingRight);
    for _ in 0..300 {
        player.update(TICK, &room);
    }
    assert_eq!(player.xpos(), 48 * S - 8 * S);
    assert_eq!(player.xspeed(), 0);
}

#[test]
fn walking_left_into_a_wall_stops_flush_against_it() {
    let mut room = Room::new(20, 10, 16);
    room.toggle_tile_at_index(0, 8).unwrap();
    let mut player = Player::at(40 * S, 10 * S);
    land(&mut player, &room);
    player.set_horiz_state(PlayerHorizState::MovingLeft);
    for _ in 0..300 {
        player.update(TICK, &room);
    }
    assert_eq!(player.xpos(), 16 * S);
    assert_eq!(player.xspeed(), 0);
}

#[test]
fn walking_off_a_ledge_starts_a_fall() {
    let mut room = Room::new(20, 10, 16);
    let mut player = Player::at(10 * S, 10 * S);
    land(&mut player, &room);
    room.toggle_tile_at_index(0, 9).unwrap();
    room.toggle_tile_at_index(1, 9).unwrap();
    assert_eq!(room.tile_at_index(1, 9).kind, TileKind::Empty);
    assert_eq!(player.yspeed(), 0);
    player.update(TICK, &room);
    assert_eq!(player.vert_state(), PlayerVertState::Falling);
    assert_eq!(player.ypos(), 124 * S);
}

#[test]
fn jump_turns_into_a_fall_at_the_speed_cap() {
    let room = Room::new(20, 10, 16);
    let mut player = Player::at(10 * S, 10 * S);
    land(&mut player, &room);
    player.set_vert_state(PlayerVertState::Jumping);
    let mut ticks = 0;
    while player.vert_state() == PlayerVertState::Jumping {
        player.update(TICK, &room);
        ticks += 1;
        assert!(ticks < 100);
    }
    assert_eq!(player.yspeed(), JUMP_SPEED);
    assert_eq!(player.vert_state(), PlayerVertState::Falling);
}

#[test]
fn jumping_into_a_ceiling_stops_under_it() {
    let mut room = Room::new(80, 40, 4);
    let mut player = Player::at(10 * S, 10 * S);
    land(&mut player, &room);
    assert_eq!(player.ypos(), 136 * S);
    room.toggle_tile_at_index(2, 32).unwrap();
    player.set_vert_state(PlayerVertState::Jumping);
    let mut ticks = 0;
    while player.yspeed() <= 0 && player.vert_state() == PlayerVertState::Jumping {
        player.update(TICK, &room);
        ticks += 1;
        assert!(ticks < 100);
    }
    assert_eq!(ticks, 12);
    assert_eq!(player.ypos(), 132 * S);
    assert_eq!(player.yspeed(), 0);
    assert_eq!(player.vert_state(), PlayerVertState::Falling);
}

#[test]
fn walking_off_the_left_edge_of_the_room_starts_a_fall() {
    let room = Room::new(20, 10, 16);
    let mut player = Player::at(10 * S, 10 * S);
    land(&mut player, &room);
    player.set_horiz_state(PlayerHorizState::MovingLeft);
    let mut ticks = 0;
    while player.vert_state() == PlayerVertState::Standing {
        player.update(TICK, &room);
        ticks += 1;
        assert!(ticks < 1000);
    }
    assert_eq!(ticks, 37);
    assert!(player.xpos() + player.width() - S / 2 < 0);
    assert_eq!(player.vert_state(), PlayerVertState::Falling);
    for _ in 0..200 {
        player.update(TICK, &room);
    }
    assert!(player.ypos() > 144 * S);
}
