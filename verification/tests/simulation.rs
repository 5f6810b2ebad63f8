use square_eater::cleanup::clean_up;
use square_eater::collision::collision;
use square_eater::config::{FIELD_H, FIELD_W, INIT_SIZE, MAX_SIZE};
use square_eater::counters::counters;
use square_eater::growth::grow_square;
use square_eater::model::{GameOver, Player, Squagum, Square, World};
use square_eater::motion::{move_player, move_square};
use square_eater::pipeline::tick;
use square_eater::render::{render, DrawColor};
use square_eater::spawn::{init_world, new_square, new_squares};

fn centered_player(x: i64, y: i64, side: i64) -> Player {
    Player {
        x,
        y,
        w: side,
        h: side,
        is_invincible: false,
        i_counter: 0,
        squagum: false,
        squagum_counter: 0,
    }
}

fn square_at(x: i64, y: i64, side: i64) -> Square {
    Square { x, y, w: side, h: side, acc: 0, marked: false }
}

fn assert_initial(w: &World) {
    assert_eq!(w.squares.len(), 7);
    for s in w.squares.iter() {
        assert_eq!(s.w, INIT_SIZE);
        assert_eq!(s.h, INIT_SIZE);
        assert_eq!(s.acc, 0);
        assert!(!s.marked);
        assert!(MAX_SIZE / 2 <= s.x && s.x <= FIELD_W - MAX_SIZE / 2);
        assert!(MAX_SIZE / 2 <= s.y && s.y <= FIELD_W - MAX_SIZE / 2);
    }
    assert_eq!(w.squagums.len(), 0);
    assert_eq!(w.player.w, INIT_SIZE * 3);
    assert_eq!(w.player.h, INIT_SIZE * 3);
    assert!(!w.player.is_invincible);
    assert_eq!(w.player.i_counter, 0);
    assert!(!w.player.squagum);
    assert_eq!(w.player.squagum_counter, 0);
}

#[test]
fn initial_world_population() {
    let mut w = World::new();
    init_world(&mut w);
    assert_initial(&w);
}

#[test]
fn reset_restores_invariants_after_play() {
    let mut w = World::new();
    init_world(&mut w);
    for _ in 0..25 {
        if tick(&mut w, 40000, 20000).is_some() {
            init_world(&mut w);
        }
    }
    init_world(&mut w);
    assert_initial(&w);
}

#[test]
fn max_square_hit_shrinks_and_sets_invincibility() {
    let mut w = World::new();
    w.player = centered_player(64000, 36000, 3000);
    w.squares.push(square_at(64000, 36000, MAX_SIZE));
    collision(&mut w);
    assert_eq!(w.player.w, 2500);
    assert_eq!(w.player.h, 2500);
    assert!(w.player.is_invincible);
    assert!(!w.squares[0].marked);
    let r = clean_up(&mut w);
    assert!(r.is_ok());
    assert_eq!(w.squares.len(), 1);
}

#[test]
fn invincible_player_takes_no_second_hit() {
    let mut w = World::new();
    w.player = centered_player(64000, 36000, 3000);
    w.player.is_invincible = true;
    w.squares.push(square_at(64000, 36000, MAX_SIZE));
    collision(&mut w);
    assert_eq!(w.player.w, 3000);
    assert!(w.player.is_invincible);
    assert!(!w.squares[0].marked);
}

#[test]
fn powerup_lets_player_eat_max_square() {
    let mut w = World::new();
    w.player = centered_player(64000, 36000, 3000);
    w.player.squagum = true;
    w.squares.push(square_at(64000, 36000, MAX_SIZE));
    collision(&mut w);
    // grown by a quarter square, then hit for half a square
    assert_eq!(w.player.w, 3000 + INIT_SIZE / 4 - INIT_SIZE / 2);
    assert_eq!(w.player.h, w.player.w);
    assert!(w.player.is_invincible);
    assert!(w.squares[0].marked);
    let r = clean_up(&mut w);
    assert_eq!(r, Err(GameOver::Victory));
    assert_eq!(w.squares.len(), 0);
}

#[test]
fn powerup_pickup_removes_only_touched_powerup() {
    let mut w = World::new();
    w.player = centered_player(64000, 36000, 3000);
    w.squares.push(square_at(10000, 10000, MAX_SIZE - 2));
    w.squagums.push(Squagum { x: 64000, y: 36000, marked: false });
    w.squagums.push(Squagum { x: 1000, y: 1000, marked: false });
    collision(&mut w);
    assert!(w.player.squagum);
    assert!(w.squagums[0].marked);
    assert!(!w.squagums[1].marked);
    let r = clean_up(&mut w);
    assert!(r.is_ok());
    assert_eq!(w.squagums.len(), 1);
    assert_eq!(w.squagums[0].x, 1000);
    assert_eq!(w.squagums[0].y, 1000);
}

#[test]
fn corner_offset_powerup_pickup() {
    let mut w = World::new();
    // the power-up sits just left of the player's box, but its corner
    // offset by one initial size falls inside
    w.player = centered_player(64000, 36000, 3000);
    w.squagums.push(Squagum { x: 64000 - 800, y: 36000 - 800, marked: false });
    collision(&mut w);
    assert!(w.player.squagum);
    assert!(w.squagums[0].marked);
}

#[test]
fn eating_last_square_wins() {
    let mut w = World::new();
    w.player = centered_player(64000, 36000, 3000);
    w.squares.push(square_at(64000, 36000, INIT_SIZE));
    collision(&mut w);
    assert!(w.squares[0].marked);
    assert_eq!(w.player.w, 3000 + INIT_SIZE / 2);
    let r = clean_up(&mut w);
    assert_eq!(r, Err(GameOver::Victory));
}

#[test]
fn shrinking_below_initial_size_loses() {
    let mut w = World::new();
    w.player = centered_player(64000, 36000, INIT_SIZE);
    w.squares.push(square_at(64000, 36000, MAX_SIZE));
    collision(&mut w);
    assert_eq!(w.player.w, INIT_SIZE - INIT_SIZE / 2);
    let r = clean_up(&mut w);
    assert_eq!(r, Err(GameOver::Lose));
}

#[test]
fn lose_takes_precedence_over_victory() {
    let mut w = World::new();
    w.player = centered_player(64000, 36000, INIT_SIZE);
    w.squares.push(square_at(64000, 36000, MAX_SIZE));
    collision(&mut w);
    // the only square is not marked, but even with an empty field the
    // shrunken player loses first
    w.squares.clear();
    let r = clean_up(&mut w);
    assert_eq!(r, Err(GameOver::Lose));
}

#[test]
fn invincibility_lasts_ten_counter_frames() {
    let mut p = centered_player(1500, 1500, 3000);
    p.is_invincible = true;
    for k in 1..10u32 {
        counters(&mut p);
        assert!(p.is_invincible);
        assert_eq!(p.i_counter, k);
    }
    counters(&mut p);
    assert!(!p.is_invincible);
    assert_eq!(p.i_counter, 0);
}

#[test]
fn powerup_lasts_hundred_twenty_counter_frames() {
    let mut p = centered_player(1500, 1500, 3000);
    p.squagum = true;
    for k in 1..120u32 {
        counters(&mut p);
        assert!(p.squagum);
        assert_eq!(p.squagum_counter, k);
    }
    counters(&mut p);
    assert!(!p.squagum);
    assert_eq!(p.squagum_counter, 0);
}

#[test]
fn growth_is_stepwise_and_capped() {
    let mut w = World::new();
    w.squares.push(square_at(10000, 10000, INIT_SIZE));
    w.squares.push(square_at(20000, 20000, MAX_SIZE - 10));
    grow_square(&mut w);
    assert_eq!(w.squares[0].w, INIT_SIZE + 30);
    assert_eq!(w.squares[0].h, INIT_SIZE + 30);
    assert_eq!(w.squares[1].w, MAX_SIZE);
    assert_eq!(w.squares[1].h, MAX_SIZE);
    grow_square(&mut w);
    assert_eq!(w.squares[1].w, MAX_SIZE);
}

#[test]
fn growth_never_shrinks_over_many_frames() {
    let mut w = World::new();
    w.squares.push(square_at(10000, 10000, INIT_SIZE));
    let mut last = INIT_SIZE;
    for _ in 0..200 {
        grow_square(&mut w);
        let s = &w.squares[0];
        assert!(s.w >= last && s.w <= MAX_SIZE && s.h == s.w);
        last = s.w;
    }
    assert_eq!(w.squares[0].w, MAX_SIZE);
}

#[test]
fn predator_steers_toward_player() {
    let mut w = World::new();
    w.player = centered_player(10000, 10000, 3000);
    w.squares.push(square_at(10000, 20000, 4000));
    move_square(&mut w);
    let s = &w.squares[0];
    assert_eq!(s.acc, 2);
    assert_eq!(s.x, 10025);
    assert_eq!(s.y, 19711);
    assert_eq!(s.w, 4000);
    assert_eq!(s.h, 4000);
}

#[test]
fn fleeing_predator_under_powerup() {
    let mut w = World::new();
    w.player = centered_player(10000, 10000, 3000);
    w.player.squagum = true;
    w.squares.push(square_at(10000, 20000, 4000));
    move_square(&mut w);
    let s = &w.squares[0];
    // the chase direction is inverted: the predator drifts away
    assert_eq!(s.x, 10000 - 15 + 10);
    assert_eq!(s.y, 20000 + 299 + 10);
}

#[test]
fn small_squares_do_not_move() {
    let mut w = World::new();
    w.player = centered_player(10000, 10000, 3000);
    w.squares.push(square_at(90000, 30000, 2000));
    move_square(&mut w);
    let s = &w.squares[0];
    assert_eq!(s.x, 90000);
    assert_eq!(s.y, 30000);
    assert_eq!(s.acc, 2);
}

#[test]
fn player_tracks_pointer_with_clamping() {
    let mut p = centered_player(10000, 10000, 3000);
    move_player(&mut p, -50, 200000);
    assert_eq!(p.x, 1500);
    assert_eq!(p.y, FIELD_H - 1500);
    move_player(&mut p, 30000, 10000);
    assert_eq!(p.x, 30000);
    assert_eq!(p.y, 10000);
}

#[test]
fn spawner_keeps_population_well_formed() {
    let mut w = World::new();
    init_world(&mut w);
    for _ in 0..500 {
        new_squares(&mut w);
    }
    assert!(w.squares.len() >= 7);
    assert!(w.squares.len() <= 7 + 500);
    for s in w.squares.iter() {
        assert_eq!(s.w, INIT_SIZE);
        assert_eq!(s.h, INIT_SIZE);
        assert!(MAX_SIZE / 2 <= s.x && s.x <= FIELD_W - MAX_SIZE / 2);
        assert!(MAX_SIZE / 2 <= s.y && s.y <= FIELD_W - MAX_SIZE / 2);
    }
    for g in w.squagums.iter() {
        assert!(0 <= g.x && g.x <= FIELD_W);
        assert!(0 <= g.y && g.y <= FIELD_H);
    }
}

#[test]
fn new_square_is_randomly_placed_in_spawn_box() {
    for _ in 0..100 {
        let s = new_square();
        assert_eq!(s.w, INIT_SIZE);
        assert_eq!(s.h, INIT_SIZE);
        assert_eq!(s.acc, 0);
        assert!(!s.marked);
        assert!(MAX_SIZE / 2 <= s.x && s.x <= FIELD_W - MAX_SIZE / 2);
        assert!(MAX_SIZE / 2 <= s.y && s.y <= FIELD_W - MAX_SIZE / 2);
    }
}

#[test]
fn cleanup_removes_exactly_marked_entities() {
    let mut w = World::new();
    w.player = centered_player(64000, 36000, 3000);
    let mut a = square_at(10000, 10000, 2000);
    a.marked = true;
    let b = square_at(20000, 20000, 2000);
    let mut c = square_at(30000, 30000, 2000);
    c.marked = true;
    let d = square_at(40000, 40000, 2000);
    w.squares = vec![a, b, c, d];
    w.squagums.push(Squagum { x: 100, y: 100, marked: true });
    w.squagums.push(Squagum { x: 200, y: 200, marked: false });
    let r = clean_up(&mut w);
    assert!(r.is_ok());
    assert_eq!(w.squares.len(), 2);
    assert_eq!(w.squares[0].x, 20000);
    assert_eq!(w.squares[1].x, 40000);
    assert_eq!(w.squagums.len(), 1);
    assert_eq!(w.squagums[0].x, 200);
}

#[test]
fn tick_moves_player_and_keeps_world_sane() {
    let mut w = World::new();
    init_world(&mut w);
    let r = tick(&mut w, 0, 0);
    assert_eq!(w.player.x, 1500);
    assert_eq!(w.player.y, 1500);
    assert_ne!(r, Some(GameOver::Lose));
    if r.is_none() {
        assert!(!w.squares.is_empty());
        for s in w.squares.iter() {
            assert!(!s.marked);
            assert!(s.w == INIT_SIZE || s.w == INIT_SIZE + 30);
        }
    }
}

#[test]
fn render_palette_and_layout() {
    let mut w = World::new();
    w.player = centered_player(10000, 10000, 3000);
    w.squares.push(square_at(64000, 36000, MAX_SIZE));
    w.squares.push(square_at(20000, 20000, 4000));
    w.squares.push(square_at(30000, 30000, 1000));
    w.squagums.push(Squagum { x: 500, y: 600, marked: false });
    let r = render(&w);
    assert_eq!(r.len(), 5);
    assert_eq!((r[0].x, r[0].y, r[0].w, r[0].h), (61500, 33500, 5000, 5000));
    assert_eq!(r[0].color, DrawColor::Red);
    assert_eq!((r[1].x, r[1].y), (18000, 18000));
    assert_eq!(r[1].color, DrawColor::Gray);
    assert_eq!(r[2].color, DrawColor::Green);
    assert_eq!((r[3].x, r[3].y, r[3].w, r[3].h), (500, 600, 1000, 1000));
    assert_eq!(r[3].color, DrawColor::Yellow);
    assert_eq!((r[4].x, r[4].y, r[4].w, r[4].h), (8500, 8500, 3000, 3000));
    assert_eq!(r[4].color, DrawColor::Blue);
}

#[test]
fn render_player_yellow_under_powerup() {
    let mut w = World::new();
    w.player = centered_player(10000, 10000, 3000);
    w.player.squagum = true;
    let r = render(&w);
    assert_eq!(r.len(), 1);
    assert_eq!(r[0].color, DrawColor::Yellow);
}
