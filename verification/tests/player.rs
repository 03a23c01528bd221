use wallrush::effects::Effect;
use wallrush::player::{
    confine_player_in_screen, handle_collision, handle_player_collisions, player_input,
    remove_prismatic_joints_in_low_angles, select_animation, AnimationKind, Collided, InputState,
    Joint, JointKind, LastWall, PlayerState, HALF_PLAYER_SIZE, JUMP_VELOCITY, PLAYER_SPEED,
};
use wallrush::Wall;

fn free_player() -> PlayerState {
    PlayerState::spawn()
}

fn keys(left: bool, right: bool, jump: bool) -> InputState {
    InputState { left, right, jump }
}

fn platform_below(p: &PlayerState, id: u64, icy: bool, vx: i64) -> Collided {
    Collided::Platform { id, icy, x: p.x + 5, y: p.y - HALF_PLAYER_SIZE - 10, vx }
}

#[test]
fn first_wall_touch_records_without_signal() {
    let mut p = free_player();
    let w = handle_collision(&mut p, &Collided::Wall(Wall::Left));
    assert_eq!(w, None);
    assert_eq!(p.last_wall, Some(LastWall(Wall::Left)));
}

#[test]
fn same_wall_twice_never_reemits() {
    let mut p = free_player();
    handle_collision(&mut p, &Collided::Wall(Wall::Left));
    let before = p;
    let w = handle_collision(&mut p, &Collided::Wall(Wall::Left));
    assert_eq!(w, None);
    assert_eq!(p, before);
}

#[test]
fn opposite_wall_signals_and_flips_record() {
    let mut p = free_player();
    handle_collision(&mut p, &Collided::Wall(Wall::Left));
    let w = handle_collision(&mut p, &Collided::Wall(Wall::Right));
    assert_eq!(w, Some(Wall::Right));
    assert_eq!(p.last_wall, Some(LastWall(Wall::Right)));
    let w2 = handle_collision(&mut p, &Collided::Wall(Wall::Left));
    assert_eq!(w2, Some(Wall::Left));
    assert_eq!(p.last_wall, Some(LastWall(Wall::Left)));
}

#[test]
fn new_wall_releases_joint() {
    let mut p = free_player();
    let plat = platform_below(&p, 7, false, -100);
    handle_collision(&mut p, &plat);
    assert!(p.joint.is_some());
    handle_collision(&mut p, &Collided::Wall(Wall::Left));
    assert!(p.joint.is_none());
}

#[test]
fn platform_below_anchors_with_fixed_joint() {
    let mut p = free_player();
    let plat = platform_below(&p, 42, false, -100);
    let w = handle_collision(&mut p, &plat);
    assert_eq!(w, None);
    assert_eq!(
        p.joint,
        Some(Joint {
            platform: 42,
            anchor_x: 5,
            anchor_y: -HALF_PLAYER_SIZE,
            kind: JointKind::Fixed,
        })
    );
}

#[test]
fn icy_platform_gets_sliding_joint_opposing_motion() {
    let mut p = free_player();
    let plat = platform_below(&p, 3, true, 100);
    handle_collision(&mut p, &plat);
    match p.joint {
        Some(Joint { kind: JointKind::Sliding { motor }, .. }) => assert_eq!(motor, -1),
        other => panic!("expected a sliding joint, got {:?}", other),
    }

    let mut q = free_player();
    let plat_left = platform_below(&q, 3, true, -100);
    handle_collision(&mut q, &plat_left);
    match q.joint {
        Some(Joint { kind: JointKind::Sliding { motor }, .. }) => assert_eq!(motor, 1),
        other => panic!("expected a sliding joint, got {:?}", other),
    }
}

#[test]
fn platform_not_below_is_ignored() {
    let mut p = free_player();
    let beside = Collided::Platform { id: 1, icy: false, x: p.x + 5, y: p.y, vx: 0 };
    handle_collision(&mut p, &beside);
    assert!(p.joint.is_none());
}

#[test]
fn joint_creation_is_idempotent() {
    let mut p = free_player();
    let plat = platform_below(&p, 42, false, -100);
    handle_collision(&mut p, &plat);
    let anchored = p;
    // Further qualifying collisions, same or other platform, icy or not:
    // the joint stays exactly as it was.
    handle_collision(&mut p, &plat);
    assert_eq!(p, anchored);
    let other = platform_below(&p, 43, true, 50);
    handle_collision(&mut p, &other);
    assert_eq!(p, anchored);
}

#[test]
fn stale_collision_is_a_no_op() {
    let mut p = free_player();
    let before = p;
    let w = handle_collision(&mut p, &Collided::Stale);
    assert_eq!(w, None);
    assert_eq!(p, before);
}

#[test]
fn collision_fold_keeps_last_signal() {
    let mut p = free_player();
    p.last_wall = Some(LastWall(Wall::Left));
    let events = vec![
        Collided::Wall(Wall::Right),
        Collided::Stale,
        Collided::Wall(Wall::Left),
    ];
    let w = handle_player_collisions(&mut p, &events);
    assert_eq!(w, Some(Wall::Left));
    assert_eq!(p.last_wall, Some(LastWall(Wall::Left)));
}

#[test]
fn input_moves_and_releases_joint() {
    let mut p = free_player();
    let plat = platform_below(&p, 1, false, 0);
    handle_collision(&mut p, &plat);
    player_input(&mut p, &keys(true, false, false), None, 600);
    assert_eq!(p.vx, -PLAYER_SPEED);
    assert!(p.joint.is_none());

    let mut q = free_player();
    player_input(&mut q, &keys(false, true, false), None, 600);
    assert_eq!(q.vx, PLAYER_SPEED);
}

#[test]
fn inverse_keyboard_swaps_directions() {
    let mut p = free_player();
    player_input(&mut p, &keys(true, false, false), Some(Effect::InverseKeyboard), 600);
    assert_eq!(p.vx, PLAYER_SPEED);

    let mut q = free_player();
    player_input(&mut q, &keys(false, true, false), Some(Effect::InverseKeyboard), 600);
    assert_eq!(q.vx, -PLAYER_SPEED);
}

#[test]
fn jump_only_from_vertical_rest() {
    let mut p = free_player();
    p.vy = 0;
    player_input(&mut p, &keys(false, false, true), None, 600);
    assert_eq!(p.vy, JUMP_VELOCITY);
    assert_eq!(p.vx, 0);
    assert!(p.joint.is_none());

    let mut q = free_player();
    q.vy = 30;
    player_input(&mut q, &keys(false, false, true), None, 600);
    assert_eq!(q.vy, 30);
}

#[test]
fn input_ignored_near_top_of_screen() {
    let mut p = free_player();
    p.y = 580;
    let before = p;
    player_input(&mut p, &keys(true, false, true), None, 600);
    assert_eq!(p, before);
}

#[test]
fn confinement_clamps_and_stops() {
    let mut p = free_player();
    p.x = 900;
    p.vx = 50;
    p.vy = 20;
    confine_player_in_screen(&mut p, 800);
    assert_eq!(p.x, 800);
    assert_eq!((p.vx, p.vy), (0, 0));

    let mut q = free_player();
    q.x = -3;
    confine_player_in_screen(&mut q, 800);
    assert_eq!(q.x, 0);

    let mut r = free_player();
    r.x = 400;
    r.vx = 50;
    confine_player_in_screen(&mut r, 800);
    assert_eq!((r.x, r.vx), (400, 50));
}

#[test]
fn sliding_joint_released_at_distance() {
    let mut p = free_player();
    let plat = platform_below(&p, 9, true, 100);
    handle_collision(&mut p, &plat);
    assert!(p.joint.is_some());
    // Platform centre 17 pixels away: beyond half the player's width.
    let px = p.x - (HALF_PLAYER_SIZE + 1);
    remove_prismatic_joints_in_low_angles(&mut p, Some(px));
    assert!(p.joint.is_none());
}

#[test]
fn fixed_joint_survives_distance_check() {
    let mut p = free_player();
    let plat = platform_below(&p, 9, false, 100);
    handle_collision(&mut p, &plat);
    let px = p.x - 100;
    remove_prismatic_joints_in_low_angles(&mut p, Some(px));
    assert!(p.joint.is_some());
}

#[test]
fn sliding_joint_kept_when_platform_is_gone() {
    let mut p = free_player();
    let plat = platform_below(&p, 9, true, 100);
    handle_collision(&mut p, &plat);
    remove_prismatic_joints_in_low_angles(&mut p, None);
    assert!(p.joint.is_some());
}

#[test]
fn animation_selection() {
    assert_eq!(select_animation(0, 10, false, false), AnimationKind::Jump);
    assert_eq!(select_animation(0, 0, false, false), AnimationKind::Idle);
    assert_eq!(select_animation(125, 0, false, true), AnimationKind::Run);
    assert_eq!(select_animation(125, 0, false, false), AnimationKind::Idle);
}
