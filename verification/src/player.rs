//! The player: its state, the coupling state machine that anchors it to
//! platforms through a physics joint, wall detection, input handling and
//! screen confinement.
use vstd::prelude::*;

use crate::effects::Effect;
use crate::{clamp_i64, spec_clamp, Wall, COORD_LIMIT};

verus! {

/// Player movement speed, pixels per second.
pub const PLAYER_SPEED: i64 = 125;

/// Upward velocity a jump grants.
pub const JUMP_VELOCITY: i64 = 150;

/// Side length of the player sprite.
pub const PLAYER_SIZE: i64 = 32;

/// Half of the player sprite: the feet sit this far below its centre.
pub const HALF_PLAYER_SIZE: i64 = 16;

/// Which way the player sprite faces.
#[derive(Clone, Copy, Debug, PartialEq, Eq, Structural)]
pub enum Facing {
    Right,
    Left,
}

/// The boundary wall the player most recently touched.
#[derive(Clone, Copy, Debug, PartialEq, Eq, Structural)]
pub struct LastWall(pub Wall);

/// How the player is bound to the platform it rides.
#[derive(Clone, Copy, Debug, PartialEq, Eq, Structural)]
pub enum JointKind {
    /// Rigid: the player moves with the platform.
    Fixed,
    /// Motorized sliding joint of an icy platform; `motor` is the sign of
    /// the motor velocity, opposing the platform's own horizontal velocity.
    Sliding { motor: i64 },
}

/// The joint binding the player to a platform while riding it. Owned by this
/// logic; the physics engine merely executes the constraint.
#[derive(Clone, Copy, Debug, PartialEq, Eq, Structural)]
pub struct Joint {
    /// Identifier of the platform body the joint is attached to.
    pub platform: u64,
    /// Horizontal anchor offset from the platform centre to the player.
    pub anchor_x: i64,
    /// Vertical anchor offset: always at the player's feet.
    pub anchor_y: i64,
    pub kind: JointKind,
}

/// Everything the coupling, input and loss logic reads and writes about the
/// player between two physics steps.
#[derive(Clone, Copy, Debug, PartialEq, Eq)]
pub struct PlayerState {
    pub x: i64,
    pub y: i64,
    pub vx: i64,
    pub vy: i64,
    pub facing: Facing,
    pub last_wall: Option<LastWall>,
    pub joint: Option<Joint>,
}

impl PlayerState {
    /// Positions and velocities stay inside the coordinate bound.
    pub open spec fn wf(self) -> bool {
        &&& -COORD_LIMIT <= self.x <= COORD_LIMIT
        &&& -COORD_LIMIT <= self.y <= COORD_LIMIT
        &&& -COORD_LIMIT <= self.vx <= COORD_LIMIT
        &&& -COORD_LIMIT <= self.vy <= COORD_LIMIT
    }

    /// The state the player spawns in when a run starts: over the starting
    /// platform, at rest, no wall touched, riding nothing.
    pub open spec fn spec_spawn() -> PlayerState {
        PlayerState {
            x: 10,
            y: (HALF_PLAYER_SIZE + 250) as i64,
            vx: 0,
            vy: 0,
            facing: Facing::Right,
            last_wall: None,
            joint: None,
        }
    }

    /// Exec twin of `spec_spawn`.
    pub fn spawn() -> (p: PlayerState)
        ensures
            p.wf(),
            p == Self::spec_spawn(),
    {
        PlayerState {
            x: 10,
            y: HALF_PLAYER_SIZE + 250,
            vx: 0,
            vy: 0,
            facing: Facing::Right,
            last_wall: None,
            joint: None,
        }
    }
}

/// What the physics engine reported the player collided with, resolved to
/// plain values. `Stale` stands for a contact whose entity no longer exists;
/// it is tolerated and ignored.
#[derive(Clone, Copy, Debug, PartialEq, Eq)]
pub enum Collided {
    Wall(Wall),
    Platform { id: u64, icy: bool, x: i64, y: i64, vx: i64 },
    Stale,
}

impl Collided {
    pub open spec fn wf(self) -> bool {
        match self {
            Collided::Platform { id, icy, x, y, vx } => {
                &&& -COORD_LIMIT <= x <= COORD_LIMIT
                &&& -COORD_LIMIT <= y <= COORD_LIMIT
                &&& -COORD_LIMIT <= vx <= COORD_LIMIT
            },
            _ => true,
        }
    }
}

/// Sign of the motor of an icy platform's sliding joint: against the
/// platform's horizontal velocity, where a velocity of zero counts as
/// positive, as the engine's sign convention has it.
pub open spec fn spec_motor_sign(vx: i64) -> i64 {
    if vx >= 0 {
        -1i64
    } else {
        1i64
    }
}

/// One collision event, applied to the player state. Returns the new state
/// and the wall-reached signal, if this contact emitted one.
///
/// A wall contact records the wall and frees the player; the signal is
/// emitted only when a previously recorded wall differs. A platform contact
/// anchors the player only if it is free and the platform lies below its
/// feet; icy platforms get a motorized sliding joint, others a fixed joint
/// anchored at the offset between the two centres.
pub open spec fn spec_collide_step(p: PlayerState, c: Collided) -> (PlayerState, Option<Wall>) {
    match c {
        Collided::Wall(w) => match p.last_wall {
            None => (PlayerState { last_wall: Some(LastWall(w)), joint: None, ..p }, None),
            Some(LastWall(prev)) => {
                if prev != w {
                    (PlayerState { last_wall: Some(LastWall(w)), joint: None, ..p }, Some(w))
                } else {
                    (p, None)
                }
            },
        },
        Collided::Platform { id, icy, x, y, vx } => {
            if p.joint is None && y < p.y - HALF_PLAYER_SIZE {
                let kind = if icy {
                    JointKind::Sliding { motor: spec_motor_sign(vx) }
                } else {
                    JointKind::Fixed
                };
                (
                    PlayerState {
                        joint: Some(
                            Joint {
                                platform: id,
                                anchor_x: (x - p.x) as i64,
                                anchor_y: (-HALF_PLAYER_SIZE) as i64,
                                kind,
                            },
                        ),
                        ..p
                    },
                    None,
                )
            } else {
                (p, None)
            }
        },
        Collided::Stale => (p, None),
    }
}

/// Exec twin of one step of `spec_collide_step`.
pub fn handle_collision(p: &mut PlayerState, c: &Collided) -> (wall: Option<Wall>)
    requires
        old(p).wf(),
        c.wf(),
    ensures
        final(p).wf(),
        *final(p) == spec_collide_step(*old(p), *c).0,
        wall == spec_collide_step(*old(p), *c).1,
{
    match c {
        Collided::Wall(w) => {
            match p.last_wall {
                None => {
                    p.last_wall = Some(LastWall(*w));
                    p.joint = None;
                    None
                },
                Some(LastWall(prev)) => {
                    if prev != *w {
                        p.last_wall = Some(LastWall(*w));
                        p.joint = None;
                        Some(*w)
                    } else {
                        None
                    }
                },
            }
        },
        Collided::Platform { id, icy, x, y, vx } => {
            if p.joint.is_none() && *y < p.y - HALF_PLAYER_SIZE {
                let kind = if *icy {
                    JointKind::Sliding { motor: if *vx >= 0 { -1 } else { 1 } }
                } else {
                    JointKind::Fixed
                };
                p.joint = Some(
                    Joint { platform: *id, anchor_x: *x - p.x, anchor_y: -HALF_PLAYER_SIZE, kind },
                );
                None
            } else {
                None
            }
        },
        Collided::Stale => None,
    }
}

/// A whole frame's collision events folded over the player state, in order.
/// The signal is the one of the last contact that emitted one: at most one
/// wall-reached signal leaves a frame, for the wall recorded last.
pub open spec fn spec_collide_fold(p: PlayerState, cs: Seq<Collided>) -> (PlayerState, Option<
    Wall,
>)
    decreases cs.len(),
{
    if cs.len() == 0 {
        (p, None)
    } else {
        let prev = spec_collide_fold(p, cs.drop_last());
        let step = spec_collide_step(prev.0, cs.last());
        (step.0, if step.1 is Some {
            step.1
        } else {
            prev.1
        })
    }
}

/// Consumes the frame's collision events: wall detection and joint
/// management in one pass, as `spec_collide_fold` describes.
pub fn handle_player_collisions(p: &mut PlayerState, cs: &Vec<Collided>) -> (wall: Option<Wall>)
    requires
        old(p).wf(),
        forall|j: int| 0 <= j < cs@.len() ==> (#[trigger] cs@[j]).wf(),
    ensures
        final(p).wf(),
        *final(p) == spec_collide_fold(*old(p), cs@).0,
        wall == spec_collide_fold(*old(p), cs@).1,
{
    let ghost p0 = *p;
    let mut wall: Option<Wall> = None;
    let mut i: usize = 0;
    while i < cs.len()
        invariant
            i <= cs.len(),
            p.wf(),
            forall|j: int| 0 <= j < cs@.len() ==> (#[trigger] cs@[j]).wf(),
            *p == spec_collide_fold(p0, cs@.take(i as int)).0,
            wall == spec_collide_fold(p0, cs@.take(i as int)).1,
        decreases cs.len() - i,
    {
        let w = handle_collision(p, &cs[i]);
        if w.is_some() {
            wall = w;
        }
        proof {
            assert(cs@.take(i + 1).drop_last() =~= cs@.take(i as int));
            assert(cs@.take(i + 1).last() == cs@[i as int]);
        }
        i = i + 1;
    }
    proof {
        assert(cs@.take(cs@.len() as int) =~= cs@);
    }
    wall
}

/// Touching the wall already recorded changes nothing and emits no signal.
pub proof fn lemma_same_wall_no_signal(p: PlayerState, w: Wall)
    requires
        p.last_wall == Some(LastWall(w)),
    ensures
        spec_collide_step(p, Collided::Wall(w)).0 == p,
        spec_collide_step(p, Collided::Wall(w)).1 is None,
{
}

/// The recorded wall only ever changes to the opposite boundary, and a
/// signal is emitted exactly when a previously recorded wall is replaced.
pub proof fn lemma_wall_alternates(p: PlayerState, w: Wall)
    ensures
        spec_collide_step(p, Collided::Wall(w)).0.last_wall == Some(LastWall(w)),
        spec_collide_step(p, Collided::Wall(w)).1 is Some <==> (p.last_wall matches Some(lw)
            && lw.0 == w.spec_opposite()),
{
}

/// Joint creation is idempotent: a qualifying collision with a platform
/// while already anchored leaves the player, and in particular its joint,
/// unchanged.
pub proof fn lemma_joint_creation_idempotent(p: PlayerState, c: Collided)
    requires
        p.joint is Some,
        c matches Collided::Platform { .. },
    ensures
        spec_collide_step(p, c).0 == p,
        spec_collide_step(p, c).0.joint == p.joint,
        spec_collide_step(p, c).1 is None,
{
}

/// The keys held this frame, as logical directions before any remapping.
#[derive(Clone, Copy, Debug, PartialEq, Eq, Structural)]
pub struct InputState {
    pub left: bool,
    pub right: bool,
    pub jump: bool,
}

/// Input applied to the player: near the top of the screen input is ignored;
/// under InverseKeyboard the direction keys act swapped; moving sideways or
/// jumping releases any joint, and a jump is granted only from vertical
/// rest.
pub open spec fn spec_player_input(
    p: PlayerState,
    keys: InputState,
    active: Option<Effect>,
    win_h: int,
) -> PlayerState {
    if p.y >= win_h * 3 / 4 {
        p
    } else {
        let press_left = if active == Some(Effect::InverseKeyboard) {
            keys.right
        } else {
            keys.left
        };
        let press_right = if active == Some(Effect::InverseKeyboard) {
            keys.left
        } else {
            keys.right
        };
        let moved = if press_left {
            PlayerState { vx: (-PLAYER_SPEED) as i64, facing: Facing::Left, joint: None, ..p }
        } else if press_right {
            PlayerState { vx: PLAYER_SPEED, facing: Facing::Right, joint: None, ..p }
        } else {
            p
        };
        if keys.jump && moved.vy == 0 {
            PlayerState { vx: 0, vy: JUMP_VELOCITY, joint: None, ..moved }
        } else {
            moved
        }
    }
}

/// Exec twin of `spec_player_input`.
pub fn player_input(p: &mut PlayerState, keys: &InputState, active: Option<Effect>, win_h: i64)
    requires
        old(p).wf(),
        0 <= win_h <= COORD_LIMIT,
    ensures
        final(p).wf(),
        *final(p) == spec_player_input(*old(p), *keys, active, win_h as int),
{
    if p.y >= win_h * 3 / 4 {
        return ;
    }
    let swapped = active == Some(Effect::InverseKeyboard);
    let press_left = if swapped {
        keys.right
    } else {
        keys.left
    };
    let press_right = if swapped {
        keys.left
    } else {
        keys.right
    };
    if press_left {
        p.vx = -PLAYER_SPEED;
        p.facing = Facing::Left;
        p.joint = None;
    } else if press_right {
        p.vx = PLAYER_SPEED;
        p.facing = Facing::Right;
        p.joint = None;
    }
    if keys.jump && p.vy == 0 {
        p.vx = 0;
        p.vy = JUMP_VELOCITY;
        p.joint = None;
    }
}

/// A player outside the horizontal bounds of the screen is stopped, pulled
/// back inside, and released from any joint.
pub open spec fn spec_confine(p: PlayerState, win_w: int) -> PlayerState {
    if p.x > win_w || p.x < 0 {
        PlayerState { x: spec_clamp(p.x as int, 0, win_w) as i64, vx: 0, vy: 0, joint: None, ..p }
    } else {
        p
    }
}

/// Exec twin of `spec_confine`.
pub fn confine_player_in_screen(p: &mut PlayerState, win_w: i64)
    requires
        old(p).wf(),
        0 <= win_w <= COORD_LIMIT,
    ensures
        final(p).wf(),
        *final(p) == spec_confine(*old(p), win_w as int),
{
    if p.x > win_w || p.x < 0 {
        p.x = clamp_i64(p.x, 0, win_w);
        p.vx = 0;
        p.vy = 0;
        p.joint = None;
    }
}

/// A sliding joint holds only at small angles: once the player has drifted
/// horizontally further from the anchor platform's centre than half its own
/// width, the joint is released. `platform_x` is the anchor platform's
/// current position, or `None` if that platform no longer exists — then the
/// joint is left alone.
pub open spec fn spec_release_sliding(p: PlayerState, platform_x: Option<i64>) -> PlayerState {
    match (p.joint, platform_x) {
        (Some(j), Some(px)) => {
            if (j.kind matches JointKind::Sliding { .. }) && (if p.x - px >= 0 {
                p.x - px
            } else {
                px - p.x
            }) > HALF_PLAYER_SIZE {
                PlayerState { joint: None, ..p }
            } else {
                p
            }
        },
        _ => p,
    }
}

/// Exec twin of `spec_release_sliding`.
pub fn remove_prismatic_joints_in_low_angles(p: &mut PlayerState, platform_x: Option<i64>)
    requires
        old(p).wf(),
        platform_x matches Some(px) ==> -COORD_LIMIT <= px <= COORD_LIMIT,
    ensures
        final(p).wf(),
        *final(p) == spec_release_sliding(*old(p), platform_x),
{
    match (p.joint, platform_x) {
        (Some(j), Some(px)) => {
            let dist = if p.x - px >= 0 {
                p.x - px
            } else {
                px - p.x
            };
            let sliding = match j.kind {
                JointKind::Sliding { .. } => true,
                JointKind::Fixed => false,
            };
            if sliding && dist > HALF_PLAYER_SIZE {
                p.joint = None;
            }
        },
        _ => {},
    }
}

/// Which animation the player sprite plays.
#[derive(Clone, Copy, Debug, PartialEq, Eq, Structural)]
pub enum AnimationKind {
    Idle,
    Run,
    Jump,
}

/// Animation selection: airborne beats running beats idling. The raw
/// direction keys are read here, unaffected by any remapping.
pub open spec fn spec_select_animation(vx: i64, vy: i64, left: bool, right: bool) -> AnimationKind {
    if vy != 0 {
        AnimationKind::Jump
    } else if vx == 0 {
        AnimationKind::Idle
    } else if left || right {
        AnimationKind::Run
    } else {
        AnimationKind::Idle
    }
}

/// Exec twin of `spec_select_animation`.
pub fn select_animation(vx: i64, vy: i64, left: bool, right: bool) -> (r: AnimationKind)
    ensures
        r == spec_select_animation(vx, vy, left, right),
{
    if vy != 0 {
        AnimationKind::Jump
    } else if vx == 0 {
        AnimationKind::Idle
    } else if left || right {
        AnimationKind::Run
    } else {
        AnimationKind::Idle
    }
}

} // verus!
