//! The platform spawner: when a platform is emitted, where it starts, how
//! wide it is, how fast it travels, and how the active effect styles it.
use vstd::prelude::*;

use crate::effects::Effect;
use crate::player::LastWall;
use crate::rng::rand_range;
use crate::{Score, Wall, COORD_LIMIT};

verus! {

/// Side length of one platform sprite tile.
pub const PLATFORM_SPRITE_SIZE: i64 = 32;

/// Lowest height a platform spawns at.
pub const PLATFORM_MIN_Y: i64 = 150;

/// How far beyond the target wall a platform starts.
pub const PLATFORM_START_WIDTH: i64 = 250;

/// Timestamp of the last platform spawn.
#[derive(Clone, Copy, Debug, PartialEq, Eq, Structural)]
pub struct PlatformTimer {
    pub last_spawn_ms: u64,
}

impl PlatformTimer {
    pub fn new(now_ms: u64) -> (t: PlatformTimer)
        ensures
            t.last_spawn_ms == now_ms,
    {
        PlatformTimer { last_spawn_ms: now_ms }
    }
}

/// Spawn cadence: shortened under FastPlatforms.
pub open spec fn spec_spawn_interval_ms(active: Option<Effect>) -> u64 {
    if active == Some(Effect::FastPlatforms) {
        750
    } else {
        1500
    }
}

pub fn spawn_interval_ms(active: Option<Effect>) -> (r: u64)
    ensures
        r == spec_spawn_interval_ms(active),
{
    if active == Some(Effect::FastPlatforms) {
        750
    } else {
        1500
    }
}

/// Base travel speed of a platform: raised under FastPlatforms.
pub open spec fn spec_platform_speed(active: Option<Effect>) -> i64 {
    if active == Some(Effect::FastPlatforms) {
        250
    } else {
        125
    }
}

pub fn platform_speed(active: Option<Effect>) -> (r: i64)
    ensures
        r == spec_platform_speed(active),
{
    if active == Some(Effect::FastPlatforms) {
        250
    } else {
        125
    }
}

/// Platforms get narrower as the score climbs: the widest allowed, in
/// sprite parts on each side of the centre tile.
pub open spec fn spec_max_platform_parts(score: usize) -> u64 {
    if score <= 5 {
        4
    } else if score <= 9 {
        3
    } else if score <= 15 {
        2
    } else {
        1
    }
}

pub fn max_platform_parts(score: usize) -> (r: u64)
    ensures
        r == spec_max_platform_parts(score),
{
    if score <= 5 {
        4
    } else if score <= 9 {
        3
    } else if score <= 15 {
        2
    } else {
        1
    }
}

/// Everything the engine needs to materialise one spawned platform.
#[derive(Clone, Copy, Debug, PartialEq, Eq)]
pub struct PlatformPlan {
    /// Centre of the platform at spawn.
    pub x: i64,
    pub y: i64,
    /// Horizontal travel velocity, towards the target wall.
    pub vx: i64,
    /// Width in sprite parts, 1 up to the score's maximum.
    pub parts: u64,
    /// Spawned without a collider and at half opacity.
    pub fallthrough: bool,
    /// Spawned flagged icy.
    pub icy: bool,
}

/// Decides whether the cadence allows a spawn this tick and, if a wall has
/// been recorded, plans the platform: it starts beyond the wall opposite the
/// last one touched and travels towards it, at a height and width drawn at
/// random, styled by the active effect. The cadence timer resets whenever
/// the interval has passed, even when no platform could be planned.
pub fn emit_platforms(
    timer: &mut PlatformTimer,
    now_ms: u64,
    score: &Score,
    active: Option<Effect>,
    last_wall: Option<LastWall>,
    window_w: i64,
    window_h: i64,
) -> (r: Option<PlatformPlan>)
    requires
        old(timer).last_spawn_ms <= now_ms,
        0 <= window_w <= COORD_LIMIT,
        0 <= window_h <= COORD_LIMIT,
    ensures
        r is Some <==> (now_ms - old(timer).last_spawn_ms >= spec_spawn_interval_ms(active)
            && last_wall is Some),
        now_ms - old(timer).last_spawn_ms >= spec_spawn_interval_ms(active)
            ==> final(timer).last_spawn_ms == now_ms,
        now_ms - old(timer).last_spawn_ms < spec_spawn_interval_ms(active) ==> *final(timer)
            == *old(timer),
        r matches Some(plan) ==> {
            &&& 1 <= plan.parts <= spec_max_platform_parts(score.0)
            &&& PLATFORM_MIN_Y <= plan.y <= PLATFORM_MIN_Y + window_h / 15
            &&& (last_wall == Some(LastWall(Wall::Left)) ==> plan.x == window_w
                + PLATFORM_START_WIDTH && -(spec_platform_speed(active) + 5) <= plan.vx
                <= -spec_platform_speed(active))
            &&& (last_wall == Some(LastWall(Wall::Right)) ==> plan.x == -PLATFORM_START_WIDTH
                && spec_platform_speed(active) <= plan.vx <= spec_platform_speed(active) + 5)
            &&& (plan.fallthrough ==> active == Some(Effect::FallthroughPlatforms))
            &&& (plan.icy <==> active == Some(Effect::IcyPlatforms))
        },
{
    let interval = spawn_interval_ms(active);
    if now_ms - timer.last_spawn_ms < interval {
        return None;
    }
    timer.last_spawn_ms = now_ms;

    let wall = match last_wall {
        Some(w) => w,
        None => { return None },
    };

    let max_parts = max_platform_parts(score.0);
    let parts = rand_range(1, max_parts);

    let y = PLATFORM_MIN_Y + rand_range(0, (window_h / 15) as u64) as i64;
    let jitter = rand_range(0, 5) as i64;
    let speed = platform_speed(active);
    let (x, vx): (i64, i64) = match wall {
        LastWall(Wall::Left) => (window_w + PLATFORM_START_WIDTH, -(jitter + speed)),
        LastWall(Wall::Right) => (-PLATFORM_START_WIDTH, jitter + speed),
    };

    let fallthrough = active == Some(Effect::FallthroughPlatforms) && rand_range(0, 99) < 25;
    let icy = active == Some(Effect::IcyPlatforms);

    Some(PlatformPlan { x, y, vx, parts, fallthrough, icy })
}

/// Full width, in pixels, of the sprite row of a platform of `parts` parts.
pub open spec fn spec_platform_width(parts: u64) -> int {
    if parts == 1 {
        2 * PLATFORM_SPRITE_SIZE
    } else {
        3 * PLATFORM_SPRITE_SIZE + (parts - 1) * 2 * PLATFORM_SPRITE_SIZE
    }
}

/// Half-extents, in tenths of a pixel, of the collider a solid platform
/// gets: slightly narrower and much flatter than the sprites, so the player
/// can step off the edge.
pub fn collider_half_extents_tenths(parts: u64) -> (r: (i64, i64))
    requires
        1 <= parts <= 4,
    ensures
        r.0 == (spec_platform_width(parts) * 10 - 384) / 2,
        r.1 == 85,
{
    let width: i64 = if parts == 1 {
        2 * PLATFORM_SPRITE_SIZE
    } else {
        3 * PLATFORM_SPRITE_SIZE + (parts as i64 - 1) * 2 * PLATFORM_SPRITE_SIZE
    };
    ((width * 10 - 384) / 2, 85)
}

/// A platform well past either side of the screen is despawned.
pub fn is_out_of_screen(x: i64, window_w: i64) -> (r: bool)
    requires
        0 <= window_w <= COORD_LIMIT,
    ensures
        r <==> (x < -500 || x > window_w + 500),
{
    x < -500 || x > window_w + 500
}

/// The wall to highlight as the target is the one the player has not
/// touched last.
pub fn is_target_wall(wall: Wall, last: &LastWall) -> (r: bool)
    ensures
        r <==> wall != last.0,
{
    wall != last.0
}

/// A tint a platform can be restyled with while it lives.
#[derive(Clone, Copy, Debug, PartialEq, Eq, Structural)]
pub enum Tint {
    Normal,
    Icy,
}

/// Live restyling of an existing platform when the active effect changes:
/// fully opaque platforms are retinted — icy-blue under IcyPlatforms, back
/// to normal otherwise — faded ones keep their look, and the icy flag
/// follows the effect either way.
pub fn apply_icy_platforms(active: Option<Effect>, opaque: bool) -> (r: (Option<Tint>, bool))
    ensures
        r.1 <==> active == Some(Effect::IcyPlatforms),
        r.0 == if opaque {
            Some(
                if active == Some(Effect::IcyPlatforms) {
                    Tint::Icy
                } else {
                    Tint::Normal
                },
            )
        } else {
            None::<Tint>
        },
{
    let icy = active == Some(Effect::IcyPlatforms);
    let tint = if opaque {
        Some(
            if icy {
                Tint::Icy
            } else {
                Tint::Normal
            },
        )
    } else {
        None
    };
    (tint, icy)
}

} // verus!
