//! The per-tick orchestration: within one tick, collision and wall detection
//! run first, then score/timer/scheduler advancement, then the input applier
//! reads the already-advanced active effect, then confinement, then the loss
//! rules — so every consequence of a reached wall is visible in the same
//! tick it was reached.
use vstd::prelude::*;

use crate::effects::{Effect, EffectQueue};
use crate::events::{
    is_dead, is_out_of_time, spec_dead, spec_out_of_time, update_score, GameTimer, Lost, Reason,
};
use crate::player::{
    confine_player_in_screen, handle_player_collisions, player_input,
    remove_prismatic_joints_in_low_angles, spec_collide_fold, spec_confine, spec_player_input,
    spec_release_sliding, Collided, InputState, PlayerState,
};
use crate::{reset_score, update_highscore, AppState, HighScore, Score, Wall, COORD_LIMIT};

verus! {

/// Everything one tick of gameplay logic reads from the engine side.
#[derive(Clone, Debug)]
pub struct FrameInput {
    /// The monotonic clock, in milliseconds.
    pub now_ms: u64,
    pub window_w: i64,
    pub window_h: i64,
    /// The held keys, as raw directions before any remapping.
    pub keys: InputState,
    /// The tick's collision events, resolved to plain values.
    pub collisions: Vec<Collided>,
    /// Position of the platform the player's joint is attached to, if that
    /// platform still exists.
    pub anchored_platform_x: Option<i64>,
}

impl FrameInput {
    pub open spec fn wf(self) -> bool {
        &&& 0 <= self.window_w <= COORD_LIMIT
        &&& 0 <= self.window_h <= COORD_LIMIT
        &&& forall|j: int|
            0 <= j < self.collisions@.len() ==> (#[trigger] self.collisions@[j]).wf()
        &&& self.anchored_platform_x matches Some(px) ==> -COORD_LIMIT <= px <= COORD_LIMIT
    }
}

/// What one tick reports back to the engine side.
#[derive(Clone, Copy, Debug, PartialEq, Eq)]
pub struct FrameEvents {
    pub wall_reached: Option<Wall>,
    pub lost: Option<Reason>,
    /// True exactly when this tick advanced the scheduler; the appliers and
    /// the sound cue key off it.
    pub effect_changed: bool,
}

/// The wall-reached signal a tick emits: the outcome of folding the tick's
/// collision events over the player.
pub open spec fn spec_frame_wall(g: Game, fi: FrameInput) -> Option<Wall> {
    spec_collide_fold(spec_release_sliding(g.player, fi.anchored_platform_x), fi.collisions@).1
}

/// The player state a tick ends with: sliding-joint release, then the
/// collision fold, then input under the tick's (already advanced) active
/// effect, then screen confinement.
pub open spec fn spec_frame_player(
    g: Game,
    fi: FrameInput,
    active_after: Option<Effect>,
) -> PlayerState {
    let p1 = spec_release_sliding(g.player, fi.anchored_platform_x);
    let p2 = spec_collide_fold(p1, fi.collisions@).0;
    let p3 = spec_player_input(p2, fi.keys, active_after, fi.window_h as int);
    spec_confine(p3, fi.window_w as int)
}

/// The loss a tick emits, death-fall taking precedence over timeout.
pub open spec fn spec_frame_loss(y: i64, elapsed_ms: u64) -> Option<Reason> {
    if spec_dead(y) {
        Some(Reason::Died)
    } else if spec_out_of_time(elapsed_ms) {
        Some(Reason::OutOfTime)
    } else {
        None
    }
}

/// The whole game core: single-writer state stepped once per tick.
#[derive(Clone, Debug)]
pub struct Game {
    pub state: AppState,
    pub score: Score,
    pub highscore: HighScore,
    pub effects: EffectQueue,
    pub timer: GameTimer,
    pub player: PlayerState,
    /// Why the last run ended, shown on the replay screen.
    pub lost_reason: Option<Reason>,
}

impl Game {
    pub open spec fn wf(self) -> bool {
        &&& self.effects.wf()
        &&& self.player.wf()
    }

    /// A fresh process: at the menu, nothing won yet.
    pub fn new(now_ms: u64) -> (g: Game)
        ensures
            g.wf(),
            g.state == AppState::MainMenu,
            g.score.0 == 0,
            g.highscore.0 == 0,
            g.effects.current is None,
            g.lost_reason is None,
    {
        Game {
            state: AppState::MainMenu,
            score: Score(0),
            highscore: HighScore(0),
            effects: EffectQueue::new(),
            timer: GameTimer::new(now_ms),
            player: PlayerState::spawn(),
            lost_reason: None,
        }
    }

    /// Entering a run: score, timer, player and effect queue start fresh;
    /// only the high score persists from earlier runs.
    pub fn start_game(&mut self, now_ms: u64)
        ensures
            final(self).wf(),
            final(self).state == AppState::InGame,
            final(self).score.0 == 0,
            final(self).highscore == old(self).highscore,
            final(self).effects.current is None,
            final(self).effects.buffered() == Seq::<Effect>::empty(),
            final(self).timer.start_ms == now_ms,
            final(self).player == PlayerState::spec_spawn(),
            final(self).lost_reason is None,
    {
        self.state = AppState::InGame;
        reset_score(&mut self.score);
        self.effects = EffectQueue::new();
        self.timer.reset(now_ms);
        self.player = PlayerState::spawn();
        self.lost_reason = None;
    }

    /// The exit key cancels the run: back to the menu; in-flight run state
    /// is discarded by the next `start_game`, not persisted.
    pub fn exit_game(&mut self)
        ensures
            *final(self) == (Game { state: AppState::MainMenu, ..*old(self) }),
    {
        self.state = AppState::MainMenu;
    }

    /// One tick of gameplay. Outside the running state nothing moves and no
    /// signal is emitted — in particular, a loss is emitted exactly once.
    /// Within the running state the ensures pin each piece to its rule: the
    /// wall signal and player to the collision/input/confinement chain, the
    /// score/timer/scheduler triple to the wall signal, the high score to
    /// the new score, and the emitted loss to the loss rules.
    pub fn frame(&mut self, fi: &FrameInput) -> (r: FrameEvents)
        requires
            old(self).wf(),
            fi.wf(),
            old(self).score.0 < usize::MAX,
            old(self).timer.start_ms <= fi.now_ms,
        ensures
            final(self).wf(),
            old(self).state != AppState::InGame ==> *final(self) == *old(self) && r
                == (FrameEvents { wall_reached: None, lost: None, effect_changed: false }),
            old(self).state == AppState::InGame ==> ({
                let wr = spec_frame_wall(*old(self), *fi);
                let elapsed = (fi.now_ms - final(self).timer.start_ms) as u64;
                &&& r.wall_reached == wr
                &&& r.effect_changed == (wr is Some)
                &&& (wr is Some ==> {
                    &&& final(self).score.0 == old(self).score.0 + 1
                    &&& final(self).timer.start_ms == fi.now_ms
                    &&& EffectQueue::advance_rel(
                        old(self).effects.buffered(),
                        final(self).effects.buffered(),
                    )
                    &&& final(self).effects.current is Some
                })
                &&& (wr is None ==> {
                    &&& final(self).score == old(self).score
                    &&& final(self).timer == old(self).timer
                    &&& final(self).effects.current == old(self).effects.current
                    &&& final(self).effects.pending@ == old(self).effects.pending@
                })
                &&& final(self).player == spec_frame_player(
                    *old(self),
                    *fi,
                    final(self).effects.current,
                )
                &&& final(self).highscore.0 == (if final(self).score.0 > old(self).highscore.0 {
                    final(self).score.0
                } else {
                    old(self).highscore.0
                })
                &&& r.lost == spec_frame_loss(final(self).player.y, elapsed)
                &&& (r.lost matches Some(why) ==> final(self).state == AppState::YouDied
                    && final(self).lost_reason == Some(why))
                &&& (r.lost is None ==> final(self).state == AppState::InGame
                    && final(self).lost_reason == old(self).lost_reason)
            }),
    {
        match self.state {
            AppState::InGame => {},
            _ => {
                return FrameEvents { wall_reached: None, lost: None, effect_changed: false };
            },
        }
        remove_prismatic_joints_in_low_angles(&mut self.player, fi.anchored_platform_x);
        let wall_reached = handle_player_collisions(&mut self.player, &fi.collisions);
        if wall_reached.is_some() {
            update_score(&mut self.score);
            self.timer.reset(fi.now_ms);
            self.effects.advance();
        }
        let active = self.effects.active();
        player_input(&mut self.player, &fi.keys, active, fi.window_h);
        confine_player_in_screen(&mut self.player, fi.window_w);
        update_highscore(&self.score, &mut self.highscore);
        let elapsed = self.timer.elapsed_ms(fi.now_ms);
        let lost_event = match is_dead(self.player.y) {
            Some(l) => Some(l),
            None => is_out_of_time(elapsed),
        };
        let lost = match lost_event {
            Some(Lost(why)) => Some(why),
            None => None,
        };
        if let Some(why) = lost {
            self.state = AppState::YouDied;
            self.lost_reason = Some(why);
        }
        FrameEvents { wall_reached, lost, effect_changed: wall_reached.is_some() }
    }
}

} // verus!
