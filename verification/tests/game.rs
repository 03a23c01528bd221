use wallrush::events::{
    is_dead, is_out_of_time, time_left_ms, GameTimer, Lost, Reason, DEATH_Y,
    MAX_TIME_TO_REACH_WALL_MS,
};
use wallrush::game::{FrameInput, Game};
use wallrush::player::{Collided, InputState};
use wallrush::{update_highscore, AppState, HighScore, Score, Wall};

fn quiet_frame(now_ms: u64) -> FrameInput {
    FrameInput {
        now_ms,
        window_w: 800,
        window_h: 600,
        keys: InputState { left: false, right: false, jump: false },
        collisions: Vec::new(),
        anchored_platform_x: None,
    }
}

#[test]
fn out_of_time_rule() {
    // 15.6 s elapsed against a 15 s limit with 0.5 s grace: lost.
    assert_eq!(
        is_out_of_time(MAX_TIME_TO_REACH_WALL_MS + 600),
        Some(Lost(Reason::OutOfTime))
    );
    assert_eq!(is_out_of_time(MAX_TIME_TO_REACH_WALL_MS + 500), None);
    assert_eq!(is_out_of_time(0), None);
}

#[test]
fn death_rule() {
    assert_eq!(DEATH_Y, -100);
    assert_eq!(is_dead(-150), Some(Lost(Reason::Died)));
    assert_eq!(is_dead(-100), None);
    assert_eq!(is_dead(266), None);
}

#[test]
fn highscore_follows_score_and_never_falls() {
    let mut high = HighScore(5);
    update_highscore(&Score(7), &mut high);
    assert_eq!(high.0, 7);
    update_highscore(&Score(3), &mut high);
    assert_eq!(high.0, 7);
}

#[test]
fn game_timer_reset_and_elapsed() {
    let mut t = GameTimer::new(1000);
    assert_eq!(t.elapsed_ms(3500), 2500);
    t.reset(4000);
    assert_eq!(t.elapsed_ms(4000), 0);
}

#[test]
fn hud_time_left() {
    assert_eq!(time_left_ms(0), 15000);
    assert_eq!(time_left_ms(14_000), 1000);
    assert_eq!(time_left_ms(15_000), 0);
    assert_eq!(time_left_ms(20_000), 0);
}

#[test]
fn timeout_loss_emitted_exactly_once() {
    let mut g = Game::new(0);
    g.start_game(0);
    let ev = g.frame(&quiet_frame(MAX_TIME_TO_REACH_WALL_MS + 600));
    assert_eq!(ev.lost, Some(Reason::OutOfTime));
    assert_eq!(g.state, AppState::YouDied);
    assert_eq!(g.lost_reason, Some(Reason::OutOfTime));
    // The game is frozen: the next tick emits nothing and changes nothing.
    let ev2 = g.frame(&quiet_frame(MAX_TIME_TO_REACH_WALL_MS + 700));
    assert_eq!(ev2.lost, None);
    assert_eq!(ev2.wall_reached, None);
    assert!(!ev2.effect_changed);
    assert_eq!(g.state, AppState::YouDied);
}

#[test]
fn death_loss_from_fallen_player() {
    let mut g = Game::new(0);
    g.start_game(0);
    g.player.y = -150;
    let ev = g.frame(&quiet_frame(100));
    assert_eq!(ev.lost, Some(Reason::Died));
    assert_eq!(g.state, AppState::YouDied);
    assert_eq!(g.lost_reason, Some(Reason::Died));
}

#[test]
fn wall_reached_scores_resets_timer_and_advances_effect() {
    let mut g = Game::new(0);
    g.start_game(0);
    assert_eq!(g.effects.active(), None);
    // Record the first wall: no signal yet, no effect drawn.
    let mut fi = quiet_frame(1000);
    fi.collisions = vec![Collided::Wall(Wall::Left)];
    let ev = g.frame(&fi);
    assert_eq!(ev.wall_reached, None);
    assert!(!ev.effect_changed);
    assert_eq!(g.score.0, 0);
    assert_eq!(g.effects.active(), None);

    // The opposite wall: score, timer reset and the first effect, all in
    // the same tick.
    let mut fi2 = quiet_frame(5000);
    fi2.collisions = vec![Collided::Wall(Wall::Right)];
    let ev2 = g.frame(&fi2);
    assert_eq!(ev2.wall_reached, Some(Wall::Right));
    assert!(ev2.effect_changed);
    assert_eq!(g.score.0, 1);
    assert_eq!(g.timer.start_ms, 5000);
    assert!(g.effects.active().is_some());
    assert_eq!(ev2.lost, None);

    // Touching the same wall again does nothing.
    let mut fi3 = quiet_frame(6000);
    fi3.collisions = vec![Collided::Wall(Wall::Right)];
    let ev3 = g.frame(&fi3);
    assert_eq!(ev3.wall_reached, None);
    assert_eq!(g.score.0, 1);
    assert_eq!(g.timer.start_ms, 5000);
}

#[test]
fn start_game_resets_run_but_keeps_highscore() {
    let mut g = Game::new(0);
    g.start_game(0);
    let mut fi = quiet_frame(1000);
    fi.collisions = vec![Collided::Wall(Wall::Left)];
    g.frame(&fi);
    let mut fi2 = quiet_frame(2000);
    fi2.collisions = vec![Collided::Wall(Wall::Right)];
    g.frame(&fi2);
    assert_eq!(g.score.0, 1);
    assert_eq!(g.highscore.0, 1);

    g.start_game(9000);
    assert_eq!(g.state, AppState::InGame);
    assert_eq!(g.score.0, 0);
    assert_eq!(g.highscore.0, 1);
    assert_eq!(g.effects.active(), None);
    assert_eq!(g.timer.start_ms, 9000);
    assert_eq!(g.lost_reason, None);
}

#[test]
fn exit_key_returns_to_menu() {
    let mut g = Game::new(0);
    g.start_game(0);
    g.exit_game();
    assert_eq!(g.state, AppState::MainMenu);
    // Frozen outside the run.
    let ev = g.frame(&quiet_frame(100_000));
    assert_eq!(ev.lost, None);
    assert_eq!(g.state, AppState::MainMenu);
}
