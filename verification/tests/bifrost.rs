use ko_game::bifrost::{
    bifrost_reset, bifrost_start, bifrost_tick, broadcast_beef_notice, should_redirect_from_bifrost,
    BifrostState, BifrostTickResult, NOTICE_DRAW, NOTICE_FINISH, NOTICE_LOSER_SIGN, NOTICE_START,
    NOTICE_VICTORY,
};

fn now() -> u64 {
    1_700_000_000
}

fn active() -> BifrostState {
    let mut s = BifrostState::new();
    s.is_active = true;
    s.is_attackable = true;
    s
}

#[test]
fn test_bifrost_tick_idle_when_inactive() {
    let mut s = BifrostState::new();
    let result = bifrost_tick(&mut s, now());
    assert_eq!(result, BifrostTickResult::Idle);
}

#[test]
fn test_bifrost_tick_draw_when_timer_expires() {
    let mut s = active();
    s.remaining_secs = 1;
    let result = bifrost_tick(&mut s, now());
    assert_eq!(result, BifrostTickResult::Draw);
    assert_eq!(s.remaining_secs, 0);
}

#[test]
fn test_bifrost_tick_decrement() {
    let mut s = active();
    s.remaining_secs = 100;
    let result = bifrost_tick(&mut s, now());
    assert_eq!(result, BifrostTickResult::Idle);
    assert_eq!(s.remaining_secs, 99);
}

#[test]
fn test_bifrost_tick_farming_expired() {
    let now = now();
    let mut s = BifrostState::new();
    s.is_active = true;
    s.is_monument_dead = true;
    s.is_farming_play = true;
    s.winner_nation = 1;
    s.farming_end_time = now - 1;
    s.loser_sign_time = now - 2;
    s.is_loser_sign = true;
    s.remaining_secs = 10;
    let result = bifrost_tick(&mut s, now);
    assert_eq!(result, BifrostTickResult::FarmingExpired);
}

#[test]
fn test_bifrost_tick_loser_sign_opened() {
    let now = now();
    let mut s = BifrostState::new();
    s.is_active = true;
    s.is_monument_dead = true;
    s.is_farming_play = true;
    s.winner_nation = 2;
    s.farming_end_time = now + 3600;
    s.loser_sign_time = now - 1;
    s.is_loser_sign = false;
    s.remaining_secs = 100;
    let result = bifrost_tick(&mut s, now);
    assert_eq!(result, BifrostTickResult::LoserSignOpened);
    assert!(s.is_loser_sign);
}

#[test]
fn test_should_redirect_inactive() {
    let s = BifrostState::new();
    assert!(should_redirect_from_bifrost(&s, 1));
}

#[test]
fn test_should_redirect_active_no_monument_kill() {
    let s = active();
    assert!(should_redirect_from_bifrost(&s, 1));
}

#[test]
fn test_should_not_redirect_winner_nation() {
    let mut s = BifrostState::new();
    s.is_active = true;
    s.is_monument_dead = true;
    s.is_farming_play = true;
    s.winner_nation = 1;
    assert!(!should_redirect_from_bifrost(&s, 1));
}

#[test]
fn test_should_redirect_loser_no_sign() {
    let mut s = BifrostState::new();
    s.is_active = true;
    s.is_monument_dead = true;
    s.is_farming_play = true;
    s.winner_nation = 1;
    s.is_loser_sign = false;
    assert!(should_redirect_from_bifrost(&s, 2));
}

#[test]
fn test_should_not_redirect_loser_with_sign() {
    let mut s = BifrostState::new();
    s.is_active = true;
    s.is_monument_dead = true;
    s.is_farming_play = true;
    s.winner_nation = 1;
    s.is_loser_sign = true;
    assert!(!should_redirect_from_bifrost(&s, 2));
}

#[test]
fn test_bifrost_reset_clears_all() {
    let mut s = BifrostState {
        is_active: true,
        is_attackable: true,
        is_monument_dead: true,
        winner_nation: 2,
        is_farming_play: true,
        farming_end_time: 9999,
        loser_sign_time: 8888,
        is_loser_sign: true,
        remaining_secs: 5000,
    };
    bifrost_reset(&mut s);
    assert!(!s.is_active);
    assert!(!s.is_attackable);
    assert!(!s.is_monument_dead);
    assert_eq!(s.winner_nation, 0);
    assert!(!s.is_farming_play);
    assert_eq!(s.farming_end_time, 0);
    assert_eq!(s.loser_sign_time, 0);
    assert!(!s.is_loser_sign);
    assert_eq!(s.remaining_secs, 0);
}

// ── Further cases ────────────────────────────────────────────────────

#[test]
fn start_sets_monument_phase_once() {
    let mut s = BifrostState::new();
    assert!(bifrost_start(&mut s, None));
    assert_eq!(s.remaining_secs, 7200);
    assert!(s.is_active && s.is_attackable && !s.is_monument_dead);
    s.remaining_secs = 17;
    assert!(!bifrost_start(&mut s, Some(5)));
    assert_eq!(s.remaining_secs, 17);
    bifrost_reset(&mut s);
    assert!(bifrost_start(&mut s, Some(5)));
    assert_eq!(s.remaining_secs, 300);
}

#[test]
fn inactive_countdown_still_runs_down() {
    let mut s = BifrostState::new();
    s.remaining_secs = 3;
    assert_eq!(bifrost_tick(&mut s, now()), BifrostTickResult::Idle);
    assert_eq!(s.remaining_secs, 2);
    s.remaining_secs = 0;
    assert_eq!(bifrost_tick(&mut s, now()), BifrostTickResult::Idle);
    assert_eq!(s.remaining_secs, 0);
}

#[test]
fn notices_name_winner_and_loser() {
    let mut s = BifrostState::new();
    s.winner_nation = 2;
    assert_eq!(
        broadcast_beef_notice(&s, NOTICE_VICTORY).unwrap(),
        "[Announcement] El Morad has destroyed the monument!"
    );
    assert_eq!(
        broadcast_beef_notice(&s, NOTICE_LOSER_SIGN).unwrap(),
        "[Announcement] Karus can now enter Bifrost!"
    );
    s.winner_nation = 1;
    assert_eq!(
        broadcast_beef_notice(&s, NOTICE_VICTORY).unwrap(),
        "[Announcement] Karus has destroyed the monument!"
    );
    assert_eq!(
        broadcast_beef_notice(&s, NOTICE_LOSER_SIGN).unwrap(),
        "[Announcement] El Morad can now enter Bifrost!"
    );
    assert_eq!(broadcast_beef_notice(&s, NOTICE_START).unwrap(), "[Announcement] Beef Roast event has started!");
    assert_eq!(broadcast_beef_notice(&s, NOTICE_DRAW).unwrap(), "[Announcement] Beef Roast event ended in a draw!");
    assert_eq!(broadcast_beef_notice(&s, NOTICE_FINISH).unwrap(), "[Announcement] Beef Roast farming phase has ended!");
    assert!(broadcast_beef_notice(&s, 9).is_none());
}
