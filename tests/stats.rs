use stats_site::stats::{check_credential, StatsState, TemplateContext};

fn sample(message_count: u64, guild_count: u32, user_count: u64) -> TemplateContext {
    TemplateContext { message_count, guild_count, user_count }
}

#[test]
fn new_state_is_all_zero() {
    let state = StatsState::new();
    assert_eq!(state.read(), sample(0, 0, 0));
    assert_eq!(TemplateContext::zero(), sample(0, 0, 0));
}

#[test]
fn credential_must_match_exactly() {
    assert!(check_credential(Some("secret"), "secret"));
    assert!(!check_credential(Some("secret "), "secret"));
    assert!(!check_credential(Some("Secret"), "secret"));
    assert!(!check_credential(Some(""), "secret"));
    assert!(!check_credential(None, "secret"));
    assert!(check_credential(Some(""), ""));
    assert!(!check_credential(None, ""));
}

#[test]
fn accepted_update_replaces_whole_record() {
    let mut state = StatsState::new();
    let status = state.update_stats("secret", Some("secret"), sample(42, 7, 1000));
    assert_eq!(status, 204);
    assert_eq!(state.read(), sample(42, 7, 1000));
}

#[test]
fn wrong_token_keeps_zero_state() {
    let mut state = StatsState::new();
    let status = state.update_stats("secret", Some("wrong"), sample(5, 1, 2));
    assert_eq!(status, 401);
    assert_eq!(state.read(), sample(0, 0, 0));
}

#[test]
fn missing_token_keeps_state() {
    let mut state = StatsState::new();
    assert_eq!(state.update_stats("secret", Some("secret"), sample(1, 2, 3)), 204);
    assert_eq!(state.update_stats("secret", None, sample(9, 9, 9)), 401);
    assert_eq!(state.read(), sample(1, 2, 3));
}

#[test]
fn repeated_update_is_idempotent() {
    let mut once = StatsState::new();
    let mut twice = StatsState::new();
    let a = once.update_stats("k", Some("k"), sample(3, 4, 5));
    let b1 = twice.update_stats("k", Some("k"), sample(3, 4, 5));
    let b2 = twice.update_stats("k", Some("k"), sample(3, 4, 5));
    assert_eq!(a, 204);
    assert_eq!(b1, 204);
    assert_eq!(b2, 204);
    assert_eq!(once.read(), twice.read());
}

#[test]
fn update_is_never_a_mix() {
    let mut state = StatsState::new();
    state.replace(sample(1, 1, 1));
    state.update_stats("k", Some("k"), sample(2, 2, 2));
    let seen = state.read();
    assert!(seen == sample(1, 1, 1) || seen == sample(2, 2, 2));
    assert_eq!(seen, sample(2, 2, 2));
}

#[test]
fn largest_counters_are_kept() {
    let mut state = StatsState::new();
    let big = sample(u64::MAX, u32::MAX, u64::MAX);
    assert_eq!(state.update_stats("k", Some("k"), big), 204);
    assert_eq!(state.read(), big);
}
