use brewfatherlog::filter::{decide, Verdict, MAX_AGE_SECONDS};

const T: i64 = 1_700_000_000;

#[test]
fn fresh_reading_without_memory_is_forwarded() {
    // reading ten minutes old, nothing submitted yet
    assert_eq!(decide(T, None, T - 10 * 60), Verdict::Forward);
}

#[test]
fn old_reading_is_skipped() {
    // reading forty minutes old
    assert_eq!(decide(T, None, T - 40 * 60), Verdict::SkipTooOld);
}

#[test]
fn age_boundary_is_strict() {
    assert_eq!(decide(T, None, T - MAX_AGE_SECONDS), Verdict::Forward);
    assert_eq!(decide(T, None, T - MAX_AGE_SECONDS - 1), Verdict::SkipTooOld);
}

#[test]
fn duplicate_check_compares_now_to_last_submitted() {
    // The comparison is `now <= lastSubmitted`: a submission one minute in
    // the past does not suppress a fresh reading ...
    assert_eq!(decide(T, Some(T - 60), T - 5 * 60), Verdict::Forward);
    // ... but a future-stamped submission does.
    assert_eq!(decide(T, Some(T + 60), T - 5 * 60), Verdict::SkipAlreadyLogged);
    // The boundary is inclusive.
    assert_eq!(decide(T, Some(T), T - 5 * 60), Verdict::SkipAlreadyLogged);
}

#[test]
fn staleness_wins_over_duplicate_suppression() {
    assert_eq!(decide(T, Some(T + 60), T - 40 * 60), Verdict::SkipTooOld);
}

#[test]
fn decide_is_idempotent() {
    let first = decide(T, Some(T - 60), T - 5 * 60);
    let second = decide(T, Some(T - 60), T - 5 * 60);
    assert_eq!(first, second);
    let first = decide(T, None, T - 40 * 60);
    let second = decide(T, None, T - 40 * 60);
    assert_eq!(first, second);
}
