use brewfatherlog::brewfather::interpret_submit_response;
use brewfatherlog::config::{config_file_path, log_file_path, program_dir_path};
use brewfatherlog::filter::Verdict;
use brewfatherlog::grainfather::{interpret_history_response, FermenterId};
use brewfatherlog::poll::{
    cycle_delay_seconds, CycleOutcome, PollState, ERROR_RETRY_SECONDS, POLL_INTERVAL_SECONDS,
};

#[test]
fn cycle_delays_are_fixed() {
    assert_eq!(cycle_delay_seconds(CycleOutcome::LoginFailed), ERROR_RETRY_SECONDS);
    assert_eq!(cycle_delay_seconds(CycleOutcome::ListingFailed), ERROR_RETRY_SECONDS);
    assert_eq!(cycle_delay_seconds(CycleOutcome::Completed), POLL_INTERVAL_SECONDS);
    assert_eq!(ERROR_RETRY_SECONDS, 10);
    assert_eq!(POLL_INTERVAL_SECONDS, 15 * 60 + 1);
}

#[test]
fn fermenter_id_round_trip() {
    assert_eq!(FermenterId::new(42).as_u64(), 42);
}

#[test]
fn one_cycle_two_devices() {
    // Device A answers with a fresh reading (ten minutes old), device B with
    // a forty-minute-old one. Expected: one submission (A only), memory
    // holds only A's timestamp, and B's skip aborts nothing.
    let now: i64 = 1_700_000_000;
    let mut state = PollState::new();
    let mut submissions: u32 = 0;

    let device_a = FermenterId::new(1);
    let payload_a = format!("{{\"dev\":{{\"temperature\":[[{},20.5]]}}}}", (now - 600) * 1000);
    let reading_a = interpret_history_response(200, payload_a).unwrap().unwrap();
    match state.decide_for(device_a, reading_a.timestamp, now) {
        Verdict::Forward => {
            let ack = interpret_submit_response(200, "{\"result\":\"OK\"}".to_string());
            if ack.is_ok() {
                state.record_submission(device_a, reading_a.timestamp);
                submissions += 1;
            }
        }
        Verdict::SkipTooOld | Verdict::SkipAlreadyLogged => {}
    }

    let device_b = FermenterId::new(2);
    let payload_b = format!("{{\"dev\":{{\"temperature\":[[{},18.0]]}}}}", (now - 2400) * 1000);
    let reading_b = interpret_history_response(200, payload_b).unwrap().unwrap();
    match state.decide_for(device_b, reading_b.timestamp, now) {
        Verdict::Forward => {
            panic!("a forty-minute-old reading must not be forwarded");
        }
        Verdict::SkipTooOld => {}
        Verdict::SkipAlreadyLogged => {
            panic!("device B was never submitted");
        }
    }

    assert_eq!(submissions, 1);
    assert_eq!(state.last_submitted(device_a), Some(now - 600));
    assert_eq!(state.last_submitted(device_b), None);
}

#[test]
fn failed_submission_keeps_reading_eligible() {
    let now: i64 = 1_700_000_000;
    let mut state = PollState::new();
    let device = FermenterId::new(3);
    let observed = now - 300;
    assert_eq!(state.decide_for(device, observed, now), Verdict::Forward);
    // submission fails: memory is not updated
    let ack = interpret_submit_response(500, "oops".to_string());
    assert!(ack.is_err());
    assert_eq!(state.last_submitted(device), None);
    // the same reading is still eligible
    assert_eq!(state.decide_for(device, observed, now), Verdict::Forward);
}

#[test]
fn program_paths_hang_off_the_home_directory() {
    assert_eq!(program_dir_path("/home/u"), "/home/u/.brewfatherlog");
    assert_eq!(config_file_path("/home/u"), "/home/u/.brewfatherlog/brewfatherlog.toml");
    assert_eq!(log_file_path("/home/u"), "/home/u/.brewfatherlog/brewfatherlog.log");
}
