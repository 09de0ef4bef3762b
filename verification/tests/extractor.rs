use brewfatherlog::errors::GrainfatherError;
use brewfatherlog::grainfather::interpret_history_response;

#[test]
fn extractor_picks_max_timestamp_pair() {
    let payload = "{\"other\":1,\"dev\":{\"temperature\":[[1000,20.5],[3000,21.25],[2000,19.0]],\"extra\":true},\"also\":\"x\"}".to_string();
    let rec = interpret_history_response(200, payload).unwrap().unwrap();
    assert_eq!(rec.timestamp, 3);
    assert_eq!(rec.temperature.as_f64().unwrap(), 21.25);
}

#[test]
fn extractor_truncates_millis_to_seconds() {
    let payload = "{\"dev\":{\"temperature\":[[1999,1.0]]}}".to_string();
    let rec = interpret_history_response(200, payload).unwrap().unwrap();
    assert_eq!(rec.timestamp, 1);
}

#[test]
fn extractor_tie_last_seen_wins() {
    let payload = "{\"dev\":{\"temperature\":[[2000,1.5],[2000,2.5]]}}".to_string();
    let rec = interpret_history_response(200, payload).unwrap().unwrap();
    assert_eq!(rec.timestamp, 2);
    assert_eq!(rec.temperature.as_f64().unwrap(), 2.5);
}

#[test]
fn extractor_no_candidate_is_no_reading() {
    let payload = "{\"a\":{\"x\":1},\"b\":[1,2],\"c\":3}".to_string();
    let r = interpret_history_response(200, payload).unwrap();
    assert!(r.is_none());
}

#[test]
fn extractor_empty_array_is_no_reading() {
    let payload = "{\"dev\":{\"temperature\":[]}}".to_string();
    let r = interpret_history_response(200, payload).unwrap();
    assert!(r.is_none());
}

#[test]
fn extractor_bad_pairs_are_reported_not_skipped() {
    let payload = "{\"dev\":{\"temperature\":[[1,2,3]]},\"e\":{\"temperature\":[[5,6.0]]}}";
    let err = interpret_history_response(200, payload.to_string()).unwrap_err();
    assert_eq!(err, GrainfatherError::ResponseParsing { payload: payload.to_string() });
}

#[test]
fn extractor_non_array_temperature_is_reported() {
    let payload = "{\"dev\":{\"temperature\":\"warm\"}}";
    let err = interpret_history_response(200, payload.to_string()).unwrap_err();
    assert_eq!(err, GrainfatherError::ResponseParsing { payload: payload.to_string() });
}

#[test]
fn extractor_non_integer_timestamp_is_reported() {
    let payload = "{\"dev\":{\"temperature\":[[1.5,2.0]]}}";
    let err = interpret_history_response(200, payload.to_string()).unwrap_err();
    assert_eq!(err, GrainfatherError::ResponseParsing { payload: payload.to_string() });
}

#[test]
fn history_invalid_json_is_parse_error() {
    let err = interpret_history_response(200, "not json".to_string()).unwrap_err();
    assert_eq!(err, GrainfatherError::ResponseParsing { payload: "not json".to_string() });
}

#[test]
fn history_unexpected_status_carries_body() {
    let err = interpret_history_response(500, "oops".to_string()).unwrap_err();
    assert_eq!(
        err,
        GrainfatherError::UnexpectedStatusCode { status_code: 500, payload: "oops".to_string() }
    );
}

#[test]
fn history_out_of_range_timestamp_is_reported() {
    let payload = format!("{{\"dev\":{{\"temperature\":[[{},1.0]]}}}}", i64::MAX);
    let err = interpret_history_response(200, payload).unwrap_err();
    assert_eq!(err, GrainfatherError::ResponseTimestamp { unix_seconds: i64::MAX / 1000 });
}

#[test]
fn history_non_object_top_level_is_parse_error() {
    let err = interpret_history_response(200, "[1,2]".to_string()).unwrap_err();
    assert_eq!(err, GrainfatherError::ResponseParsing { payload: "[1,2]".to_string() });
}

#[test]
fn extractor_truncates_towards_zero() {
    let payload = "{\"dev\":{\"temperature\":[[-1999,1.0]]}}".to_string();
    let rec = interpret_history_response(200, payload).unwrap().unwrap();
    assert_eq!(rec.timestamp, -1);
}

#[test]
fn extractor_integer_temperature_value_is_carried() {
    let payload = "{\"dev\":{\"temperature\":[[4000,21]]}}".to_string();
    let rec = interpret_history_response(200, payload).unwrap().unwrap();
    assert_eq!(rec.timestamp, 4);
    assert_eq!(rec.temperature.as_i64().unwrap(), 21);
}
