use what3words::driver::{missing_key_message, row_step, RowStep};
use what3words::error::Error;
use what3words::input::{parse_line, parse_rows};
use what3words::response::{interpret_body, interpret_transport, FetchOutcome};
use what3words::url::reverse_url;
use what3words::words::replace_dots;

#[test]
fn url_for_work_row() {
    let url = reverse_url("MYKEY", "51.521251", "-0.203586");
    assert_eq!(
        url,
        "https://api.what3words.com/v2/reverse?coords=51.521251%2C-0.203586&key=MYKEY&lang=en&format=json&display=full"
    );
}

#[test]
fn url_keeps_coordinate_text_verbatim() {
    let url = reverse_url("k", "90", "-180");
    assert!(url.starts_with("https://api.what3words.com/v2/reverse?coords=90%2C-180"));
    assert!(url.ends_with("&key=k&lang=en&format=json&display=full"));
}

#[test]
fn csv_row_becomes_request_url() {
    let row = parse_line(b"work, 51.521251, -0.203586").expect("well-formed row");
    let url = reverse_url("MYKEY", &row.lat, &row.lng);
    assert_eq!(
        url,
        "https://api.what3words.com/v2/reverse?coords=51.521251%2C-0.203586&key=MYKEY&lang=en&format=json&display=full"
    );
}

#[test]
fn replace_dots_three_words() {
    assert_eq!(replace_dots("index.home.raft"), "index home raft");
}

#[test]
fn replace_dots_identity_without_dots() {
    assert_eq!(replace_dots("index home raft"), "index home raft");
    assert_eq!(replace_dots(""), "");
}

#[test]
fn replace_dots_twice_is_once() {
    let once = replace_dots("a.b.c");
    let twice = replace_dots(&once);
    assert_eq!(once, "a b c");
    assert_eq!(twice, once);
}

#[test]
fn parse_line_trims_blanks_after_commas() {
    let row = parse_line(b"work, 51.521251, -0.203586").expect("well-formed row");
    assert_eq!(row.label, "work");
    assert_eq!(row.lat, "51.521251");
    assert_eq!(row.lng, "-0.203586");
}

#[test]
fn parse_line_rejects_wrong_field_count() {
    assert!(parse_line(b"work, 51.521251").is_none());
    assert!(parse_line(b"work, 1, 2, 3").is_none());
    assert!(parse_line(b"").is_none());
}

#[test]
fn parse_rows_in_order_skipping_empty_lines() {
    let rows = parse_rows(b"home, 1.5, -2\n\nwork, 51.521251, -0.203586\n").expect("two rows");
    assert_eq!(rows.len(), 2);
    assert_eq!(rows[0].label, "home");
    assert_eq!(rows[0].lat, "1.5");
    assert_eq!(rows[0].lng, "-2");
    assert_eq!(rows[1].label, "work");
    assert_eq!(rows[1].lng, "-0.203586");
}

#[test]
fn parse_rows_fails_on_one_malformed_line() {
    assert!(parse_rows(b"home, 1.5, -2\nbroken line\n").is_none());
}

#[test]
fn parse_rows_rejects_invalid_text() {
    assert!(parse_rows(&[0xffu8, b',', b'1', b',', b'2']).is_none());
}

#[test]
fn unauthorized_status_is_invalid_key() {
    let outcome = FetchOutcome::Response { status: 401, body: b"{\"error\":1}".to_vec() };
    match row_step("work", outcome) {
        RowStep::Abort { message, exit_code } => {
            assert_eq!(message, "Error: invalid API key!");
            assert_eq!(exit_code, 1);
        }
        RowStep::Output(_) => panic!("a 401 must abort the run"),
    }
}

#[test]
fn good_response_prints_label_and_words() {
    let body = b"{\"words\":\"index.home.raft\",\"language\":\"en\"}".to_vec();
    let outcome = FetchOutcome::Response { status: 200, body };
    match row_step("work", outcome) {
        RowStep::Output(line) => assert_eq!(line, "work - index home raft"),
        RowStep::Abort { message, .. } => panic!("unexpected abort: {}", message),
    }
}

#[test]
fn transport_failure_aborts_with_connectivity_message() {
    match row_step("work", FetchOutcome::TransportFailure) {
        RowStep::Abort { message, exit_code } => {
            assert_eq!(message, "Error: Are you connected to the internet?");
            assert_eq!(exit_code, 1);
        }
        RowStep::Output(_) => panic!("a dead connection must abort the run"),
    }
}

#[test]
fn bad_url_and_bad_status_abort_like_no_internet() {
    for outcome in [FetchOutcome::BadUrl, FetchOutcome::NoStatus] {
        match row_step("work", outcome) {
            RowStep::Abort { message, exit_code } => {
                assert_eq!(message, "Error: Are you connected to the internet?");
                assert_eq!(exit_code, 1);
            }
            RowStep::Output(_) => panic!("must abort the run"),
        }
    }
}

#[test]
fn unparsable_body_quotes_the_raw_text() {
    let outcome = FetchOutcome::Response { status: 200, body: b"not json".to_vec() };
    match row_step("work", outcome) {
        RowStep::Abort { message, exit_code } => {
            assert_eq!(message, "Error: failed to parse json!\n\tnot json");
            assert_eq!(exit_code, 0);
        }
        RowStep::Output(_) => panic!("an unparsable body must abort the run"),
    }
}

#[test]
fn body_that_is_not_text_is_a_parse_failure() {
    let outcome = FetchOutcome::Response { status: 200, body: vec![0xff, 0xfe] };
    match row_step("work", outcome) {
        RowStep::Abort { message, exit_code } => {
            assert_eq!(message, "Error: failed to parse json!\n\t");
            assert_eq!(exit_code, 0);
        }
        RowStep::Output(_) => panic!("a non-text body must abort the run"),
    }
}

#[test]
fn missing_words_member_displays_null() {
    let outcome = FetchOutcome::Response { status: 200, body: b"{\"status\":\"ok\"}".to_vec() };
    match row_step("work", outcome) {
        RowStep::Output(line) => assert_eq!(line, "work - null"),
        RowStep::Abort { message, .. } => panic!("unexpected abort: {}", message),
    }
}

#[test]
fn interpret_transport_maps_each_failure() {
    assert_eq!(interpret_transport(FetchOutcome::BadUrl), Err(Error::BadUrl));
    assert_eq!(interpret_transport(FetchOutcome::TransportFailure), Err(Error::NoInternet));
    assert_eq!(interpret_transport(FetchOutcome::NoStatus), Err(Error::BadResponseCode));
    assert_eq!(
        interpret_transport(FetchOutcome::Response { status: 401, body: vec![] }),
        Err(Error::InvalidApiKey)
    );
    assert_eq!(
        interpret_transport(FetchOutcome::Response { status: 200, body: b"abc".to_vec() }),
        Ok("abc".to_string())
    );
    assert_eq!(
        interpret_transport(FetchOutcome::Response { status: 200, body: vec![0x80] }),
        Err(Error::ParseFailure)
    );
}

#[test]
fn interpret_body_extracts_and_transforms() {
    assert_eq!(
        interpret_body("{\"words\":\"a.b.c\"}"),
        Ok("a b c".to_string())
    );
    assert_eq!(interpret_body("{"), Err(Error::ParseFailure));
}

#[test]
fn missing_key_message_text() {
    assert_eq!(missing_key_message(), "Error! Failed to find API key W3W_API");
}
