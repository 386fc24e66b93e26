use api_test::failure::Failure;
use api_test::report::{compare, check, check_for, Line, Stage, Suite, Test, Tint};

fn pieces(line: &Line) -> Vec<(Tint, String)> {
    line.spans.iter().map(|span| (span.tint, span.text.clone())).collect()
}

fn piece(tint: Tint, text: &str) -> (Tint, String) {
    (tint, String::from(text))
}

#[test]
fn assert_eq_passes_on_equal_values() {
    assert!(api_test::report::assert_eq(1u32, 1u32).is_ok());
    assert!(api_test::report::assert_eq(String::from("Icewind"), String::from("Icewind")).is_ok());
}

#[test]
fn assert_eq_shows_the_observed_value_first() {
    let failure = api_test::report::assert_eq(1u8, 2u8).unwrap_err();
    assert_eq!(failure.message, "Failed asserting that 1 equals 2");
    assert!(failure.context.is_empty());
}

#[test]
fn assert_eq_shows_text_in_quotes() {
    let failure =
        api_test::report::assert_eq(String::from("static"), String::from("example")).unwrap_err();
    assert_eq!(failure.message, "Failed asserting that \"static\" equals \"example\"");
}

#[test]
fn assert_eq_borrow_agrees_with_assert_eq() {
    let observed = 12u8;
    assert!(api_test::report::assert_eq_borrow(&observed, 12).is_ok());
    let failure = api_test::report::assert_eq_borrow(&observed, 13).unwrap_err();
    assert_eq!(failure.message, "Failed asserting that 12 equals 13");
    let name = String::from("test.dem");
    let failure =
        api_test::report::assert_eq_borrow(&name, String::from("test1.dem")).unwrap_err();
    assert_eq!(failure.message, "Failed asserting that \"test.dem\" equals \"test1.dem\"");
}

#[test]
fn compare_and_check_differ_only_in_the_context() {
    let bare = compare(&3u16, &4u16).unwrap_err();
    assert!(bare.context.is_empty());
    let inside = check(&3u16, &4u16, "Failed to compare server").unwrap_err();
    assert_eq!(inside.message, bare.message);
    assert_eq!(inside.context, vec![String::from("Failed to compare server")]);
    let named = check_for(&3u16, &4u16, "Failed to compare team for ", "bob").unwrap_err();
    assert_eq!(named.context, vec![String::from("Failed to compare team for bob")]);
    assert!(check(&3u16, &3u16, "Failed to compare server").is_ok());
    assert!(check_for(&3u16, &3u16, "Failed to compare team for ", "bob").is_ok());
}

#[test]
fn a_run_opens_with_the_name_of_the_scenario() {
    let (test, line) = Test::new("Listings");
    assert_eq!(test.stage, Stage::Resetting);
    assert_eq!(pieces(&line), vec![piece(Tint::Plain, " - Listings")]);
}

#[test]
fn a_run_that_goes_well_reports_the_reset_and_the_pass() {
    let (mut test, _) = Test::new("Set url");
    let lines = test.run(Ok(()));
    assert_eq!(test.stage, Stage::Running);
    assert_eq!(lines.len(), 1);
    assert_eq!(
        pieces(&lines[0]),
        vec![piece(Tint::Plain, "    - "), piece(Tint::Green, "Reset api server")]
    );
    let lines = test.run(Ok(()));
    assert_eq!(test.stage, Stage::Finished { passed: true });
    assert_eq!(lines.len(), 1);
    assert_eq!(
        pieces(&lines[0]),
        vec![piece(Tint::Plain, "      "), piece(Tint::Green, "\u{2713}")]
    );
}

#[test]
fn a_reset_that_fails_ends_the_run_before_the_body() {
    let (mut test, _) = Test::new("Listings");
    let lines = test.run(Err(Failure::msg(String::from("connection refused"))));
    assert_eq!(test.stage, Stage::Finished { passed: false });
    assert_eq!(lines.len(), 2);
    assert_eq!(
        pieces(&lines[0]),
        vec![
            piece(Tint::Plain, "   "),
            piece(Tint::Red, "Reset api server"),
            piece(Tint::Plain, ": connection refused"),
        ]
    );
    assert_eq!(
        pieces(&lines[1]),
        vec![piece(Tint::Plain, "      "), piece(Tint::Red, "\u{274c}")]
    );
}

#[test]
fn a_body_that_fails_is_reported_with_its_failure() {
    let (mut test, _) = Test::new("Listings");
    test.run(Ok(()));
    let failure = Failure::mismatch("4", "5").wrap(String::from("Failed to compare player count"));
    let lines = test.run(Err(failure));
    assert_eq!(test.stage, Stage::Finished { passed: false });
    assert_eq!(lines.len(), 1);
    assert_eq!(
        pieces(&lines[0]),
        vec![
            piece(Tint::Plain, "      "),
            piece(Tint::Red, "\u{274c}"),
            piece(
                Tint::Plain,
                ": Failed to compare player count: Failed asserting that 4 equals 5"
            ),
        ]
    );
}

#[test]
fn a_finished_run_stays_as_it_is() {
    let (mut test, _) = Test::new("Listings");
    test.run(Ok(()));
    test.run(Ok(()));
    let lines = test.run(Err(Failure::msg(String::from("late"))));
    assert!(lines.is_empty());
    assert_eq!(test.stage, Stage::Finished { passed: true });

    let (mut failed, _) = Test::new("Listings");
    failed.run(Err(Failure::msg(String::from("no store"))));
    let lines = failed.run(Ok(()));
    assert!(lines.is_empty());
    assert_eq!(failed.stage, Stage::Finished { passed: false });
}

#[test]
fn a_step_that_goes_well_is_green_and_hands_its_value_on() {
    let (test, _) = Test::new("Listings");
    let (line, outcome) = test.step("upload", Ok(7u32));
    assert_eq!(
        pieces(&line),
        vec![piece(Tint::Plain, "    - "), piece(Tint::Green, "upload")]
    );
    assert_eq!(outcome.unwrap(), 7);
}

#[test]
fn a_step_that_fails_is_red_and_hands_its_failure_on() {
    let (test, _) = Test::new("Listings");
    let failed: Result<u32, Failure> = Err(Failure::msg(String::from("Invalid api key")));
    let (line, outcome) = test.step("set url", failed);
    assert_eq!(
        pieces(&line),
        vec![
            piece(Tint::Plain, "    - "),
            piece(Tint::Red, "set url"),
            piece(Tint::Plain, ": Invalid api key"),
        ]
    );
    let failure = outcome.unwrap_err();
    assert_eq!(failure.message, "Invalid api key");
    assert!(failure.context.is_empty());
}

#[test]
fn a_suite_without_scenarios_succeeds() {
    let suite = Suite::new();
    assert!(suite.success());
    assert_eq!(suite.exit_code(), 0);
}

#[test]
fn a_suite_fails_when_one_scenario_failed() {
    let mut suite = Suite::new();
    suite.record(true);
    assert_eq!(suite.exit_code(), 0);
    suite.record(false);
    suite.record(true);
    assert_eq!(suite.passed, vec![true, false, true]);
    assert!(!suite.success());
    assert_eq!(suite.exit_code(), 1);
}
