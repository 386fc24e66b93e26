use api_test::failure::{wrap_err, wrap_err_for, Failure};
use api_test::show::{decimal_text, Comparable};

#[test]
fn mismatch_names_both_values() {
    let failure = Failure::mismatch("1", "2");
    assert_eq!(failure.message, "Failed asserting that 1 equals 2");
    assert!(failure.context.is_empty());
}

#[test]
fn msg_keeps_the_message_and_has_no_context() {
    let failure = Failure::msg(String::from("Expected error during upload"));
    assert_eq!(failure.message, "Expected error during upload");
    assert!(failure.context.is_empty());
    assert_eq!(failure.render(), "Expected error during upload");
}

#[test]
fn wrap_adds_the_context_outside_the_earlier_ones() {
    let failure = Failure::msg(String::from("root")).wrap(String::from("inner"));
    assert_eq!(failure.context, vec![String::from("inner")]);
    let failure = failure.wrap(String::from("outer"));
    assert_eq!(failure.message, "root");
    assert_eq!(failure.context, vec![String::from("inner"), String::from("outer")]);
}

#[test]
fn render_puts_the_outermost_context_first() {
    let failure = Failure::msg(String::from("root"))
        .wrap(String::from("inner"))
        .wrap(String::from("outer"));
    assert_eq!(failure.render(), "outer: inner: root");
}

#[test]
fn wrap_err_leaves_success_alone() {
    assert!(wrap_err(Ok(()), "Failed to compare map").is_ok());
    assert!(wrap_err_for(Ok(()), "Failed to compare kills for ", "alice").is_ok());
}

#[test]
fn wrap_err_lays_the_context_around_a_failure() {
    let failed = wrap_err(Err(Failure::mismatch("1", "2")), "Failed to compare red score");
    let failure = failed.unwrap_err();
    assert_eq!(failure.context, vec![String::from("Failed to compare red score")]);
    assert_eq!(
        failure.render(),
        "Failed to compare red score: Failed asserting that 1 equals 2"
    );
}

#[test]
fn wrap_err_for_names_whom_the_failure_is_about() {
    let failed = wrap_err_for(
        Err(Failure::mismatch("3", "4")),
        "Failed to compare kills for ",
        "alice",
    );
    let failure = failed.unwrap_err();
    assert_eq!(failure.context, vec![String::from("Failed to compare kills for alice")]);
    assert_eq!(failure.message, "Failed asserting that 3 equals 4");
}

#[test]
fn decimal_text_of_zero_and_of_the_largest_number() {
    assert_eq!(decimal_text(0), "0");
    assert_eq!(decimal_text(9), "9");
    assert_eq!(decimal_text(10), "10");
    assert_eq!(decimal_text(76561198024494988), "76561198024494988");
    assert_eq!(decimal_text(u64::MAX), "18446744073709551615");
}

#[test]
fn numbers_show_as_their_digits() {
    assert_eq!(12u8.show(), "12");
    assert_eq!(65535u16.show(), "65535");
    assert_eq!(999999u32.show(), "999999");
    assert_eq!(76561197998883586u64.show(), "76561197998883586");
    assert_eq!(5usize.show(), "5");
}

#[test]
fn numbers_are_the_same_only_when_equal() {
    assert!(12u8.same(&12));
    assert!(!12u8.same(&13));
    assert!(7u64.same(&7));
    assert!(!0usize.same(&1));
}

#[test]
fn text_shows_in_quotes_with_escapes() {
    assert_eq!(String::from("cp_process").show(), "\"cp_process\"");
    assert_eq!(String::from("say \"hi\"\n").show(), "\"say \\\"hi\\\"\\n\"");
    assert_eq!(String::new().show(), "\"\"");
}

#[test]
fn text_is_the_same_only_when_equal() {
    assert!(String::from("RED").same(&String::from("RED")));
    assert!(!String::from("RED").same(&String::from("red")));
}
