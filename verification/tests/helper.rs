use focus_governor::helper::{
    decimal_string, signal_target, throttle_command, CPU_LIMIT_PERCENT, THROTTLE_TOOL,
};

#[test]
fn limit_and_tool_are_the_configured_ones() {
    assert_eq!(CPU_LIMIT_PERCENT, 10);
    assert_eq!(THROTTLE_TOOL, "cpulimit");
}

#[test]
fn decimal_of_single_digits() {
    assert_eq!(decimal_string(0), "0");
    assert_eq!(decimal_string(7), "7");
    assert_eq!(decimal_string(9), "9");
}

#[test]
fn decimal_of_longer_numbers() {
    assert_eq!(decimal_string(10), "10");
    assert_eq!(decimal_string(4242), "4242");
    assert_eq!(decimal_string(100_000), "100000");
    assert_eq!(decimal_string(1_234_567_890), "1234567890");
}

#[test]
fn decimal_of_the_largest_number() {
    assert_eq!(decimal_string(u32::MAX), "4294967295");
}

#[test]
fn decimal_agrees_with_the_standard_formatting() {
    let mut n: u32 = 1;
    while n < 1_000_000_000 {
        assert_eq!(decimal_string(n), n.to_string());
        assert_eq!(decimal_string(n - 1), (n - 1).to_string());
        n *= 7;
    }
}

#[test]
fn command_names_the_process_and_the_limit() {
    let command = throttle_command(4242, 10);
    assert_eq!(command.program, "cpulimit");
    assert_eq!(command.arguments, vec!["-p", "4242", "-l", "10"]);
}

#[test]
fn command_with_the_configured_limit() {
    let command = throttle_command(1, CPU_LIMIT_PERCENT);
    assert_eq!(command.program, THROTTLE_TOOL);
    assert_eq!(command.arguments, vec!["-p", "1", "-l", "10"]);
}

#[test]
fn signal_goes_to_a_positive_identifier() {
    assert_eq!(signal_target(1), Some(1));
    assert_eq!(signal_target(4242), Some(4242));
    assert_eq!(signal_target(2_147_483_647), Some(i32::MAX));
}

#[test]
fn no_signal_for_identifier_zero() {
    assert_eq!(signal_target(0), None);
}

#[test]
fn no_signal_for_identifier_beyond_the_signed_range() {
    assert_eq!(signal_target(2_147_483_648), None);
    assert_eq!(signal_target(u32::MAX), None);
}
