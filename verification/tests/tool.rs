use blank_rs::add::{try_add, AddError};
use blank_rs::cli::{
    file_ansi, resolve_log_target, terminal_ansi, terminal_severity, ColorMode, SeverityThreshold,
};
use blank_rs::get_version_fancy;
use blank_rs::text::{decimal_string, join_with_commas, no_command_line, sum_line};

#[test]
fn add_positive_operands() {
    assert_eq!(try_add(&3, &4), Ok(7));
}

#[test]
fn add_negative_operands() {
    assert_eq!(try_add(&-3, &-4), Ok(-7));
}

#[test]
fn add_positive_then_negative_is_rejected() {
    assert_eq!(try_add(&3, &-4), Err(AddError::UnsupportedSignCombination));
}

#[test]
fn add_negative_then_positive_is_rejected() {
    assert_eq!(try_add(&-3, &4), Err(AddError::UnsupportedSignCombination));
}

#[test]
fn add_zero_has_no_path() {
    assert_eq!(try_add(&0, &5), Err(AddError::NoSupportedPath));
    assert_eq!(try_add(&0, &0), Err(AddError::NoSupportedPath));
    assert_eq!(try_add(&0, &-5), Err(AddError::NoSupportedPath));
}

#[test]
fn add_zero_second_operand_is_fine() {
    assert_eq!(try_add(&5, &0), Ok(5));
    assert_eq!(try_add(&-5, &0), Ok(-5));
}

#[test]
fn add_wraps_at_the_boundaries() {
    assert_eq!(try_add(&i32::MAX, &1), Ok(i32::MIN));
    assert_eq!(try_add(&i32::MIN, &-1), Ok(i32::MAX));
}

#[test]
fn version_with_metadata() {
    let v = get_version_fancy("0.1.0", true, "abc1234", "main");
    assert_eq!(v, "0.1.0 (abc1234 main)");
}

#[test]
fn version_without_metadata() {
    let v = get_version_fancy("0.1.0", false, "abc1234", "main");
    assert_eq!(v, "0.1.0");
}

#[test]
fn decimal_rendering() {
    assert_eq!(decimal_string(0), "0");
    assert_eq!(decimal_string(7), "7");
    assert_eq!(decimal_string(-7), "-7");
    assert_eq!(decimal_string(1234567890), "1234567890");
    assert_eq!(decimal_string(i32::MAX), "2147483647");
    assert_eq!(decimal_string(i32::MIN), "-2147483648");
}

#[test]
fn sum_line_positive() {
    assert_eq!(sum_line(3, 4, 7), "3 + 4 = 7");
}

#[test]
fn sum_line_negative() {
    assert_eq!(sum_line(-3, -4, -7), "-3 + -4 = -7");
}

#[test]
fn join_of_no_names_is_empty() {
    let names: Vec<String> = vec![];
    assert_eq!(join_with_commas(&names), "");
}

#[test]
fn join_of_one_name() {
    let names = vec![String::from("add")];
    assert_eq!(join_with_commas(&names), "add");
}

#[test]
fn join_of_three_names() {
    let names = vec![
        String::from("add"),
        String::from("sub"),
        String::from("mul"),
    ];
    assert_eq!(join_with_commas(&names), "add, sub, mul");
}

#[test]
fn no_command_line_lists_add() {
    let names = vec![String::from("add")];
    assert_eq!(
        no_command_line(&names),
        "No command specified. Possible commands: add"
    );
}

#[test]
fn verbosity_chooses_the_terminal_threshold() {
    assert_eq!(terminal_severity(0), SeverityThreshold::Info);
    assert_eq!(terminal_severity(1), SeverityThreshold::Debug);
    assert_eq!(terminal_severity(2), SeverityThreshold::Trace);
    assert_eq!(terminal_severity(7), SeverityThreshold::Trace);
}

#[test]
fn color_mode_drives_ansi_rendering() {
    assert!(terminal_ansi(ColorMode::Auto));
    assert!(terminal_ansi(ColorMode::Always));
    assert!(!terminal_ansi(ColorMode::Never));
    assert!(!file_ansi(ColorMode::Auto));
    assert!(file_ansi(ColorMode::Always));
    assert!(!file_ansi(ColorMode::Never));
}

#[test]
fn color_mode_defaults_to_auto() {
    assert_eq!(ColorMode::default(), ColorMode::Auto);
}

#[test]
fn log_target_resolution() {
    assert_eq!(resolve_log_target(&None, "blank_rs"), None);
    assert_eq!(
        resolve_log_target(&Some(Some(String::from("run.log"))), "blank_rs"),
        Some(String::from("run.log"))
    );
    assert_eq!(
        resolve_log_target(&Some(None), "blank_rs"),
        Some(String::from("blank_rs.log"))
    );
}
