use ercp_device::{custom_command, Command, CustomCommandError, NewCommandError, MAX_VALUE_LENGTH};

#[test]
fn value_at_ceiling_is_accepted() {
    let value = vec![7u8; 10];
    let c = Command::new(0x42, &value, 10).unwrap();
    assert_eq!(c.code(), 0x42);
    assert_eq!(c.value(), &value);
    assert_eq!(c.max_length(), 10);
}

#[test]
fn value_over_ceiling_is_refused() {
    let value = vec![7u8; 11];
    assert_eq!(Command::new(0x42, &value, 10).unwrap_err(), NewCommandError::TooLong);
}

#[test]
fn largest_ceiling() {
    let value = vec![1u8; 255];
    assert!(Command::new(0, &value, MAX_VALUE_LENGTH).is_ok());
    let value = vec![1u8; 256];
    assert_eq!(Command::new(0, &value, MAX_VALUE_LENGTH).unwrap_err(), NewCommandError::TooLong);
}

#[test]
fn empty_value_under_zero_ceiling() {
    assert!(Command::new(1, &[], 0).is_ok());
    assert_eq!(Command::new(1, &[0], 0).unwrap_err(), NewCommandError::TooLong);
}

#[test]
fn custom_command_decodes_before_sending() {
    let c = custom_command("Af", Some("0102"), 255).unwrap();
    assert_eq!(c.code(), 0xAF);
    assert_eq!(c.value(), &vec![1u8, 2]);
    let c = custom_command("10", None, 255).unwrap();
    assert_eq!(c.code(), 0x10);
    assert!(c.value().is_empty());
}

#[test]
fn custom_command_errors() {
    assert_eq!(custom_command("g0", None, 255).unwrap_err(), CustomCommandError::InvalidCode);
    assert_eq!(custom_command("100", None, 255).unwrap_err(), CustomCommandError::InvalidCode);
    assert_eq!(custom_command("10", Some("1"), 255).unwrap_err(), CustomCommandError::InvalidValue);
    assert_eq!(
        custom_command("10", Some("010203"), 2).unwrap_err(),
        CustomCommandError::NewCommandError(NewCommandError::TooLong)
    );
}
