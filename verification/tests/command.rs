use ercp_basic_example::command::{Command, NewCommandError, MAX_LEN};
use ercp_basic_example::line::{Led, LineState};
use ercp_basic_example::reply::{NackReason, Reply, OUT_OF_BOUNDS};

#[test]
fn command_keeps_its_code_and_payload() {
    let command = Command::new(0x32, &[1, 2, 3]).unwrap();
    assert_eq!(command.code(), 0x32);
    assert_eq!(command.length(), 3);
    assert_eq!(command.value(), &[1u8, 2, 3][..]);
}

#[test]
fn command_may_have_no_payload() {
    let command = Command::new(0x20, &[]).unwrap();
    assert_eq!(command.code(), 0x20);
    assert_eq!(command.length(), 0);
    assert!(command.value().is_empty());
}

#[test]
fn command_takes_the_longest_payload() {
    assert_eq!(MAX_LEN, 255);
    let payload: Vec<u8> = (0..255u32).map(|byte| byte as u8).collect();
    let command = Command::new(0x32, &payload).unwrap();
    assert_eq!(command.length(), 255);
    assert_eq!(command.value(), &payload[..]);
}

#[test]
fn command_refuses_a_payload_over_the_limit() {
    assert_eq!(Command::new(0x32, &[0; 256]), Err(NewCommandError::TooLong));
    assert_eq!(Command::new(0x00, &[7; 1000]), Err(NewCommandError::TooLong));
}

#[test]
fn command_is_a_copy_of_its_payload() {
    let mut payload = [1u8, 2, 3];
    let command = Command::new(0x32, &payload).unwrap();
    payload[0] = 9;
    assert_eq!(command.value(), &[1u8, 2, 3][..]);
    let copy = command;
    assert_eq!(copy, command);
}

#[test]
fn commands_with_a_shared_prefix_differ() {
    let short = Command::new(0x32, &[1, 2]).unwrap();
    let long = Command::new(0x32, &[1, 2, 0]).unwrap();
    assert_ne!(short, long);
    assert_eq!(short.length(), 2);
    assert_eq!(long.length(), 3);
}

#[test]
fn commands_compare_by_code_and_payload() {
    let one = Command::new(0x31, &[5]).unwrap();
    assert_eq!(one, Command::new(0x31, &[5]).unwrap());
    assert_ne!(one, Command::new(0x31, &[6]).unwrap());
    assert_ne!(one, Command::new(0x30, &[5]).unwrap());
}

#[test]
fn out_of_bounds_is_numbered_by_the_device() {
    assert_eq!(OUT_OF_BOUNDS, 0xFF);
    assert_eq!(NackReason::OutOfBounds.device_code(), Some(0xFF));
}

#[test]
fn invalid_arguments_is_not_numbered_by_the_device() {
    assert_eq!(NackReason::InvalidArguments.device_code(), None);
}

#[test]
fn replies_of_different_kinds_differ() {
    assert_ne!(Reply::Ack, Reply::Nack(NackReason::OutOfBounds));
    assert_ne!(
        Reply::Nack(NackReason::InvalidArguments),
        Reply::Nack(NackReason::OutOfBounds)
    );
    assert_ne!(Reply::Ack, Reply::Data(Command::new(0x31, &[0]).unwrap()));
}

#[test]
fn led_starts_at_the_given_level() {
    assert_eq!(Led::new(LineState::Deasserted).state(), LineState::Deasserted);
    assert!(!Led::new(LineState::Deasserted).is_set_high());
    assert_eq!(Led::new(LineState::Asserted).state(), LineState::Asserted);
    assert!(Led::new(LineState::Asserted).is_set_high());
}

#[test]
fn led_goes_high_and_low() {
    let mut led = Led::new(LineState::Deasserted);
    led.set_high();
    assert_eq!(led.state(), LineState::Asserted);
    assert!(led.is_set_high());
    led.set_high();
    assert_eq!(led.state(), LineState::Asserted);
    led.set_low();
    assert_eq!(led.state(), LineState::Deasserted);
    assert!(!led.is_set_high());
    led.set_low();
    assert_eq!(led.state(), LineState::Deasserted);
}
