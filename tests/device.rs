use mousectl::{
    encode_dpi, resolve_action, Action, ArgumentError, Config, ControlFile, DeviceError, DeviceMode,
    FileWrite, Operation, Step, WriteOutcome, WriteSession,
};

/// Runs a session, answering each write with the next outcome of `outcomes`,
/// and returns the writes handed out, in order, with the final result.
fn drive(
    mut session: WriteSession,
    outcomes: &[WriteOutcome],
) -> (Vec<FileWrite>, Result<(), DeviceError>) {
    let mut handed_out = Vec::new();
    let mut next = 0;
    loop {
        match session.next_step() {
            Step::Perform(w) => {
                handed_out.push(w);
                session.report(outcomes[next]);
                next += 1;
            }
            Step::Finished(r) => return (handed_out, r),
        }
    }
}

fn config() -> Config {
    Config::new(String::from("/sys/bus/hid/devices/0003:1532:0043.0001"))
}

#[test]
fn mode_encoding() {
    assert_eq!(DeviceMode::Unmanaged.encode(), [0x00, 0x00]);
    assert_eq!(DeviceMode::Managed.encode(), [0x03, 0x00]);
}

#[test]
fn default_mode_and_action() {
    assert_eq!(DeviceMode::default(), DeviceMode::Unmanaged);
    assert_eq!(Action::default(), Action::NoCommand);
}

#[test]
fn dpi_encoding_is_big_endian() {
    assert_eq!(encode_dpi(500), [0x01, 0xF4]);
    assert_eq!(encode_dpi(0), [0x00, 0x00]);
    assert_eq!(encode_dpi(65535), [0xFF, 0xFF]);
    assert_eq!(encode_dpi(0x1234), [0x12, 0x34]);
}

#[test]
fn control_file_names() {
    assert_eq!(ControlFile::DeviceMode.name(), "device_mode");
    assert_eq!(ControlFile::Dpi.name(), "dpi");
}

#[test]
fn set_dpi_writes_mode_then_value() {
    let (writes, result) = drive(config().set_dpi(500), &[WriteOutcome::Written, WriteOutcome::Written]);
    assert_eq!(result, Ok(()));
    assert_eq!(
        writes,
        vec![
            FileWrite { file: ControlFile::DeviceMode, bytes: [0x03, 0x00] },
            FileWrite { file: ControlFile::Dpi, bytes: [0x01, 0xF4] },
        ]
    );
}

#[test]
fn dpi_is_handed_out_only_after_mode_is_reported() {
    let mut session = config().set_dpi(800);
    assert_eq!(
        session.next_step(),
        Step::Perform(FileWrite { file: ControlFile::DeviceMode, bytes: [0x03, 0x00] })
    );
    // Asking again without a report hands out the same write.
    assert_eq!(
        session.next_step(),
        Step::Perform(FileWrite { file: ControlFile::DeviceMode, bytes: [0x03, 0x00] })
    );
    session.report(WriteOutcome::Written);
    assert_eq!(
        session.next_step(),
        Step::Perform(FileWrite { file: ControlFile::Dpi, bytes: [0x03, 0x20] })
    );
    session.report(WriteOutcome::Written);
    assert_eq!(session.next_step(), Step::Finished(Ok(())));
}

#[test]
fn no_command_writes_nothing() {
    let (writes, result) = drive(config().session_for(Action::NoCommand), &[]);
    assert!(writes.is_empty());
    assert_eq!(result, Ok(()));
}

#[test]
fn session_for_set_dpi_matches_set_dpi() {
    let outcomes = [WriteOutcome::Written, WriteOutcome::Written];
    let a = drive(config().session_for(Action::SetDpi(1600)), &outcomes);
    let b = drive(config().set_dpi(1600), &outcomes);
    assert_eq!(a, b);
    assert_eq!(a.0[1].bytes, [0x06, 0x40]);
}

#[test]
fn non_numeric_dpi_is_rejected() {
    assert_eq!(resolve_action(Some("abc")), Err(ArgumentError::InvalidDpi));
}

#[test]
fn dpi_argument_resolution() {
    assert_eq!(resolve_action(None), Ok(Action::NoCommand));
    assert_eq!(resolve_action(Some("500")), Ok(Action::SetDpi(500)));
    assert_eq!(resolve_action(Some("0")), Ok(Action::SetDpi(0)));
    assert_eq!(resolve_action(Some("65535")), Ok(Action::SetDpi(65535)));
    assert_eq!(resolve_action(Some("+42")), Ok(Action::SetDpi(42)));
    assert_eq!(resolve_action(Some("00500")), Ok(Action::SetDpi(500)));
    assert_eq!(resolve_action(Some("65536")), Err(ArgumentError::InvalidDpi));
    assert_eq!(resolve_action(Some("-1")), Err(ArgumentError::InvalidDpi));
    assert_eq!(resolve_action(Some("")), Err(ArgumentError::InvalidDpi));
    assert_eq!(resolve_action(Some("+")), Err(ArgumentError::InvalidDpi));
    assert_eq!(resolve_action(Some(" 500")), Err(ArgumentError::InvalidDpi));
    assert_eq!(resolve_action(Some("5_00")), Err(ArgumentError::InvalidDpi));
}

#[test]
fn failed_mode_open_stops_before_dpi() {
    let (writes, result) = drive(config().set_dpi(500), &[WriteOutcome::OpenFailed]);
    assert_eq!(writes, vec![FileWrite { file: ControlFile::DeviceMode, bytes: [0x03, 0x00] }]);
    assert_eq!(
        result,
        Err(DeviceError { file: ControlFile::DeviceMode, operation: Operation::Open })
    );
}

#[test]
fn failed_mode_write_stops_before_dpi() {
    let (writes, result) = drive(config().set_dpi(500), &[WriteOutcome::WriteFailed]);
    assert_eq!(writes.len(), 1);
    assert_eq!(writes[0].file, ControlFile::DeviceMode);
    assert_eq!(
        result,
        Err(DeviceError { file: ControlFile::DeviceMode, operation: Operation::Write })
    );
}

#[test]
fn failed_dpi_write_is_attributed_to_dpi() {
    let (writes, result) =
        drive(config().set_dpi(500), &[WriteOutcome::Written, WriteOutcome::OpenFailed]);
    assert_eq!(writes.len(), 2);
    assert_eq!(result, Err(DeviceError { file: ControlFile::Dpi, operation: Operation::Open }));
}

#[test]
fn repeated_mode_switch_is_the_same() {
    let c = config();
    let first = drive(c.set_device_mode(DeviceMode::Managed), &[WriteOutcome::Written]);
    let second = drive(c.set_device_mode(DeviceMode::Managed), &[WriteOutcome::Written]);
    assert_eq!(first, second);
    assert_eq!(
        first.0,
        vec![FileWrite { file: ControlFile::DeviceMode, bytes: [0x03, 0x00] }]
    );
    let failed_once = drive(c.set_device_mode(DeviceMode::Managed), &[WriteOutcome::OpenFailed]);
    let failed_twice = drive(c.set_device_mode(DeviceMode::Managed), &[WriteOutcome::OpenFailed]);
    assert_eq!(failed_once, failed_twice);
    assert_eq!(
        failed_once.1,
        Err(DeviceError { file: ControlFile::DeviceMode, operation: Operation::Open })
    );
}

#[test]
fn unmanaged_mode_switch() {
    let (writes, result) =
        drive(config().set_device_mode(DeviceMode::Unmanaged), &[WriteOutcome::Written]);
    assert_eq!(result, Ok(()));
    assert_eq!(writes, vec![FileWrite { file: ControlFile::DeviceMode, bytes: [0x00, 0x00] }]);
}
