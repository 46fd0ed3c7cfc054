use rmesg::error::RMesgError;
use rmesg::linux::{klogctl_arguments, KLogCtlError, KLogType};

#[test]
fn get_kernel_buffer_size() {
    let buf: String = String::from("\0");
    let arguments = klogctl_arguments(KLogType::SyslogActionSizeBuffer, buf.len());
    assert_eq!(arguments, Ok((10, 1)));
}

#[test]
fn actions_are_numbered_in_order() {
    let actions = [
        KLogType::SyslogActionClose,
        KLogType::SyslogActionOpen,
        KLogType::SyslogActionRead,
        KLogType::SyslogActionReadAll,
        KLogType::SyslogActionReadClear,
        KLogType::SyslogActionClear,
        KLogType::SyslogActionConsoleOff,
        KLogType::SyslogActionConsoleOn,
        KLogType::SyslogActionConsoleLevel,
        KLogType::SyslogActionSizeUnread,
        KLogType::SyslogActionSizeBuffer,
    ];
    for (number, action) in actions.iter().enumerate() {
        assert_eq!(action.code(), number as i32);
    }
}

#[test]
fn snapshot_action_follows_the_clear_flag() {
    assert_eq!(KLogType::for_snapshot(false), KLogType::SyslogActionReadAll);
    assert_eq!(KLogType::for_snapshot(true), KLogType::SyslogActionReadClear);
}

#[test]
fn buffer_length_must_fit_a_signed_integer() {
    let longest = i32::MAX as usize;
    assert_eq!(
        klogctl_arguments(KLogType::SyslogActionReadAll, longest),
        Ok((3, i32::MAX)),
    );
    assert_eq!(klogctl_arguments(KLogType::SyslogActionReadClear, 0), Ok((4, 0)));
    assert_eq!(
        klogctl_arguments(KLogType::SyslogActionReadAll, longest + 1),
        Err(KLogCtlError::IntegerOutOfBound(
            "Error converting usize 2147483648 into i32: TryFromIntError(())".to_string()
        )),
    );
}

#[test]
fn out_of_bound_detail_matches_the_standard_conversion() {
    for length in [i32::MAX as usize + 1, 4_000_000_007, usize::MAX] {
        let error = i32::try_from(length).unwrap_err();
        let expected = format!("Error converting usize {} into i32: {:?}", length, error);
        assert_eq!(
            klogctl_arguments(KLogType::SyslogActionRead, length),
            Err(KLogCtlError::IntegerOutOfBound(expected)),
        );
    }
}

#[test]
fn klogctl_error_text_names_its_kind() {
    let error = KLogCtlError::IntegerOutOfBound("too long".to_string());
    assert_eq!(error.to_string(), "KLogCtlError:: too long");
}

#[test]
fn rmesg_error_text() {
    assert_eq!(
        RMesgError::UnableToAddDurationToSystemTime.to_string(),
        "UnableToAddDurationToSystemTime",
    );
    assert_eq!(
        RMesgError::SnapshotReadFailed("permission denied".to_string()).to_string(),
        "permission denied",
    );
}

#[test]
fn klogctl_error_becomes_a_failed_read() {
    let error = KLogCtlError::IntegerOutOfBound("too long".to_string());
    assert_eq!(
        RMesgError::from_klogctl(error),
        RMesgError::SnapshotReadFailed("KLogCtlError:: too long".to_string()),
    );
}
