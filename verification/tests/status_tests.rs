use crsh_exec::status::ExitStatus;

#[test]
fn codes_follow_sysexits() {
    assert_eq!(ExitStatus::Success.code(), 0);
    assert_eq!(ExitStatus::Usage.code(), 64);
    assert_eq!(ExitStatus::DataErr.code(), 65);
    assert_eq!(ExitStatus::NoInput.code(), 66);
    assert_eq!(ExitStatus::NoUser.code(), 67);
    assert_eq!(ExitStatus::NoHost.code(), 68);
    assert_eq!(ExitStatus::Unavailable.code(), 69);
    assert_eq!(ExitStatus::Software.code(), 70);
    assert_eq!(ExitStatus::OsErr.code(), 71);
    assert_eq!(ExitStatus::OsFile.code(), 72);
    assert_eq!(ExitStatus::CantCreat.code(), 73);
    assert_eq!(ExitStatus::IoErr.code(), 74);
    assert_eq!(ExitStatus::TempFail.code(), 75);
    assert_eq!(ExitStatus::Protocol.code(), 76);
    assert_eq!(ExitStatus::NoPerm.code(), 77);
    assert_eq!(ExitStatus::Config.code(), 78);
}

#[test]
fn from_code_maps_known_codes() {
    assert_eq!(ExitStatus::from_code(0), ExitStatus::Success);
    assert_eq!(ExitStatus::from_code(64), ExitStatus::Usage);
    assert_eq!(ExitStatus::from_code(69), ExitStatus::Unavailable);
    assert_eq!(ExitStatus::from_code(71), ExitStatus::OsErr);
    assert_eq!(ExitStatus::from_code(74), ExitStatus::IoErr);
    assert_eq!(ExitStatus::from_code(78), ExitStatus::Config);
}

#[test]
fn from_code_normalizes_unknown_codes_to_success() {
    assert_eq!(ExitStatus::from_code(1), ExitStatus::Success);
    assert_eq!(ExitStatus::from_code(63), ExitStatus::Success);
    assert_eq!(ExitStatus::from_code(79), ExitStatus::Success);
    assert_eq!(ExitStatus::from_code(-1), ExitStatus::Success);
    assert_eq!(ExitStatus::from_code(255), ExitStatus::Success);
}

#[test]
fn code_round_trips() {
    let all = [
        ExitStatus::Success,
        ExitStatus::Usage,
        ExitStatus::DataErr,
        ExitStatus::NoInput,
        ExitStatus::NoUser,
        ExitStatus::NoHost,
        ExitStatus::Unavailable,
        ExitStatus::Software,
        ExitStatus::OsErr,
        ExitStatus::OsFile,
        ExitStatus::CantCreat,
        ExitStatus::IoErr,
        ExitStatus::TempFail,
        ExitStatus::Protocol,
        ExitStatus::NoPerm,
        ExitStatus::Config,
    ];
    for s in all {
        assert_eq!(ExitStatus::from_code(s.code() as i32), s);
    }
}

#[test]
fn is_success_only_for_success() {
    assert!(ExitStatus::Success.is_success());
    assert!(!ExitStatus::Usage.is_success());
    assert!(!ExitStatus::Unavailable.is_success());
}
