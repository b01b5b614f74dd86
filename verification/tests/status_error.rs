use notmuch::error::check_status;
use notmuch::error::Error;
use notmuch::error::LockError;
use notmuch::status::DatabaseMode;
use notmuch::status::Status;

#[test]
fn every_documented_code_decodes_to_its_category() {
    assert_eq!(Status::from_code(0), Status::Success);
    assert_eq!(Status::from_code(1), Status::OutOfMemory);
    assert_eq!(Status::from_code(2), Status::ReadOnlyDatabase);
    assert_eq!(Status::from_code(3), Status::XapianException);
    assert_eq!(Status::from_code(4), Status::FileError);
    assert_eq!(Status::from_code(5), Status::FileNotEmail);
    assert_eq!(Status::from_code(6), Status::DuplicateMessageId);
    assert_eq!(Status::from_code(7), Status::NullPointer);
    assert_eq!(Status::from_code(8), Status::TagTooLong);
    assert_eq!(Status::from_code(9), Status::UnbalancedFreezeThaw);
    assert_eq!(Status::from_code(10), Status::UnbalancedAtomic);
    assert_eq!(Status::from_code(11), Status::UnsupportedOperation);
    assert_eq!(Status::from_code(12), Status::UpgradeRequired);
    assert_eq!(Status::from_code(13), Status::PathError);
    assert_eq!(Status::from_code(14), Status::Unknown(14));
    assert_eq!(Status::from_code(4095), Status::Unknown(4095));
}

#[test]
fn decoding_keeps_the_native_code() {
    for code in (0..20).chain([1000, u32::MAX]) {
        assert_eq!(Status::from_code(code).code(), code);
    }
}

#[test]
fn only_the_zero_code_is_success() {
    assert!(Status::from_code(0).is_success());
    for code in (1..20).chain([u32::MAX]) {
        assert!(!Status::from_code(code).is_success());
    }
}

#[test]
fn descriptions_name_the_category() {
    assert_eq!(Status::Success.description(), "no error occurred");
    assert_eq!(Status::OutOfMemory.description(), "out of memory");
    assert_eq!(
        Status::ReadOnlyDatabase.description(),
        "attempt to write to a read-only database"
    );
    assert_eq!(
        Status::FileError.description(),
        "something went wrong trying to read or write a file"
    );
    assert_eq!(Status::Unknown(99).description(), "unknown status value");
}

#[test]
fn check_status_short_circuits_on_every_failure() {
    assert_eq!(check_status(0), Ok(()));
    for code in 1..20 {
        match check_status(code) {
            Err(Error::NotmuchError(s)) => assert_eq!(s.code(), code),
            _ => panic!("a non-success status must come back as a native failure"),
        }
    }
}

#[test]
fn mode_encodes_as_the_native_call_expects() {
    assert_eq!(DatabaseMode::ReadOnly.code(), 0);
    assert_eq!(DatabaseMode::ReadWrite.code(), 1);
}

#[test]
fn error_description_follows_the_origin() {
    let io = Error::IoError(String::from("file vanished"));
    assert_eq!(io.description(), "file vanished");
    assert!(!io.is_native());

    let native = Error::NotmuchError(Status::UpgradeRequired);
    assert_eq!(native.description(), "operation requires a database upgrade");
    assert!(native.is_native());

    let lock = Error::RwLockError(LockError::new(String::from("would block")));
    assert_eq!(lock.description(), "would block");
    assert!(!lock.is_native());
}

#[test]
fn lock_error_keeps_its_description() {
    let e = LockError::new(String::from("poisoned"));
    assert_eq!(e.description(), "poisoned");
}

#[test]
fn a_raw_code_folds_into_the_taxonomy() {
    match Error::from_status_code(3) {
        Error::NotmuchError(s) => assert_eq!(s, Status::XapianException),
        _ => panic!("a raw code must fold into the native-status variant"),
    }
}
