use stellarforge::errors::CommonError;
use stellarforge::factory::FactoryError;
use stellarforge::vesting::VestingError;

#[test]
fn test_common_error_values() {
    // The error codes match the documented values.
    assert_eq!(CommonError::AlreadyInitialized.code(), 1);
    assert_eq!(CommonError::NotInitialized.code(), 2);
    assert_eq!(CommonError::Unauthorized.code(), 3);
}

#[test]
fn test_common_error_debug() {
    let err = CommonError::Unauthorized;
    let debug_str = format!("{:?}", err);
    assert!(debug_str.contains("Unauthorized"));
}

#[test]
fn vesting_error_codes_follow_the_shared_table() {
    assert_eq!(VestingError::AlreadyInitialized.code(), 1);
    assert_eq!(VestingError::NotInitialized.code(), 2);
    assert_eq!(VestingError::CliffNotReached.code(), 4);
    assert_eq!(VestingError::NothingToClaim.code(), 5);
    assert_eq!(VestingError::Cancelled.code(), 6);
    assert_eq!(VestingError::SameAdmin.code(), 8);
    assert_eq!(VestingError::Paused.code(), 9);
    assert_eq!(VestingError::NotPaused.code(), 10);
    assert_eq!(VestingError::SameBeneficiary.code(), 11);
    assert_eq!(VestingError::BeneficiaryAsAdmin.code(), 12);
    assert_eq!(VestingError::VestingComplete.code(), 13);
}

#[test]
fn factory_error_codes_follow_the_shared_table() {
    assert_eq!(FactoryError::ScheduleNotFound.code(), 1);
    assert_eq!(FactoryError::CliffNotReached.code(), 3);
    assert_eq!(FactoryError::NothingToClaim.code(), 4);
    assert_eq!(FactoryError::Cancelled.code(), 5);
    assert_eq!(FactoryError::InvalidConfig.code(), 6);
}
