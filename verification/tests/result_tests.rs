use rps::result::{check_code, Error, RESULT_OK};

#[test]
fn zero_is_success() {
    assert_eq!(RESULT_OK, 0);
    assert_eq!(check_code(0), Ok(()));
}

#[test]
fn every_code_maps_to_its_kind() {
    let kinds = [
        Error::Unspecified,
        Error::UnrecognizedCommand,
        Error::InvalidArguments,
        Error::InvalidData,
        Error::InvalidOperation,
        Error::OutOfMemory,
        Error::FileNotFound,
        Error::InvalidFileFormat,
        Error::UnsupportedVersionTooOld,
        Error::UnsupportedVersionTooNew,
        Error::UnknownNode,
        Error::IndexOutOfBounds,
        Error::CommandAlreadyFinal,
        Error::InteropDataLayoutMismatch,
        Error::KeyNotFound,
        Error::KeyDuplicated,
        Error::NotImplemented,
        Error::IntegerOverflow,
        Error::RangeOverlapping,
        Error::ValidationFailed,
        Error::InvalidProgram,
        Error::UnsupportedModuleVersion,
        Error::TypeMismatch,
        Error::NotSupported,
        Error::RuntimeApiError,
        Error::InternalError,
    ];
    for (i, kind) in kinds.iter().enumerate() {
        let code = -(i as i32) - 1;
        assert_eq!(Error::from_code(code), *kind);
        assert_eq!(kind.code(), code);
        assert_eq!(check_code(code), Err(*kind));
    }
}

#[test]
fn unmapped_codes_are_carried_along() {
    assert_eq!(Error::from_code(-27), Error::Unknown(-27));
    assert_eq!(Error::from_code(5), Error::Unknown(5));
    assert_eq!(Error::from_code(i32::MIN), Error::Unknown(i32::MIN));
    assert_eq!(Error::Unknown(42).code(), 42);
    assert_eq!(check_code(1), Err(Error::Unknown(1)));
    assert_eq!(check_code(-12), Err(Error::IndexOutOfBounds));
    assert_eq!(check_code(-20), Err(Error::ValidationFailed));
}
