//! Result codes of the library.

use vstd::prelude::*;

verus! {

/// Error kinds returned by the operations of the library.
#[derive(Debug, Clone, Copy, PartialEq, Eq, Structural)]
pub enum Error {
    Unspecified,
    /// Failure due to an unrecognized command.
    UnrecognizedCommand,
    /// Failure due to invalid arguments.
    InvalidArguments,
    /// Failure due to invalid data.
    InvalidData,
    /// Failure due to an invalid operation.
    InvalidOperation,
    /// Failure due to running out of memory.
    OutOfMemory,
    /// Failure due to not being able to find the specified file.
    FileNotFound,
    /// Failure due to an invalid file format.
    InvalidFileFormat,
    /// Failure due to the file format version being too old.
    UnsupportedVersionTooOld,
    /// Failure due to the file format version being too new.
    UnsupportedVersionTooNew,
    /// Failure due to an unknown node.
    UnknownNode,
    /// Failure due to an index being out of its valid bounds.
    IndexOutOfBounds,
    /// Failure due to a command being already finalized.
    CommandAlreadyFinal,
    /// Failure due to a data layout mismatch between runtime and shader.
    InteropDataLayoutMismatch,
    /// Failure due to a key not being found.
    KeyNotFound,
    /// Failure due to a key value being duplicated where it is required to be unique.
    KeyDuplicated,
    /// Failure due to a feature not being implemented yet.
    NotImplemented,
    /// Failure due to an integer overflow.
    IntegerOverflow,
    /// Failure due to exclusive ranges overlapping.
    RangeOverlapping,
    /// Failure due to an invalid pipeline configuration: a dependency cycle
    /// or an unresolved hazard.
    ValidationFailed,
    /// Failure due to an ill formed program.
    InvalidProgram,
    /// Failure due to a module being incompatible with the current runtime.
    UnsupportedModuleVersion,
    /// Failure due to a failed type safety check.
    TypeMismatch,
    /// Failure due to a feature not being supported.
    NotSupported,
    /// Failure of a runtime API without direct mapping of the API error code.
    RuntimeApiError,
    /// Failure due to a library internal error.
    InternalError,
    /// A nonzero code outside the taxonomy.
    Unknown(i32),
}

/// The result code that signals success.
pub const RESULT_OK: i32 = 0;

/// The error kind that a nonzero result code stands for: the codes `-1` down
/// to `-26` name the kinds in the order of their declaration, every other
/// code is carried along unchanged.
pub open spec fn error_of_code(code: int) -> Error {
    if code == -1 {
        Error::Unspecified
    } else if code == -2 {
        Error::UnrecognizedCommand
    } else if code == -3 {
        Error::InvalidArguments
    } else if code == -4 {
        Error::InvalidData
    } else if code == -5 {
        Error::InvalidOperation
    } else if code == -6 {
        Error::OutOfMemory
    } else if code == -7 {
        Error::FileNotFound
    } else if code == -8 {
        Error::InvalidFileFormat
    } else if code == -9 {
        Error::UnsupportedVersionTooOld
    } else if code == -10 {
        Error::UnsupportedVersionTooNew
    } else if code == -11 {
        Error::UnknownNode
    } else if code == -12 {
        Error::IndexOutOfBounds
    } else if code == -13 {
        Error::CommandAlreadyFinal
    } else if code == -14 {
        Error::InteropDataLayoutMismatch
    } else if code == -15 {
        Error::KeyNotFound
    } else if code == -16 {
        Error::KeyDuplicated
    } else if code == -17 {
        Error::NotImplemented
    } else if code == -18 {
        Error::IntegerOverflow
    } else if code == -19 {
        Error::RangeOverlapping
    } else if code == -20 {
        Error::ValidationFailed
    } else if code == -21 {
        Error::InvalidProgram
    } else if code == -22 {
        Error::UnsupportedModuleVersion
    } else if code == -23 {
        Error::TypeMismatch
    } else if code == -24 {
        Error::NotSupported
    } else if code == -25 {
        Error::RuntimeApiError
    } else if code == -26 {
        Error::InternalError
    } else {
        Error::Unknown(code as i32)
    }
}

/// The result code of an error kind.
pub open spec fn code_of_error(e: Error) -> int {
    match e {
        Error::Unspecified => -1,
        Error::UnrecognizedCommand => -2,
        Error::InvalidArguments => -3,
        Error::InvalidData => -4,
        Error::InvalidOperation => -5,
        Error::OutOfMemory => -6,
        Error::FileNotFound => -7,
        Error::InvalidFileFormat => -8,
        Error::UnsupportedVersionTooOld => -9,
        Error::UnsupportedVersionTooNew => -10,
        Error::UnknownNode => -11,
        Error::IndexOutOfBounds => -12,
        Error::CommandAlreadyFinal => -13,
        Error::InteropDataLayoutMismatch => -14,
        Error::KeyNotFound => -15,
        Error::KeyDuplicated => -16,
        Error::NotImplemented => -17,
        Error::IntegerOverflow => -18,
        Error::RangeOverlapping => -19,
        Error::ValidationFailed => -20,
        Error::InvalidProgram => -21,
        Error::UnsupportedModuleVersion => -22,
        Error::TypeMismatch => -23,
        Error::NotSupported => -24,
        Error::RuntimeApiError => -25,
        Error::InternalError => -26,
        Error::Unknown(c) => c as int,
    }
}

impl Error {
    /// Maps a result code to its error kind.
    pub fn from_code(code: i32) -> (e: Error)
        ensures
            e == error_of_code(code as int),
    {
        match code {
            -1 => Error::Unspecified,
            -2 => Error::UnrecognizedCommand,
            -3 => Error::InvalidArguments,
            -4 => Error::InvalidData,
            -5 => Error::InvalidOperation,
            -6 => Error::OutOfMemory,
            -7 => Error::FileNotFound,
            -8 => Error::InvalidFileFormat,
            -9 => Error::UnsupportedVersionTooOld,
            -10 => Error::UnsupportedVersionTooNew,
            -11 => Error::UnknownNode,
            -12 => Error::IndexOutOfBounds,
            -13 => Error::CommandAlreadyFinal,
            -14 => Error::InteropDataLayoutMismatch,
            -15 => Error::KeyNotFound,
            -16 => Error::KeyDuplicated,
            -17 => Error::NotImplemented,
            -18 => Error::IntegerOverflow,
            -19 => Error::RangeOverlapping,
            -20 => Error::ValidationFailed,
            -21 => Error::InvalidProgram,
            -22 => Error::UnsupportedModuleVersion,
            -23 => Error::TypeMismatch,
            -24 => Error::NotSupported,
            -25 => Error::RuntimeApiError,
            -26 => Error::InternalError,
            _ => Error::Unknown(code),
        }
    }

    /// The result code of this error kind.
    pub fn code(&self) -> (c: i32)
        ensures
            c == code_of_error(*self),
    {
        match self {
            Error::Unspecified => -1,
            Error::UnrecognizedCommand => -2,
            Error::InvalidArguments => -3,
            Error::InvalidData => -4,
            Error::InvalidOperation => -5,
            Error::OutOfMemory => -6,
            Error::FileNotFound => -7,
            Error::InvalidFileFormat => -8,
            Error::UnsupportedVersionTooOld => -9,
            Error::UnsupportedVersionTooNew => -10,
            Error::UnknownNode => -11,
            Error::IndexOutOfBounds => -12,
            Error::CommandAlreadyFinal => -13,
            Error::InteropDataLayoutMismatch => -14,
            Error::KeyNotFound => -15,
            Error::KeyDuplicated => -16,
            Error::NotImplemented => -17,
            Error::IntegerOverflow => -18,
            Error::RangeOverlapping => -19,
            Error::ValidationFailed => -20,
            Error::InvalidProgram => -21,
            Error::UnsupportedModuleVersion => -22,
            Error::TypeMismatch => -23,
            Error::NotSupported => -24,
            Error::RuntimeApiError => -25,
            Error::InternalError => -26,
            Error::Unknown(c) => *c,
        }
    }
}

/// Turns a result code into a `Result`: zero is success, every other code is
/// the error kind it stands for.
pub fn check_code(code: i32) -> (r: Result<(), Error>)
    ensures
        code == 0 ==> r == Ok::<(), Error>(()),
        code != 0 ==> r == Err::<(), Error>(error_of_code(code as int)),
{
    if code == 0 {
        Ok(())
    } else {
        Err(Error::from_code(code))
    }
}

/// Mapping a code to its kind and back gives the code again.
pub proof fn lemma_code_round_trip(code: i32)
    ensures
        code_of_error(error_of_code(code as int)) == code,
{
}

} // verus!
