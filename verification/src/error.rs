//! Errors raised while reading a class file.
use vstd::prelude::*;

verus! {

/// The value that a failed read of bytes yields: the stream ended early.
#[verifier::external_type_specification]
#[verifier::external_body]
pub struct ExIoError(std::io::Error);

/// The error that `String::from_utf8` reports for bytes that are not UTF-8.
#[verifier::external_type_specification]
#[verifier::external_body]
pub struct ExFromUtf8Error(std::string::FromUtf8Error);

/// An error which can occur on deserialization of a class file.
#[derive(Debug)]
pub enum ClassFileError {
    /// A generic I/O error (the bytes ended before an item did).
    IoError(std::io::Error),
    /// Returned when a class file has a bad magic number.
    BadMagicNumber(u32),
    /// Returned when an unknown constant pool tag is found.
    UnknownConstantPoolTag(u8),
    /// Returned when invalid UTF-8 is found.
    InvalidUTF8Error(std::string::FromUtf8Error),
    /// Returned when an unknown reference kind is found.
    UnknownReferenceKind(u8),
    /// Returned when bad class access flags are found.
    BadClassAccessFlags,
    /// Returned when an unknown verification type info tag is found.
    UnknownVerificationTypeInfo,
    /// Returned when an unknown stack map frame tag is found.
    UnknownStackMapFrameTag(u8),
    /// Returned when an unknown element value type is found.
    UnknownElementValueType(char),
    /// Returned when an unknown target type value is found.
    UnknownTargetTypeValue(u8),
    /// Returned when an unknown type path kind value is found.
    UnknownTypePathKind(u8),
    /// Returned when bad formal parameter access flags are found.
    BadFormalParameterAccessFlags,
    /// Returned when a string constant was expected.
    ExpectedString,
    /// Returned when an unknown attribute is found.
    UnknownAttribute(String),
    /// Returned when bad field access flags are found.
    BadFieldAccessFlags,
    /// Returned when bad method access flags are found.
    BadMethodAccessFlags,
    /// Returned when an unknown opcode is found.
    UnknownOpcodeError(u8),
    /// Returned when an unknown enum variant is found.
    UnknownEnumVariant(&'static str, i32),
    /// Returned when an offset computation leaves its range.
    ArithmeticError,
}

/// Mathematical form of [`ClassFileError`]: the same variants, with the
/// text of a string and the bytes of a vector as sequences.
pub enum ClassFileErrorV {
    IoError,
    BadMagicNumber(u32),
    UnknownConstantPoolTag(u8),
    InvalidUTF8Error,
    UnknownReferenceKind(u8),
    BadClassAccessFlags,
    UnknownVerificationTypeInfo,
    UnknownStackMapFrameTag(u8),
    UnknownElementValueType(char),
    UnknownTargetTypeValue(u8),
    UnknownTypePathKind(u8),
    BadFormalParameterAccessFlags,
    ExpectedString,
    UnknownAttribute(Seq<char>),
    BadFieldAccessFlags,
    BadMethodAccessFlags,
    UnknownOpcodeError(u8),
    UnknownEnumVariant(Seq<char>, i32),
    ArithmeticError,
    /// Not an error that the library returns: it marks the inputs on which
    /// reading would stop the program (an index outside the constant pool,
    /// a count that underflows). The contracts leave those inputs out.
    Aborts,
}

impl View for ClassFileError {
    type V = ClassFileErrorV;

    open spec fn view(&self) -> ClassFileErrorV {
        match self {
            ClassFileError::IoError(_) => ClassFileErrorV::IoError,
            ClassFileError::BadMagicNumber(v) => ClassFileErrorV::BadMagicNumber(*v),
            ClassFileError::UnknownConstantPoolTag(v) => ClassFileErrorV::UnknownConstantPoolTag(*v),
            ClassFileError::InvalidUTF8Error(_) => ClassFileErrorV::InvalidUTF8Error,
            ClassFileError::UnknownReferenceKind(v) => ClassFileErrorV::UnknownReferenceKind(*v),
            ClassFileError::BadClassAccessFlags => ClassFileErrorV::BadClassAccessFlags,
            ClassFileError::UnknownVerificationTypeInfo => ClassFileErrorV::UnknownVerificationTypeInfo,
            ClassFileError::UnknownStackMapFrameTag(v) => ClassFileErrorV::UnknownStackMapFrameTag(*v),
            ClassFileError::UnknownElementValueType(c) => ClassFileErrorV::UnknownElementValueType(*c),
            ClassFileError::UnknownTargetTypeValue(v) => ClassFileErrorV::UnknownTargetTypeValue(*v),
            ClassFileError::UnknownTypePathKind(v) => ClassFileErrorV::UnknownTypePathKind(*v),
            ClassFileError::BadFormalParameterAccessFlags => ClassFileErrorV::BadFormalParameterAccessFlags,
            ClassFileError::ExpectedString => ClassFileErrorV::ExpectedString,
            ClassFileError::UnknownAttribute(s) => ClassFileErrorV::UnknownAttribute(s@),
            ClassFileError::BadFieldAccessFlags => ClassFileErrorV::BadFieldAccessFlags,
            ClassFileError::BadMethodAccessFlags => ClassFileErrorV::BadMethodAccessFlags,
            ClassFileError::UnknownOpcodeError(v) => ClassFileErrorV::UnknownOpcodeError(*v),
            ClassFileError::UnknownEnumVariant(s, v) => ClassFileErrorV::UnknownEnumVariant(s@, *v),
            ClassFileError::ArithmeticError => ClassFileErrorV::ArithmeticError,
        }
    }
}

/// `std::io::Error::from` applied to `ErrorKind::UnexpectedEof`: the error
/// that `read_exact` reports when its source ends early. Nothing is stated
/// of the value, which the library only carries.
#[verifier::external_body]
pub(crate) fn unexpected_eof() -> std::io::Error {
    std::io::Error::from(std::io::ErrorKind::UnexpectedEof)
}

} // verus!
