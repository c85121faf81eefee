use vstd::prelude::*;

verus! {

/// Every way in which one run of the tool can fail.
#[derive(Clone, Copy, Debug, PartialEq, Eq, Structural)]
pub enum ErrorKind {
    /// Malformed or missing command-line flags.
    ArgumentError,
    /// The shared-secret source could not be read.
    KeyError,
    /// An input or output file could not be read or written.
    IoError,
    /// A stored envelope is malformed (too short, not whole blocks).
    FormatError,
    /// The cipher or the MAC primitive failed, or the padding did not validate.
    CryptoError,
    /// The authentication tag does not match the envelope.
    VerificationFailure,
}

/// The process exit status that stands for an error.
pub open spec fn exit_code_of(e: ErrorKind) -> i32 {
    if e == ErrorKind::VerificationFailure {
        1
    } else {
        2
    }
}

/// Exit status for a failed run: 1 for a verification failure, 2 for any
/// other error.
pub fn exit_code(e: ErrorKind) -> (r: i32)
    ensures
        r == exit_code_of(e),
{
    match e {
        ErrorKind::VerificationFailure => 1,
        _ => 2,
    }
}

} // verus!
