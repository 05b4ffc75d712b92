//! The error taxonomy: raw engine status codes, their translation into a
//! closed enumeration, and the compile-error diagnostic record.
//!
//! Every status code an engine call returns is translated exactly once, at
//! the call boundary, into either a success value or an [`Error`].  An
//! unrecognized code degrades to [`Error::UnknownCode`] instead of panicking,
//! so callers survive future engine versions.

use vstd::prelude::*;

verus! {

/// The reserved success sentinel.
pub const STATUS_SUCCESS: i32 = 0;
/// A parameter passed to the call was invalid.
pub const STATUS_INVALID: i32 = -1;
/// A memory allocation failed.
pub const STATUS_NOMEM: i32 = -2;
/// The engine was terminated by the callback.
pub const STATUS_SCAN_TERMINATED: i32 = -3;
/// The pattern compiler failed; a diagnostic record may carry detail.
pub const STATUS_COMPILER_ERROR: i32 = -4;
/// The database was built for a different engine version.
pub const STATUS_DB_VERSION_ERROR: i32 = -5;
/// The database was built for a different platform.
pub const STATUS_DB_PLATFORM_ERROR: i32 = -6;
/// The database was built for a different mode of operation.
pub const STATUS_DB_MODE_ERROR: i32 = -7;
/// A parameter passed to the call was not correctly aligned.
pub const STATUS_BAD_ALIGN: i32 = -8;
/// The allocator returned insufficiently aligned memory.
pub const STATUS_BAD_ALLOC: i32 = -9;
/// The scratch region was already in use.
pub const STATUS_SCRATCH_IN_USE: i32 = -10;
/// An internal fatal error occurred during matching.
pub const STATUS_FAIL_INTERNAL: i32 = -32;

/// Diagnostic record describing why pattern compilation failed.
///
/// The record is a single-owner, move-only value: once it is dropped (its
/// only form of release) no accessor can be reached again, so use after
/// destruction is ruled out by construction.  Immutable once produced.
#[derive(Debug)]
pub struct CompileError {
    message: String,
    expression: i32,
}

impl CompileError {
    /// The diagnostic message, as the engine produced it.
    pub closed spec fn spec_message(&self) -> Seq<char> {
        self.message@
    }

    /// The raw offending-expression index; the engine encodes "not
    /// determinable" as a negative sentinel.
    pub closed spec fn spec_expression_raw(&self) -> int {
        self.expression as int
    }

    /// Wraps a diagnostic produced by the compilation collaborator.
    pub fn new(message: String, expression: i32) -> (r: CompileError)
        ensures
            r.spec_message() == message@,
            r.spec_expression_raw() == expression as int,
    {
        CompileError { message, expression }
    }

    /// A human-readable error message describing the error.
    pub fn message(&self) -> (r: &str)
        ensures
            r@ == self.spec_message(),
    {
        self.message.as_str()
    }

    /// The zero-based number of the expression that caused the error, absent
    /// when the engine could not determine it (negative raw index).
    pub fn expression(&self) -> (r: Option<usize>)
        ensures
            self.spec_expression_raw() < 0 ==> r is None,
            self.spec_expression_raw() >= 0 ==> r == Some(self.spec_expression_raw() as usize),
    {
        if self.expression < 0 {
            None
        } else {
            Some(self.expression as usize)
        }
    }
}

/// The closed taxonomy of failures an engine call can report.
#[derive(Debug)]
pub enum Error {
    /// A parameter passed to the call was invalid.
    Invalid,
    /// A memory allocation failed.
    NoMem,
    /// The callback requested that scanning cease after a match; the buffer
    /// was only partially scanned.  A successful early exit, not a failure.
    ScanTerminated,
    /// The pattern compiler failed and left a diagnostic record.
    CompileError(CompileError),
    /// The pattern compiler failed without a usable diagnostic record.
    CompilerError,
    /// The database was built for a different engine version.
    DbVersionError,
    /// The database was built for a different platform.
    DbPlatformError,
    /// The database was built for a different mode of operation (streaming
    /// calls on a block database, or the reverse).
    DbModeError,
    /// A parameter passed to the call was not correctly aligned.
    BadAlign,
    /// The allocator returned insufficiently aligned memory.
    BadAlloc,
    /// The scratch region was already in use by another call (best-effort
    /// detection only).
    ScratchInUse,
    /// The engine failed due to an internal fatal error.
    InternalFailure,
    /// Forward-compatibility fallback: a status code this taxonomy does not
    /// recognize, carried verbatim.
    UnknownCode(i32),
}

/// What [`translate`] returns for every raw status code: the success
/// sentinel maps to `Ok`, each recognized sentinel to its named variant, and
/// anything else to `UnknownCode` with the raw code preserved.
pub open spec fn translate_spec(raw: i32) -> Result<(), Error> {
    if raw == STATUS_SUCCESS {
        Ok(())
    } else if raw == STATUS_INVALID {
        Err(Error::Invalid)
    } else if raw == STATUS_NOMEM {
        Err(Error::NoMem)
    } else if raw == STATUS_SCAN_TERMINATED {
        Err(Error::ScanTerminated)
    } else if raw == STATUS_COMPILER_ERROR {
        Err(Error::CompilerError)
    } else if raw == STATUS_DB_VERSION_ERROR {
        Err(Error::DbVersionError)
    } else if raw == STATUS_DB_PLATFORM_ERROR {
        Err(Error::DbPlatformError)
    } else if raw == STATUS_DB_MODE_ERROR {
        Err(Error::DbModeError)
    } else if raw == STATUS_BAD_ALIGN {
        Err(Error::BadAlign)
    } else if raw == STATUS_BAD_ALLOC {
        Err(Error::BadAlloc)
    } else if raw == STATUS_SCRATCH_IN_USE {
        Err(Error::ScratchInUse)
    } else if raw == STATUS_FAIL_INTERNAL {
        Err(Error::InternalFailure)
    } else {
        Err(Error::UnknownCode(raw))
    }
}

/// Base translation of a raw status code, for calls that produce no extra
/// diagnostic output.  Total: defined (and panic-free) on every `i32`.
///
/// The compiler-failure sentinel is a recognized code and maps to the
/// generic [`Error::CompilerError`] here — without a diagnostic record
/// there is no detail to carry — so the unknown-code fallback is reserved
/// for codes the taxonomy genuinely does not know.
pub fn translate(raw: i32) -> (r: Result<(), Error>)
    ensures
        r == translate_spec(raw),
{
    if raw == STATUS_SUCCESS {
        Ok(())
    } else if raw == STATUS_INVALID {
        Err(Error::Invalid)
    } else if raw == STATUS_NOMEM {
        Err(Error::NoMem)
    } else if raw == STATUS_SCAN_TERMINATED {
        Err(Error::ScanTerminated)
    } else if raw == STATUS_COMPILER_ERROR {
        Err(Error::CompilerError)
    } else if raw == STATUS_DB_VERSION_ERROR {
        Err(Error::DbVersionError)
    } else if raw == STATUS_DB_PLATFORM_ERROR {
        Err(Error::DbPlatformError)
    } else if raw == STATUS_DB_MODE_ERROR {
        Err(Error::DbModeError)
    } else if raw == STATUS_BAD_ALIGN {
        Err(Error::BadAlign)
    } else if raw == STATUS_BAD_ALLOC {
        Err(Error::BadAlloc)
    } else if raw == STATUS_SCRATCH_IN_USE {
        Err(Error::ScratchInUse)
    } else if raw == STATUS_FAIL_INTERNAL {
        Err(Error::InternalFailure)
    } else {
        Err(Error::UnknownCode(raw))
    }
}

/// What [`translate_with_diagnostic`] returns: the compiler-failure sentinel
/// yields `CompileError` exactly when a diagnostic record is present, and
/// degrades to the generic `CompilerError` when it is absent; every other
/// code translates as [`translate_spec`] says.
pub open spec fn translate_with_diagnostic_spec(raw: i32, diagnostic: Option<CompileError>) -> Result<
    (),
    Error,
> {
    if raw == STATUS_COMPILER_ERROR {
        match diagnostic {
            Some(record) => Err(Error::CompileError(record)),
            None => Err(Error::CompilerError),
        }
    } else {
        translate_spec(raw)
    }
}

/// Translation for the compile path, which may hand back a diagnostic
/// record beside the status code.
///
/// The presence check mirrors the null-pointer check the foreign interface
/// demands: the rich `CompileError` variant is built only when both the
/// reserved code and a record are present; the reserved code without a
/// record degrades to the generic `CompilerError`.  A record arriving with
/// any other code (the success sentinel included) is dropped.
pub fn translate_with_diagnostic(raw: i32, diagnostic: Option<CompileError>) -> (r: Result<
    (),
    Error,
>)
    ensures
        r == translate_with_diagnostic_spec(raw, diagnostic),
{
    if raw == STATUS_COMPILER_ERROR {
        match diagnostic {
            Some(record) => Err(Error::CompileError(record)),
            None => Err(Error::CompilerError),
        }
    } else {
        translate(raw)
    }
}

/// Status-code carriers that can be turned into a `Result` at the call
/// boundary.
pub trait AsResult: Sized {
    type Output;

    type Error;

    /// What [`AsResult::ok`] returns for this value.
    spec fn ok_spec(self) -> Result<Self::Output, Self::Error>;

    /// Translates this status into a success value or an error.
    fn ok(self) -> (r: Result<Self::Output, Self::Error>)
        ensures
            r == self.ok_spec(),
    ;
}

impl AsResult for i32 {
    type Output = ();

    type Error = Error;

    open spec fn ok_spec(self) -> Result<(), Error> {
        translate_spec(self)
    }

    fn ok(self) -> (r: Result<(), Error>) {
        translate(self)
    }
}

/// Status-code carriers of the compile path, which may come with a
/// diagnostic record.
pub trait AsCompileResult: Sized {
    type Output;

    type Error;

    /// What [`AsCompileResult::ok_or`] returns for this value.
    spec fn ok_or_spec(self, diagnostic: Option<CompileError>) -> Result<
        Self::Output,
        Self::Error,
    >;

    /// Translates this status, consuming the diagnostic record the compile
    /// call produced, if any.
    fn ok_or(self, diagnostic: Option<CompileError>) -> (r: Result<Self::Output, Self::Error>)
        ensures
            r == self.ok_or_spec(diagnostic),
    ;
}

impl AsCompileResult for i32 {
    type Output = ();

    type Error = Error;

    open spec fn ok_or_spec(self, diagnostic: Option<CompileError>) -> Result<(), Error> {
        translate_with_diagnostic_spec(self, diagnostic)
    }

    fn ok_or(self, diagnostic: Option<CompileError>) -> (r: Result<(), Error>) {
        translate_with_diagnostic(self, diagnostic)
    }
}

} // verus!
