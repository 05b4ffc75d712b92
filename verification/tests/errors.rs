use hyperscan::errors::{
    translate, translate_with_diagnostic, AsCompileResult, AsResult, CompileError, Error,
    STATUS_BAD_ALIGN, STATUS_BAD_ALLOC, STATUS_COMPILER_ERROR, STATUS_DB_MODE_ERROR,
    STATUS_DB_PLATFORM_ERROR, STATUS_DB_VERSION_ERROR, STATUS_FAIL_INTERNAL, STATUS_INVALID,
    STATUS_NOMEM, STATUS_SCAN_TERMINATED, STATUS_SCRATCH_IN_USE, STATUS_SUCCESS,
};

#[test]
fn translate_success_sentinel() {
    assert!(matches!(translate(STATUS_SUCCESS), Ok(())));
}

#[test]
fn translate_recognized_codes() {
    assert!(matches!(translate(STATUS_INVALID), Err(Error::Invalid)));
    assert!(matches!(translate(STATUS_NOMEM), Err(Error::NoMem)));
    assert!(matches!(translate(STATUS_SCAN_TERMINATED), Err(Error::ScanTerminated)));
    assert!(matches!(translate(STATUS_COMPILER_ERROR), Err(Error::CompilerError)));
    assert!(matches!(translate(STATUS_DB_VERSION_ERROR), Err(Error::DbVersionError)));
    assert!(matches!(translate(STATUS_DB_PLATFORM_ERROR), Err(Error::DbPlatformError)));
    assert!(matches!(translate(STATUS_DB_MODE_ERROR), Err(Error::DbModeError)));
    assert!(matches!(translate(STATUS_BAD_ALIGN), Err(Error::BadAlign)));
    assert!(matches!(translate(STATUS_BAD_ALLOC), Err(Error::BadAlloc)));
    assert!(matches!(translate(STATUS_SCRATCH_IN_USE), Err(Error::ScratchInUse)));
    assert!(matches!(translate(STATUS_FAIL_INTERNAL), Err(Error::InternalFailure)));
}

#[test]
fn translate_unknown_code_carries_raw() {
    match translate(-99) {
        Err(Error::UnknownCode(raw)) => assert_eq!(raw, -99),
        other => panic!("expected UnknownCode, got {:?}", other),
    }
    match translate(17) {
        Err(Error::UnknownCode(raw)) => assert_eq!(raw, 17),
        other => panic!("expected UnknownCode, got {:?}", other),
    }
}

#[test]
fn translate_never_panics_on_arbitrary_codes() {
    for raw in -1000..1000 {
        let _ = translate(raw);
    }
    let _ = translate(i32::MIN);
    let _ = translate(i32::MAX);
}

#[test]
fn diagnostic_present_upgrades_to_compile_error() {
    let record = CompileError::new(String::from("unbalanced parenthesis"), 2);
    match translate_with_diagnostic(STATUS_COMPILER_ERROR, Some(record)) {
        Err(Error::CompileError(rec)) => {
            assert_eq!(rec.message(), "unbalanced parenthesis");
            assert_eq!(rec.expression(), Some(2));
        }
        other => panic!("expected CompileError, got {:?}", other),
    }
}

#[test]
fn diagnostic_absent_degrades_to_generic() {
    assert!(matches!(
        translate_with_diagnostic(STATUS_COMPILER_ERROR, None),
        Err(Error::CompilerError)
    ));
}

#[test]
fn diagnostic_ignored_on_other_codes() {
    let record = CompileError::new(String::from("unused"), 0);
    assert!(matches!(
        translate_with_diagnostic(STATUS_NOMEM, Some(record)),
        Err(Error::NoMem)
    ));
    let record = CompileError::new(String::from("unused"), 0);
    assert!(matches!(translate_with_diagnostic(STATUS_SUCCESS, Some(record)), Ok(())));
    assert!(matches!(translate_with_diagnostic(STATUS_SUCCESS, None), Ok(())));
}

#[test]
fn expression_negative_sentinel_is_absent() {
    let record = CompileError::new(String::from("somewhere"), -1);
    assert_eq!(record.expression(), None);
    let record = CompileError::new(String::from("first"), 0);
    assert_eq!(record.expression(), Some(0));
}

#[test]
fn as_result_on_raw_codes() {
    assert!(matches!(STATUS_SUCCESS.ok(), Ok(())));
    assert!(matches!(STATUS_INVALID.ok(), Err(Error::Invalid)));
    match (-123i32).ok() {
        Err(Error::UnknownCode(raw)) => assert_eq!(raw, -123),
        other => panic!("expected UnknownCode, got {:?}", other),
    }
}

#[test]
fn as_compile_result_on_raw_codes() {
    assert!(matches!(STATUS_SUCCESS.ok_or(None), Ok(())));
    assert!(matches!(STATUS_COMPILER_ERROR.ok_or(None), Err(Error::CompilerError)));
    let record = CompileError::new(String::from("bad class"), 1);
    match STATUS_COMPILER_ERROR.ok_or(Some(record)) {
        Err(Error::CompileError(rec)) => {
            assert_eq!(rec.message(), "bad class");
            assert_eq!(rec.expression(), Some(1));
        }
        other => panic!("expected CompileError, got {:?}", other),
    }
}
