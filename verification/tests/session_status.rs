use sysdefense::session::{
    init_com, ComGuard, SessionError, E_INVALIDARG, E_OUTOFMEMORY, E_UNEXPECTED, S_FALSE, S_OK,
};

#[test]
fn status_constants_have_their_documented_values() {
    assert_eq!(S_OK, 0);
    assert_eq!(S_FALSE, 1);
    assert_eq!(E_UNEXPECTED as u32, 0x8000FFFF);
    assert_eq!(E_OUTOFMEMORY as u32, 0x8007000E);
    assert_eq!(E_INVALIDARG as u32, 0x80070057);
}

#[test]
fn opening_the_session_makes_the_caller_its_owner() {
    let guard = init_com(S_OK).unwrap();
    assert_eq!(guard, ComGuard(true));
    assert!(guard.must_close());
}

#[test]
fn a_session_that_was_already_open_is_not_ours_to_close() {
    let guard = init_com(S_FALSE).unwrap();
    assert_eq!(guard, ComGuard(false));
    assert!(!guard.must_close());
    assert!(!init_com(7).unwrap().must_close());
}

#[test]
fn failures_are_named() {
    assert_eq!(init_com(E_OUTOFMEMORY), Err(SessionError::OutOfMemory));
    assert_eq!(init_com(E_INVALIDARG), Err(SessionError::InvalidArgument));
    assert_eq!(init_com(E_UNEXPECTED), Err(SessionError::Unexpected));
    assert_eq!(init_com(-2147417850), Err(SessionError::Other(-2147417850)));
    assert_eq!(init_com(-1), Err(SessionError::Other(-1)));
}

#[test]
fn classification_and_code_are_inverse() {
    for code in [E_OUTOFMEMORY, E_INVALIDARG, E_UNEXPECTED, -5, 1, 0, i32::MIN] {
        assert_eq!(SessionError::classify(code).code(), code);
    }
    assert_eq!(SessionError::classify(S_FALSE), SessionError::Other(1));
}
