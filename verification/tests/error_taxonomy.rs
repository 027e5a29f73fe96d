use openvino::inference::{
    STATUS_GENERAL_ERROR, STATUS_INFER_CANCELLED, STATUS_INFER_NOT_STARTED, STATUS_INVALID_C_PARAM,
    STATUS_NETWORK_NOT_LOADED, STATUS_NETWORK_NOT_READ, STATUS_NOT_ALLOCATED, STATUS_NOT_FOUND,
    STATUS_NOT_IMPLEMENTED, STATUS_NOT_IMPLEMENT_C_METHOD, STATUS_OK, STATUS_OUT_OF_BOUNDS,
    STATUS_PARAMETER_MISMATCH, STATUS_REQUEST_BUSY, STATUS_RESULT_NOT_READY, STATUS_UNEXPECTED,
    STATUS_UNKNOWN_C_ERROR, STATUS_UNKNOWN_EXCEPTION,
};
use openvino::{InferenceError, LoadingError, SetupError};

fn msg() -> String {
    "some diagnostic".to_string()
}

#[test]
fn ok_code_is_success_regardless_of_message() {
    assert_eq!(InferenceError::from(STATUS_OK, String::new()), Ok(()));
    assert_eq!(InferenceError::from(STATUS_OK, "a failure happened".to_string()), Ok(()));
    assert_eq!(InferenceError::from(0, "anything at all".to_string()), Ok(()));
}

#[test]
fn every_known_sentinel_maps_to_its_variant() {
    let cases: Vec<(i32, InferenceError)> = vec![
        (STATUS_GENERAL_ERROR, InferenceError::GeneralError { message: msg() }),
        (STATUS_NOT_IMPLEMENTED, InferenceError::NotImplemented { message: msg() }),
        (STATUS_NETWORK_NOT_LOADED, InferenceError::NetworkNotLoaded { message: msg() }),
        (STATUS_PARAMETER_MISMATCH, InferenceError::ParameterMismatch { message: msg() }),
        (STATUS_NOT_FOUND, InferenceError::NotFound { message: msg() }),
        (STATUS_OUT_OF_BOUNDS, InferenceError::OutOfBounds { message: msg() }),
        (STATUS_UNEXPECTED, InferenceError::Unexpected { message: msg() }),
        (STATUS_REQUEST_BUSY, InferenceError::RequestBusy { message: msg() }),
        (STATUS_RESULT_NOT_READY, InferenceError::ResultNotReady { message: msg() }),
        (STATUS_NOT_ALLOCATED, InferenceError::NotAllocated { message: msg() }),
        (STATUS_INFER_NOT_STARTED, InferenceError::InferNotStarted { message: msg() }),
        (STATUS_NETWORK_NOT_READ, InferenceError::NetworkNotRead { message: msg() }),
        (STATUS_INFER_CANCELLED, InferenceError::InferCancelled { message: msg() }),
        (STATUS_INVALID_C_PARAM, InferenceError::InvalidCParam { message: msg() }),
        (STATUS_UNKNOWN_C_ERROR, InferenceError::UnknownCError { message: msg() }),
        (STATUS_NOT_IMPLEMENT_C_METHOD, InferenceError::NotImplementCMethod { message: msg() }),
        (STATUS_UNKNOWN_EXCEPTION, InferenceError::UnknownException { message: msg() }),
    ];
    for (code, expected) in cases {
        assert_eq!(InferenceError::from(code, msg()), Err(expected));
    }
}

#[test]
fn known_sentinels_render_with_kind_and_message() {
    let cases: Vec<(i32, &str)> = vec![
        (STATUS_GENERAL_ERROR, "general error: (some diagnostic)"),
        (STATUS_NOT_IMPLEMENTED, "not implemented: (some diagnostic)"),
        (STATUS_NETWORK_NOT_LOADED, "network not loaded: (some diagnostic)"),
        (STATUS_PARAMETER_MISMATCH, "parameter mismatch: (some diagnostic)"),
        (STATUS_NOT_FOUND, "not found: (some diagnostic)"),
        (STATUS_OUT_OF_BOUNDS, "out of bounds: (some diagnostic)"),
        (STATUS_UNEXPECTED, "unexpected: (some diagnostic)"),
        (STATUS_REQUEST_BUSY, "request busy: (some diagnostic)"),
        (STATUS_RESULT_NOT_READY, "result not ready: (some diagnostic)"),
        (STATUS_NOT_ALLOCATED, "not allocated: (some diagnostic)"),
        (STATUS_INFER_NOT_STARTED, "infer not started: (some diagnostic)"),
        (STATUS_NETWORK_NOT_READ, "network not read: (some diagnostic)"),
        (STATUS_INFER_CANCELLED, "infer cancelled: (some diagnostic)"),
        (STATUS_INVALID_C_PARAM, "invalid c parameter: (some diagnostic)"),
        (STATUS_UNKNOWN_C_ERROR, "unknown C error: (some diagnostic)"),
        (STATUS_NOT_IMPLEMENT_C_METHOD, "not implemented C method: (some diagnostic)"),
        (STATUS_UNKNOWN_EXCEPTION, "unknown exception: (some diagnostic)"),
    ];
    for (code, expected) in cases {
        let e = InferenceError::from(code, msg()).unwrap_err();
        assert_eq!(e.to_text(), expected.to_string());
    }
}

#[test]
fn not_found_scenario() {
    let e = InferenceError::from(STATUS_NOT_FOUND, "model id 7".to_string()).unwrap_err();
    assert_eq!(e, InferenceError::NotFound { message: "model id 7".to_string() });
    assert_eq!(e.to_text(), "not found: (model id 7)".to_string());
}

#[test]
fn unmapped_code_falls_back_to_undefined() {
    let e = InferenceError::from(9999, msg()).unwrap_err();
    assert_eq!(e, InferenceError::Undefined(9999));
    assert_eq!(e.to_text(), "undefined error code: 9999".to_string());
}

#[test]
fn unmapped_negative_codes_render_with_sign() {
    let e = InferenceError::from(-100, msg()).unwrap_err();
    assert_eq!(e, InferenceError::Undefined(-100));
    assert_eq!(e.to_text(), "undefined error code: -100".to_string());

    let e = InferenceError::from(i32::MIN, msg()).unwrap_err();
    assert_eq!(e, InferenceError::Undefined(i32::MIN));
    assert_eq!(e.to_text(), "undefined error code: -2147483648".to_string());

    let e = InferenceError::from(i32::MAX, msg()).unwrap_err();
    assert_eq!(e.to_text(), "undefined error code: 2147483647".to_string());
}

#[test]
fn equality_is_structural() {
    let a = InferenceError::NotFound { message: "x".to_string() };
    let b = InferenceError::NotFound { message: "x".to_string() };
    let c = InferenceError::NotFound { message: "y".to_string() };
    let d = InferenceError::GeneralError { message: "x".to_string() };
    assert_eq!(a, b);
    assert_ne!(a, c);
    assert_ne!(a, d);
    assert_eq!(InferenceError::Undefined(3), InferenceError::Undefined(3));
    assert_ne!(InferenceError::Undefined(3), InferenceError::Undefined(4));
    assert_ne!(InferenceError::Undefined(3), InferenceError::GeneralError { message: msg() });
}

#[test]
fn rendering_is_deterministic() {
    let a = InferenceError::RequestBusy { message: "busy".to_string() };
    let b = InferenceError::RequestBusy { message: "busy".to_string() };
    assert_eq!(a.to_text(), a.to_text());
    assert_eq!(a.to_text(), b.to_text());
}

#[test]
fn loading_errors_render_their_fixed_forms() {
    assert_eq!(
        LoadingError::SystemFailure("dlopen failed".to_string()).to_text(),
        "system failed to load shared libraries (see https://github.com/intel/openvino-rs/blob/main/crates/openvino-finder): dlopen failed".to_string()
    );
    assert_eq!(
        LoadingError::CannotFindLibraryPath.to_text(),
        "cannot find path to shared libraries (see https://github.com/intel/openvino-rs/blob/main/crates/openvino-finder)".to_string()
    );
    assert_eq!(
        LoadingError::CannotFindPluginPath.to_text(),
        "cannot find path to XML plugin configuration (see https://github.com/intel/openvino-rs/blob/main/crates/openvino-finder)".to_string()
    );
    assert_eq!(
        LoadingError::CannotStringifyPath.to_text(),
        "unable to convert path to a UTF-8 string (see https://doc.rust-lang.org/std/path/struct.Path.html#method.to_str)".to_string()
    );
}

#[test]
fn wrapping_a_loading_error_preserves_it() {
    let wrapped = SetupError::from(LoadingError::CannotFindLibraryPath);
    match wrapped {
        SetupError::Loading(inner) => {
            assert!(matches!(inner, LoadingError::CannotFindLibraryPath));
        }
        SetupError::Inference(_) => {
            panic!("a wrapped loading error must never match the inference arm");
        }
    }
}

#[test]
fn wrapping_an_inference_error_preserves_it() {
    let original = InferenceError::OutOfBounds { message: "index 9".to_string() };
    let wrapped = SetupError::from(original);
    match wrapped {
        SetupError::Inference(inner) => {
            assert_eq!(inner, InferenceError::OutOfBounds { message: "index 9".to_string() });
        }
        SetupError::Loading(_) => {
            panic!("a wrapped inference error must never match the loading arm");
        }
    }
}

#[test]
fn wrapping_distinguishes_the_families() {
    let a = SetupError::from(InferenceError::Undefined(1));
    let b = SetupError::from(LoadingError::CannotStringifyPath);
    assert!(matches!(a, SetupError::Inference(_)));
    assert!(matches!(b, SetupError::Loading(_)));
    assert_eq!(a.to_text(), "inference error".to_string());
    assert_eq!(b.to_text(), "library loading error".to_string());
}

#[test]
fn question_mark_propagates_both_families() {
    fn inference_side() -> Result<(), SetupError> {
        InferenceError::from(STATUS_REQUEST_BUSY, "still running".to_string())?;
        Ok(())
    }
    fn loading_side() -> Result<(), SetupError> {
        Err(LoadingError::CannotFindPluginPath)?
    }
    assert!(matches!(
        inference_side(),
        Err(SetupError::Inference(InferenceError::RequestBusy { .. }))
    ));
    assert!(matches!(loading_side(), Err(SetupError::Loading(LoadingError::CannotFindPluginPath))));
}
