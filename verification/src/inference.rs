//! Classification of the native engine's integer status codes into a
//! closed error taxonomy.
//!
//! A native call reports success or failure as an integer status code; on
//! failure the engine also exposes a process-global "last error" message.
//! The caller that performs the native call reads that message immediately
//! after observing a non-success code (before any other native call could
//! overwrite it) and hands both values to [`InferenceError::from`], which
//! never fails: every known sentinel maps to its own variant carrying the
//! message, and any other code falls back to [`InferenceError::Undefined`]
//! with the raw code (the message is discarded on that path).

use vstd::prelude::*;
use vstd::string::StringExecFns;

use crate::text::dec_int;
use crate::text::i32_to_dec;

verus! {

/// The engine's status sentinel for success.
pub const STATUS_OK: i32 = 0;

/// The engine's status sentinel for a general error.
pub const STATUS_GENERAL_ERROR: i32 = -1;

/// The engine's status sentinel for an unimplemented operation.
pub const STATUS_NOT_IMPLEMENTED: i32 = -2;

/// The engine's status sentinel for a network that was not loaded.
pub const STATUS_NETWORK_NOT_LOADED: i32 = -3;

/// The engine's status sentinel for a parameter mismatch.
pub const STATUS_PARAMETER_MISMATCH: i32 = -4;

/// The engine's status sentinel for a missing item.
pub const STATUS_NOT_FOUND: i32 = -5;

/// The engine's status sentinel for an out-of-bounds access.
pub const STATUS_OUT_OF_BOUNDS: i32 = -6;

/// The engine's status sentinel for an unexpected condition.
pub const STATUS_UNEXPECTED: i32 = -7;

/// The engine's status sentinel for a busy inference request.
pub const STATUS_REQUEST_BUSY: i32 = -8;

/// The engine's status sentinel for a result that is not ready.
pub const STATUS_RESULT_NOT_READY: i32 = -9;

/// The engine's status sentinel for unallocated data.
pub const STATUS_NOT_ALLOCATED: i32 = -10;

/// The engine's status sentinel for an inference that was not started.
pub const STATUS_INFER_NOT_STARTED: i32 = -11;

/// The engine's status sentinel for a network that was not read.
pub const STATUS_NETWORK_NOT_READ: i32 = -12;

/// The engine's status sentinel for a cancelled inference.
pub const STATUS_INFER_CANCELLED: i32 = -13;

/// The engine's status sentinel for an invalid binding-layer parameter.
pub const STATUS_INVALID_C_PARAM: i32 = -14;

/// The engine's status sentinel for an unknown binding-layer error.
pub const STATUS_UNKNOWN_C_ERROR: i32 = -15;

/// The engine's status sentinel for an unimplemented binding-layer method.
pub const STATUS_NOT_IMPLEMENT_C_METHOD: i32 = -16;

/// The engine's status sentinel for an unknown native exception.
pub const STATUS_UNKNOWN_EXCEPTION: i32 = -17;

/// Errors returned by the native inference engine, one variant per known
/// status sentinel. Each variant but [`InferenceError::Undefined`] carries
/// the last-error message captured when the failure was observed;
/// `Undefined` carries the raw status code of a sentinel outside the known
/// mapping.
#[derive(Debug)]
pub enum InferenceError {
    GeneralError { message: String },
    NotImplemented { message: String },
    NetworkNotLoaded { message: String },
    ParameterMismatch { message: String },
    NotFound { message: String },
    OutOfBounds { message: String },
    Unexpected { message: String },
    RequestBusy { message: String },
    ResultNotReady { message: String },
    NotAllocated { message: String },
    InferNotStarted { message: String },
    NetworkNotRead { message: String },
    InferCancelled { message: String },
    InvalidCParam { message: String },
    UnknownCError { message: String },
    NotImplementCMethod { message: String },
    UnknownException { message: String },
    Undefined(i32),
}

/// The mathematical model of an [`InferenceError`]: the same taxonomy with
/// each message abstracted to its character sequence.
pub enum InferenceErrorView {
    GeneralError { message: Seq<char> },
    NotImplemented { message: Seq<char> },
    NetworkNotLoaded { message: Seq<char> },
    ParameterMismatch { message: Seq<char> },
    NotFound { message: Seq<char> },
    OutOfBounds { message: Seq<char> },
    Unexpected { message: Seq<char> },
    RequestBusy { message: Seq<char> },
    ResultNotReady { message: Seq<char> },
    NotAllocated { message: Seq<char> },
    InferNotStarted { message: Seq<char> },
    NetworkNotRead { message: Seq<char> },
    InferCancelled { message: Seq<char> },
    InvalidCParam { message: Seq<char> },
    UnknownCError { message: Seq<char> },
    NotImplementCMethod { message: Seq<char> },
    UnknownException { message: Seq<char> },
    Undefined(i32),
}

impl View for InferenceError {
    type V = InferenceErrorView;

    open spec fn view(&self) -> InferenceErrorView {
        match self {
            InferenceError::GeneralError { message } => InferenceErrorView::GeneralError {
                message: message@,
            },
            InferenceError::NotImplemented { message } => InferenceErrorView::NotImplemented {
                message: message@,
            },
            InferenceError::NetworkNotLoaded { message } => InferenceErrorView::NetworkNotLoaded {
                message: message@,
            },
            InferenceError::ParameterMismatch { message } => InferenceErrorView::ParameterMismatch {
                message: message@,
            },
            InferenceError::NotFound { message } => InferenceErrorView::NotFound {
                message: message@,
            },
            InferenceError::OutOfBounds { message } => InferenceErrorView::OutOfBounds {
                message: message@,
            },
            InferenceError::Unexpected { message } => InferenceErrorView::Unexpected {
                message: message@,
            },
            InferenceError::RequestBusy { message } => InferenceErrorView::RequestBusy {
                message: message@,
            },
            InferenceError::ResultNotReady { message } => InferenceErrorView::ResultNotReady {
                message: message@,
            },
            InferenceError::NotAllocated { message } => InferenceErrorView::NotAllocated {
                message: message@,
            },
            InferenceError::InferNotStarted { message } => InferenceErrorView::InferNotStarted {
                message: message@,
            },
            InferenceError::NetworkNotRead { message } => InferenceErrorView::NetworkNotRead {
                message: message@,
            },
            InferenceError::InferCancelled { message } => InferenceErrorView::InferCancelled {
                message: message@,
            },
            InferenceError::InvalidCParam { message } => InferenceErrorView::InvalidCParam {
                message: message@,
            },
            InferenceError::UnknownCError { message } => InferenceErrorView::UnknownCError {
                message: message@,
            },
            InferenceError::NotImplementCMethod { message } => (
            InferenceErrorView::NotImplementCMethod { message: message@ }),
            InferenceError::UnknownException { message } => InferenceErrorView::UnknownException {
                message: message@,
            },
            InferenceError::Undefined(code) => InferenceErrorView::Undefined(*code),
        }
    }
}

/// Whether `code` is one of the known failure sentinels (success is not
/// among them).
pub open spec fn is_known_code(code: i32) -> bool {
    ||| code == STATUS_GENERAL_ERROR
    ||| code == STATUS_NOT_IMPLEMENTED
    ||| code == STATUS_NETWORK_NOT_LOADED
    ||| code == STATUS_PARAMETER_MISMATCH
    ||| code == STATUS_NOT_FOUND
    ||| code == STATUS_OUT_OF_BOUNDS
    ||| code == STATUS_UNEXPECTED
    ||| code == STATUS_REQUEST_BUSY
    ||| code == STATUS_RESULT_NOT_READY
    ||| code == STATUS_NOT_ALLOCATED
    ||| code == STATUS_INFER_NOT_STARTED
    ||| code == STATUS_NETWORK_NOT_READ
    ||| code == STATUS_INFER_CANCELLED
    ||| code == STATUS_INVALID_C_PARAM
    ||| code == STATUS_UNKNOWN_C_ERROR
    ||| code == STATUS_NOT_IMPLEMENT_C_METHOD
    ||| code == STATUS_UNKNOWN_EXCEPTION
}

/// The variant that a non-success status code classifies to, carrying the
/// captured last-error message; codes outside the known mapping fall back
/// to the catch-all with the raw code alone.
pub open spec fn spec_classify(code: i32, message: Seq<char>) -> InferenceErrorView {
    if code == STATUS_GENERAL_ERROR {
        InferenceErrorView::GeneralError { message }
    } else if code == STATUS_NOT_IMPLEMENTED {
        InferenceErrorView::NotImplemented { message }
    } else if code == STATUS_NETWORK_NOT_LOADED {
        InferenceErrorView::NetworkNotLoaded { message }
    } else if code == STATUS_PARAMETER_MISMATCH {
        InferenceErrorView::ParameterMismatch { message }
    } else if code == STATUS_NOT_FOUND {
        InferenceErrorView::NotFound { message }
    } else if code == STATUS_OUT_OF_BOUNDS {
        InferenceErrorView::OutOfBounds { message }
    } else if code == STATUS_UNEXPECTED {
        InferenceErrorView::Unexpected { message }
    } else if code == STATUS_REQUEST_BUSY {
        InferenceErrorView::RequestBusy { message }
    } else if code == STATUS_RESULT_NOT_READY {
        InferenceErrorView::ResultNotReady { message }
    } else if code == STATUS_NOT_ALLOCATED {
        InferenceErrorView::NotAllocated { message }
    } else if code == STATUS_INFER_NOT_STARTED {
        InferenceErrorView::InferNotStarted { message }
    } else if code == STATUS_NETWORK_NOT_READ {
        InferenceErrorView::NetworkNotRead { message }
    } else if code == STATUS_INFER_CANCELLED {
        InferenceErrorView::InferCancelled { message }
    } else if code == STATUS_INVALID_C_PARAM {
        InferenceErrorView::InvalidCParam { message }
    } else if code == STATUS_UNKNOWN_C_ERROR {
        InferenceErrorView::UnknownCError { message }
    } else if code == STATUS_NOT_IMPLEMENT_C_METHOD {
        InferenceErrorView::NotImplementCMethod { message }
    } else if code == STATUS_UNKNOWN_EXCEPTION {
        InferenceErrorView::UnknownException { message }
    } else {
        InferenceErrorView::Undefined(code)
    }
}

/// The translation of a status code together with the last-error message
/// that was current when the code was observed: success for the success
/// sentinel, a classified error for everything else.
pub open spec fn spec_translate(code: i32, message: Seq<char>) -> Result<(), InferenceErrorView> {
    if code == STATUS_OK {
        Ok(())
    } else {
        Err(spec_classify(code, message))
    }
}

/// The model of a translation result.
pub open spec fn result_view(r: Result<(), InferenceError>) -> Result<(), InferenceErrorView> {
    match r {
        Ok(()) => Ok(()),
        Err(e) => Err(e@),
    }
}

/// The message a variant carries, if any (the catch-all carries none).
pub open spec fn message_of(v: InferenceErrorView) -> Option<Seq<char>> {
    match v {
        InferenceErrorView::GeneralError { message } => Some(message),
        InferenceErrorView::NotImplemented { message } => Some(message),
        InferenceErrorView::NetworkNotLoaded { message } => Some(message),
        InferenceErrorView::ParameterMismatch { message } => Some(message),
        InferenceErrorView::NotFound { message } => Some(message),
        InferenceErrorView::OutOfBounds { message } => Some(message),
        InferenceErrorView::Unexpected { message } => Some(message),
        InferenceErrorView::RequestBusy { message } => Some(message),
        InferenceErrorView::ResultNotReady { message } => Some(message),
        InferenceErrorView::NotAllocated { message } => Some(message),
        InferenceErrorView::InferNotStarted { message } => Some(message),
        InferenceErrorView::NetworkNotRead { message } => Some(message),
        InferenceErrorView::InferCancelled { message } => Some(message),
        InferenceErrorView::InvalidCParam { message } => Some(message),
        InferenceErrorView::UnknownCError { message } => Some(message),
        InferenceErrorView::NotImplementCMethod { message } => Some(message),
        InferenceErrorView::UnknownException { message } => Some(message),
        InferenceErrorView::Undefined(_) => None,
    }
}

impl InferenceError {
    /// Convert a status code and the last-error message captured alongside
    /// it to a [`Result`]: the success sentinel becomes `Ok`, anything else
    /// becomes `Err` with the classified variant. Total: no code is
    /// rejected.
    pub fn from(error_code: i32, message: String) -> (r: Result<(), InferenceError>)
        ensures
            result_view(r) == spec_translate(error_code, message@),
            r is Ok <==> error_code == STATUS_OK,
    {
        if error_code == STATUS_OK {
            return Ok(());
        }
        let e = if error_code == STATUS_GENERAL_ERROR {
            InferenceError::GeneralError { message }
        } else if error_code == STATUS_NOT_IMPLEMENTED {
            InferenceError::NotImplemented { message }
        } else if error_code == STATUS_NETWORK_NOT_LOADED {
            InferenceError::NetworkNotLoaded { message }
        } else if error_code == STATUS_PARAMETER_MISMATCH {
            InferenceError::ParameterMismatch { message }
        } else if error_code == STATUS_NOT_FOUND {
            InferenceError::NotFound { message }
        } else if error_code == STATUS_OUT_OF_BOUNDS {
            InferenceError::OutOfBounds { message }
        } else if error_code == STATUS_UNEXPECTED {
            InferenceError::Unexpected { message }
        } else if error_code == STATUS_REQUEST_BUSY {
            InferenceError::RequestBusy { message }
        } else if error_code == STATUS_RESULT_NOT_READY {
            InferenceError::ResultNotReady { message }
        } else if error_code == STATUS_NOT_ALLOCATED {
            InferenceError::NotAllocated { message }
        } else if error_code == STATUS_INFER_NOT_STARTED {
            InferenceError::InferNotStarted { message }
        } else if error_code == STATUS_NETWORK_NOT_READ {
            InferenceError::NetworkNotRead { message }
        } else if error_code == STATUS_INFER_CANCELLED {
            InferenceError::InferCancelled { message }
        } else if error_code == STATUS_INVALID_C_PARAM {
            InferenceError::InvalidCParam { message }
        } else if error_code == STATUS_UNKNOWN_C_ERROR {
            InferenceError::UnknownCError { message }
        } else if error_code == STATUS_NOT_IMPLEMENT_C_METHOD {
            InferenceError::NotImplementCMethod { message }
        } else if error_code == STATUS_UNKNOWN_EXCEPTION {
            InferenceError::UnknownException { message }
        } else {
            InferenceError::Undefined(error_code)
        };
        Err(e)
    }
}

/// The fixed textual form of a variant: `"<kind>: (<message>)"` for
/// message-carrying variants, `"undefined error code: <code>"` for the
/// catch-all.
pub open spec fn render_view(v: InferenceErrorView) -> Seq<char> {
    match v {
        InferenceErrorView::GeneralError { message } => "general error: ("@ + message + ")"@,
        InferenceErrorView::NotImplemented { message } => "not implemented: ("@ + message + ")"@,
        InferenceErrorView::NetworkNotLoaded { message } => "network not loaded: ("@ + message
            + ")"@,
        InferenceErrorView::ParameterMismatch { message } => "parameter mismatch: ("@ + message
            + ")"@,
        InferenceErrorView::NotFound { message } => "not found: ("@ + message + ")"@,
        InferenceErrorView::OutOfBounds { message } => "out of bounds: ("@ + message + ")"@,
        InferenceErrorView::Unexpected { message } => "unexpected: ("@ + message + ")"@,
        InferenceErrorView::RequestBusy { message } => "request busy: ("@ + message + ")"@,
        InferenceErrorView::ResultNotReady { message } => "result not ready: ("@ + message + ")"@,
        InferenceErrorView::NotAllocated { message } => "not allocated: ("@ + message + ")"@,
        InferenceErrorView::InferNotStarted { message } => "infer not started: ("@ + message
            + ")"@,
        InferenceErrorView::NetworkNotRead { message } => "network not read: ("@ + message + ")"@,
        InferenceErrorView::InferCancelled { message } => "infer cancelled: ("@ + message + ")"@,
        InferenceErrorView::InvalidCParam { message } => "invalid c parameter: ("@ + message
            + ")"@,
        InferenceErrorView::UnknownCError { message } => "unknown C error: ("@ + message + ")"@,
        InferenceErrorView::NotImplementCMethod { message } => "not implemented C method: ("@
            + message + ")"@,
        InferenceErrorView::UnknownException { message } => "unknown exception: ("@ + message
            + ")"@,
        InferenceErrorView::Undefined(code) => "undefined error code: "@ + dec_int(code as int),
    }
}

fn compose(prefix: &str, message: &String) -> (s: String)
    ensures
        s@ == prefix@ + message@ + ")"@,
{
    let mut s = String::from_str(prefix);
    s.append(message.as_str());
    s.append(")");
    proof {
        assert(s@ =~= prefix@ + message@ + ")"@);
    }
    s
}

impl InferenceError {
    /// The variant's textual form, for diagnostics and logging.
    pub fn to_text(&self) -> (s: String)
        ensures
            s@ == render_view(self@),
    {
        match self {
            InferenceError::GeneralError { message } => compose("general error: (", message),
            InferenceError::NotImplemented { message } => compose("not implemented: (", message),
            InferenceError::NetworkNotLoaded { message } => compose(
                "network not loaded: (",
                message,
            ),
            InferenceError::ParameterMismatch { message } => compose(
                "parameter mismatch: (",
                message,
            ),
            InferenceError::NotFound { message } => compose("not found: (", message),
            InferenceError::OutOfBounds { message } => compose("out of bounds: (", message),
            InferenceError::Unexpected { message } => compose("unexpected: (", message),
            InferenceError::RequestBusy { message } => compose("request busy: (", message),
            InferenceError::ResultNotReady { message } => compose("result not ready: (", message),
            InferenceError::NotAllocated { message } => compose("not allocated: (", message),
            InferenceError::InferNotStarted { message } => compose("infer not started: (", message),
            InferenceError::NetworkNotRead { message } => compose("network not read: (", message),
            InferenceError::InferCancelled { message } => compose("infer cancelled: (", message),
            InferenceError::InvalidCParam { message } => compose("invalid c parameter: (", message),
            InferenceError::UnknownCError { message } => compose("unknown C error: (", message),
            InferenceError::NotImplementCMethod { message } => compose(
                "not implemented C method: (",
                message,
            ),
            InferenceError::UnknownException { message } => compose("unknown exception: (", message),
            InferenceError::Undefined(code) => {
                let mut s = String::from_str("undefined error code: ");
                let d = i32_to_dec(*code);
                s.append(d.as_str());
                proof {
                    assert(s@ =~= "undefined error code: "@ + dec_int(*code as int));
                }
                s
            },
        }
    }
}

impl PartialEq for InferenceError {
    /// Structural equality: same variant, and equal payloads.
    fn eq(&self, other: &Self) -> (r: bool) {
        match (self, other) {
            (
                InferenceError::GeneralError { message: a },
                InferenceError::GeneralError { message: b },
            ) => *a == *b,
            (
                InferenceError::NotImplemented { message: a },
                InferenceError::NotImplemented { message: b },
            ) => *a == *b,
            (
                InferenceError::NetworkNotLoaded { message: a },
                InferenceError::NetworkNotLoaded { message: b },
            ) => *a == *b,
            (
                InferenceError::ParameterMismatch { message: a },
                InferenceError::ParameterMismatch { message: b },
            ) => *a == *b,
            (
                InferenceError::NotFound { message: a },
                InferenceError::NotFound { message: b },
            ) => *a == *b,
            (
                InferenceError::OutOfBounds { message: a },
                InferenceError::OutOfBounds { message: b },
            ) => *a == *b,
            (
                InferenceError::Unexpected { message: a },
                InferenceError::Unexpected { message: b },
            ) => *a == *b,
            (
                InferenceError::RequestBusy { message: a },
                InferenceError::RequestBusy { message: b },
            ) => *a == *b,
            (
                InferenceError::ResultNotReady { message: a },
                InferenceError::ResultNotReady { message: b },
            ) => *a == *b,
            (
                InferenceError::NotAllocated { message: a },
                InferenceError::NotAllocated { message: b },
            ) => *a == *b,
            (
                InferenceError::InferNotStarted { message: a },
                InferenceError::InferNotStarted { message: b },
            ) => *a == *b,
            (
                InferenceError::NetworkNotRead { message: a },
                InferenceError::NetworkNotRead { message: b },
            ) => *a == *b,
            (
                InferenceError::InferCancelled { message: a },
                InferenceError::InferCancelled { message: b },
            ) => *a == *b,
            (
                InferenceError::InvalidCParam { message: a },
                InferenceError::InvalidCParam { message: b },
            ) => *a == *b,
            (
                InferenceError::UnknownCError { message: a },
                InferenceError::UnknownCError { message: b },
            ) => *a == *b,
            (
                InferenceError::NotImplementCMethod { message: a },
                InferenceError::NotImplementCMethod { message: b },
            ) => *a == *b,
            (
                InferenceError::UnknownException { message: a },
                InferenceError::UnknownException { message: b },
            ) => *a == *b,
            (InferenceError::Undefined(a), InferenceError::Undefined(b)) => *a == *b,
            _ => false,
        }
    }
}

impl vstd::std_specs::cmp::PartialEqSpecImpl for InferenceError {
    open spec fn obeys_eq_spec() -> bool {
        true
    }

    open spec fn eq_spec(&self, other: &Self) -> bool {
        self@ == other@
    }
}

impl Eq for InferenceError {

}

/// Every known failure sentinel translates to an error of its own mapped
/// variant — never the catch-all — and that variant carries exactly the
/// message that the last-error channel held at call time.
pub proof fn lemma_translate_known_code(code: i32, msg: Seq<char>)
    requires
        is_known_code(code),
    ensures
        spec_translate(code, msg) matches Err(e) && e == spec_classify(code, msg) && !(e
            is Undefined) && message_of(e) == Some(msg),
{
}

/// Translating the success sentinel yields success, whatever the
/// last-error channel holds: its content never reaches the result.
pub proof fn lemma_translate_ok_ignores_message(msg1: Seq<char>, msg2: Seq<char>)
    ensures
        spec_translate(STATUS_OK, msg1) == Ok::<(), InferenceErrorView>(()),
        spec_translate(STATUS_OK, msg1) == spec_translate(STATUS_OK, msg2),
{
}

/// Every code outside the known sentinel set (other than success)
/// translates to the catch-all variant carrying the raw code.
pub proof fn lemma_translate_unknown_code(code: i32, msg: Seq<char>)
    requires
        code != STATUS_OK,
        !is_known_code(code),
    ensures
        spec_translate(code, msg) == Err::<(), InferenceErrorView>(
            InferenceErrorView::Undefined(code),
        ),
{
}

/// Rendering is deterministic: equal models render to equal text.
pub proof fn lemma_render_deterministic(a: InferenceErrorView, b: InferenceErrorView)
    requires
        a == b,
    ensures
        render_view(a) == render_view(b),
{
}

} // verus!
