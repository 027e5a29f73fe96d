//! The composed setup failure: either a located engine call failed, or the
//! engine's libraries could not be located and loaded in the first place.

use vstd::prelude::*;
use vstd::string::StringExecFns;

use crate::inference::InferenceError;
use crate::inference::InferenceErrorView;
use crate::loading::LoadingError;
use crate::loading::LoadingErrorView;

verus! {

/// A setup failure: exactly one of the two error families, wrapped without
/// loss so that callers can match at either granularity.
#[derive(Debug)]
pub enum SetupError {
    Inference(InferenceError),
    Loading(LoadingError),
}

/// The mathematical model of a [`SetupError`]: the model of whichever
/// family it wraps, under the matching tag.
pub enum SetupErrorView {
    Inference(InferenceErrorView),
    Loading(LoadingErrorView),
}

impl View for SetupError {
    type V = SetupErrorView;

    open spec fn view(&self) -> SetupErrorView {
        match self {
            SetupError::Inference(e) => SetupErrorView::Inference(e@),
            SetupError::Loading(e) => SetupErrorView::Loading(e@),
        }
    }
}

impl From<InferenceError> for SetupError {
    /// Wrap an inference failure, losslessly.
    fn from(e: InferenceError) -> (r: SetupError) {
        SetupError::Inference(e)
    }
}

impl vstd::std_specs::convert::FromSpecImpl<InferenceError> for SetupError {
    open spec fn obeys_from_spec() -> bool {
        true
    }

    open spec fn from_spec(e: InferenceError) -> SetupError {
        SetupError::Inference(e)
    }
}

impl From<LoadingError> for SetupError {
    /// Wrap a loading failure, losslessly.
    fn from(e: LoadingError) -> (r: SetupError) {
        SetupError::Loading(e)
    }
}

impl vstd::std_specs::convert::FromSpecImpl<LoadingError> for SetupError {
    open spec fn obeys_from_spec() -> bool {
        true
    }

    open spec fn from_spec(e: LoadingError) -> SetupError {
        SetupError::Loading(e)
    }
}

/// The fixed textual form of a setup failure, naming the family alone.
pub open spec fn render_setup_view(v: SetupErrorView) -> Seq<char> {
    match v {
        SetupErrorView::Inference(_) => "inference error"@,
        SetupErrorView::Loading(_) => "library loading error"@,
    }
}

impl SetupError {
    /// The failure family's textual form, for diagnostics and logging.
    pub fn to_text(&self) -> (s: String)
        ensures
            s@ == render_setup_view(self@),
    {
        match self {
            SetupError::Inference(_) => String::from_str("inference error"),
            SetupError::Loading(_) => String::from_str("library loading error"),
        }
    }
}

/// Wrapping either family into [`SetupError`] is injective and lossless:
/// equal wrapped values come from equal inputs, the two families never
/// collide, and matching recovers exactly the wrapped value.
pub proof fn lemma_wrapping_injective(
    i1: InferenceErrorView,
    i2: InferenceErrorView,
    l1: LoadingErrorView,
    l2: LoadingErrorView,
)
    ensures
        SetupErrorView::Inference(i1) == SetupErrorView::Inference(i2) ==> i1 == i2,
        SetupErrorView::Loading(l1) == SetupErrorView::Loading(l2) ==> l1 == l2,
        SetupErrorView::Inference(i1) != SetupErrorView::Loading(l1),
        SetupErrorView::Inference(i1) matches SetupErrorView::Inference(x) && x == i1,
        SetupErrorView::Loading(l1) matches SetupErrorView::Loading(y) && y == l1,
{
}

} // verus!
