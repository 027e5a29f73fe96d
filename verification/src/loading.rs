//! Failures in locating or loading the engine's shared libraries and
//! plugin configuration.

use vstd::prelude::*;
use vstd::string::StringExecFns;

verus! {

/// The ways that library loading can fail: an opaque system-level load
/// failure carrying the system's message, a missing shared-library path, a
/// missing XML plugin-configuration path, or a path that cannot be
/// represented as UTF-8 text.
#[derive(Debug)]
pub enum LoadingError {
    SystemFailure(String),
    CannotFindLibraryPath,
    CannotFindPluginPath,
    CannotStringifyPath,
}

/// The mathematical model of a [`LoadingError`], with the system message
/// abstracted to its character sequence.
pub enum LoadingErrorView {
    SystemFailure(Seq<char>),
    CannotFindLibraryPath,
    CannotFindPluginPath,
    CannotStringifyPath,
}

impl View for LoadingError {
    type V = LoadingErrorView;

    open spec fn view(&self) -> LoadingErrorView {
        match self {
            LoadingError::SystemFailure(message) => LoadingErrorView::SystemFailure(message@),
            LoadingError::CannotFindLibraryPath => LoadingErrorView::CannotFindLibraryPath,
            LoadingError::CannotFindPluginPath => LoadingErrorView::CannotFindPluginPath,
            LoadingError::CannotStringifyPath => LoadingErrorView::CannotStringifyPath,
        }
    }
}

/// The fixed textual form of a loading failure.
pub open spec fn render_loading_view(v: LoadingErrorView) -> Seq<char> {
    match v {
        LoadingErrorView::SystemFailure(message) =>
            "system failed to load shared libraries (see https://github.com/intel/openvino-rs/blob/main/crates/openvino-finder): "@
            + message,
        LoadingErrorView::CannotFindLibraryPath =>
            "cannot find path to shared libraries (see https://github.com/intel/openvino-rs/blob/main/crates/openvino-finder)"@,
        LoadingErrorView::CannotFindPluginPath =>
            "cannot find path to XML plugin configuration (see https://github.com/intel/openvino-rs/blob/main/crates/openvino-finder)"@,
        LoadingErrorView::CannotStringifyPath =>
            "unable to convert path to a UTF-8 string (see https://doc.rust-lang.org/std/path/struct.Path.html#method.to_str)"@,
    }
}

impl LoadingError {
    /// The failure's textual form, for diagnostics and logging.
    pub fn to_text(&self) -> (s: String)
        ensures
            s@ == render_loading_view(self@),
    {
        match self {
            LoadingError::SystemFailure(message) => {
                let mut s = String::from_str(
                    "system failed to load shared libraries (see https://github.com/intel/openvino-rs/blob/main/crates/openvino-finder): ",
                );
                s.append(message.as_str());
                s
            },
            LoadingError::CannotFindLibraryPath => String::from_str(
                "cannot find path to shared libraries (see https://github.com/intel/openvino-rs/blob/main/crates/openvino-finder)",
            ),
            LoadingError::CannotFindPluginPath => String::from_str(
                "cannot find path to XML plugin configuration (see https://github.com/intel/openvino-rs/blob/main/crates/openvino-finder)",
            ),
            LoadingError::CannotStringifyPath => String::from_str(
                "unable to convert path to a UTF-8 string (see https://doc.rust-lang.org/std/path/struct.Path.html#method.to_str)",
            ),
        }
    }
}

} // verus!
