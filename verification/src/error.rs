use vstd::prelude::*;

verus! {

/// A user-facing error carrying a single-line message: the form in which
/// every failure of the engine surfaces to the calling shell.
#[derive(Debug, Clone)]
pub struct AppError(pub String);

impl View for AppError {
    type V = Seq<char>;

    closed spec fn view(&self) -> Seq<char> {
        self.0@
    }
}

impl AppError {
    /// The single-line message carried by this error.
    pub fn message(&self) -> (r: &str)
        ensures
            r@ == self@,
    {
        self.0.as_str()
    }
}

impl From<String> for AppError {
    fn from(error: String) -> (r: AppError)
        ensures
            r@ == error@,
    {
        AppError(error)
    }
}

impl vstd::std_specs::convert::FromSpecImpl<String> for AppError {
    open spec fn obeys_from_spec() -> bool {
        true
    }

    open spec fn from_spec(t: String) -> AppError {
        AppError(t)
    }
}

/// Why a native accessibility call, the fallback poll or a geometry check
/// failed.  `PermissionDenied`, `NoFocusedElement`, `AttributeUnavailable`
/// and `PlatformCallFailed` end the native path and hand control to the
/// clipboard fallback; `Timeout` degrades the fallback to an empty result;
/// `InvalidBounds` rejects implausible selection geometry.
#[derive(Debug, Clone, Copy, PartialEq, Eq, Structural)]
pub enum EngineError {
    PermissionDenied,
    NoFocusedElement,
    AttributeUnavailable,
    PlatformCallFailed,
    Timeout,
    InvalidBounds,
}

/// The message text belonging to each failure.
pub open spec fn spec_message(e: EngineError) -> Seq<char> {
    match e {
        EngineError::PermissionDenied => "Accessibility permission not granted"@,
        EngineError::NoFocusedElement => "Failed to get focused element"@,
        EngineError::AttributeUnavailable => "Element attribute unavailable"@,
        EngineError::PlatformCallFailed => "Platform accessibility call failed"@,
        EngineError::Timeout => "Clipboard did not change before the timeout"@,
        EngineError::InvalidBounds => "Invalid bounds coordinates"@,
    }
}

impl EngineError {
    /// The single-line message shown for this failure.
    pub fn describe(&self) -> (r: &'static str)
        ensures
            r@ == spec_message(*self),
    {
        match self {
            EngineError::PermissionDenied => "Accessibility permission not granted",
            EngineError::NoFocusedElement => "Failed to get focused element",
            EngineError::AttributeUnavailable => "Element attribute unavailable",
            EngineError::PlatformCallFailed => "Platform accessibility call failed",
            EngineError::Timeout => "Clipboard did not change before the timeout",
            EngineError::InvalidBounds => "Invalid bounds coordinates",
        }
    }

    /// The outward form of this failure, as handed to the calling shell.
    pub fn to_app_error(&self) -> (r: AppError)
        ensures
            r@ == spec_message(*self),
    {
        AppError::from(self.describe().to_owned())
    }
}

} // verus!
