//! The platform abstraction layer's shared types: which kind of backend
//! runs, and the error every platform call can answer with.

use vstd::prelude::*;

verus! {

/// The answer of a platform call.
pub type PlatformResult<T> = Result<T, PlatformError>;

/// A refused or failed platform call, with its reason.
#[derive(Debug)]
pub struct PlatformError(pub String);

impl Clone for PlatformError {
    fn clone(&self) -> (r: Self)
        ensures
            r.0@ == self.0@,
    {
        PlatformError(self.0.clone())
    }
}

impl PlatformError {
    /// How the error reads when shown to the user.
    pub open spec fn display_text(self) -> Seq<char> {
        "Platform error: "@ + self.0@
    }

    /// The error as shown to the user: `Platform error: ` and the reason.
    pub fn to_string(&self) -> (r: String)
        ensures
            r@ == self.display_text(),
    {
        let mut r = String::from_str("Platform error: ");
        r.append(self.0.as_str());
        r
    }
}

/// Which kind of backend serves the platform calls.
#[derive(Debug, Clone, Copy, PartialEq, Eq, Structural)]
pub enum PlatformKind {
    Virtual,
    RealWindows,
    RealLinux,
}

impl PlatformKind {
    /// The name under which the kind is shown.
    pub open spec fn label_text(self) -> Seq<char> {
        match self {
            PlatformKind::Virtual => "Virtual Platform (Mock)"@,
            PlatformKind::RealWindows => "Windows (Real)"@,
            PlatformKind::RealLinux => "Linux (Real)"@,
        }
    }

    /// The name under which the kind is shown.
    pub fn label(&self) -> (r: &'static str)
        ensures
            r@ == self.label_text(),
    {
        match self {
            PlatformKind::Virtual => "Virtual Platform (Mock)",
            PlatformKind::RealWindows => "Windows (Real)",
            PlatformKind::RealLinux => "Linux (Real)",
        }
    }
}

} // verus!
