//! The host platform as the pseudoconsole boundary sees it.
use vstd::prelude::*;

verus! {

/// Platform support reported for the target the crate was built for.
#[derive(Debug, Clone, Copy, PartialEq, Eq, Structural)]
pub enum PlatformSupport {
    Windows,
    Unsupported,
}

/// Asks `std::path::is_separator` whether `\` separates path components on
/// this target. That is so on Windows targets, and also on a few targets
/// without a Windows host (such as UEFI), where it answers `true` too. The
/// answer depends on the target the crate was built for, so nothing is stated
/// of it.
#[verifier::external_body]
fn backslash_separates_paths() -> (windows: bool) {
    std::path::is_separator('\\')
}

impl PlatformSupport {
    /// The support level for a target that is (or is not) Windows.
    pub fn for_target(is_windows: bool) -> (p: Self)
        ensures
            p == (if is_windows { PlatformSupport::Windows } else { PlatformSupport::Unsupported }),
    {
        if is_windows {
            PlatformSupport::Windows
        } else {
            PlatformSupport::Unsupported
        }
    }

    /// Returns support for the current compilation target, judged by whether `\`
    /// separates paths there: `Windows` on Windows targets, `Unsupported` on the
    /// usual others (a few non-Windows targets that also separate paths with `\`,
    /// such as UEFI, report `Windows`). Callers that know the target can use
    /// `for_target` directly.
    pub fn current() -> (p: Self)
        ensures
            p == PlatformSupport::Windows || p == PlatformSupport::Unsupported,
    {
        Self::for_target(backslash_separates_paths())
    }

    /// The human-readable description of this support level.
    pub open spec fn spec_description(self) -> Seq<char> {
        match self {
            PlatformSupport::Windows => "Windows/ConPTY planned"@,
            PlatformSupport::Unsupported => "unsupported host"@,
        }
    }

    /// Renders the support level for display.
    pub fn to_string(&self) -> (s: String)
        ensures
            s@ == self.spec_description(),
    {
        match self {
            PlatformSupport::Windows => String::from_str("Windows/ConPTY planned"),
            PlatformSupport::Unsupported => String::from_str("unsupported host"),
        }
    }
}

} // verus!
