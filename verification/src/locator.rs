//! Platform-dependent selection of the shared-library file pattern.
//!
//! Candidate module files are found by matching file names against one
//! fixed, platform-specific pattern; the recursive directory walk itself is
//! filesystem work and happens outside this crate.

use vstd::prelude::*;

verus! {

/// The operating-system families the host distinguishes; each selects one
/// shared-library file pattern.
#[derive(Clone, Copy, PartialEq, Eq, Structural, Debug)]
pub enum Platform {
    MacOs,
    Windows,
    Unix,
}

/// The file-name pattern that module candidates must match on a platform.
pub open spec fn spec_library_file_pattern(platform: Platform) -> Seq<char> {
    match platform {
        Platform::MacOs => "*.dylib"@,
        Platform::Windows => "*.dll"@,
        Platform::Unix => "*.so"@,
    }
}

/// Selects the shared-library file pattern for the given platform: exactly
/// one fixed suffix per supported operating system.
pub fn library_file_pattern(platform: Platform) -> (pattern: &'static str)
    ensures
        pattern@ == spec_library_file_pattern(platform),
{
    match platform {
        Platform::MacOs => "*.dylib",
        Platform::Windows => "*.dll",
        Platform::Unix => "*.so",
    }
}

} // verus!
