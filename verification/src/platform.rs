//! The two build-time choices that every answer of this crate depends on.

use vstd::prelude::*;

verus! {

/// The operating system that the shared library is built for.
#[derive(Clone, Copy, Debug, PartialEq, Eq, Structural)]
pub enum Platform {
    MacOs,
    Windows,
    /// Linux, the BSDs and every other system with ELF-style shared objects.
    Other,
}

impl Platform {
    /// The character that this platform writes between the segments of a path.
    pub open spec fn main_separator(self) -> char {
        match self {
            Platform::Windows => '\\',
            Platform::MacOs | Platform::Other => '/',
        }
    }

    /// Whether `c` separates the segments of a path on this platform. Windows
    /// reads the slash as a separator beside its own backslash.
    pub open spec fn separates(self, c: char) -> bool {
        c == self.main_separator() || (self == Platform::Windows && c == '/')
    }

    /// The separator that this platform writes.
    pub fn separator(self) -> (c: char)
        ensures
            c == self.main_separator(),
    {
        match self {
            Platform::Windows => '\\',
            Platform::MacOs | Platform::Other => '/',
        }
    }

    /// Whether `c` is read as a separator on this platform.
    pub fn is_separator(self, c: char) -> (yes: bool)
        ensures
            yes == self.separates(c),
    {
        match self {
            Platform::Windows => c == '\\' || c == '/',
            Platform::MacOs | Platform::Other => c == '/',
        }
    }
}

/// Whether the build keeps debug assertions (`Debug`) or not (`Release`).
#[derive(Clone, Copy, Debug, PartialEq, Eq, Structural)]
pub enum Profile {
    Debug,
    Release,
}

impl Profile {
    /// Name of the directory below `target` that holds this profile's output.
    pub open spec fn dir_name(self) -> Seq<char> {
        match self {
            Profile::Debug => "debug"@,
            Profile::Release => "release"@,
        }
    }

    /// The profile of a build with (`true`) or without debug assertions.
    pub fn from_debug_assertions(enabled: bool) -> (profile: Profile)
        ensures
            profile == (if enabled {
                Profile::Debug
            } else {
                Profile::Release
            }),
    {
        if enabled {
            Profile::Debug
        } else {
            Profile::Release
        }
    }

    /// The directory name as a string slice.
    pub fn dir_str(self) -> (name: &'static str)
        ensures
            name@ == self.dir_name(),
    {
        match self {
            Profile::Debug => "debug",
            Profile::Release => "release",
        }
    }
}

} // verus!
