//! The operating-system family the supervisor runs on, and what follows from
//! it: path separators, executable names and how a process tree is killed.

use vstd::prelude::*;

verus! {

/// The platform family, chosen once at startup.
#[derive(Clone, Copy, Debug, PartialEq, Eq, Structural)]
pub enum Platform {
    /// Processes run under a job model in which children may outlive a
    /// plain kill of their parent; a tree-kill utility is available.
    Windows,
    /// Every other family: a direct kill of the held process is all there is.
    Unix,
}

/// Whether `c` separates path components on platform `p`.
pub open spec fn is_separator(p: Platform, c: char) -> bool {
    match p {
        Platform::Windows => c == '/' || c == '\\',
        Platform::Unix => c == '/',
    }
}

/// The separator that is written when two path parts are joined.
pub open spec fn main_separator(p: Platform) -> char {
    match p {
        Platform::Windows => '\\',
        Platform::Unix => '/',
    }
}

/// File name of the backend in the primary packaging layout.
pub open spec fn primary_file_name(p: Platform) -> Seq<char> {
    match p {
        Platform::Windows => "backend.exe"@,
        Platform::Unix => "backend"@,
    }
}

/// Subdirectory of the resource directory that holds the fallback candidate.
pub open spec fn fallback_subdir() -> Seq<char> {
    "binaries"@
}

/// File name of the backend in the fallback packaging layout.
pub open spec fn fallback_file_name(p: Platform) -> Seq<char> {
    match p {
        Platform::Windows => "backend-x86_64-pc-windows-msvc.exe"@,
        Platform::Unix => "backend"@,
    }
}

impl Platform {
    /// Whether `c` separates path components here.
    pub fn is_separator(self, c: char) -> (r: bool)
        ensures
            r == is_separator(self, c),
    {
        match self {
            Platform::Windows => c == '/' || c == '\\',
            Platform::Unix => c == '/',
        }
    }

    /// The separator written between joined path parts.
    pub fn main_separator(self) -> (r: &'static str)
        ensures
            r@ == seq![main_separator(self)],
    {
        match self {
            Platform::Windows => {
                proof {
                    reveal_strlit("\\");
                }
                "\\"
            },
            Platform::Unix => {
                proof {
                    reveal_strlit("/");
                }
                "/"
            },
        }
    }

    /// File name of the backend in the primary layout.
    pub fn primary_file_name(self) -> (r: &'static str)
        ensures
            r@ == primary_file_name(self),
    {
        match self {
            Platform::Windows => "backend.exe",
            Platform::Unix => "backend",
        }
    }

    /// Subdirectory that holds the fallback candidate.
    pub fn fallback_subdir() -> (r: &'static str)
        ensures
            r@ == fallback_subdir(),
    {
        "binaries"
    }

    /// File name of the backend in the fallback layout.
    pub fn fallback_file_name(self) -> (r: &'static str)
        ensures
            r@ == fallback_file_name(self),
    {
        match self {
            Platform::Windows => "backend-x86_64-pc-windows-msvc.exe",
            Platform::Unix => "backend",
        }
    }
}

} // verus!
