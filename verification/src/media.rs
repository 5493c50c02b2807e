//! The closed extension sets that planning recognizes, and the per-file
//! planning errors.

use crate::strtool::str_eq;
use vstd::prelude::*;

verus! {

/// A recognized video container extension. Matching is exact: anything
/// outside this set is rejected, never silently defaulted.
#[derive(Clone, Copy, Debug, PartialEq, Eq, Structural)]
pub enum MediaExtension {
    Mp4,
    M4v,
    Mov,
    Mkv,
}

/// A recognized sibling-subtitle extension. The declaration order is the
/// fixed priority order in which siblings are probed: the first match wins.
#[derive(Clone, Copy, Debug, PartialEq, Eq, Structural)]
pub enum SubtitleExtension {
    Srt,
    Ass,
    Ssa,
    Sub,
}

/// Why a single input path could not be planned. Each case is recoverable:
/// the caller reports it and goes on with the next file.
#[derive(Clone, Copy, Debug, PartialEq, Eq, Structural)]
pub enum PlanError {
    /// The input path does not exist on disk.
    FileNotFound,
    /// The file name has no non-empty extension.
    MissingExtension,
    /// The extension is not a `MediaExtension`.
    UnsupportedExtension,
}

impl MediaExtension {
    /// The extension exactly as it appears in a file name.
    pub open spec fn spec_str(self) -> Seq<char> {
        match self {
            MediaExtension::Mp4 => "mp4"@,
            MediaExtension::M4v => "m4v"@,
            MediaExtension::Mov => "mov"@,
            MediaExtension::Mkv => "mkv"@,
        }
    }

    pub fn as_str(self) -> (r: &'static str)
        ensures
            r@ == self.spec_str(),
    {
        match self {
            MediaExtension::Mp4 => "mp4",
            MediaExtension::M4v => "m4v",
            MediaExtension::Mov => "mov",
            MediaExtension::Mkv => "mkv",
        }
    }
}

impl SubtitleExtension {
    /// The extension exactly as it appears in a file name.
    pub open spec fn spec_str(self) -> Seq<char> {
        match self {
            SubtitleExtension::Srt => "srt"@,
            SubtitleExtension::Ass => "ass"@,
            SubtitleExtension::Ssa => "ssa"@,
            SubtitleExtension::Sub => "sub"@,
        }
    }

    pub fn as_str(self) -> (r: &'static str)
        ensures
            r@ == self.spec_str(),
    {
        match self {
            SubtitleExtension::Srt => "srt",
            SubtitleExtension::Ass => "ass",
            SubtitleExtension::Ssa => "ssa",
            SubtitleExtension::Sub => "sub",
        }
    }
}

/// Which media extension, if any, an extension string denotes.
pub open spec fn spec_media_of(s: Seq<char>) -> Option<MediaExtension> {
    if s == "mp4"@ {
        Some(MediaExtension::Mp4)
    } else if s == "m4v"@ {
        Some(MediaExtension::M4v)
    } else if s == "mov"@ {
        Some(MediaExtension::Mov)
    } else if s == "mkv"@ {
        Some(MediaExtension::Mkv)
    } else {
        None
    }
}

/// Classifies an extension string against the closed media set.
pub fn media_of(s: &str) -> (r: Option<MediaExtension>)
    ensures
        r == spec_media_of(s@),
{
    if str_eq(s, "mp4") {
        Some(MediaExtension::Mp4)
    } else if str_eq(s, "m4v") {
        Some(MediaExtension::M4v)
    } else if str_eq(s, "mov") {
        Some(MediaExtension::Mov)
    } else if str_eq(s, "mkv") {
        Some(MediaExtension::Mkv)
    } else {
        None
    }
}

} // verus!
