//! Decomposition of an input path into directory prefix, stem and extension,
//! and the validation that gates planning.
//!
//! The prefix runs up to and including the last `/` (empty when the path has
//! none), the extension is what follows the last `.` of the file name, and
//! the stem is the file name up to that dot. A dot that leads the file name
//! does not start an extension, so hidden files without a further dot have
//! none.

use crate::media::{media_of, spec_media_of, MediaExtension, PlanError, SubtitleExtension};
use crate::strtool::{find_last, lemma_index_of_last_absent, lemma_index_of_last_at};
use vstd::prelude::*;
use vstd::seq_lib::*;
use vstd::string::StrSliceExecFns;
use vstd::string::StringExecFns;

verus! {

/// One past the last `/` of the path; 0 when the path has none.
pub open spec fn spec_prefix_end(path: Seq<char>) -> int {
    match path.index_of_last('/') {
        Some(i) => i + 1,
        None => 0,
    }
}

/// The directory part, up to and including the last `/`.
pub open spec fn spec_prefix(path: Seq<char>) -> Seq<char> {
    path.subrange(0, spec_prefix_end(path))
}

/// The file name: everything after the last `/`.
pub open spec fn spec_file_name(path: Seq<char>) -> Seq<char> {
    path.subrange(spec_prefix_end(path), path.len() as int)
}

/// Position of the dot that starts the extension, within the file name.
pub open spec fn spec_dot_pos(path: Seq<char>) -> Option<int> {
    spec_file_name(path).index_of_last('.')
}

/// Whether the file name carries a non-empty extension: a last dot that
/// neither leads the name nor ends it.
pub open spec fn spec_has_extension(path: Seq<char>) -> bool {
    match spec_dot_pos(path) {
        Some(p) => 1 <= p && p + 1 < spec_file_name(path).len(),
        None => false,
    }
}

/// The file name up to the extension dot.
pub open spec fn spec_stem(path: Seq<char>) -> Seq<char> {
    spec_file_name(path).subrange(0, spec_dot_pos(path).unwrap())
}

/// The extension: the file name after its last dot.
pub open spec fn spec_raw_extension(path: Seq<char>) -> Seq<char> {
    spec_file_name(path).subrange(
        spec_dot_pos(path).unwrap() + 1,
        spec_file_name(path).len() as int,
    )
}

/// A validated input path, decomposed for planning. `path` is the input as
/// given; `prefix` its directory part up to and including the last `/`
/// (empty when there is none); `stem` the file name without the extension;
/// `media` the recognized container extension.
pub struct PathParts {
    pub path: String,
    pub prefix: String,
    pub stem: String,
    pub media: MediaExtension,
}

impl PathParts {
    /// The parts recompose the path, the stem is a non-empty slash-free file
    /// name, and the prefix is empty or ends at a `/`.
    pub open spec fn wf(self) -> bool {
        &&& self.path@ == self.prefix@ + self.stem@ + "."@ + self.media.spec_str()
        &&& self.stem@.len() > 0
        &&& (forall|k: int| 0 <= k < self.stem@.len() ==> self.stem@[k] != '/')
        &&& (self.prefix@.len() == 0 || self.prefix@.last() == '/')
    }
}

/// The sibling path probed for a given subtitle extension: same directory,
/// same stem, the subtitle extension in place of the container's.
pub open spec fn spec_candidate_of(prefix: Seq<char>, stem: Seq<char>, se: SubtitleExtension) -> Seq<
    char,
> {
    prefix + stem + "."@ + se.spec_str()
}

/// `spec_candidate_of` over a decomposition's own pieces.
pub open spec fn spec_candidate(parts: PathParts, se: SubtitleExtension) -> Seq<char> {
    spec_candidate_of(parts.prefix@, parts.stem@, se)
}

/// Builds the sibling subtitle path for one candidate extension.
pub fn candidate_path(parts: &PathParts, se: SubtitleExtension) -> (r: String)
    ensures
        r@ == spec_candidate(*parts, se),
{
    let mut s = parts.prefix.clone();
    s.append(parts.stem.as_str());
    s.append(".");
    s.append(se.as_str());
    s
}

/// The four sibling subtitle paths, in the fixed priority order
/// srt, ass, ssa, sub. The caller probes them for existence in this order.
pub fn subtitle_candidates(parts: &PathParts) -> (r: Vec<String>)
    ensures
        r@.len() == 4,
        r@[0]@ == spec_candidate(*parts, SubtitleExtension::Srt),
        r@[1]@ == spec_candidate(*parts, SubtitleExtension::Ass),
        r@[2]@ == spec_candidate(*parts, SubtitleExtension::Ssa),
        r@[3]@ == spec_candidate(*parts, SubtitleExtension::Sub),
{
    let mut v: Vec<String> = Vec::new();
    v.push(candidate_path(parts, SubtitleExtension::Srt));
    v.push(candidate_path(parts, SubtitleExtension::Ass));
    v.push(candidate_path(parts, SubtitleExtension::Ssa));
    v.push(candidate_path(parts, SubtitleExtension::Sub));
    v
}

/// Validates one input path against the three preconditions of planning, in
/// order: the file must exist (`input_exists` reports the caller's probe of
/// the disk), the name must carry a non-empty extension, and the extension
/// must be a recognized container. On success the returned parts decompose
/// the path exactly as the spec-level split does.
pub fn validate_path(path: &String, input_exists: bool) -> (r: Result<PathParts, PlanError>)
    ensures
        r is Ok <==> (input_exists && spec_has_extension(path@) && spec_media_of(
            spec_raw_extension(path@),
        ) is Some),
        !input_exists ==> r == Err::<PathParts, PlanError>(PlanError::FileNotFound),
        (input_exists && !spec_has_extension(path@)) ==> r == Err::<PathParts, PlanError>(
            PlanError::MissingExtension,
        ),
        (input_exists && spec_has_extension(path@) && spec_media_of(
            spec_raw_extension(path@),
        ) is None) ==> r == Err::<PathParts, PlanError>(PlanError::UnsupportedExtension),
        r is Ok ==> {
            let p = r->Ok_0;
            &&& p.path@ == path@
            &&& p.prefix@ == spec_prefix(path@)
            &&& p.stem@ == spec_stem(path@)
            &&& Some(p.media) == spec_media_of(spec_raw_extension(path@))
            &&& p.wf()
        },
{
    if !input_exists {
        return Err(PlanError::FileNotFound);
    }
    let len = path.as_str().unicode_len();
    let slash = find_last(path.as_str(), '/');
    proof {
        path@.index_of_last_ensures('/');
    }
    let prefix_end: usize = match slash {
        Some(i) => i + 1,
        None => 0,
    };
    let name = path.as_str().substring_char(prefix_end, len);
    proof {
        assert(name@ == spec_file_name(path@));
    }
    let name_len = name.unicode_len();
    let dot = find_last(name, '.');
    proof {
        name@.index_of_last_ensures('.');
    }
    match dot {
        None => Err(PlanError::MissingExtension),
        Some(p) => {
            if p < 1 || p + 1 >= name_len {
                return Err(PlanError::MissingExtension);
            }
            let ext = name.substring_char(p + 1, name_len);
            proof {
                assert(ext@ == spec_raw_extension(path@));
            }
            match media_of(ext) {
                None => Err(PlanError::UnsupportedExtension),
                Some(m) => {
                    let prefix = String::from_str(path.as_str().substring_char(0, prefix_end));
                    let stem = String::from_str(name.substring_char(0, p));
                    let parts = PathParts { path: path.clone(), prefix, stem, media: m };
                    proof {
                        lemma_validated_parts_wf(path@, parts);
                    }
                    Ok(parts)
                },
            }
        },
    }
}

/// Round trip of decomposition: the spec-level split of a well-formed
/// decomposition's own path recovers exactly its prefix, stem and media
/// extension, and that path passes validation's extension checks.
pub proof fn lemma_parts_match_decomposition(parts: PathParts)
    requires
        parts.wf(),
    ensures
        spec_prefix(parts.path@) == parts.prefix@,
        spec_stem(parts.path@) == parts.stem@,
        spec_has_extension(parts.path@),
        spec_media_of(spec_raw_extension(parts.path@)) == Some(parts.media),
{
    let path = parts.path@;
    let pl = parts.prefix@.len() as int;
    let sl = parts.stem@.len() as int;
    let ext = parts.media.spec_str();
    reveal_strlit(".");
    reveal_strlit("mp4");
    reveal_strlit("m4v");
    reveal_strlit("mov");
    reveal_strlit("mkv");
    assert(ext.len() == 3 && ext[0] != '/' && ext[1] != '/' && ext[2] != '/' && ext[0] != '.'
        && ext[1] != '.' && ext[2] != '.') by {
        match parts.media {
            MediaExtension::Mp4 => {},
            MediaExtension::M4v => {},
            MediaExtension::Mov => {},
            MediaExtension::Mkv => {},
        }
    }
    assert(path.len() == pl + sl + 1 + 3);
    assert(forall|k: int| pl <= k < path.len() ==> path[k] != '/') by {
        assert forall|k: int| pl <= k < path.len() implies path[k] != '/' by {
            if k < pl + sl {
                assert(path[k] == parts.stem@[k - pl]);
            } else if k == pl + sl {
                assert(path[k] == '.');
            } else {
                assert(path[k] == ext[k - (pl + sl + 1)]);
            }
        }
    }
    if pl == 0 {
        lemma_index_of_last_absent(path, '/');
    } else {
        assert(path[pl - 1] == parts.prefix@.last());
        lemma_index_of_last_at(path, '/', pl - 1);
    }
    assert(spec_prefix_end(path) == pl);
    assert(spec_prefix(path) =~= parts.prefix@);
    let name = spec_file_name(path);
    assert(name =~= parts.stem@ + "."@ + ext);
    assert(name[sl] == '.');
    assert forall|j: int| sl < j < name.len() implies name[j] != '.' by {
        assert(name[j] == ext[j - (sl + 1)]);
    }
    lemma_index_of_last_at(name, '.', sl);
    assert(spec_dot_pos(path) == Some(sl));
    assert(spec_has_extension(path));
    assert(spec_stem(path) =~= parts.stem@);
    assert(spec_raw_extension(path) =~= ext);
}

/// A successful decomposition is well formed: the pieces recompose the path,
/// the stem is non-empty and slash-free, and the prefix ends at its slash.
proof fn lemma_validated_parts_wf(path: Seq<char>, parts: PathParts)
    requires
        spec_has_extension(path),
        spec_media_of(spec_raw_extension(path)) == Some(parts.media),
        parts.path@ == path,
        parts.prefix@ == spec_prefix(path),
        parts.stem@ == spec_stem(path),
    ensures
        parts.wf(),
{
    path.index_of_last_ensures('/');
    let name = spec_file_name(path);
    name.index_of_last_ensures('.');
    let pe = spec_prefix_end(path);
    let p = spec_dot_pos(path).unwrap();
    reveal_strlit(".");
    reveal_strlit("mp4");
    reveal_strlit("m4v");
    reveal_strlit("mov");
    reveal_strlit("mkv");
    assert(spec_raw_extension(path) == parts.media.spec_str());
    assert(parts.path@ =~= parts.prefix@ + parts.stem@ + "."@ + parts.media.spec_str());
    assert forall|k: int| 0 <= k < parts.stem@.len() implies parts.stem@[k] != '/' by {
        assert(parts.stem@[k] == path[pe + k]);
        if path.index_of_last('/') is Some {
            assert(pe + k > path.index_of_last('/').unwrap());
        }
    }
    if parts.prefix@.len() > 0 {
        assert(path.index_of_last('/') is Some);
        assert(parts.prefix@.last() == path[pe - 1]);
    }
}

} // verus!
