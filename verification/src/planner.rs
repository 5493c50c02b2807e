//! Assembly of the encoder argument sequence and output path for one
//! validated input, and the laws that every plan obeys.
//!
//! A plan always opens with the banner-suppression, input and quality
//! arguments, then branches on the container: an mkv input burns in its own
//! embedded subtitles; an mp4-family input is paired with the first sibling
//! subtitle file found in priority order, if any, which also switches the
//! output container to mkv. Fixed codec arguments, a trailer that depends on
//! the branch taken, the fixed preset/stdin/overwrite flags and the output
//! path close the sequence.

use crate::media::{spec_media_of, MediaExtension, PlanError, SubtitleExtension};
use crate::paths::{
    candidate_path, lemma_parts_match_decomposition, spec_candidate, spec_candidate_of,
    spec_has_extension, spec_prefix, spec_raw_extension, spec_stem, validate_path, PathParts,
};
use vstd::prelude::*;
use vstd::string::StringExecFns;

verus! {

/// Which sibling subtitle files the caller's probe of the disk found, one
/// flag per candidate extension.
#[derive(Clone, Copy, Debug, PartialEq, Eq, Structural)]
pub struct SubtitleProbe {
    pub has_srt: bool,
    pub has_ass: bool,
    pub has_ssa: bool,
    pub has_sub: bool,
}

impl SubtitleProbe {
    /// A probe that found nothing.
    pub fn none_found() -> (r: SubtitleProbe)
        ensures
            spec_first_subtitle(r) is None,
    {
        SubtitleProbe { has_srt: false, has_ass: false, has_ssa: false, has_sub: false }
    }
}

/// The first subtitle extension whose sibling file the probe found, in the
/// fixed priority order srt, ass, ssa, sub.
pub open spec fn spec_first_subtitle(probe: SubtitleProbe) -> Option<SubtitleExtension> {
    if probe.has_srt {
        Some(SubtitleExtension::Srt)
    } else if probe.has_ass {
        Some(SubtitleExtension::Ass)
    } else if probe.has_ssa {
        Some(SubtitleExtension::Ssa)
    } else if probe.has_sub {
        Some(SubtitleExtension::Sub)
    } else {
        None
    }
}

/// The ordered first-match scan over the probe.
pub fn first_subtitle(probe: &SubtitleProbe) -> (r: Option<SubtitleExtension>)
    ensures
        r == spec_first_subtitle(*probe),
{
    if probe.has_srt {
        Some(SubtitleExtension::Srt)
    } else if probe.has_ass {
        Some(SubtitleExtension::Ass)
    } else if probe.has_ssa {
        Some(SubtitleExtension::Ssa)
    } else if probe.has_sub {
        Some(SubtitleExtension::Sub)
    } else {
        None
    }
}

/// The computed output container extension: mkv inputs keep mkv, an
/// mp4-family input switches to mkv when a sibling subtitle was found and
/// stays mp4 otherwise.
pub open spec fn spec_output_extension(media: MediaExtension, probe: SubtitleProbe) -> Seq<char> {
    if media is Mkv {
        "mkv"@
    } else if spec_first_subtitle(probe) is Some {
        "mkv"@
    } else {
        "mp4"@
    }
}

/// A burn-in filter argument referencing `target` as the subtitle source.
pub open spec fn spec_sub_filter(target: Seq<char>) -> Seq<char> {
    "subtitles='"@ + target + "'"@
}

/// The fixed opening: suppress the banner, name the input, set the quality.
pub open spec fn spec_head(input: Seq<char>) -> Seq<Seq<char>> {
    seq!["-hide_banner"@, "-i"@, input, "-crf"@, "24.0"@]
}

/// The container/subtitle branch of the sequence.
pub open spec fn spec_branch_of(
    path: Seq<char>,
    prefix: Seq<char>,
    stem: Seq<char>,
    media: MediaExtension,
    probe: SubtitleProbe,
) -> Seq<Seq<char>> {
    if media is Mkv {
        seq!["-vf"@, spec_sub_filter(path)]
    } else {
        match spec_first_subtitle(probe) {
            Some(se) => seq![
                "-vf"@,
                spec_sub_filter(spec_candidate_of(prefix, stem, se)),
                "-map"@,
                "0"@,
                "-map"@,
                "1"@,
            ],
            None => Seq::empty(),
        }
    }
}

/// `spec_branch_of` over a decomposition's own pieces.
pub open spec fn spec_branch(parts: PathParts, probe: SubtitleProbe) -> Seq<Seq<char>> {
    spec_branch_of(parts.path@, parts.prefix@, parts.stem@, parts.media, probe)
}

/// The fixed codec arguments: H.265 video, AAC audio at 128k.
pub open spec fn spec_codec_args() -> Seq<Seq<char>> {
    seq!["-vcodec"@, "libx265"@, "-c:a"@, "aac"@, "-b:a"@, "128k"@]
}

/// The trailer used when an external sibling subtitle was attached.
pub open spec fn spec_subtitle_trailer() -> Seq<Seq<char>> {
    seq![
        "-scodec"@,
        "copy"@,
        "-metadata:s:s:0"@,
        "language=pl"@,
        "-disposition:s:0"@,
        "default"@,
    ]
}

/// The trailer used when the input was already an mkv container.
pub open spec fn spec_mkv_trailer() -> Seq<Seq<char>> {
    seq!["-c:s"@, "copy"@, "-map_metadata"@, "0"@, "-map_chapters"@, "0"@, "-map"@, "0"@]
}

/// The trailer of the sequence, decided by the branch taken.
pub open spec fn spec_trailer_of(media: MediaExtension, probe: SubtitleProbe) -> Seq<Seq<char>> {
    if !(media is Mkv) && spec_first_subtitle(probe) is Some {
        spec_subtitle_trailer()
    } else if media is Mkv {
        spec_mkv_trailer()
    } else {
        Seq::empty()
    }
}

/// `spec_trailer_of` over a decomposition's own pieces.
pub open spec fn spec_trailer(parts: PathParts, probe: SubtitleProbe) -> Seq<Seq<char>> {
    spec_trailer_of(parts.media, probe)
}

/// The fixed closing flags: preset, no stdin, overwrite without prompting.
pub open spec fn spec_tail() -> Seq<Seq<char>> {
    seq!["-preset"@, "slow"@, "-nostdin"@, "-y"@]
}

/// The output path: same directory, the stem suffixed with the fixed marker,
/// the computed output extension.
pub open spec fn spec_output_path_of(
    prefix: Seq<char>,
    stem: Seq<char>,
    media: MediaExtension,
    probe: SubtitleProbe,
) -> Seq<char> {
    prefix + stem + " (h265)."@ + spec_output_extension(media, probe)
}

/// `spec_output_path_of` over a decomposition's own pieces.
pub open spec fn spec_output_path(parts: PathParts, probe: SubtitleProbe) -> Seq<char> {
    spec_output_path_of(parts.prefix@, parts.stem@, parts.media, probe)
}

/// The whole ordered argument sequence of a plan.
pub open spec fn spec_plan_args_of(
    path: Seq<char>,
    prefix: Seq<char>,
    stem: Seq<char>,
    media: MediaExtension,
    probe: SubtitleProbe,
) -> Seq<Seq<char>> {
    spec_head(path) + spec_branch_of(path, prefix, stem, media, probe) + spec_codec_args()
        + spec_trailer_of(media, probe) + spec_tail() + seq![
        spec_output_path_of(prefix, stem, media, probe),
    ]
}

/// `spec_plan_args_of` over a decomposition's own pieces.
pub open spec fn spec_plan_args(parts: PathParts, probe: SubtitleProbe) -> Seq<Seq<char>> {
    spec_plan_args_of(parts.path@, parts.prefix@, parts.stem@, parts.media, probe)
}

/// The argument sequence owed to an input path that passes validation,
/// stated over the path's spec-level decomposition alone.
pub open spec fn spec_plan_for(path: Seq<char>, probe: SubtitleProbe) -> Seq<Seq<char>> {
    spec_plan_args_of(
        path,
        spec_prefix(path),
        spec_stem(path),
        spec_media_of(spec_raw_extension(path)).unwrap(),
        probe,
    )
}

/// The output path owed to an input path that passes validation, stated
/// over the path's spec-level decomposition alone.
pub open spec fn spec_output_for(path: Seq<char>, probe: SubtitleProbe) -> Seq<char> {
    spec_output_path_of(
        spec_prefix(path),
        spec_stem(path),
        spec_media_of(spec_raw_extension(path)).unwrap(),
        probe,
    )
}

/// The outcome of planning one input: the ordered encoder arguments and the
/// computed output path, which is also the sequence's final argument.
pub struct EncodingPlan {
    pub args: Vec<String>,
    pub output_path: String,
}

fn push_tok(args: &mut Vec<String>, s: &str)
    ensures
        final(args).deep_view() == old(args).deep_view().push(s@),
{
    args.push(String::from_str(s));
    proof {
        assert(args.deep_view() =~= old(args).deep_view().push(s@));
    }
}

fn push_string(args: &mut Vec<String>, s: String)
    ensures
        final(args).deep_view() == old(args).deep_view().push(s@),
{
    let ghost v = s@;
    args.push(s);
    proof {
        assert(args.deep_view() =~= old(args).deep_view().push(v));
    }
}

fn subtitle_filter(target: &str) -> (r: String)
    ensures
        r@ == spec_sub_filter(target@),
{
    let s = String::from_str("subtitles='");
    let s = s.concat(target);
    let s = s.concat("'");
    s
}

fn output_extension(media: MediaExtension, probe: &SubtitleProbe) -> (r: &'static str)
    ensures
        r@ == spec_output_extension(media, *probe),
{
    match media {
        MediaExtension::Mkv => "mkv",
        _ => match first_subtitle(probe) {
            Some(_) => "mkv",
            None => "mp4",
        },
    }
}

fn output_path(parts: &PathParts, probe: &SubtitleProbe) -> (r: String)
    ensures
        r@ == spec_output_path(*parts, *probe),
{
    let mut s = parts.prefix.clone();
    s.append(parts.stem.as_str());
    s.append(" (h265).");
    s.append(output_extension(parts.media, probe));
    s
}

/// Assembles the plan for one validated input: the returned arguments are
/// exactly `spec_plan_args` and the returned output path exactly
/// `spec_output_path`, the sequence's final element.
pub fn build_plan(parts: &PathParts, probe: &SubtitleProbe) -> (r: EncodingPlan)
    ensures
        r.args.deep_view() == spec_plan_args(*parts, *probe),
        r.output_path@ == spec_output_path(*parts, *probe),
{
    let mut args: Vec<String> = Vec::new();
    push_tok(&mut args, "-hide_banner");
    push_tok(&mut args, "-i");
    push_string(&mut args, parts.path.clone());
    push_tok(&mut args, "-crf");
    push_tok(&mut args, "24.0");
    proof {
        assert(args.deep_view() =~= spec_head(parts.path@));
    }
    let mkv_input = match parts.media {
        MediaExtension::Mkv => true,
        _ => false,
    };
    let sub_found = if mkv_input {
        None
    } else {
        first_subtitle(probe)
    };
    if mkv_input {
        push_tok(&mut args, "-vf");
        push_string(&mut args, subtitle_filter(parts.path.as_str()));
    } else if let Some(se) = sub_found {
        let cand = candidate_path(parts, se);
        push_tok(&mut args, "-vf");
        push_string(&mut args, subtitle_filter(cand.as_str()));
        push_tok(&mut args, "-map");
        push_tok(&mut args, "0");
        push_tok(&mut args, "-map");
        push_tok(&mut args, "1");
    }
    proof {
        assert(args.deep_view() =~= spec_head(parts.path@) + spec_branch(*parts, *probe));
    }
    push_tok(&mut args, "-vcodec");
    push_tok(&mut args, "libx265");
    push_tok(&mut args, "-c:a");
    push_tok(&mut args, "aac");
    push_tok(&mut args, "-b:a");
    push_tok(&mut args, "128k");
    let has_sub = !mkv_input && sub_found.is_some();
    if has_sub {
        push_tok(&mut args, "-scodec");
        push_tok(&mut args, "copy");
        push_tok(&mut args, "-metadata:s:s:0");
        push_tok(&mut args, "language=pl");
        push_tok(&mut args, "-disposition:s:0");
        push_tok(&mut args, "default");
    } else if mkv_input {
        push_tok(&mut args, "-c:s");
        push_tok(&mut args, "copy");
        push_tok(&mut args, "-map_metadata");
        push_tok(&mut args, "0");
        push_tok(&mut args, "-map_chapters");
        push_tok(&mut args, "0");
        push_tok(&mut args, "-map");
        push_tok(&mut args, "0");
    }
    proof {
        assert(args.deep_view() =~= spec_head(parts.path@) + spec_branch(*parts, *probe)
            + spec_codec_args() + spec_trailer(*parts, *probe));
    }
    push_tok(&mut args, "-preset");
    push_tok(&mut args, "slow");
    push_tok(&mut args, "-nostdin");
    push_tok(&mut args, "-y");
    let out = output_path(parts, probe);
    push_string(&mut args, out.clone());
    proof {
        assert(args.deep_view() =~= spec_plan_args(*parts, *probe));
    }
    EncodingPlan { args, output_path: out }
}

/// The full planning contract for one input path: the three validation
/// checks in order, then the assembled plan. `input_exists` reports the
/// caller's probe of the input path on disk, `probe` its probe of the four
/// sibling subtitle candidates. The result is a plan exactly when
/// validation passes, and its argument sequence and output path are the
/// ones owed to the path's decomposition.
pub fn plan(path: &String, input_exists: bool, probe: &SubtitleProbe) -> (r: Result<
    EncodingPlan,
    PlanError,
>)
    ensures
        r is Ok <==> (input_exists && spec_has_extension(path@) && spec_media_of(
            spec_raw_extension(path@),
        ) is Some),
        !input_exists ==> r == Err::<EncodingPlan, PlanError>(PlanError::FileNotFound),
        (input_exists && !spec_has_extension(path@)) ==> r == Err::<EncodingPlan, PlanError>(
            PlanError::MissingExtension,
        ),
        (input_exists && spec_has_extension(path@) && spec_media_of(
            spec_raw_extension(path@),
        ) is None) ==> r == Err::<EncodingPlan, PlanError>(PlanError::UnsupportedExtension),
        r is Ok ==> r->Ok_0.args.deep_view() == spec_plan_for(path@, *probe),
        r is Ok ==> r->Ok_0.output_path@ == spec_output_for(path@, *probe),
{
    match validate_path(path, input_exists) {
        Ok(parts) => Ok(build_plan(&parts, probe)),
        Err(e) => Err(e),
    }
}

/// An mkv input keeps the mkv container, its plan is exactly the mkv-branch
/// sequence, the burn-in filter references the input file itself, and it can
/// reference no sibling candidate: every candidate path differs from the
/// input path.
pub proof fn lemma_mkv_keeps_container(parts: PathParts, probe: SubtitleProbe)
    requires
        parts.wf(),
        parts.media is Mkv,
    ensures
        spec_output_extension(parts.media, probe) == "mkv"@,
        spec_plan_args(parts, probe) == spec_head(parts.path@) + seq![
            "-vf"@,
            spec_sub_filter(parts.path@),
        ] + spec_codec_args() + spec_mkv_trailer() + spec_tail() + seq![
            spec_output_path(parts, probe),
        ],
        spec_plan_args(parts, probe)[5] == "-vf"@,
        spec_plan_args(parts, probe)[6] == spec_sub_filter(parts.path@),
        forall|se: SubtitleExtension| spec_candidate(parts, se) != parts.path@,
{
    reveal_strlit("mkv");
    reveal_strlit("srt");
    reveal_strlit("ass");
    reveal_strlit("ssa");
    reveal_strlit("sub");
    assert(spec_plan_args(parts, probe) =~~= spec_head(parts.path@) + seq![
        "-vf"@,
        spec_sub_filter(parts.path@),
    ] + spec_codec_args() + spec_mkv_trailer() + spec_tail() + seq![
        spec_output_path(parts, probe),
    ]);
    let base = parts.prefix@ + parts.stem@ + "."@;
    assert forall|se: SubtitleExtension| spec_candidate(parts, se) != parts.path@ by {
        assert(parts.path@ == base + "mkv"@);
        assert(spec_candidate(parts, se) == base + se.spec_str());
        let n = base.len() as int;
        assert(se.spec_str().len() == 3 && se.spec_str()[2] != 'v') by {
            match se {
                SubtitleExtension::Srt => {},
                SubtitleExtension::Ass => {},
                SubtitleExtension::Ssa => {},
                SubtitleExtension::Sub => {},
            }
        }
        if spec_candidate(parts, se) == parts.path@ {
            assert((base + se.spec_str())[n + 2] == se.spec_str()[2]);
            assert((base + "mkv"@)[n + 2] == 'v');
        }
    }
}

/// For an mp4-family input with no sibling subtitle file for any candidate
/// extension, the container stays mp4 and the plan is exactly the plain
/// sequence: no stream-mapping, no subtitle-copy and no disposition
/// argument appears anywhere in it.
pub proof fn lemma_no_subtitle_plan(parts: PathParts, probe: SubtitleProbe)
    requires
        parts.wf(),
        !(parts.media is Mkv),
        spec_first_subtitle(probe) is None,
    ensures
        spec_output_extension(parts.media, probe) == "mp4"@,
        spec_plan_args(parts, probe) == spec_head(parts.path@) + spec_codec_args() + spec_tail()
            + seq![spec_output_path(parts, probe)],
        !spec_plan_args(parts, probe).contains("-map"@),
        !spec_plan_args(parts, probe).contains("-scodec"@),
        !spec_plan_args(parts, probe).contains("-disposition:s:0"@),
{
    let a = spec_plan_args(parts, probe);
    assert(a =~~= spec_head(parts.path@) + spec_codec_args() + spec_tail() + seq![
        spec_output_path(parts, probe),
    ]);
    reveal_strlit("-hide_banner");
    reveal_strlit("-i");
    reveal_strlit("-crf");
    reveal_strlit("24.0");
    reveal_strlit("-vcodec");
    reveal_strlit("libx265");
    reveal_strlit("-c:a");
    reveal_strlit("aac");
    reveal_strlit("-b:a");
    reveal_strlit("128k");
    reveal_strlit("-preset");
    reveal_strlit("slow");
    reveal_strlit("-nostdin");
    reveal_strlit("-y");
    reveal_strlit("-map");
    reveal_strlit("-scodec");
    reveal_strlit("-disposition:s:0");
    reveal_strlit(" (h265).");
    reveal_strlit(".");
    reveal_strlit("mp4");
    reveal_strlit("m4v");
    reveal_strlit("mov");
    let path = parts.path@;
    let out = spec_output_path(parts, probe);
    let pl = parts.prefix@.len() as int;
    let sl = parts.stem@.len() as int;
    assert(parts.media.spec_str().len() == 3 && (parts.media.spec_str()[2] == '4'
        || parts.media.spec_str()[2] == 'v')) by {
        match parts.media {
            MediaExtension::Mp4 => {},
            MediaExtension::M4v => {},
            MediaExtension::Mov => {},
            MediaExtension::Mkv => {},
        }
    }
    assert(path.len() == pl + sl + 4 && sl >= 1);
    assert(path[path.len() - 1] == parts.media.spec_str()[2]);
    assert(out.len() == pl + sl + 8 + 3);
    assert(out[out.len() - 1] == '4');
    assert(path != "-map"@ && path != "-scodec"@ && path != "-disposition:s:0"@) by {
        if path == "-map"@ {
            assert(path.len() == 4);
        }
        if path == "-scodec"@ {
            assert(path[path.len() - 1] == 'c');
        }
        if path == "-disposition:s:0"@ {
            assert(path[path.len() - 1] == '0');
        }
    }
    assert(out != "-map"@ && out != "-scodec"@ && out != "-disposition:s:0"@) by {
        if out == "-map"@ {
            assert(out.len() == 4);
        }
        if out == "-scodec"@ {
            assert(out[out.len() - 1] == 'c');
        }
        if out == "-disposition:s:0"@ {
            assert(out[out.len() - 1] == '0');
        }
    }
    assert(a.len() == 16);
    assert("-map"@[1] == 'm' && "-scodec"@[1] == 's' && "-disposition:s:0"@[1] == 'd');
    assert forall|i: int| 0 <= i < a.len() implies a[i] != "-map"@ && a[i] != "-scodec"@ && a[i]
        != "-disposition:s:0"@ by {
        if i == 0 {
            assert(a[i] == "-hide_banner"@ && "-hide_banner"@[1] == 'h');
        } else if i == 1 {
            assert(a[i] == "-i"@ && "-i"@[1] == 'i');
        } else if i == 3 {
            assert(a[i] == "-crf"@ && "-crf"@[1] == 'c');
        } else if i == 4 {
            assert(a[i] == "24.0"@ && "24.0"@[1] == '4');
        } else if i == 5 {
            assert(a[i] == "-vcodec"@ && "-vcodec"@[1] == 'v');
        } else if i == 6 {
            assert(a[i] == "libx265"@ && "libx265"@[1] == 'i');
        } else if i == 7 {
            assert(a[i] == "-c:a"@ && "-c:a"@[1] == 'c');
        } else if i == 8 {
            assert(a[i] == "aac"@ && "aac"@[1] == 'a');
        } else if i == 9 {
            assert(a[i] == "-b:a"@ && "-b:a"@[1] == 'b');
        } else if i == 10 {
            assert(a[i] == "128k"@ && "128k"@[1] == '2');
        } else if i == 11 {
            assert(a[i] == "-preset"@ && "-preset"@[1] == 'p');
        } else if i == 12 {
            assert(a[i] == "slow"@ && "slow"@[1] == 'l');
        } else if i == 13 {
            assert(a[i] == "-nostdin"@ && "-nostdin"@[1] == 'n');
        } else if i == 14 {
            assert(a[i] == "-y"@ && "-y"@[1] == 'y');
        } else if i == 2 {
            assert(a[i] == path);
        } else {
            assert(a[i] == out);
        }
    }
    assert(!a.contains("-map"@));
    assert(!a.contains("-scodec"@));
    assert(!a.contains("-disposition:s:0"@));
}

/// For an mp4-family input where a sibling subtitle file was found, the
/// container switches to mkv, the filter references the found sibling, both
/// stream-mapping directives follow it, and the trailer carries the
/// subtitle-copy, language-tag and default-disposition arguments.
pub proof fn lemma_subtitle_found_plan(
    parts: PathParts,
    probe: SubtitleProbe,
    se: SubtitleExtension,
)
    requires
        !(parts.media is Mkv),
        spec_first_subtitle(probe) == Some(se),
    ensures
        spec_output_extension(parts.media, probe) == "mkv"@,
        spec_plan_args(parts, probe) == spec_head(parts.path@) + seq![
            "-vf"@,
            spec_sub_filter(spec_candidate(parts, se)),
            "-map"@,
            "0"@,
            "-map"@,
            "1"@,
        ] + spec_codec_args() + spec_subtitle_trailer() + spec_tail() + seq![
            spec_output_path(parts, probe),
        ],
        spec_plan_args(parts, probe)[6] == spec_sub_filter(spec_candidate(parts, se)),
        spec_plan_args(parts, probe)[7] == "-map"@ && spec_plan_args(parts, probe)[8] == "0"@,
        spec_plan_args(parts, probe)[9] == "-map"@ && spec_plan_args(parts, probe)[10] == "1"@,
        spec_plan_args(parts, probe)[17] == "-scodec"@ && spec_plan_args(parts, probe)[18]
            == "copy"@,
        spec_plan_args(parts, probe)[19] == "-metadata:s:s:0"@ && spec_plan_args(parts, probe)[20]
            == "language=pl"@,
        spec_plan_args(parts, probe)[21] == "-disposition:s:0"@ && spec_plan_args(parts, probe)[22]
            == "default"@,
{
    assert(spec_plan_args(parts, probe) =~~= spec_head(parts.path@) + seq![
        "-vf"@,
        spec_sub_filter(spec_candidate(parts, se)),
        "-map"@,
        "0"@,
        "-map"@,
        "1"@,
    ] + spec_codec_args() + spec_subtitle_trailer() + spec_tail() + seq![
        spec_output_path(parts, probe),
    ]);
}

/// Priority: when both the srt and the ass sibling exist, the earlier srt
/// is the one selected; ass is never matched.
pub proof fn lemma_srt_over_ass(probe: SubtitleProbe)
    requires
        probe.has_srt,
        probe.has_ass,
    ensures
        spec_first_subtitle(probe) == Some(SubtitleExtension::Srt),
        spec_first_subtitle(probe) != Some(SubtitleExtension::Ass),
{
}

/// Every plan's output path is the input's directory prefix, then the stem,
/// then the fixed " (h265)." marker, then the computed output extension —
/// whichever branch the plan took.
pub proof fn lemma_output_path_shape(parts: PathParts, probe: SubtitleProbe)
    requires
        parts.wf(),
    ensures
        spec_output_path(parts, probe) == spec_prefix(parts.path@) + spec_stem(parts.path@)
            + " (h265)."@ + spec_output_extension(parts.media, probe),
{
    lemma_parts_match_decomposition(parts);
}

} // verus!
