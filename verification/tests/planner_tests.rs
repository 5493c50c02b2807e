use transcode_planner::media::{media_of, MediaExtension, PlanError, SubtitleExtension};
use transcode_planner::paths::{subtitle_candidates, validate_path, PathParts};
use transcode_planner::planner::{
    build_plan, first_subtitle, plan, EncodingPlan, SubtitleProbe,
};

fn probe(srt: bool, ass: bool, ssa: bool, sub: bool) -> SubtitleProbe {
    SubtitleProbe { has_srt: srt, has_ass: ass, has_ssa: ssa, has_sub: sub }
}

fn parts_of(path: &str) -> PathParts {
    match validate_path(&String::from(path), true) {
        Ok(p) => p,
        Err(_) => panic!("validation failed"),
    }
}

fn strings(args: &[&str]) -> Vec<String> {
    args.iter().map(|s| s.to_string()).collect()
}

#[test]
fn mp4_with_srt_sibling_full_plan() {
    let parts = parts_of("/videos/clip.mp4");
    let p: EncodingPlan = build_plan(&parts, &probe(true, false, false, false));
    assert_eq!(p.output_path, "/videos/clip (h265).mkv");
    assert_eq!(
        p.args,
        strings(&[
            "-hide_banner",
            "-i",
            "/videos/clip.mp4",
            "-crf",
            "24.0",
            "-vf",
            "subtitles='/videos/clip.srt'",
            "-map",
            "0",
            "-map",
            "1",
            "-vcodec",
            "libx265",
            "-c:a",
            "aac",
            "-b:a",
            "128k",
            "-scodec",
            "copy",
            "-metadata:s:s:0",
            "language=pl",
            "-disposition:s:0",
            "default",
            "-preset",
            "slow",
            "-nostdin",
            "-y",
            "/videos/clip (h265).mkv",
        ])
    );
}

#[test]
fn mkv_input_full_plan() {
    let parts = parts_of("/videos/movie.mkv");
    let p = build_plan(&parts, &probe(false, false, false, false));
    assert_eq!(p.output_path, "/videos/movie (h265).mkv");
    assert_eq!(
        p.args,
        strings(&[
            "-hide_banner",
            "-i",
            "/videos/movie.mkv",
            "-crf",
            "24.0",
            "-vf",
            "subtitles='/videos/movie.mkv'",
            "-vcodec",
            "libx265",
            "-c:a",
            "aac",
            "-b:a",
            "128k",
            "-c:s",
            "copy",
            "-map_metadata",
            "0",
            "-map_chapters",
            "0",
            "-map",
            "0",
            "-preset",
            "slow",
            "-nostdin",
            "-y",
            "/videos/movie (h265).mkv",
        ])
    );
}

#[test]
fn mkv_input_ignores_sibling_probe() {
    let parts = parts_of("/videos/movie.mkv");
    let with_sub = build_plan(&parts, &probe(true, true, true, true));
    let without = build_plan(&parts, &probe(false, false, false, false));
    assert_eq!(with_sub.args, without.args);
    assert_eq!(with_sub.output_path, "/videos/movie (h265).mkv");
}

#[test]
fn mov_without_sibling_stays_mp4() {
    let parts = parts_of("/videos/holiday.mov");
    let p = build_plan(&parts, &probe(false, false, false, false));
    assert_eq!(p.output_path, "/videos/holiday (h265).mp4");
    assert_eq!(
        p.args,
        strings(&[
            "-hide_banner",
            "-i",
            "/videos/holiday.mov",
            "-crf",
            "24.0",
            "-vcodec",
            "libx265",
            "-c:a",
            "aac",
            "-b:a",
            "128k",
            "-preset",
            "slow",
            "-nostdin",
            "-y",
            "/videos/holiday (h265).mp4",
        ])
    );
    assert!(!p.args.iter().any(|a| a == "-map"));
    assert!(!p.args.iter().any(|a| a == "-scodec"));
    assert!(!p.args.iter().any(|a| a == "-disposition:s:0"));
}

#[test]
fn m4v_with_sub_sibling_switches_to_mkv() {
    let parts = parts_of("/videos/episode.m4v");
    let p = build_plan(&parts, &probe(false, false, false, true));
    assert_eq!(p.output_path, "/videos/episode (h265).mkv");
    assert!(p.args.iter().any(|a| a == "subtitles='/videos/episode.sub'"));
    assert!(p.args.iter().any(|a| a == "-map"));
    assert!(p.args.iter().any(|a| a == "-scodec"));
}

#[test]
fn srt_beats_ass_in_priority() {
    assert_eq!(
        first_subtitle(&probe(true, true, false, false)),
        Some(SubtitleExtension::Srt)
    );
    let parts = parts_of("/videos/clip.mp4");
    let p = build_plan(&parts, &probe(true, true, false, false));
    assert!(p.args.iter().any(|a| a == "subtitles='/videos/clip.srt'"));
    assert!(!p.args.iter().any(|a| a == "subtitles='/videos/clip.ass'"));
}

#[test]
fn ssa_beats_sub_in_priority() {
    assert_eq!(
        first_subtitle(&probe(false, false, true, true)),
        Some(SubtitleExtension::Ssa)
    );
    assert_eq!(first_subtitle(&probe(false, false, false, false)), None);
}

#[test]
fn candidates_in_priority_order() {
    let parts = parts_of("/videos/clip.mp4");
    let c = subtitle_candidates(&parts);
    assert_eq!(
        c,
        strings(&[
            "/videos/clip.srt",
            "/videos/clip.ass",
            "/videos/clip.ssa",
            "/videos/clip.sub",
        ])
    );
}

#[test]
fn missing_file_is_file_not_found() {
    let r = plan(
        &String::from("/videos/clip.mp4"),
        false,
        &probe(false, false, false, false),
    );
    assert!(matches!(r, Err(PlanError::FileNotFound)));
}

#[test]
fn avi_is_unsupported_extension() {
    let r = validate_path(&String::from("/videos/clip.avi"), true);
    assert!(matches!(r, Err(PlanError::UnsupportedExtension)));
}

#[test]
fn extensionless_name_is_missing_extension() {
    let r = validate_path(&String::from("/videos/clip"), true);
    assert!(matches!(r, Err(PlanError::MissingExtension)));
}

#[test]
fn leading_dot_only_is_missing_extension() {
    let r = validate_path(&String::from("/videos/.hidden"), true);
    assert!(matches!(r, Err(PlanError::MissingExtension)));
}

#[test]
fn trailing_dot_is_missing_extension() {
    let r = validate_path(&String::from("/videos/clip."), true);
    assert!(matches!(r, Err(PlanError::MissingExtension)));
}

#[test]
fn existence_is_checked_before_extension() {
    let r = validate_path(&String::from("/videos/clip.avi"), false);
    assert!(matches!(r, Err(PlanError::FileNotFound)));
}

#[test]
fn decomposition_of_absolute_path() {
    let parts = parts_of("/videos/season.1/clip.name.mp4");
    assert_eq!(parts.path, "/videos/season.1/clip.name.mp4");
    assert_eq!(parts.prefix, "/videos/season.1/");
    assert_eq!(parts.stem, "clip.name");
    assert_eq!(parts.media, MediaExtension::Mp4);
}

#[test]
fn bare_file_name_has_empty_prefix() {
    let parts = parts_of("clip.mp4");
    assert_eq!(parts.prefix, "");
    assert_eq!(parts.stem, "clip");
    let c = subtitle_candidates(&parts);
    assert_eq!(c[0], "clip.srt");
    let p = build_plan(&parts, &probe(false, false, false, false));
    assert_eq!(p.output_path, "clip (h265).mp4");
}

#[test]
fn media_extensions_are_exact() {
    assert_eq!(media_of("mp4"), Some(MediaExtension::Mp4));
    assert_eq!(media_of("m4v"), Some(MediaExtension::M4v));
    assert_eq!(media_of("mov"), Some(MediaExtension::Mov));
    assert_eq!(media_of("mkv"), Some(MediaExtension::Mkv));
    assert_eq!(media_of("MP4"), None);
    assert_eq!(media_of("avi"), None);
    assert_eq!(media_of(""), None);
}

#[test]
fn plan_end_to_end_with_sibling() {
    let r = plan(
        &String::from("/videos/clip.mp4"),
        true,
        &probe(true, false, false, false),
    );
    let p = match r {
        Ok(p) => p,
        Err(_) => panic!("planning failed"),
    };
    assert_eq!(p.output_path, "/videos/clip (h265).mkv");
    assert_eq!(*p.args.last().unwrap(), p.output_path);
    assert!(p.args.iter().any(|a| a == "subtitles='/videos/clip.srt'"));
}

#[test]
fn output_path_is_final_argument_every_branch() {
    for (path, pr) in [
        ("/a/b.mkv", probe(false, false, false, false)),
        ("/a/b.mp4", probe(false, true, false, false)),
        ("/a/b.mov", probe(false, false, false, false)),
    ] {
        let p = build_plan(&parts_of(path), &pr);
        assert_eq!(*p.args.last().unwrap(), p.output_path);
    }
}
