use omni_downloader::ingest::{
    build_output_stem, build_retention_filename, ensure_profile_extension,
    looks_like_direct_media_url, sanitize_filename, DownloadExecution,
};
use omni_downloader::paths::{join_path, Platform};

#[test]
fn sanitize_replaces_reserved_characters() {
    assert_eq!(sanitize_filename("a<b>c:d\"e/f\\g|h?i*j"), "a_b_c_d_e_f_g_h_i_j");
}

#[test]
fn sanitize_collapses_whitespace_and_strips_dots() {
    assert_eq!(sanitize_filename("  ..hello   world..  "), "hello world");
}

#[test]
fn sanitize_turns_control_characters_into_underscores() {
    assert_eq!(sanitize_filename("a\tb"), "a_b");
}

#[test]
fn sanitize_falls_back_to_download() {
    assert_eq!(sanitize_filename(""), "download");
    assert_eq!(sanitize_filename(" ... "), "download");
}

#[test]
fn sanitize_result_is_safe() {
    let name = sanitize_filename(" <x> \u{7}y ");
    assert!(!name.is_empty());
    assert!(!name.chars().any(|c| "<>:\"/\\|?*".contains(c) || c.is_control()));
    assert_eq!(name.trim(), name);
}

#[test]
fn output_stem_prefers_the_given_name() {
    assert_eq!(build_output_stem("  My Clip ", Some("Title"), "id0", 0, 1), "My Clip");
}

#[test]
fn output_stem_uses_the_title_then_the_id() {
    assert_eq!(build_output_stem("   ", Some("  A: B "), "id0", 0, 1), "A_ B");
    assert_eq!(build_output_stem("", None, "c1234", 0, 1), "c1234");
}

#[test]
fn output_stem_numbers_items_of_a_batch() {
    assert_eq!(build_output_stem("clip", None, "id", 1, 3), "clip_02");
    assert_eq!(build_output_stem("clip", None, "id", 11, 12), "clip_12");
}

#[test]
fn profile_extension_is_appended_once() {
    assert_eq!(ensure_profile_extension("clip", ".mxf"), "clip.mxf");
    assert_eq!(ensure_profile_extension("clip.MXF", "mxf"), "clip.MXF");
    let once = ensure_profile_extension("news", "mp4");
    assert_eq!(ensure_profile_extension(&once, "mp4"), once);
}

#[test]
fn retention_filename_keeps_the_source_extension() {
    assert_eq!(build_retention_filename("x", Some(".mp4")), "x_source.mp4");
    assert_eq!(build_retention_filename("x", Some("webm")), "x_source.webm");
    assert_eq!(build_retention_filename("x", Some("")), "x_source");
    assert_eq!(build_retention_filename("x", None), "x_source");
}

#[test]
fn direct_media_urls_are_recognized() {
    assert!(looks_like_direct_media_url("https://cdn.example.com/a/b.MP4?token=1"));
    assert!(looks_like_direct_media_url("https://x/stream.m3u8"));
    assert!(!looks_like_direct_media_url("https://example.com/article/42"));
}

#[test]
fn summary_lists_the_exported_files() {
    let execution = DownloadExecution {
        exported_files: vec!["/out/a.mxf".to_string(), "/out/b.mxf".to_string()],
    };
    assert_eq!(execution.summary(), "Successfully exported 2 file(s):\n/out/a.mxf\n/out/b.mxf");
    let empty = DownloadExecution { exported_files: vec![] };
    assert_eq!(empty.summary(), "Successfully exported 0 file(s):\n");
}

#[test]
fn paths_join_with_the_platform_separator() {
    assert_eq!(join_path(Platform::Unix, "/a", "b"), "/a/b");
    assert_eq!(join_path(Platform::Unix, "/a/", "b"), "/a/b");
    assert_eq!(join_path(Platform::Windows, "C:\\x", "y"), "C:\\x\\y");
    assert_eq!(join_path(Platform::Windows, "C:", "y"), "C:y");
}

#[test]
fn clean_names_are_kept() {
    for name in ["My Clip.v2", "a", "Evening News 0007_x"] {
        assert_eq!(sanitize_filename(name), name);
    }
}
