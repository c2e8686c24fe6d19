use omni_downloader::binaries::RuntimeBinaries;
use omni_downloader::config::{AppConfig, HostEnvironment};
use omni_downloader::pipeline::{
    first_string, log_command_output, probe_media, probe_outcome, resolve_media_urls, select_downloaded_file,
    select_profile, DirEntryFacts, IngestAction, IngestEvent, IngestJob, IngestStage, MediaProbe,
    MediaResolution, ProbeFields,
};
use omni_downloader::paths::Platform;

fn config() -> AppConfig {
    let env = HostEnvironment {
        platform: Platform::Unix,
        local_app_data: None,
        home: Some("/home/ana".to_string()),
        user_profile: None,
        current_dir: None,
    };
    let mut cfg = AppConfig::default_for(&env);
    cfg.output_path = "/out".to_string();
    cfg.nas_retention_path = "/nas".to_string();
    cfg
}

#[test]
fn first_present_value_wins() {
    assert_eq!(first_string(&vec![None, Some("b".to_string()), Some("c".to_string())]), Some("b".to_string()));
    assert_eq!(first_string(&vec![None, None]), None);
}

#[test]
fn probe_failures_report_trimmed_stderr() {
    let r = probe_outcome(false, "  ERROR: Unsupported URL \n", None);
    assert_eq!(r.err().unwrap(), "ERROR: Unsupported URL");
    let r = probe_outcome(true, "", None);
    assert_eq!(r.err().unwrap(), "yt-dlp returned invalid JSON");
}

#[test]
fn probe_reads_title_and_extractor() {
    let fields = ProbeFields {
        title: None,
        fulltitle: Some("Full".to_string()),
        extractor_key: Some("Youtube".to_string()),
        extractor: Some("youtube".to_string()),
    };
    let m = probe_outcome(true, "", Some(fields)).ok().unwrap();
    assert_eq!(m.title, Some("Full".to_string()));
    assert_eq!(m.extractor, Some("Youtube".to_string()));
}

#[test]
fn probed_urls_resolve_to_one_item() {
    let probe = Ok(MediaProbe { title: Some("T".to_string()), extractor: None });
    let items = resolve_media_urls("https://v/1", probe).ok().unwrap();
    assert_eq!(items.len(), 1);
    assert_eq!(items[0].download_url, "https://v/1");
    assert_eq!(items[0].suggested_title, Some("T".to_string()));
    assert_eq!(items[0].source, "yt-dlp-probe");
}

#[test]
fn direct_urls_resolve_without_a_probe() {
    let items = resolve_media_urls("https://cdn/x.webm", Err("no".to_string())).ok().unwrap();
    assert_eq!(items[0].extractor, Some("direct-url".to_string()));
    assert_eq!(items[0].source, "direct-media-url");
    let e = resolve_media_urls("https://site/page", Err("no".to_string())).err().unwrap();
    assert_eq!(e, "yt-dlp could not resolve the provided URL and it does not look like a direct media asset");
}

#[test]
fn profiles_are_chosen_by_name() {
    let cfg = config();
    assert_eq!(select_profile(&cfg.profiles, "H.265 1080p MP4").name, "H.265 1080p MP4");
    assert_eq!(select_profile(&cfg.profiles, "missing").name, "Dalet XDCAM 50Mbps");
    assert_eq!(select_profile(&vec![], "x").extension, "mxf");
}

#[test]
fn leftovers_are_not_downloads() {
    let entries = vec![
        DirEntryFacts { path: "/w/downloaded.mp4.part".to_string(), is_file: true },
        DirEntryFacts { path: "/w/sub".to_string(), is_file: false },
        DirEntryFacts { path: "/w/downloaded.ytdl".to_string(), is_file: true },
        DirEntryFacts { path: "/w/downloaded.mp4".to_string(), is_file: true },
    ];
    assert_eq!(select_downloaded_file(Platform::Unix, &entries), Some("/w/downloaded.mp4".to_string()));
    let leftovers = vec![
        DirEntryFacts { path: "/w/a.part".to_string(), is_file: true },
        DirEntryFacts { path: "/w/b.mp4".to_string(), is_file: false },
    ];
    assert_eq!(select_downloaded_file(Platform::Unix, &leftovers), None);
}

#[test]
fn command_output_becomes_prefixed_lines() {
    let lines = log_command_output("[yt-dlp]", "a\n\n  b \r\n", "  err");
    assert_eq!(lines, vec!["[yt-dlp] a".to_string(), "[yt-dlp] b".to_string(), "[yt-dlp] err".to_string()]);
    assert!(log_command_output("[ffmpeg]", "", " \n ").is_empty());
}

fn binaries() -> RuntimeBinaries {
    RuntimeBinaries { yt_dlp: "/b/yt-dlp".to_string(), ffmpeg: "/b/ffmpeg".to_string() }
}

fn item(url: &str) -> MediaResolution {
    MediaResolution {
        download_url: url.to_string(),
        suggested_title: Some("Evening News".to_string()),
        extractor: None,
        source: "yt-dlp-probe".to_string(),
    }
}

#[test]
fn a_single_item_run_exports_one_file() {
    let cfg = config();
    let (mut job, first) =
        IngestJob::start(Platform::Unix, &cfg, "H.264 1080p MP4", "", binaries(), "/tmp", vec![item("https://v/1")]);
    assert_eq!(job.job_id.len(), 20);
    assert!(job.job_id.chars().all(|c| c.is_ascii_digit() || ('a'..='v').contains(&c)));
    let work_dir = format!("/tmp/omni-downloader/{}/item-01", job.job_id);
    match first {
        IngestAction::Download { work_dir: w, program, args } => {
            assert_eq!(w, work_dir);
            assert_eq!(program, "/b/yt-dlp");
            assert_eq!(
                args,
                vec![
                    "--no-playlist".to_string(),
                    "--newline".to_string(),
                    "-o".to_string(),
                    format!("{}/downloaded.%(ext)s", work_dir),
                    "https://v/1".to_string(),
                ]
            );
        }
        _ => panic!("expected a download"),
    }
    match job.advance(IngestEvent::Exited { success: true }) {
        IngestAction::Locate { work_dir: w } => assert_eq!(w, work_dir),
        _ => panic!("expected a lookup"),
    }
    let listing = vec![
        DirEntryFacts { path: format!("{}/downloaded.mp4.part", work_dir), is_file: true },
        DirEntryFacts { path: format!("{}/downloaded.mp4", work_dir), is_file: true },
    ];
    match job.advance(IngestEvent::Listed(listing)) {
        IngestAction::Archive { source, destination } => {
            assert_eq!(source, format!("{}/downloaded.mp4", work_dir));
            assert_eq!(destination, "/nas/Evening News_source.mp4");
        }
        _ => panic!("expected an archive copy"),
    }
    match job.advance(IngestEvent::Archived) {
        IngestAction::Transcode { program, args, downloaded, work_dir: w } => {
            assert_eq!(program, "/b/ffmpeg");
            assert_eq!(args[0], "-y");
            assert_eq!(args[2], format!("{}/downloaded.mp4", work_dir));
            assert_eq!(args[3], "-vf");
            assert_eq!(args.len(), 3 + 12 + 1);
            assert_eq!(args.last().unwrap(), "/out/Evening News.mp4");
            assert_eq!(downloaded, format!("{}/downloaded.mp4", work_dir));
            assert_eq!(w, work_dir);
        }
        _ => panic!("expected a transcode"),
    }
    match job.advance(IngestEvent::Exited { success: true }) {
        IngestAction::Complete(execution) => {
            assert_eq!(execution.exported_files, vec!["/out/Evening News.mp4".to_string()]);
        }
        _ => panic!("expected completion"),
    }
    assert_eq!(job.stage, IngestStage::Finished);
}

#[test]
fn a_batch_numbers_its_outputs() {
    let cfg = config();
    let items = vec![item("https://v/1"), item("https://v/2")];
    let (mut job, _) = IngestJob::start(Platform::Unix, &cfg, "Dalet XDCAM 50Mbps", "Clip", binaries(), "/tmp", items);
    let mut exported = Vec::new();
    for n in 1..=2 {
        let work_dir = format!("/tmp/omni-downloader/{}/item-{:02}", job.job_id, n);
        job.advance(IngestEvent::Exited { success: true });
        let listing = vec![DirEntryFacts { path: format!("{}/downloaded.webm", work_dir), is_file: true }];
        match job.advance(IngestEvent::Listed(listing)) {
            IngestAction::Archive { destination, .. } => {
                assert_eq!(destination, format!("/nas/Clip_{:02}_source.webm", n))
            }
            _ => panic!("expected an archive copy"),
        }
        job.advance(IngestEvent::Archived);
        match job.advance(IngestEvent::Exited { success: true }) {
            IngestAction::Download { work_dir: w, .. } => {
                assert_eq!(n, 1);
                assert_eq!(w, format!("/tmp/omni-downloader/{}/item-02", job.job_id));
            }
            IngestAction::Complete(execution) => {
                assert_eq!(n, 2);
                exported = execution.exported_files;
            }
            _ => panic!("unexpected action"),
        }
    }
    assert_eq!(exported, vec!["/out/Clip_01.mxf".to_string(), "/out/Clip_02.mxf".to_string()]);
}

#[test]
fn failures_end_the_run() {
    let cfg = config();
    let (mut job, _) = IngestJob::start(Platform::Unix, &cfg, "x", "n", binaries(), "/tmp", vec![item("u")]);
    let work_dir = format!("/tmp/omni-downloader/{}/item-01", job.job_id);
    match job.advance(IngestEvent::Exited { success: false }) {
        IngestAction::Fail { message, cleanup } => {
            assert_eq!(message, "yt-dlp download failed for item 1");
            assert_eq!(cleanup, Some(work_dir));
        }
        _ => panic!("expected a failure"),
    }
    assert_eq!(job.stage, IngestStage::Failed);
    assert!(!job.accepts(&IngestEvent::Archived));

    let (mut job, _) = IngestJob::start(Platform::Unix, &cfg, "x", "n", binaries(), "/tmp", vec![item("u")]);
    job.advance(IngestEvent::Exited { success: true });
    match job.advance(IngestEvent::Listed(vec![])) {
        IngestAction::Fail { message, cleanup } => {
            assert_eq!(message, "Downloaded file not found");
            assert_eq!(cleanup, None);
        }
        _ => panic!("expected a failure"),
    }

    let (mut job, _) = IngestJob::start(Platform::Unix, &cfg, "x", "n", binaries(), "/tmp", vec![item("u")]);
    let wd = format!("/tmp/omni-downloader/{}/item-01", job.job_id);
    job.advance(IngestEvent::Exited { success: true });
    job.advance(IngestEvent::Listed(vec![DirEntryFacts { path: format!("{}/d.mp4", wd), is_file: true }]));
    job.advance(IngestEvent::Archived);
    match job.advance(IngestEvent::Exited { success: false }) {
        IngestAction::Fail { message, .. } => assert_eq!(message, "FFmpeg transcoding failed for item 1"),
        _ => panic!("expected a failure"),
    }
}

#[test]
fn an_empty_run_completes_at_once() {
    let cfg = config();
    let (job, first) = IngestJob::start(Platform::Unix, &cfg, "x", "n", binaries(), "/tmp", vec![]);
    assert_eq!(job.stage, IngestStage::Finished);
    match first {
        IngestAction::Complete(execution) => assert!(execution.exported_files.is_empty()),
        _ => panic!("expected completion"),
    }
}

#[test]
fn probe_output_is_read_as_json() {
    let stdout = br#"{"fulltitle": "Full", "title": 7, "extractor": "generic", "id": "x"}"#;
    let m = probe_media(true, stdout, "").ok().unwrap();
    assert_eq!(m.title, Some("Full".to_string()));
    assert_eq!(m.extractor, Some("generic".to_string()));
    let e = probe_media(true, b"WARNING: not json", "").err().unwrap();
    assert_eq!(e, "yt-dlp returned invalid JSON");
    let e = probe_media(false, b"{}", "\nERROR: gone\n").err().unwrap();
    assert_eq!(e, "ERROR: gone");
    let m = probe_media(true, b"[1, 2]", "").ok().unwrap();
    assert_eq!(m.title, None);
    assert_eq!(m.extractor, None);
}
