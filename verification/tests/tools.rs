use omni_downloader::binaries::{
    ffmpeg_archive_target, ffmpeg_download_url, ffmpeg_file_name, is_reasonable_size,
    is_valid_ffmpeg_binary, is_valid_ytdlp_binary, resolve_runtime_binaries, yt_dlp_file_name,
    ytdlp_download_url, ytdlp_update_action, BinaryError, BinaryInstaller, EnsureAction,
    EnsureEvent, EnsureStage, FileFacts, ToolProbe, UpdateAction,
};
use omni_downloader::config::{AppConfig, HostEnvironment};
use omni_downloader::paths::Platform;

fn config_with_bin(dir: &str) -> AppConfig {
    let env = HostEnvironment {
        platform: Platform::Unix,
        local_app_data: None,
        home: Some("/home/ana".to_string()),
        user_profile: None,
        current_dir: None,
    };
    let mut cfg = AppConfig::default_for(&env);
    cfg.binaries_path = dir.to_string();
    cfg
}

fn big(len: u64) -> Option<FileFacts> {
    Some(FileFacts { is_file: true, len })
}

#[test]
fn sizes_decide_plausibility() {
    assert!(is_reasonable_size(big(10), 10));
    assert!(!is_reasonable_size(big(9), 10));
    assert!(!is_reasonable_size(Some(FileFacts { is_file: false, len: 99 }), 10));
    assert!(!is_reasonable_size(None, 0));
    assert!(is_valid_ytdlp_binary(big(1_000_000), true));
    assert!(!is_valid_ytdlp_binary(big(999_999), true));
    assert!(!is_valid_ytdlp_binary(big(5_000_000), false));
    assert!(is_valid_ffmpeg_binary(big(10_000_000), true));
    assert!(!is_valid_ffmpeg_binary(big(9_999_999), true));
}

#[test]
fn file_names_and_urls_follow_the_platform() {
    assert_eq!(yt_dlp_file_name(Platform::Windows), "yt-dlp.exe");
    assert_eq!(yt_dlp_file_name(Platform::Unix), "yt-dlp");
    assert_eq!(ffmpeg_file_name(Platform::Windows), "ffmpeg.exe");
    assert_eq!(ffmpeg_file_name(Platform::Unix), "ffmpeg");
    assert_eq!(
        ytdlp_download_url(Platform::Unix),
        "https://github.com/yt-dlp/yt-dlp-nightly-builds/releases/latest/download/yt-dlp_linux"
    );
    assert_eq!(
        ytdlp_download_url(Platform::Windows),
        "https://github.com/yt-dlp/yt-dlp-nightly-builds/releases/latest/download/yt-dlp.exe"
    );
    assert_eq!(ffmpeg_download_url(Platform::Unix), None);
    assert_eq!(
        ffmpeg_download_url(Platform::Windows),
        Some("https://github.com/BtbN/FFmpeg-Builds/releases/download/latest/ffmpeg-master-latest-win64-gpl.zip")
    );
}

fn probe(len: u64, bundled_runs: bool, system_runs: bool) -> ToolProbe {
    ToolProbe { bundled_metadata: big(len), bundled_runs, system_runs }
}

#[test]
fn bundled_binaries_are_preferred() {
    let cfg = config_with_bin("/opt/omni/bin");
    let r = resolve_runtime_binaries(&cfg, Platform::Unix, &probe(2_000_000, true, true), &probe(20_000_000, true, true));
    let b = r.ok().unwrap();
    assert_eq!(b.yt_dlp, "/opt/omni/bin/yt-dlp");
    assert_eq!(b.ffmpeg, "/opt/omni/bin/ffmpeg");
}

#[test]
fn system_binaries_are_the_fallback() {
    let cfg = config_with_bin("/opt/omni/bin");
    let r = resolve_runtime_binaries(&cfg, Platform::Unix, &probe(10, true, true), &probe(20_000_000, false, true));
    let b = r.ok().unwrap();
    assert_eq!(b.yt_dlp, "yt-dlp");
    assert_eq!(b.ffmpeg, "ffmpeg");
}

#[test]
fn missing_binaries_are_reported() {
    let cfg = config_with_bin("/opt/omni/bin");
    let r = resolve_runtime_binaries(&cfg, Platform::Unix, &probe(10, false, false), &probe(10, false, false));
    let e = r.err().unwrap();
    assert_eq!(e, BinaryError::NoYtDlp);
    assert_eq!(
        e.message(),
        "No working yt-dlp executable found. Bundled binary is missing or invalid and no system yt-dlp is available."
    );
    let r = resolve_runtime_binaries(&cfg, Platform::Unix, &probe(2_000_000, true, false), &probe(10, false, false));
    let e = r.err().unwrap();
    assert_eq!(e, BinaryError::NoFfmpeg);
    assert!(e.message().starts_with("No working ffmpeg executable found."));
}

#[test]
fn archive_entries_are_filtered() {
    assert_eq!(
        ffmpeg_archive_target(Platform::Windows, "ffmpeg-master/bin/ffmpeg.exe", "C:\\omni\\bin"),
        Some("C:\\omni\\bin\\ffmpeg.exe".to_string())
    );
    assert_eq!(
        ffmpeg_archive_target(Platform::Windows, "ffmpeg-master/bin/ffprobe.exe", "C:\\omni\\bin"),
        Some("C:\\omni\\bin\\ffprobe.exe".to_string())
    );
    assert_eq!(ffmpeg_archive_target(Platform::Windows, "ffmpeg-master/README.txt", "C:\\b"), None);
}

fn expect_path(action: &EnsureAction) -> String {
    match action {
        EnsureAction::CheckDirExists { dir } | EnsureAction::CreateDir { dir } => dir.clone(),
        EnsureAction::CheckYtDlp { path }
        | EnsureAction::MakeExecutable { path }
        | EnsureAction::CheckFfmpeg { path }
        | EnsureAction::RemoveFile { path } => path.clone(),
        _ => panic!("no path in this action"),
    }
}

#[test]
fn installer_downloads_a_missing_ytdlp_on_unix() {
    let cfg = config_with_bin("/opt/b");
    let (mut inst, first) = BinaryInstaller::new(&cfg, Platform::Unix);
    assert_eq!(expect_path(&first), "/opt/b");
    let a = inst.advance(EnsureEvent::Observed(false));
    assert!(matches!(a, EnsureAction::CreateDir { .. }));
    let a = inst.advance(EnsureEvent::Completed);
    assert_eq!(expect_path(&a), "/opt/b/yt-dlp");
    let a = inst.advance(EnsureEvent::Observed(false));
    match a {
        EnsureAction::Download { url, destination, temp } => {
            assert_eq!(url, ytdlp_download_url(Platform::Unix));
            assert_eq!(destination, "/opt/b/yt-dlp");
            assert_eq!(temp, "/opt/b/yt-dlp.download");
        }
        _ => panic!("expected a download"),
    }
    let a = inst.advance(EnsureEvent::Completed);
    assert!(matches!(a, EnsureAction::MakeExecutable { .. }));
    let a = inst.advance(EnsureEvent::Completed);
    assert!(matches!(a, EnsureAction::CheckYtDlp { .. }));
    assert_eq!(inst.stage, EnsureStage::RecheckingYtDlp);
    let a = inst.advance(EnsureEvent::Observed(true));
    assert_eq!(expect_path(&a), "/opt/b/ffmpeg");
    let a = inst.advance(EnsureEvent::Observed(false));
    assert!(matches!(a, EnsureAction::CheckSystemFfmpeg));
    let a = inst.advance(EnsureEvent::Observed(true));
    assert!(matches!(a, EnsureAction::Finish));
    assert_eq!(inst.stage, EnsureStage::Done);
    assert!(!inst.accepts(&EnsureEvent::Observed(true)));
}

#[test]
fn installer_fetches_ffmpeg_on_windows() {
    let cfg = config_with_bin("C:\\b");
    let (mut inst, _) = BinaryInstaller::new(&cfg, Platform::Windows);
    inst.advance(EnsureEvent::Observed(true));
    let a = inst.advance(EnsureEvent::Observed(true));
    assert_eq!(expect_path(&a), "C:\\b\\ffmpeg.exe");
    match inst.advance(EnsureEvent::Observed(false)) {
        EnsureAction::Download { destination, temp, .. } => {
            assert_eq!(destination, "C:\\b\\ffmpeg.zip");
            assert_eq!(temp, "C:\\b\\ffmpeg.download");
        }
        _ => panic!("expected a download"),
    }
    match inst.advance(EnsureEvent::Completed) {
        EnsureAction::Extract { archive, destination } => {
            assert_eq!(archive, "C:\\b\\ffmpeg.zip");
            assert_eq!(destination, "C:\\b");
        }
        _ => panic!("expected an extraction"),
    }
    let a = inst.advance(EnsureEvent::Completed);
    assert_eq!(expect_path(&a), "C:\\b\\ffmpeg.zip");
    let a = inst.advance(EnsureEvent::Failed("locked".to_string()));
    assert_eq!(expect_path(&a), "C:\\b\\ffmpeg.exe");
    match inst.advance(EnsureEvent::Observed(false)) {
        EnsureAction::Fail { message } => {
            assert_eq!(message, "Downloaded ffmpeg binary is invalid: C:\\b\\ffmpeg.exe")
        }
        _ => panic!("expected a failure"),
    }
    assert_eq!(inst.stage, EnsureStage::Failed);
}

#[test]
fn installer_stops_on_a_failed_download() {
    let cfg = config_with_bin("/b");
    let (mut inst, _) = BinaryInstaller::new(&cfg, Platform::Unix);
    inst.advance(EnsureEvent::Observed(true));
    inst.advance(EnsureEvent::Observed(false));
    assert!(!inst.accepts(&EnsureEvent::Observed(true)));
    match inst.advance(EnsureEvent::Failed("HTTP 404".to_string())) {
        EnsureAction::Fail { message } => assert_eq!(message, "HTTP 404"),
        _ => panic!("expected a failure"),
    }
}

#[test]
fn updater_runs_the_resolved_ytdlp() {
    let cfg = config_with_bin("/b");
    let resolved = resolve_runtime_binaries(&cfg, Platform::Unix, &probe(2_000_000, true, false), &probe(0, false, true));
    match ytdlp_update_action(&resolved) {
        UpdateAction::Run { program, args } => {
            assert_eq!(program, "/b/yt-dlp");
            assert_eq!(args, vec!["--update-to".to_string(), "nightly".to_string()]);
        }
        UpdateAction::Skip => panic!("expected an update"),
    }
    let missing = resolve_runtime_binaries(&cfg, Platform::Unix, &probe(0, false, false), &probe(0, false, true));
    assert!(matches!(ytdlp_update_action(&missing), UpdateAction::Skip));
}
