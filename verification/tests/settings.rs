use omni_downloader::config::{
    app_data_dir, config_candidates, config_path, default_binaries_path,
    default_nas_retention_path, default_output_path, default_profile, default_profile_name,
    default_profiles, migrate_builtin_profiles, normalize_runtime_path, normalize_runtime_paths,
    preferred_downloads_dir, repair_config, AppConfig, EncodingProfile, HostEnvironment,
};
use omni_downloader::paths::Platform;

fn unix_env() -> HostEnvironment {
    HostEnvironment {
        platform: Platform::Unix,
        local_app_data: None,
        home: Some("/home/ana".to_string()),
        user_profile: None,
        current_dir: Some("/srv".to_string()),
    }
}

fn windows_env() -> HostEnvironment {
    HostEnvironment {
        platform: Platform::Windows,
        local_app_data: Some("C:\\Users\\ana\\AppData\\Local".to_string()),
        home: None,
        user_profile: Some("C:\\Users\\ana".to_string()),
        current_dir: Some("C:\\work".to_string()),
    }
}

fn bare_env() -> HostEnvironment {
    HostEnvironment {
        platform: Platform::Unix,
        local_app_data: None,
        home: None,
        user_profile: None,
        current_dir: None,
    }
}

#[test]
fn app_dir_follows_the_host() {
    assert_eq!(app_data_dir(&unix_env()), "/home/ana/.local/share/omni-downloader");
    assert_eq!(app_data_dir(&windows_env()), "C:\\Users\\ana\\AppData\\Local\\Omni Downloader");
    assert_eq!(app_data_dir(&bare_env()), "./omni-downloader-data");
}

#[test]
fn default_locations_follow_the_host() {
    let env = unix_env();
    assert_eq!(default_nas_retention_path(&env), "/home/ana/.local/share/omni-downloader/nas_storage");
    assert_eq!(default_binaries_path(&env), "/home/ana/.local/share/omni-downloader/binaries");
    assert_eq!(default_output_path(&env), "/home/ana/Downloads/omni-downloader");
    assert_eq!(preferred_downloads_dir(&windows_env()), "C:\\Users\\ana\\Downloads\\Omni Downloader");
    assert_eq!(preferred_downloads_dir(&bare_env()), "./omni-downloader-data/downloads");
}

#[test]
fn builtin_profiles_are_present() {
    let profiles = default_profiles();
    assert_eq!(profiles.len(), 3);
    assert_eq!(profiles[0].name, "Dalet XDCAM 50Mbps");
    assert_eq!(profiles[0].extension, "mxf");
    assert_eq!(profiles[0].ffmpeg_args.len(), 55);
    assert_eq!(profiles[0].ffmpeg_args.last().unwrap(), "-shortest");
    assert_eq!(profiles[1].name, "H.264 1080p MP4");
    assert_eq!(profiles[1].ffmpeg_args[3], "libx264");
    assert_eq!(profiles[2].name, "H.265 1080p MP4");
    assert_eq!(profiles[2].ffmpeg_args[9], "hvc1");
    assert_eq!(default_profile_name(), "Dalet XDCAM 50Mbps");
    let dalet = default_profile();
    assert_eq!(dalet.name, profiles[0].name);
    assert_eq!(dalet.ffmpeg_args, profiles[0].ffmpeg_args);
}

#[test]
fn default_config_uses_host_locations() {
    let cfg = AppConfig::default_for(&unix_env());
    assert_eq!(cfg.binaries_path, "/home/ana/.local/share/omni-downloader/binaries");
    assert_eq!(cfg.default_profile, "Dalet XDCAM 50Mbps");
    assert_eq!(cfg.profiles.len(), 3);
}

fn legacy_config() -> AppConfig {
    AppConfig {
        nas_retention_path: "/nas".to_string(),
        binaries_path: "/bin/omni".to_string(),
        output_path: "/out".to_string(),
        default_profile: "Dalet XDCAM 50Mbps".to_string(),
        profiles: vec![
            EncodingProfile {
                name: "Custom".to_string(),
                extension: "mov".to_string(),
                ffmpeg_args: vec!["-c".to_string(), "copy".to_string()],
            },
            EncodingProfile {
                name: "Dalet XDCAM 50Mbps".to_string(),
                extension: "mxf".to_string(),
                ffmpeg_args: vec!["-f".to_string(), "lavfi".to_string(), "aevalsrc=0:d=1".to_string()],
            },
        ],
    }
}

#[test]
fn migration_replaces_a_legacy_dalet_profile_once() {
    let mut cfg = legacy_config();
    assert!(migrate_builtin_profiles(&mut cfg));
    assert_eq!(cfg.profiles.len(), 2);
    assert_eq!(cfg.profiles[0].name, "Custom");
    assert_eq!(cfg.profiles[1].ffmpeg_args, default_profiles()[0].ffmpeg_args);
    assert!(!migrate_builtin_profiles(&mut cfg));
}

#[test]
fn migration_keeps_a_current_dalet_profile() {
    let mut cfg = legacy_config();
    cfg.profiles[1] = default_profile();
    cfg.profiles[1].ffmpeg_args.push("-y".to_string());
    let before = cfg.profiles[1].ffmpeg_args.clone();
    assert!(!migrate_builtin_profiles(&mut cfg));
    assert_eq!(cfg.profiles[1].ffmpeg_args, before);
}

#[test]
fn runtime_paths_are_resolved_against_the_app_dir() {
    let env = unix_env();
    assert_eq!(normalize_runtime_path("  ", "/fallback", &env), "/fallback");
    assert_eq!(normalize_runtime_path(" /data/x ", "/fallback", &env), "/data/x");
    assert_eq!(
        normalize_runtime_path("./rel/../media//x", "/fallback", &env),
        "/home/ana/.local/share/omni-downloader/rel/media/x"
    );
    let win = windows_env();
    assert_eq!(normalize_runtime_path("D:\\media", "F", &win), "D:\\media");
    assert_eq!(
        normalize_runtime_path("D:media\\x", "F", &win),
        "C:\\Users\\ana\\AppData\\Local\\Omni Downloader\\media\\x"
    );
}

#[test]
fn normalizing_reports_changes() {
    let env = unix_env();
    let mut cfg = legacy_config();
    assert!(!normalize_runtime_paths(&mut cfg, &env));
    cfg.output_path = "exports".to_string();
    assert!(normalize_runtime_paths(&mut cfg, &env));
    assert_eq!(cfg.output_path, "/home/ana/.local/share/omni-downloader/exports");
    assert!(!normalize_runtime_paths(&mut cfg, &env));
}

#[test]
fn repair_fills_in_missing_settings() {
    let env = unix_env();
    let mut cfg = AppConfig {
        nas_retention_path: "".to_string(),
        binaries_path: "/b".to_string(),
        output_path: "/o".to_string(),
        default_profile: "   ".to_string(),
        profiles: vec![],
    };
    assert!(repair_config(&mut cfg, &env));
    assert_eq!(cfg.profiles.len(), 3);
    assert_eq!(cfg.default_profile, "Dalet XDCAM 50Mbps");
    assert_eq!(cfg.nas_retention_path, "/home/ana/.local/share/omni-downloader/nas_storage");
    assert!(!repair_config(&mut cfg, &env));
}

#[test]
fn config_file_is_the_first_existing_candidate() {
    let env = unix_env();
    let candidates = config_candidates(&env);
    assert_eq!(
        candidates,
        vec![
            "/home/ana/.local/share/omni-downloader/omni-downloader.cfg".to_string(),
            "omni-downloader.cfg".to_string(),
            "src-tauri/omni-downloader.cfg".to_string(),
        ]
    );
    assert_eq!(config_path(&env, &vec![false, true, true]), "omni-downloader.cfg");
    assert_eq!(config_path(&env, &vec![false, false, true]), "src-tauri/omni-downloader.cfg");
    assert_eq!(config_path(&env, &vec![true, true, true]), candidates[0]);
    assert_eq!(config_path(&env, &vec![false, false, false]), candidates[0]);
    assert_eq!(config_path(&env, &vec![]), candidates[0]);
}

#[test]
fn a_fresh_default_config_needs_no_repair() {
    for env in [unix_env(), windows_env()] {
        let mut cfg = AppConfig::default_for(&env);
        assert!(!repair_config(&mut cfg, &env));
    }
    let env = bare_env();
    let mut cfg = AppConfig::default_for(&env);
    assert!(repair_config(&mut cfg, &env));
}

#[test]
fn a_normal_saved_config_is_loaded_unchanged() {
    let env = unix_env();
    let mut cfg = legacy_config();
    cfg.profiles[1] = default_profile();
    assert!(!repair_config(&mut cfg, &env));
    assert_eq!(cfg.profiles[0].name, "Custom");
    assert_eq!(cfg.output_path, "/out");
}

#[test]
fn normalized_paths_are_absolute_and_stable() {
    let env = unix_env();
    for path in ["x/y", "", "./a", "/abs", "  ../b  "] {
        let q = normalize_runtime_path(path, "/fallback", &env);
        assert!(q.starts_with('/'));
        assert_eq!(normalize_runtime_path(&q, "/fallback", &env), q);
    }
}
