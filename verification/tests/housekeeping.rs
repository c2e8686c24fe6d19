use omni_downloader::cleanup::{expired_files, retention_cutoff, should_remove, ArchiveEntry};
use omni_downloader::config::HostEnvironment;
use omni_downloader::logging::{
    LogLocation,
    current_timestamp, error, info, init_message, log_file_path, log_line, log_path, panic_message,
};
use omni_downloader::paths::Platform;

fn env() -> HostEnvironment {
    HostEnvironment {
        platform: Platform::Unix,
        local_app_data: None,
        home: Some("/home/ana".to_string()),
        user_profile: None,
        current_dir: None,
    }
}

#[test]
fn log_file_lives_under_the_app_dir() {
    assert_eq!(log_file_path(&env()), "/home/ana/.local/share/omni-downloader/logs/omni-downloader.log");
    assert_eq!(log_path(None, &env()), log_file_path(&env()));
    assert_eq!(log_path(Some("/var/log/o.log"), &env()), "/var/log/o.log");
}

#[test]
fn log_lines_have_timestamp_level_and_target() {
    assert_eq!(log_line("1.000", "WARN", "net", "slow"), "1.000 [WARN] [net] slow");
    assert_eq!(info("5.250", "hello"), "5.250 [INFO] [app] hello");
    assert_eq!(error("5.250", "bad"), "5.250 [ERROR] [app] bad");
    assert_eq!(init_message("/l.log"), "persistent log initialized at /l.log");
}

#[test]
fn timestamps_show_milliseconds() {
    assert_eq!(current_timestamp(Some((1_700_000_000, 5))), "1700000000.005");
    assert_eq!(current_timestamp(Some((0, 999))), "0.999");
    assert_eq!(current_timestamp(None), "0.000");
}

#[test]
fn panic_messages_name_place_and_payload() {
    assert_eq!(panic_message(Some(("src/a.rs", 12)), Some("oops"), "bt"), "panic at src/a.rs:12: oops\nbt");
    assert_eq!(
        panic_message(None, None, ""),
        "panic at unknown location: panic without string payload\n"
    );
}

const DAY: i128 = 86_400 * 1_000_000_000;

#[test]
fn only_old_regular_files_expire() {
    let now = 100 * DAY;
    let cutoff = retention_cutoff(now);
    assert_eq!(cutoff, 86 * DAY);
    let entries = vec![
        ArchiveEntry { path: "/nas/old.mxf".to_string(), is_file: true, modified: Some(80 * DAY) },
        ArchiveEntry { path: "/nas/new.mxf".to_string(), is_file: true, modified: Some(99 * DAY) },
        ArchiveEntry { path: "/nas/dir".to_string(), is_file: false, modified: Some(1) },
        ArchiveEntry { path: "/nas/edge.mxf".to_string(), is_file: true, modified: Some(86 * DAY) },
        ArchiveEntry { path: "/nas/unknown.mxf".to_string(), is_file: true, modified: None },
        ArchiveEntry { path: "/nas/older.mxf".to_string(), is_file: true, modified: Some(-5) },
    ];
    assert!(should_remove(&entries[0], cutoff));
    assert!(!should_remove(&entries[3], cutoff));
    assert_eq!(expired_files(&entries, now), vec!["/nas/old.mxf".to_string(), "/nas/older.mxf".to_string()]);
}

#[test]
fn later_sweeps_remove_at_least_as_much() {
    let entries = vec![
        ArchiveEntry { path: "/nas/a".to_string(), is_file: true, modified: Some(10 * DAY) },
        ArchiveEntry { path: "/nas/b".to_string(), is_file: true, modified: Some(20 * DAY) },
    ];
    assert_eq!(expired_files(&entries, 25 * DAY), vec!["/nas/a".to_string()]);
    assert_eq!(expired_files(&entries, 40 * DAY), vec!["/nas/a".to_string(), "/nas/b".to_string()]);
    assert!(expired_files(&entries, 20 * DAY).is_empty());
}

#[test]
fn the_first_initialized_log_file_is_kept() {
    let mut location = LogLocation { initialized: None };
    assert_eq!(location.current(&env()), log_file_path(&env()));
    assert_eq!(location.initialize(&env()), "/home/ana/.local/share/omni-downloader/logs/omni-downloader.log");
    let other = HostEnvironment {
        platform: Platform::Unix,
        local_app_data: None,
        home: Some("/home/bo".to_string()),
        user_profile: None,
        current_dir: None,
    };
    assert_eq!(location.initialize(&other), "/home/bo/.local/share/omni-downloader/logs/omni-downloader.log");
    assert_eq!(location.current(&other), "/home/ana/.local/share/omni-downloader/logs/omni-downloader.log");
}
