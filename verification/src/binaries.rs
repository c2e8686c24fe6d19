//! Which yt-dlp and ffmpeg executables the tool runs, and the steps that
//! fetch missing ones.
use vstd::prelude::*;
use crate::config::AppConfig;
use crate::paths::{file_name, join_path, path_file_name, path_push, push_path, Platform};
use crate::text::{chars_of, ends_with_chars, has_suffix, string_from_chars};

verus! {

/// Smallest size of a plausible yt-dlp executable, in bytes.
pub const MIN_YTDLP_SIZE_BYTES: u64 = 1_000_000;

/// Smallest size of a plausible ffmpeg executable, in bytes.
pub const MIN_FFMPEG_SIZE_BYTES: u64 = 10_000_000;

/// The executables a download runs.
pub struct RuntimeBinaries {
    pub yt_dlp: String,
    pub ffmpeg: String,
}

/// What the file system reports of a path: whether it is a regular file,
/// and its length.
#[derive(Clone, Copy)]
pub struct FileFacts {
    pub is_file: bool,
    pub len: u64,
}

/// A file at least `minimum_size` bytes long; `None` when the path cannot be
/// inspected.
pub open spec fn reasonable_size(metadata: Option<FileFacts>, minimum_size: u64) -> bool {
    match metadata {
        Some(m) => m.is_file && m.len >= minimum_size,
        None => false,
    }
}

pub fn is_reasonable_size(metadata: Option<FileFacts>, minimum_size: u64) -> (r: bool)
    ensures
        r == reasonable_size(metadata, minimum_size),
{
    match metadata {
        Some(m) => m.is_file && m.len >= minimum_size,
        None => false,
    }
}

/// A bundled yt-dlp is usable when it is large enough and `--version` runs
/// successfully.
pub fn is_valid_ytdlp_binary(metadata: Option<FileFacts>, version_runs: bool) -> (r: bool)
    ensures
        r == (reasonable_size(metadata, MIN_YTDLP_SIZE_BYTES) && version_runs),
{
    is_reasonable_size(metadata, MIN_YTDLP_SIZE_BYTES) && version_runs
}

/// A bundled ffmpeg is usable when it is large enough and `-version` runs
/// successfully.
pub fn is_valid_ffmpeg_binary(metadata: Option<FileFacts>, version_runs: bool) -> (r: bool)
    ensures
        r == (reasonable_size(metadata, MIN_FFMPEG_SIZE_BYTES) && version_runs),
{
    is_reasonable_size(metadata, MIN_FFMPEG_SIZE_BYTES) && version_runs
}

pub open spec fn ytdlp_name_of(p: Platform) -> Seq<char> {
    if p == Platform::Windows {
        "yt-dlp.exe"@
    } else {
        "yt-dlp"@
    }
}

pub open spec fn ffmpeg_name_of(p: Platform) -> Seq<char> {
    if p == Platform::Windows {
        "ffmpeg.exe"@
    } else {
        "ffmpeg"@
    }
}

pub fn yt_dlp_file_name(p: Platform) -> (r: &'static str)
    ensures
        r@ == ytdlp_name_of(p),
{
    if p == Platform::Windows {
        "yt-dlp.exe"
    } else {
        "yt-dlp"
    }
}

pub fn ffmpeg_file_name(p: Platform) -> (r: &'static str)
    ensures
        r@ == ffmpeg_name_of(p),
{
    if p == Platform::Windows {
        "ffmpeg.exe"
    } else {
        "ffmpeg"
    }
}

pub open spec fn ytdlp_url_of(p: Platform) -> Seq<char> {
    if p == Platform::Windows {
        "https://github.com/yt-dlp/yt-dlp-nightly-builds/releases/latest/download/yt-dlp.exe"@
    } else {
        "https://github.com/yt-dlp/yt-dlp-nightly-builds/releases/latest/download/yt-dlp_linux"@
    }
}

/// Where a yt-dlp nightly build for the platform is downloaded from.
pub fn ytdlp_download_url(p: Platform) -> (r: &'static str)
    ensures
        r@ == ytdlp_url_of(p),
{
    if p == Platform::Windows {
        "https://github.com/yt-dlp/yt-dlp-nightly-builds/releases/latest/download/yt-dlp.exe"
    } else {
        "https://github.com/yt-dlp/yt-dlp-nightly-builds/releases/latest/download/yt-dlp_linux"
    }
}

pub open spec fn ffmpeg_url_of(p: Platform) -> Option<Seq<char>> {
    if p == Platform::Windows {
        Some(
            "https://github.com/BtbN/FFmpeg-Builds/releases/download/latest/ffmpeg-master-latest-win64-gpl.zip"@,
        )
    } else {
        None
    }
}

/// Where an ffmpeg build is downloaded from; only Windows has one.
pub fn ffmpeg_download_url(p: Platform) -> (r: Option<&'static str>)
    ensures
        match r {
            Some(u) => ffmpeg_url_of(p) == Some(u@),
            None => ffmpeg_url_of(p) is None,
        },
{
    if p == Platform::Windows {
        Some(
            "https://github.com/BtbN/FFmpeg-Builds/releases/download/latest/ffmpeg-master-latest-win64-gpl.zip",
        )
    } else {
        None
    }
}

/// The bundled yt-dlp inside the configured binaries directory.
pub fn bundled_ytdlp_path(config: &AppConfig, p: Platform) -> (r: String)
    ensures
        r@ == path_push(p, config.binaries_path@, ytdlp_name_of(p)),
{
    join_path(p, config.binaries_path.as_str(), yt_dlp_file_name(p))
}

/// The bundled ffmpeg inside the configured binaries directory.
pub fn bundled_ffmpeg_path(config: &AppConfig, p: Platform) -> (r: String)
    ensures
        r@ == path_push(p, config.binaries_path@, ffmpeg_name_of(p)),
{
    join_path(p, config.binaries_path.as_str(), ffmpeg_file_name(p))
}

/// What was found of one tool: the bundled file's metadata, whether the
/// bundled file runs with its version flag, and whether the tool on the
/// search path does.
#[derive(Clone, Copy)]
pub struct ToolProbe {
    pub bundled_metadata: Option<FileFacts>,
    pub bundled_runs: bool,
    pub system_runs: bool,
}

/// Why no usable executable was found.
#[derive(Clone, Copy, PartialEq, Eq, Debug, Structural)]
pub enum BinaryError {
    NoYtDlp,
    NoFfmpeg,
}

impl BinaryError {
    pub open spec fn text(self) -> Seq<char> {
        match self {
            BinaryError::NoYtDlp => "No working yt-dlp executable found. Bundled binary is missing or invalid and no system yt-dlp is available."@,
            BinaryError::NoFfmpeg => "No working ffmpeg executable found. Bundled binary is missing or invalid and no system ffmpeg is available."@,
        }
    }

    /// The error's message.
    pub fn message(&self) -> (r: String)
        ensures
            r@ == self.text(),
    {
        match self {
            BinaryError::NoYtDlp => String::from_str(
                "No working yt-dlp executable found. Bundled binary is missing or invalid and no system yt-dlp is available.",
            ),
            BinaryError::NoFfmpeg => String::from_str(
                "No working ffmpeg executable found. Bundled binary is missing or invalid and no system ffmpeg is available.",
            ),
        }
    }
}

/// The executable chosen for one tool: the bundled one when valid, else
/// the bare command name when the search path has a working one.
pub open spec fn chosen_binary(
    valid_bundled: bool,
    system_runs: bool,
    bundled: Seq<char>,
    command: Seq<char>,
) -> Option<Seq<char>> {
    if valid_bundled {
        Some(bundled)
    } else if system_runs {
        Some(command)
    } else {
        None
    }
}

/// Chooses the yt-dlp and ffmpeg to run: the bundled copies when they are
/// valid, else the ones on the search path, else an error (yt-dlp checked
/// first).
pub fn resolve_runtime_binaries(
    config: &AppConfig,
    p: Platform,
    ytdlp: &ToolProbe,
    ffmpeg: &ToolProbe,
) -> (r: Result<RuntimeBinaries, BinaryError>)
    ensures
        ({
            let y = chosen_binary(
                reasonable_size(ytdlp.bundled_metadata, MIN_YTDLP_SIZE_BYTES) && ytdlp.bundled_runs,
                ytdlp.system_runs,
                path_push(p, config.binaries_path@, ytdlp_name_of(p)),
                "yt-dlp"@,
            );
            let f = chosen_binary(
                reasonable_size(ffmpeg.bundled_metadata, MIN_FFMPEG_SIZE_BYTES)
                    && ffmpeg.bundled_runs,
                ffmpeg.system_runs,
                path_push(p, config.binaries_path@, ffmpeg_name_of(p)),
                "ffmpeg"@,
            );
            match r {
                Ok(b) => y == Some(b.yt_dlp@) && f == Some(b.ffmpeg@),
                Err(e) => (y is None && e == BinaryError::NoYtDlp) || (y is Some && f is None && e
                    == BinaryError::NoFfmpeg),
            }
        }),
{
    let yt_dlp = if is_valid_ytdlp_binary(ytdlp.bundled_metadata, ytdlp.bundled_runs) {
        bundled_ytdlp_path(config, p)
    } else if ytdlp.system_runs {
        String::from_str("yt-dlp")
    } else {
        return Err(BinaryError::NoYtDlp);
    };
    let ffmpeg_path = if is_valid_ffmpeg_binary(ffmpeg.bundled_metadata, ffmpeg.bundled_runs) {
        bundled_ffmpeg_path(config, p)
    } else if ffmpeg.system_runs {
        String::from_str("ffmpeg")
    } else {
        return Err(BinaryError::NoFfmpeg);
    };
    Ok(RuntimeBinaries { yt_dlp, ffmpeg: ffmpeg_path })
}


/// Where an entry of the ffmpeg archive is extracted to: entries whose name
/// ends with `ffmpeg.exe` or `ffprobe.exe` go, under their own file name,
/// into `destination`; all other entries are skipped.
pub open spec fn archive_entry_target(p: Platform, name: Seq<char>, destination: Seq<char>) -> Option<Seq<char>> {
    if has_suffix(name, "ffmpeg.exe"@) || has_suffix(name, "ffprobe.exe"@) {
        match file_name(p, name) {
            Some(f) => Some(path_push(p, destination, f)),
            None => None,
        }
    } else {
        None
    }
}

pub fn ffmpeg_archive_target(p: Platform, entry_name: &str, destination: &str) -> (r: Option<String>)
    ensures
        match r {
            Some(t) => archive_entry_target(p, entry_name@, destination@) == Some(t@),
            None => archive_entry_target(p, entry_name@, destination@) is None,
        },
{
    let name = chars_of(entry_name);
    let a = chars_of("ffmpeg.exe");
    let b = chars_of("ffprobe.exe");
    if ends_with_chars(&name, &a) || ends_with_chars(&name, &b) {
        match path_file_name(p, &name) {
            Some(f) => {
                let mut d = chars_of(destination);
                push_path(p, &mut d, &f);
                Some(string_from_chars(&d))
            },
            None => None,
        }
    } else {
        None
    }
}

/// The progress of making sure that working executables are present.
#[derive(Clone, Copy, PartialEq, Eq, Debug, Structural)]
pub enum EnsureStage {
    Start,
    CreatingDir,
    CheckingYtDlp,
    DownloadingYtDlp,
    MarkingExecutable,
    RecheckingYtDlp,
    CheckingFfmpeg,
    DownloadingFfmpeg,
    ExtractingFfmpeg,
    RemovingArchive,
    RecheckingFfmpeg,
    CheckingSystemFfmpeg,
    Done,
    Failed,
}

/// What the caller must do next.
pub enum EnsureAction {
    /// Report whether `dir` exists.
    CheckDirExists { dir: String },
    /// Create `dir` and its parents.
    CreateDir { dir: String },
    /// Report whether the yt-dlp at `path` is valid (size and `--version`).
    CheckYtDlp { path: String },
    /// Download `url` into `temp`, then move it to `destination` (copying
    /// and removing `temp` when the move fails).
    Download { url: String, destination: String, temp: String },
    /// Make `path` executable.
    MakeExecutable { path: String },
    /// Report whether the ffmpeg at `path` is valid (size and `-version`).
    CheckFfmpeg { path: String },
    /// Extract the ffmpeg executables of `archive` into `destination`.
    Extract { archive: String, destination: String },
    /// Remove `path`; a failure is ignored.
    RemoveFile { path: String },
    /// Report whether `ffmpeg -version` runs from the search path.
    CheckSystemFfmpeg,
    /// Working executables are present.
    Finish,
    /// Give up with `message`.
    Fail { message: String },
}

/// The text an `EnsureAction` carries.
pub enum EnsureActionView {
    CheckDirExists(Seq<char>),
    CreateDir(Seq<char>),
    CheckYtDlp(Seq<char>),
    Download(Seq<char>, Seq<char>, Seq<char>),
    MakeExecutable(Seq<char>),
    CheckFfmpeg(Seq<char>),
    Extract(Seq<char>, Seq<char>),
    RemoveFile(Seq<char>),
    CheckSystemFfmpeg,
    Finish,
    Fail(Seq<char>),
}

impl View for EnsureAction {
    type V = EnsureActionView;

    open spec fn view(&self) -> EnsureActionView {
        match self {
            EnsureAction::CheckDirExists { dir } => EnsureActionView::CheckDirExists(dir@),
            EnsureAction::CreateDir { dir } => EnsureActionView::CreateDir(dir@),
            EnsureAction::CheckYtDlp { path } => EnsureActionView::CheckYtDlp(path@),
            EnsureAction::Download { url, destination, temp } => EnsureActionView::Download(
                url@,
                destination@,
                temp@,
            ),
            EnsureAction::MakeExecutable { path } => EnsureActionView::MakeExecutable(path@),
            EnsureAction::CheckFfmpeg { path } => EnsureActionView::CheckFfmpeg(path@),
            EnsureAction::Extract { archive, destination } => EnsureActionView::Extract(
                archive@,
                destination@,
            ),
            EnsureAction::RemoveFile { path } => EnsureActionView::RemoveFile(path@),
            EnsureAction::CheckSystemFfmpeg => EnsureActionView::CheckSystemFfmpeg,
            EnsureAction::Finish => EnsureActionView::Finish,
            EnsureAction::Fail { message } => EnsureActionView::Fail(message@),
        }
    }
}

/// The outcome of the last action.
pub enum EnsureEvent {
    /// The answer to a check.
    Observed(bool),
    /// A side effect was carried out.
    Completed,
    /// A side effect failed with this message.
    Failed(String),
}

/// Whether `stage` waits for the answer to a check (else for a side effect).
pub open spec fn awaits_check(stage: EnsureStage) -> bool {
    stage == EnsureStage::Start || stage == EnsureStage::CheckingYtDlp || stage
        == EnsureStage::RecheckingYtDlp || stage == EnsureStage::CheckingFfmpeg || stage
        == EnsureStage::RecheckingFfmpeg || stage == EnsureStage::CheckingSystemFfmpeg
}

pub open spec fn is_final(stage: EnsureStage) -> bool {
    stage == EnsureStage::Done || stage == EnsureStage::Failed
}

/// The events a stage accepts.
pub open spec fn ensure_accepts(stage: EnsureStage, event: EnsureEvent) -> bool {
    !is_final(stage) && (awaits_check(stage) <==> event is Observed)
}

/// Makes sure working yt-dlp and ffmpeg executables are in the binaries
/// directory, downloading them where the platform has a download.
pub struct BinaryInstaller {
    pub platform: Platform,
    pub bin_dir: String,
    pub stage: EnsureStage,
}

pub open spec fn ytdlp_invalid_text(path: Seq<char>) -> Seq<char> {
    "Downloaded yt-dlp binary is invalid: "@ + path
}

pub open spec fn ffmpeg_invalid_text(path: Seq<char>) -> Seq<char> {
    "Downloaded ffmpeg binary is invalid: "@ + path
}

pub open spec fn no_ffmpeg_text() -> Seq<char> {
    "No working ffmpeg executable found and bundled auto-download is unavailable on this platform."@
}

/// The next stage and action after `event` in `stage`.
pub open spec fn ensure_step(p: Platform, dir: Seq<char>, stage: EnsureStage, event: EnsureEvent) -> (EnsureStage, EnsureActionView) {
    let ytdlp = path_push(p, dir, ytdlp_name_of(p));
    let ffmpeg = path_push(p, dir, ffmpeg_name_of(p));
    let archive = path_push(p, dir, "ffmpeg.zip"@);
    match event {
        EnsureEvent::Observed(ok) => {
            if stage == EnsureStage::Start {
                if ok {
                    (EnsureStage::CheckingYtDlp, EnsureActionView::CheckYtDlp(ytdlp))
                } else {
                    (EnsureStage::CreatingDir, EnsureActionView::CreateDir(dir))
                }
            } else if stage == EnsureStage::CheckingYtDlp || stage == EnsureStage::RecheckingYtDlp {
                if ok {
                    (EnsureStage::CheckingFfmpeg, EnsureActionView::CheckFfmpeg(ffmpeg))
                } else if stage == EnsureStage::CheckingYtDlp {
                    (
                        EnsureStage::DownloadingYtDlp,
                        EnsureActionView::Download(
                            ytdlp_url_of(p),
                            ytdlp,
                            path_push(p, dir, "yt-dlp.download"@),
                        ),
                    )
                } else {
                    (EnsureStage::Failed, EnsureActionView::Fail(ytdlp_invalid_text(ytdlp)))
                }
            } else if stage == EnsureStage::CheckingFfmpeg {
                if ok {
                    (EnsureStage::Done, EnsureActionView::Finish)
                } else {
                    match ffmpeg_url_of(p) {
                        Some(u) => (
                            EnsureStage::DownloadingFfmpeg,
                            EnsureActionView::Download(u, archive, path_push(p, dir, "ffmpeg.download"@)),
                        ),
                        None => (EnsureStage::CheckingSystemFfmpeg, EnsureActionView::CheckSystemFfmpeg),
                    }
                }
            } else if stage == EnsureStage::RecheckingFfmpeg {
                if ok {
                    (EnsureStage::Done, EnsureActionView::Finish)
                } else {
                    (EnsureStage::Failed, EnsureActionView::Fail(ffmpeg_invalid_text(ffmpeg)))
                }
            } else {
                if ok {
                    (EnsureStage::Done, EnsureActionView::Finish)
                } else {
                    (EnsureStage::Failed, EnsureActionView::Fail(no_ffmpeg_text()))
                }
            }
        },
        EnsureEvent::Failed(message) if stage != EnsureStage::RemovingArchive => (
            EnsureStage::Failed,
            EnsureActionView::Fail(message@),
        ),
        _ => {
            if stage == EnsureStage::CreatingDir {
                (EnsureStage::CheckingYtDlp, EnsureActionView::CheckYtDlp(ytdlp))
            } else if stage == EnsureStage::MarkingExecutable {
                (EnsureStage::RecheckingYtDlp, EnsureActionView::CheckYtDlp(ytdlp))
            } else if stage == EnsureStage::DownloadingYtDlp {
                (EnsureStage::MarkingExecutable, EnsureActionView::MakeExecutable(ytdlp))
            } else if stage == EnsureStage::DownloadingFfmpeg {
                (EnsureStage::ExtractingFfmpeg, EnsureActionView::Extract(archive, dir))
            } else if stage == EnsureStage::ExtractingFfmpeg {
                (EnsureStage::RemovingArchive, EnsureActionView::RemoveFile(archive))
            } else {
                (EnsureStage::RecheckingFfmpeg, EnsureActionView::CheckFfmpeg(ffmpeg))
            }
        },
    }
}

impl BinaryInstaller {
    /// Starts with the configured binaries directory; the first action asks
    /// whether it exists.
    pub fn new(config: &AppConfig, p: Platform) -> (r: (BinaryInstaller, EnsureAction))
        ensures
            r.0.platform == p,
            r.0.bin_dir@ == config.binaries_path@,
            r.0.stage == EnsureStage::Start,
            r.1@ == EnsureActionView::CheckDirExists(config.binaries_path@),
    {
        let dir = config.binaries_path.clone();
        let action = EnsureAction::CheckDirExists { dir: config.binaries_path.clone() };
        (BinaryInstaller { platform: p, bin_dir: dir, stage: EnsureStage::Start }, action)
    }

    /// Whether `event` is an answer the installer is waiting for.
    pub fn accepts(&self, event: &EnsureEvent) -> (r: bool)
        ensures
            r == ensure_accepts(self.stage, *event),
    {
        let check = match self.stage {
            EnsureStage::Start | EnsureStage::CheckingYtDlp | EnsureStage::RecheckingYtDlp
            | EnsureStage::CheckingFfmpeg | EnsureStage::RecheckingFfmpeg
            | EnsureStage::CheckingSystemFfmpeg => true,
            _ => false,
        };
        let done = match self.stage {
            EnsureStage::Done | EnsureStage::Failed => true,
            _ => false,
        };
        let observed = match event {
            EnsureEvent::Observed(_) => true,
            _ => false,
        };
        !done && (check == observed)
    }

    /// Takes the outcome of the last action and returns the next one.
    pub fn advance(&mut self, event: EnsureEvent) -> (action: EnsureAction)
        requires
            ensure_accepts(old(self).stage, event),
        ensures
            (final(self).stage, action@) == ensure_step(
                old(self).platform,
                old(self).bin_dir@,
                old(self).stage,
                event,
            ),
            final(self).platform == old(self).platform,
            final(self).bin_dir == old(self).bin_dir,
    {
        let p = self.platform;
        let ytdlp = join_path(p, self.bin_dir.as_str(), yt_dlp_file_name(p));
        let ffmpeg = join_path(p, self.bin_dir.as_str(), ffmpeg_file_name(p));
        let archive = join_path(p, self.bin_dir.as_str(), "ffmpeg.zip");
        let (stage, action) = match event {
            EnsureEvent::Observed(ok) => {
                match self.stage {
                    EnsureStage::Start => {
                        if ok {
                            (EnsureStage::CheckingYtDlp, EnsureAction::CheckYtDlp { path: ytdlp })
                        } else {
                            (EnsureStage::CreatingDir, EnsureAction::CreateDir { dir: self.bin_dir.clone() })
                        }
                    },
                    EnsureStage::CheckingYtDlp | EnsureStage::RecheckingYtDlp => {
                        if ok {
                            (EnsureStage::CheckingFfmpeg, EnsureAction::CheckFfmpeg { path: ffmpeg })
                        } else if self.stage == EnsureStage::CheckingYtDlp {
                            (
                                EnsureStage::DownloadingYtDlp,
                                EnsureAction::Download {
                                    url: String::from_str(ytdlp_download_url(p)),
                                    destination: ytdlp,
                                    temp: join_path(p, self.bin_dir.as_str(), "yt-dlp.download"),
                                },
                            )
                        } else {
                            let mut m = String::from_str("Downloaded yt-dlp binary is invalid: ");
                            m.append(ytdlp.as_str());
                            (EnsureStage::Failed, EnsureAction::Fail { message: m })
                        }
                    },
                    EnsureStage::CheckingFfmpeg => {
                        if ok {
                            (EnsureStage::Done, EnsureAction::Finish)
                        } else {
                            match ffmpeg_download_url(p) {
                                Some(u) => (
                                    EnsureStage::DownloadingFfmpeg,
                                    EnsureAction::Download {
                                        url: String::from_str(u),
                                        destination: archive,
                                        temp: join_path(p, self.bin_dir.as_str(), "ffmpeg.download"),
                                    },
                                ),
                                None => (EnsureStage::CheckingSystemFfmpeg, EnsureAction::CheckSystemFfmpeg),
                            }
                        }
                    },
                    EnsureStage::RecheckingFfmpeg => {
                        if ok {
                            (EnsureStage::Done, EnsureAction::Finish)
                        } else {
                            let mut m = String::from_str("Downloaded ffmpeg binary is invalid: ");
                            m.append(ffmpeg.as_str());
                            (EnsureStage::Failed, EnsureAction::Fail { message: m })
                        }
                    },
                    _ => {
                        if ok {
                            (EnsureStage::Done, EnsureAction::Finish)
                        } else {
                            (
                                EnsureStage::Failed,
                                EnsureAction::Fail {
                                    message: String::from_str(
                                        "No working ffmpeg executable found and bundled auto-download is unavailable on this platform.",
                                    ),
                                },
                            )
                        }
                    },
                }
            },
            EnsureEvent::Failed(message) if self.stage != EnsureStage::RemovingArchive => (
                EnsureStage::Failed,
                EnsureAction::Fail { message },
            ),
            _ => {
                match self.stage {
                    EnsureStage::CreatingDir => (
                        EnsureStage::CheckingYtDlp,
                        EnsureAction::CheckYtDlp { path: ytdlp },
                    ),
                    EnsureStage::MarkingExecutable => (
                        EnsureStage::RecheckingYtDlp,
                        EnsureAction::CheckYtDlp { path: ytdlp },
                    ),
                    EnsureStage::DownloadingYtDlp => (
                        EnsureStage::MarkingExecutable,
                        EnsureAction::MakeExecutable { path: ytdlp },
                    ),
                    EnsureStage::DownloadingFfmpeg => (
                        EnsureStage::ExtractingFfmpeg,
                        EnsureAction::Extract { archive, destination: self.bin_dir.clone() },
                    ),
                    EnsureStage::ExtractingFfmpeg => (
                        EnsureStage::RemovingArchive,
                        EnsureAction::RemoveFile { path: archive },
                    ),
                    _ => (EnsureStage::RecheckingFfmpeg, EnsureAction::CheckFfmpeg { path: ffmpeg }),
                }
            },
        };
        self.stage = stage;
        action
    }
}

/// The installer ends with `Finish` only right after a check of ffmpeg (the
/// bundled one, the freshly extracted one, or the one on the search path)
/// came back positive.
pub proof fn law_finish_needs_working_ffmpeg(p: Platform, dir: Seq<char>, stage: EnsureStage, event: EnsureEvent)
    requires
        ensure_accepts(stage, event),
        ensure_step(p, dir, stage, event).1 == EnsureActionView::Finish,
    ensures
        event == EnsureEvent::Observed(true),
        stage == EnsureStage::CheckingFfmpeg || stage == EnsureStage::RecheckingFfmpeg || stage
            == EnsureStage::CheckingSystemFfmpeg,
{
}

/// The position of a stage in the installer's fixed order of work.
pub open spec fn ensure_rank(stage: EnsureStage) -> nat {
    match stage {
        EnsureStage::Start => 0,
        EnsureStage::CreatingDir => 1,
        EnsureStage::CheckingYtDlp => 2,
        EnsureStage::DownloadingYtDlp => 3,
        EnsureStage::MarkingExecutable => 4,
        EnsureStage::RecheckingYtDlp => 5,
        EnsureStage::CheckingFfmpeg => 6,
        EnsureStage::DownloadingFfmpeg => 7,
        EnsureStage::ExtractingFfmpeg => 8,
        EnsureStage::RemovingArchive => 9,
        EnsureStage::RecheckingFfmpeg => 10,
        EnsureStage::CheckingSystemFfmpeg => 11,
        EnsureStage::Done => 12,
        EnsureStage::Failed => 12,
    }
}

/// Every step of the installer moves it strictly forward in its order of
/// work, so it reaches `Done` or `Failed` after at most twelve steps.
pub proof fn law_installer_moves_forward(p: Platform, dir: Seq<char>, stage: EnsureStage, event: EnsureEvent)
    requires
        ensure_accepts(stage, event),
    ensures
        ensure_rank(ensure_step(p, dir, stage, event).0) > ensure_rank(stage),
        ensure_rank(ensure_step(p, dir, stage, event).0) == 12 <==> is_final(
            ensure_step(p, dir, stage, event).0,
        ),
{
}

/// The time between two nightly updates of yt-dlp, in seconds (three days).
pub const UPDATE_INTERVAL_SECS: u64 = 259_200;

/// What a periodic update round does.
pub enum UpdateAction {
    /// No working yt-dlp: the round is skipped.
    Skip,
    /// Run `program` with `args`; its outcome is ignored.
    Run { program: String, args: Vec<String> },
}

/// The update round for the executables resolved at its start: yt-dlp
/// updates itself to the nightly channel.
pub fn ytdlp_update_action(resolved: &Result<RuntimeBinaries, BinaryError>) -> (r: UpdateAction)
    ensures
        resolved is Err ==> r is Skip,
        resolved matches Ok(b) ==> r matches UpdateAction::Run { program, args } && program@
            == b.yt_dlp@ && args@.len() == 2 && args@[0]@ == "--update-to"@ && args@[1]@
            == "nightly"@,
{
    match resolved {
        Ok(b) => {
            let mut args: Vec<String> = Vec::new();
            args.push(String::from_str("--update-to"));
            args.push(String::from_str("nightly"));
            UpdateAction::Run { program: b.yt_dlp.clone(), args }
        },
        Err(_) => UpdateAction::Skip,
    }
}

/// A positive check of ffmpeg (the bundled one, the freshly extracted one,
/// or the one on the search path) finishes the installer successfully, and
/// a negative re-check of the extracted one fails it.
pub proof fn law_working_ffmpeg_finishes(p: Platform, dir: Seq<char>, stage: EnsureStage)
    requires
        stage == EnsureStage::CheckingFfmpeg || stage == EnsureStage::RecheckingFfmpeg || stage
            == EnsureStage::CheckingSystemFfmpeg,
    ensures
        ensure_step(p, dir, stage, EnsureEvent::Observed(true)) == (
            EnsureStage::Done,
            EnsureActionView::Finish,
        ),
        stage == EnsureStage::RecheckingFfmpeg ==> ensure_step(
            p,
            dir,
            stage,
            EnsureEvent::Observed(false),
        ).0 == EnsureStage::Failed,
{
}

} // verus!
