//! The tool's configuration: its types, the built-in encoding profiles, the
//! per-host default locations, and the repairs applied to a loaded
//! configuration file.
use vstd::prelude::*;
use crate::paths::{
    is_absolute, join_path, lemma_parts_keep_absolute, without_drive, path_is_absolute, path_push, push_relative_parts,
    resolve_under, Platform,
};
use crate::text::{
    chars_of, contains_chars, lemma_occurs_from, lemma_trim_of_trimmed, occurs_from, seq_contains, string_from_chars, string_views, trim, trim_chars,
};

verus! {

/// How a download is transcoded: the output extension and the ffmpeg
/// arguments placed between the input and the output file.
pub struct EncodingProfile {
    pub name: String,
    pub extension: String,
    pub ffmpeg_args: Vec<String>,
}

/// The text an `EncodingProfile` holds.
pub struct ProfileView {
    pub name: Seq<char>,
    pub extension: Seq<char>,
    pub ffmpeg_args: Seq<Seq<char>>,
}

impl View for EncodingProfile {
    type V = ProfileView;

    open spec fn view(&self) -> ProfileView {
        ProfileView {
            name: self.name@,
            extension: self.extension@,
            ffmpeg_args: string_views(self.ffmpeg_args@),
        }
    }
}

/// Copies a list of strings.
pub fn clone_strings(v: &Vec<String>) -> (r: Vec<String>)
    ensures
        string_views(r@) == string_views(v@),
{
    let mut r: Vec<String> = Vec::new();
    let mut i: usize = 0;
    while i < v.len()
        invariant
            i <= v.len(),
            string_views(r@) == string_views(v@.take(i as int)),
        decreases v.len() - i,
    {
        let c = v[i].clone();
        assert(c@ == v@[i as int]@);
        let ghost before = r@;
        r.push(c);
        proof {
            assert(r@ == before.push(c));
            assert(string_views(before).len() == before.len());
            assert(before.len() == i);
            assert(string_views(r@)[i as int] == c@);
            assert(string_views(v@.take(i + 1))[i as int] == v@[i as int]@);
            assert forall|j: int| 0 <= j < r@.len() implies string_views(r@)[j] == string_views(
                v@.take(i + 1),
            )[j] by {
                if j < i {
                    assert(string_views(before)[j] == string_views(v@.take(i as int))[j]);
                }
            }
        }
        i = i + 1;
        assert(string_views(r@) =~= string_views(v@.take(i as int)));
    }
    assert(v@.take(v.len() as int) =~= v@);
    r
}

impl Clone for EncodingProfile {
    fn clone(&self) -> (r: Self)
        ensures
            r@ == self@,
    {
        EncodingProfile {
            name: self.name.clone(),
            extension: self.extension.clone(),
            ffmpeg_args: clone_strings(&self.ffmpeg_args),
        }
    }
}

/// The settings the tool reads from its configuration file.
pub struct AppConfig {
    pub nas_retention_path: String,
    pub binaries_path: String,
    pub output_path: String,
    pub default_profile: String,
    pub profiles: Vec<EncodingProfile>,
}

/// The text an `AppConfig` holds.
pub struct ConfigView {
    pub nas_retention_path: Seq<char>,
    pub binaries_path: Seq<char>,
    pub output_path: Seq<char>,
    pub default_profile: Seq<char>,
    pub profiles: Seq<ProfileView>,
}

pub open spec fn profile_views(ps: Seq<EncodingProfile>) -> Seq<ProfileView> {
    ps.map_values(|p: EncodingProfile| p@)
}

impl View for AppConfig {
    type V = ConfigView;

    open spec fn view(&self) -> ConfigView {
        ConfigView {
            nas_retention_path: self.nas_retention_path@,
            binaries_path: self.binaries_path@,
            output_path: self.output_path@,
            default_profile: self.default_profile@,
            profiles: profile_views(self.profiles@),
        }
    }
}

/// Copies a list of profiles.
pub fn clone_profiles(v: &Vec<EncodingProfile>) -> (r: Vec<EncodingProfile>)
    ensures
        profile_views(r@) == profile_views(v@),
{
    let mut r: Vec<EncodingProfile> = Vec::new();
    let mut i: usize = 0;
    while i < v.len()
        invariant
            i <= v.len(),
            profile_views(r@) == profile_views(v@.take(i as int)),
        decreases v.len() - i,
    {
        let c = v[i].clone();
        let ghost before = r@;
        r.push(c);
        proof {
            assert(r@ == before.push(c));
            assert(profile_views(before).len() == before.len());
            assert(profile_views(r@)[i as int] == c@);
            assert(profile_views(v@.take(i + 1))[i as int] == v@[i as int]@);
            assert forall|j: int| 0 <= j < r@.len() implies profile_views(r@)[j] == profile_views(
                v@.take(i + 1),
            )[j] by {
                if j < i {
                    assert(profile_views(before)[j] == profile_views(v@.take(i as int))[j]);
                }
            }
            assert(profile_views(r@) =~= profile_views(v@.take(i + 1)));
        }
        i = i + 1;
    }
    assert(v@.take(v.len() as int) =~= v@);
    r
}

impl Clone for AppConfig {
    fn clone(&self) -> (r: Self)
        ensures
            r@ == self@,
    {
        AppConfig {
            nas_retention_path: self.nas_retention_path.clone(),
            binaries_path: self.binaries_path.clone(),
            output_path: self.output_path.clone(),
            default_profile: self.default_profile.clone(),
            profiles: clone_profiles(&self.profiles),
        }
    }
}

/// What the tool reads of its host to place its files: the platform and the
/// values of `LOCALAPPDATA`, `HOME`, `USERPROFILE` and the working directory
/// (`None` where unset, not Unicode, or not readable).
pub struct HostEnvironment {
    pub platform: Platform,
    pub local_app_data: Option<String>,
    pub home: Option<String>,
    pub user_profile: Option<String>,
    pub current_dir: Option<String>,
}

/// The directory that holds the tool's own files: under `LOCALAPPDATA` on
/// Windows, else under `HOME`, else under the working directory (or `.`).
pub open spec fn app_dir_of(env: HostEnvironment) -> Seq<char> {
    let p = env.platform;
    if p == Platform::Windows && env.local_app_data is Some {
        path_push(p, env.local_app_data->0@, "Omni Downloader"@)
    } else if env.home is Some {
        path_push(p, path_push(p, path_push(p, env.home->0@, ".local"@), "share"@), "omni-downloader"@)
    } else {
        let cwd = match env.current_dir {
            Some(d) => d@,
            None => "."@,
        };
        path_push(p, cwd, "omni-downloader-data"@)
    }
}

/// The directory exported files go to by default.
pub open spec fn downloads_dir_of(env: HostEnvironment) -> Seq<char> {
    let p = env.platform;
    if p == Platform::Windows && env.user_profile is Some {
        path_push(p, path_push(p, env.user_profile->0@, "Downloads"@), "Omni Downloader"@)
    } else if env.home is Some {
        path_push(p, path_push(p, env.home->0@, "Downloads"@), "omni-downloader"@)
    } else {
        path_push(p, app_dir_of(env), "downloads"@)
    }
}

pub open spec fn default_retention_of(env: HostEnvironment) -> Seq<char> {
    path_push(env.platform, app_dir_of(env), "nas_storage"@)
}

pub open spec fn default_binaries_of(env: HostEnvironment) -> Seq<char> {
    path_push(env.platform, app_dir_of(env), "binaries"@)
}

/// The directory that holds the tool's own files.
pub fn app_data_dir(env: &HostEnvironment) -> (r: String)
    ensures
        r@ == app_dir_of(*env),
{
    let p = env.platform;
    if p == Platform::Windows {
        if let Some(local) = &env.local_app_data {
            return join_path(p, local.as_str(), "Omni Downloader");
        }
    }
    if let Some(home) = &env.home {
        let a = join_path(p, home.as_str(), ".local");
        let b = join_path(p, a.as_str(), "share");
        return join_path(p, b.as_str(), "omni-downloader");
    }
    match &env.current_dir {
        Some(d) => join_path(p, d.as_str(), "omni-downloader-data"),
        None => join_path(p, ".", "omni-downloader-data"),
    }
}

/// The directory exported files go to by default.
pub fn preferred_downloads_dir(env: &HostEnvironment) -> (r: String)
    ensures
        r@ == downloads_dir_of(*env),
{
    let p = env.platform;
    if p == Platform::Windows {
        if let Some(profile) = &env.user_profile {
            let a = join_path(p, profile.as_str(), "Downloads");
            return join_path(p, a.as_str(), "Omni Downloader");
        }
    }
    if let Some(home) = &env.home {
        let a = join_path(p, home.as_str(), "Downloads");
        return join_path(p, a.as_str(), "omni-downloader");
    }
    let app = app_data_dir(env);
    join_path(p, app.as_str(), "downloads")
}

pub fn default_nas_retention_path(env: &HostEnvironment) -> (r: String)
    ensures
        r@ == default_retention_of(*env),
{
    let app = app_data_dir(env);
    join_path(env.platform, app.as_str(), "nas_storage")
}

pub fn default_binaries_path(env: &HostEnvironment) -> (r: String)
    ensures
        r@ == default_binaries_of(*env),
{
    let app = app_data_dir(env);
    join_path(env.platform, app.as_str(), "binaries")
}

pub fn default_output_path(env: &HostEnvironment) -> (r: String)
    ensures
        r@ == downloads_dir_of(*env),
{
    preferred_downloads_dir(env)
}

/// The name of the profile used when none is chosen.
pub open spec fn default_profile_name_text() -> Seq<char> {
    "Dalet XDCAM 50Mbps"@
}

pub fn default_profile_name() -> (r: String)
    ensures
        r@ == default_profile_name_text(),
{
    String::from_str("Dalet XDCAM 50Mbps")
}

/// The arguments of the built-in "Dalet XDCAM 50Mbps" profile.
pub open spec fn dalet_args() -> Seq<Seq<char>> {
    seq![
        "-filter_complex"@,
        "[0:v]scale=1920:1080:force_original_aspect_ratio=decrease,pad=1920:1080:(ow-iw)/2:(oh-ih)/2:black,format=yuv422p,setfield=tff[vout]; [0:a]pan=mono|c0=FL[a1]; [0:a]pan=mono|c0=FR[a2]; anullsrc=r=48000:cl=mono[silence]; [silence]asplit=6[a3][a4][a5][a6][a7][a8]"@,
        "-map"@,
        "[vout]"@,
        "-map"@,
        "[a1]"@,
        "-map"@,
        "[a2]"@,
        "-map"@,
        "[a3]"@,
        "-map"@,
        "[a4]"@,
        "-map"@,
        "[a5]"@,
        "-map"@,
        "[a6]"@,
        "-map"@,
        "[a7]"@,
        "-map"@,
        "[a8]"@,
        "-c:v"@,
        "mpeg2video"@,
        "-b:v"@,
        "50000k"@,
        "-minrate"@,
        "50000k"@,
        "-maxrate"@,
        "50000k"@,
        "-bufsize"@,
        "17825792"@,
        "-g"@,
        "12"@,
        "-flags"@,
        "+ildct+ilme"@,
        "-top"@,
        "1"@,
        "-vtag"@,
        "xd5c"@,
        "-non_linear_quant"@,
        "1"@,
        "-dc"@,
        "10"@,
        "-intra_vlc"@,
        "1"@,
        "-qmin"@,
        "1"@,
        "-qmax"@,
        "3"@,
        "-lmin"@,
        "1*QP2LAMBDA"@,
        "-c:a"@,
        "pcm_s24le"@,
        "-ar"@,
        "48000"@,
        "-shortest"@,
    ]
}

/// The built-in "Dalet XDCAM 50Mbps" profile.
pub open spec fn dalet_profile() -> ProfileView {
    ProfileView { name: "Dalet XDCAM 50Mbps"@, extension: "mxf"@, ffmpeg_args: dalet_args() }
}

fn dalet_profile_value() -> (r: EncodingProfile)
    ensures
        r@ == dalet_profile(),
{
    let mut args: Vec<String> = Vec::new();
    args.push(String::from_str("-filter_complex"));
    args.push(String::from_str("[0:v]scale=1920:1080:force_original_aspect_ratio=decrease,pad=1920:1080:(ow-iw)/2:(oh-ih)/2:black,format=yuv422p,setfield=tff[vout]; [0:a]pan=mono|c0=FL[a1]; [0:a]pan=mono|c0=FR[a2]; anullsrc=r=48000:cl=mono[silence]; [silence]asplit=6[a3][a4][a5][a6][a7][a8]"));
    args.push(String::from_str("-map"));
    args.push(String::from_str("[vout]"));
    args.push(String::from_str("-map"));
    args.push(String::from_str("[a1]"));
    args.push(String::from_str("-map"));
    args.push(String::from_str("[a2]"));
    args.push(String::from_str("-map"));
    args.push(String::from_str("[a3]"));
    args.push(String::from_str("-map"));
    args.push(String::from_str("[a4]"));
    args.push(String::from_str("-map"));
    args.push(String::from_str("[a5]"));
    args.push(String::from_str("-map"));
    args.push(String::from_str("[a6]"));
    args.push(String::from_str("-map"));
    args.push(String::from_str("[a7]"));
    args.push(String::from_str("-map"));
    args.push(String::from_str("[a8]"));
    args.push(String::from_str("-c:v"));
    args.push(String::from_str("mpeg2video"));
    args.push(String::from_str("-b:v"));
    args.push(String::from_str("50000k"));
    args.push(String::from_str("-minrate"));
    args.push(String::from_str("50000k"));
    args.push(String::from_str("-maxrate"));
    args.push(String::from_str("50000k"));
    args.push(String::from_str("-bufsize"));
    args.push(String::from_str("17825792"));
    args.push(String::from_str("-g"));
    args.push(String::from_str("12"));
    args.push(String::from_str("-flags"));
    args.push(String::from_str("+ildct+ilme"));
    args.push(String::from_str("-top"));
    args.push(String::from_str("1"));
    args.push(String::from_str("-vtag"));
    args.push(String::from_str("xd5c"));
    args.push(String::from_str("-non_linear_quant"));
    args.push(String::from_str("1"));
    args.push(String::from_str("-dc"));
    args.push(String::from_str("10"));
    args.push(String::from_str("-intra_vlc"));
    args.push(String::from_str("1"));
    args.push(String::from_str("-qmin"));
    args.push(String::from_str("1"));
    args.push(String::from_str("-qmax"));
    args.push(String::from_str("3"));
    args.push(String::from_str("-lmin"));
    args.push(String::from_str("1*QP2LAMBDA"));
    args.push(String::from_str("-c:a"));
    args.push(String::from_str("pcm_s24le"));
    args.push(String::from_str("-ar"));
    args.push(String::from_str("48000"));
    args.push(String::from_str("-shortest"));
    let r = EncodingProfile {
        name: String::from_str("Dalet XDCAM 50Mbps"),
        extension: String::from_str("mxf"),
        ffmpeg_args: args,
    };
    assert(r@.ffmpeg_args =~= dalet_args());
    r
}

/// The arguments of the built-in "H.264 1080p MP4" profile.
pub open spec fn h264_args() -> Seq<Seq<char>> {
    seq![
        "-vf"@,
        "scale=1920:1080:force_original_aspect_ratio=decrease,pad=1920:1080:(ow-iw)/2:(oh-ih)/2"@,
        "-c:v"@,
        "libx264"@,
        "-preset"@,
        "fast"@,
        "-crf"@,
        "23"@,
        "-c:a"@,
        "aac"@,
        "-b:a"@,
        "192k"@,
    ]
}

/// The built-in "H.264 1080p MP4" profile.
pub open spec fn h264_profile() -> ProfileView {
    ProfileView { name: "H.264 1080p MP4"@, extension: "mp4"@, ffmpeg_args: h264_args() }
}

fn h264_profile_value() -> (r: EncodingProfile)
    ensures
        r@ == h264_profile(),
{
    let mut args: Vec<String> = Vec::new();
    args.push(String::from_str("-vf"));
    args.push(String::from_str("scale=1920:1080:force_original_aspect_ratio=decrease,pad=1920:1080:(ow-iw)/2:(oh-ih)/2"));
    args.push(String::from_str("-c:v"));
    args.push(String::from_str("libx264"));
    args.push(String::from_str("-preset"));
    args.push(String::from_str("fast"));
    args.push(String::from_str("-crf"));
    args.push(String::from_str("23"));
    args.push(String::from_str("-c:a"));
    args.push(String::from_str("aac"));
    args.push(String::from_str("-b:a"));
    args.push(String::from_str("192k"));
    let r = EncodingProfile {
        name: String::from_str("H.264 1080p MP4"),
        extension: String::from_str("mp4"),
        ffmpeg_args: args,
    };
    assert(r@.ffmpeg_args =~= h264_args());
    r
}

/// The arguments of the built-in "H.265 1080p MP4" profile.
pub open spec fn h265_args() -> Seq<Seq<char>> {
    seq![
        "-vf"@,
        "scale=1920:1080:force_original_aspect_ratio=decrease,pad=1920:1080:(ow-iw)/2:(oh-ih)/2"@,
        "-c:v"@,
        "libx265"@,
        "-preset"@,
        "medium"@,
        "-crf"@,
        "25"@,
        "-tag:v"@,
        "hvc1"@,
        "-c:a"@,
        "aac"@,
        "-b:a"@,
        "192k"@,
    ]
}

/// The built-in "H.265 1080p MP4" profile.
pub open spec fn h265_profile() -> ProfileView {
    ProfileView { name: "H.265 1080p MP4"@, extension: "mp4"@, ffmpeg_args: h265_args() }
}

fn h265_profile_value() -> (r: EncodingProfile)
    ensures
        r@ == h265_profile(),
{
    let mut args: Vec<String> = Vec::new();
    args.push(String::from_str("-vf"));
    args.push(String::from_str("scale=1920:1080:force_original_aspect_ratio=decrease,pad=1920:1080:(ow-iw)/2:(oh-ih)/2"));
    args.push(String::from_str("-c:v"));
    args.push(String::from_str("libx265"));
    args.push(String::from_str("-preset"));
    args.push(String::from_str("medium"));
    args.push(String::from_str("-crf"));
    args.push(String::from_str("25"));
    args.push(String::from_str("-tag:v"));
    args.push(String::from_str("hvc1"));
    args.push(String::from_str("-c:a"));
    args.push(String::from_str("aac"));
    args.push(String::from_str("-b:a"));
    args.push(String::from_str("192k"));
    let r = EncodingProfile {
        name: String::from_str("H.265 1080p MP4"),
        extension: String::from_str("mp4"),
        ffmpeg_args: args,
    };
    assert(r@.ffmpeg_args =~= h265_args());
    r
}

/// The built-in profiles, in order.
pub open spec fn builtin_profiles() -> Seq<ProfileView> {
    seq![dalet_profile(), h264_profile(), h265_profile()]
}

pub fn default_profiles() -> (r: Vec<EncodingProfile>)
    ensures
        profile_views(r@) == builtin_profiles(),
{
    let mut r: Vec<EncodingProfile> = Vec::new();
    r.push(dalet_profile_value());
    r.push(h264_profile_value());
    r.push(h265_profile_value());
    assert(profile_views(r@) =~= builtin_profiles());
    r
}

/// The Dalet XDCAM profile, the one used when a configuration has none that
/// matches.
pub fn default_profile() -> (r: EncodingProfile)
    ensures
        r@ == dalet_profile(),
{
    dalet_profile_value()
}

/// The configuration written when none exists yet.
pub open spec fn default_config_of(env: HostEnvironment) -> ConfigView {
    ConfigView {
        nas_retention_path: default_retention_of(env),
        binaries_path: default_binaries_of(env),
        output_path: downloads_dir_of(env),
        default_profile: default_profile_name_text(),
        profiles: builtin_profiles(),
    }
}

impl AppConfig {
    /// The configuration written when none exists yet.
    pub fn default_for(env: &HostEnvironment) -> (r: AppConfig)
        ensures
            r@ == default_config_of(*env),
    {
        AppConfig {
            nas_retention_path: default_nas_retention_path(env),
            binaries_path: default_binaries_path(env),
            output_path: default_output_path(env),
            default_profile: default_profile_name(),
            profiles: default_profiles(),
        }
    }
}


/// Where the configuration file is looked for, in order: the app directory,
/// then the working directory, then `src-tauri` under it.
pub open spec fn config_candidates_of(env: HostEnvironment) -> Seq<Seq<char>> {
    let p = env.platform;
    seq![
        path_push(p, app_dir_of(env), "omni-downloader.cfg"@),
        "omni-downloader.cfg"@,
        path_push(p, "src-tauri"@, "omni-downloader.cfg"@),
    ]
}

/// The first candidate that exists, else the first candidate; `exists[i]`
/// tells whether candidate `i` exists, and a missing entry counts as absent.
pub open spec fn chosen_config(candidates: Seq<Seq<char>>, exists: Seq<bool>) -> Seq<char> {
    if exists.len() > 0 && exists[0] {
        candidates[0]
    } else if exists.len() > 1 && exists[1] {
        candidates[1]
    } else if exists.len() > 2 && exists[2] {
        candidates[2]
    } else {
        candidates[0]
    }
}

/// The places the configuration file is looked for, in order.
pub fn config_candidates(env: &HostEnvironment) -> (r: Vec<String>)
    ensures
        string_views(r@) == config_candidates_of(*env),
{
    let app = app_data_dir(env);
    let preferred = join_path(env.platform, app.as_str(), "omni-downloader.cfg");
    let legacy = join_path(env.platform, "src-tauri", "omni-downloader.cfg");
    let mut r: Vec<String> = Vec::new();
    r.push(preferred);
    r.push(String::from_str("omni-downloader.cfg"));
    r.push(legacy);
    assert(string_views(r@) =~= config_candidates_of(*env));
    r
}

/// The configuration file to read and write, given which of the candidates
/// of `config_candidates` exist.
pub fn config_path(env: &HostEnvironment, exists: &Vec<bool>) -> (r: String)
    ensures
        r@ == chosen_config(config_candidates_of(*env), exists@),
{
    let candidates = config_candidates(env);
    assert(string_views(candidates@).len() == 3);
    assert(candidates@.len() == 3);
    let mut k: usize = 0;
    if exists.len() > 0 && exists[0] {
        k = 0;
    } else if exists.len() > 1 && exists[1] {
        k = 1;
    } else if exists.len() > 2 && exists[2] {
        k = 2;
    }
    assert(string_views(candidates@)[k as int] == candidates@[k as int]@);
    candidates[k].clone()
}

/// The ffmpeg source that older versions of the Dalet profile used for silent
/// tracks.
pub open spec fn legacy_silence_marker() -> Seq<char> {
    "aevalsrc=0:d=1"@
}

pub open spec fn has_legacy_silence(p: ProfileView) -> bool {
    exists|i: int|
        0 <= i < p.ffmpeg_args.len() && seq_contains(
            #[trigger] p.ffmpeg_args[i],
            legacy_silence_marker(),
        )
}

pub open spec fn has_shortest(p: ProfileView) -> bool {
    exists|i: int| 0 <= i < p.ffmpeg_args.len() && #[trigger] p.ffmpeg_args[i] == "-shortest"@
}

/// A stored Dalet profile is outdated when it still uses the legacy silence
/// source or lacks `-shortest`.
pub open spec fn needs_migration(p: ProfileView) -> bool {
    has_legacy_silence(p) || !has_shortest(p)
}

/// `i` is the first position of a profile called `name`.
pub open spec fn is_first_named(ps: Seq<ProfileView>, name: Seq<char>, i: int) -> bool {
    0 <= i < ps.len() && ps[i].name == name && forall|j: int| 0 <= j < i ==> #[trigger] ps[j].name != name
}

/// The profiles with the first Dalet profile replaced by the built-in one
/// when it is outdated; `None` when nothing changes.
pub open spec fn migration_index(ps: Seq<ProfileView>) -> Option<int> {
    if exists|i: int| is_first_named(ps, default_profile_name_text(), i) {
        let i = choose|i: int| is_first_named(ps, default_profile_name_text(), i);
        if needs_migration(ps[i]) {
            Some(i)
        } else {
            None
        }
    } else {
        None
    }
}

pub open spec fn migrated_profiles(ps: Seq<ProfileView>) -> Seq<ProfileView> {
    match migration_index(ps) {
        Some(i) => ps.update(i, dalet_profile()),
        None => ps,
    }
}

/// Whether any argument contains `needle`.
fn any_arg_contains(args: &Vec<String>, needle: &str) -> (r: bool)
    ensures
        r == exists|i: int|
            0 <= i < args@.len() && seq_contains(#[trigger] string_views(args@)[i], needle@),
{
    let n = chars_of(needle);
    let mut i: usize = 0;
    while i < args.len()
        invariant
            i <= args.len(),
            n@ == needle@,
            forall|j: int| 0 <= j < i ==> !seq_contains(#[trigger] string_views(args@)[j], needle@),
        decreases args.len() - i,
    {
        let a = chars_of(args[i].as_str());
        if contains_chars(&a, &n) {
            assert(seq_contains(string_views(args@)[i as int], needle@));
            return true;
        }
        i = i + 1;
    }
    false
}

/// Whether any argument equals `needle`.
fn any_arg_equals(args: &Vec<String>, needle: &str) -> (r: bool)
    ensures
        r == exists|i: int| 0 <= i < args@.len() && #[trigger] string_views(args@)[i] == needle@,
{
    let n = String::from_str(needle);
    let mut i: usize = 0;
    while i < args.len()
        invariant
            i <= args.len(),
            n@ == needle@,
            forall|j: int| 0 <= j < i ==> #[trigger] string_views(args@)[j] != needle@,
        decreases args.len() - i,
    {
        if args[i] == n {
            assert(string_views(args@)[i as int] == needle@);
            return true;
        }
        i = i + 1;
    }
    false
}

/// Replaces an outdated stored Dalet profile by the built-in one; returns
/// whether anything changed.
pub fn migrate_builtin_profiles(config: &mut AppConfig) -> (changed: bool)
    ensures
        final(config)@ == (ConfigView { profiles: migrated_profiles(old(config)@.profiles), ..old(config)@ }),
        changed == (migration_index(old(config)@.profiles) is Some),
{
    let ghost ps = config@.profiles;
    let name = default_profile_name();
    let mut i: usize = 0;
    while i < config.profiles.len() && !(config.profiles[i].name == name)
        invariant
            i <= config.profiles.len(),
            ps == config@.profiles,
            name@ == default_profile_name_text(),
            forall|j: int| 0 <= j < i ==> #[trigger] ps[j].name != default_profile_name_text(),
        decreases config.profiles.len() - i,
    {
        i = i + 1;
    }
    if i < config.profiles.len() {
        proof {
            assert(is_first_named(ps, default_profile_name_text(), i as int));
            let k = choose|k: int| is_first_named(ps, default_profile_name_text(), k);
            if k < i {
                assert(ps[k].name != default_profile_name_text());
            }
            if k > i {
                assert(ps[i as int].name != default_profile_name_text());
            }
            assert(k == i);
        }
        let legacy = any_arg_contains(&config.profiles[i].ffmpeg_args, "aevalsrc=0:d=1");
        let shortest = any_arg_equals(&config.profiles[i].ffmpeg_args, "-shortest");
        assert(legacy == has_legacy_silence(ps[i as int]));
        assert(shortest == has_shortest(ps[i as int]));
        if legacy || !shortest {
            let fresh = dalet_profile_value();
            config.profiles[i] = fresh;
            assert(config@.profiles =~= ps.update(i as int, dalet_profile()));
            return true;
        }
    } else {
        assert(!exists|k: int| is_first_named(ps, default_profile_name_text(), k));
    }
    false
}

/// The built-in Dalet profile is current: it ends with `-shortest` and no
/// argument uses the legacy silence source.
pub proof fn lemma_dalet_profile_current()
    ensures
        !needs_migration(dalet_profile()),
{
    let m = legacy_silence_marker();
    reveal_strlit("-filter_complex");
    reveal_strlit("[0:v]scale=1920:1080:force_original_aspect_ratio=decrease,pad=1920:1080:(ow-iw)/2:(oh-ih)/2:black,format=yuv422p,setfield=tff[vout]; [0:a]pan=mono|c0=FL[a1]; [0:a]pan=mono|c0=FR[a2]; anullsrc=r=48000:cl=mono[silence]; [silence]asplit=6[a3][a4][a5][a6][a7][a8]");
    reveal_strlit("-map");
    reveal_strlit("[vout]");
    reveal_strlit("[a1]");
    reveal_strlit("[a2]");
    reveal_strlit("[a3]");
    reveal_strlit("[a4]");
    reveal_strlit("[a5]");
    reveal_strlit("[a6]");
    reveal_strlit("[a7]");
    reveal_strlit("[a8]");
    reveal_strlit("-c:v");
    reveal_strlit("mpeg2video");
    reveal_strlit("-b:v");
    reveal_strlit("50000k");
    reveal_strlit("-minrate");
    reveal_strlit("-maxrate");
    reveal_strlit("-bufsize");
    reveal_strlit("17825792");
    reveal_strlit("-g");
    reveal_strlit("12");
    reveal_strlit("-flags");
    reveal_strlit("+ildct+ilme");
    reveal_strlit("-top");
    reveal_strlit("1");
    reveal_strlit("-vtag");
    reveal_strlit("xd5c");
    reveal_strlit("-non_linear_quant");
    reveal_strlit("-dc");
    reveal_strlit("10");
    reveal_strlit("-intra_vlc");
    reveal_strlit("-qmin");
    reveal_strlit("-qmax");
    reveal_strlit("3");
    reveal_strlit("-lmin");
    reveal_strlit("1*QP2LAMBDA");
    reveal_strlit("-c:a");
    reveal_strlit("pcm_s24le");
    reveal_strlit("-ar");
    reveal_strlit("48000");
    reveal_strlit("-shortest");
    reveal_strlit("aevalsrc=0:d=1");
    assert(!seq_contains("-filter_complex"@, m)) by {
        reveal_with_fuel(occurs_from, 21);
        assert(!occurs_from("-filter_complex"@, m, 0));
        lemma_occurs_from("-filter_complex"@, m, 0);
    }
    assert(!seq_contains("[0:v]scale=1920:1080:force_original_aspect_ratio=decrease,pad=1920:1080:(ow-iw)/2:(oh-ih)/2:black,format=yuv422p,setfield=tff[vout]; [0:a]pan=mono|c0=FL[a1]; [0:a]pan=mono|c0=FR[a2]; anullsrc=r=48000:cl=mono[silence]; [silence]asplit=6[a3][a4][a5][a6][a7][a8]"@, m)) by {
        reveal_with_fuel(occurs_from, 21);
        assert(!occurs_from("[0:v]scale=1920:1080:force_original_aspect_ratio=decrease,pad=1920:1080:(ow-iw)/2:(oh-ih)/2:black,format=yuv422p,setfield=tff[vout]; [0:a]pan=mono|c0=FL[a1]; [0:a]pan=mono|c0=FR[a2]; anullsrc=r=48000:cl=mono[silence]; [silence]asplit=6[a3][a4][a5][a6][a7][a8]"@, m, 240));
        assert(!occurs_from("[0:v]scale=1920:1080:force_original_aspect_ratio=decrease,pad=1920:1080:(ow-iw)/2:(oh-ih)/2:black,format=yuv422p,setfield=tff[vout]; [0:a]pan=mono|c0=FL[a1]; [0:a]pan=mono|c0=FR[a2]; anullsrc=r=48000:cl=mono[silence]; [silence]asplit=6[a3][a4][a5][a6][a7][a8]"@, m, 220));
        assert(!occurs_from("[0:v]scale=1920:1080:force_original_aspect_ratio=decrease,pad=1920:1080:(ow-iw)/2:(oh-ih)/2:black,format=yuv422p,setfield=tff[vout]; [0:a]pan=mono|c0=FL[a1]; [0:a]pan=mono|c0=FR[a2]; anullsrc=r=48000:cl=mono[silence]; [silence]asplit=6[a3][a4][a5][a6][a7][a8]"@, m, 200));
        assert(!occurs_from("[0:v]scale=1920:1080:force_original_aspect_ratio=decrease,pad=1920:1080:(ow-iw)/2:(oh-ih)/2:black,format=yuv422p,setfield=tff[vout]; [0:a]pan=mono|c0=FL[a1]; [0:a]pan=mono|c0=FR[a2]; anullsrc=r=48000:cl=mono[silence]; [silence]asplit=6[a3][a4][a5][a6][a7][a8]"@, m, 180));
        assert(!occurs_from("[0:v]scale=1920:1080:force_original_aspect_ratio=decrease,pad=1920:1080:(ow-iw)/2:(oh-ih)/2:black,format=yuv422p,setfield=tff[vout]; [0:a]pan=mono|c0=FL[a1]; [0:a]pan=mono|c0=FR[a2]; anullsrc=r=48000:cl=mono[silence]; [silence]asplit=6[a3][a4][a5][a6][a7][a8]"@, m, 160));
        assert(!occurs_from("[0:v]scale=1920:1080:force_original_aspect_ratio=decrease,pad=1920:1080:(ow-iw)/2:(oh-ih)/2:black,format=yuv422p,setfield=tff[vout]; [0:a]pan=mono|c0=FL[a1]; [0:a]pan=mono|c0=FR[a2]; anullsrc=r=48000:cl=mono[silence]; [silence]asplit=6[a3][a4][a5][a6][a7][a8]"@, m, 140));
        assert(!occurs_from("[0:v]scale=1920:1080:force_original_aspect_ratio=decrease,pad=1920:1080:(ow-iw)/2:(oh-ih)/2:black,format=yuv422p,setfield=tff[vout]; [0:a]pan=mono|c0=FL[a1]; [0:a]pan=mono|c0=FR[a2]; anullsrc=r=48000:cl=mono[silence]; [silence]asplit=6[a3][a4][a5][a6][a7][a8]"@, m, 120));
        assert(!occurs_from("[0:v]scale=1920:1080:force_original_aspect_ratio=decrease,pad=1920:1080:(ow-iw)/2:(oh-ih)/2:black,format=yuv422p,setfield=tff[vout]; [0:a]pan=mono|c0=FL[a1]; [0:a]pan=mono|c0=FR[a2]; anullsrc=r=48000:cl=mono[silence]; [silence]asplit=6[a3][a4][a5][a6][a7][a8]"@, m, 100));
        assert(!occurs_from("[0:v]scale=1920:1080:force_original_aspect_ratio=decrease,pad=1920:1080:(ow-iw)/2:(oh-ih)/2:black,format=yuv422p,setfield=tff[vout]; [0:a]pan=mono|c0=FL[a1]; [0:a]pan=mono|c0=FR[a2]; anullsrc=r=48000:cl=mono[silence]; [silence]asplit=6[a3][a4][a5][a6][a7][a8]"@, m, 80));
        assert(!occurs_from("[0:v]scale=1920:1080:force_original_aspect_ratio=decrease,pad=1920:1080:(ow-iw)/2:(oh-ih)/2:black,format=yuv422p,setfield=tff[vout]; [0:a]pan=mono|c0=FL[a1]; [0:a]pan=mono|c0=FR[a2]; anullsrc=r=48000:cl=mono[silence]; [silence]asplit=6[a3][a4][a5][a6][a7][a8]"@, m, 60));
        assert(!occurs_from("[0:v]scale=1920:1080:force_original_aspect_ratio=decrease,pad=1920:1080:(ow-iw)/2:(oh-ih)/2:black,format=yuv422p,setfield=tff[vout]; [0:a]pan=mono|c0=FL[a1]; [0:a]pan=mono|c0=FR[a2]; anullsrc=r=48000:cl=mono[silence]; [silence]asplit=6[a3][a4][a5][a6][a7][a8]"@, m, 40));
        assert(!occurs_from("[0:v]scale=1920:1080:force_original_aspect_ratio=decrease,pad=1920:1080:(ow-iw)/2:(oh-ih)/2:black,format=yuv422p,setfield=tff[vout]; [0:a]pan=mono|c0=FL[a1]; [0:a]pan=mono|c0=FR[a2]; anullsrc=r=48000:cl=mono[silence]; [silence]asplit=6[a3][a4][a5][a6][a7][a8]"@, m, 20));
        assert(!occurs_from("[0:v]scale=1920:1080:force_original_aspect_ratio=decrease,pad=1920:1080:(ow-iw)/2:(oh-ih)/2:black,format=yuv422p,setfield=tff[vout]; [0:a]pan=mono|c0=FL[a1]; [0:a]pan=mono|c0=FR[a2]; anullsrc=r=48000:cl=mono[silence]; [silence]asplit=6[a3][a4][a5][a6][a7][a8]"@, m, 0));
        lemma_occurs_from("[0:v]scale=1920:1080:force_original_aspect_ratio=decrease,pad=1920:1080:(ow-iw)/2:(oh-ih)/2:black,format=yuv422p,setfield=tff[vout]; [0:a]pan=mono|c0=FL[a1]; [0:a]pan=mono|c0=FR[a2]; anullsrc=r=48000:cl=mono[silence]; [silence]asplit=6[a3][a4][a5][a6][a7][a8]"@, m, 0);
    }
    assert(!seq_contains("-map"@, m));
    assert(!seq_contains("[vout]"@, m));
    assert(!seq_contains("[a1]"@, m));
    assert(!seq_contains("[a2]"@, m));
    assert(!seq_contains("[a3]"@, m));
    assert(!seq_contains("[a4]"@, m));
    assert(!seq_contains("[a5]"@, m));
    assert(!seq_contains("[a6]"@, m));
    assert(!seq_contains("[a7]"@, m));
    assert(!seq_contains("[a8]"@, m));
    assert(!seq_contains("-c:v"@, m));
    assert(!seq_contains("mpeg2video"@, m));
    assert(!seq_contains("-b:v"@, m));
    assert(!seq_contains("50000k"@, m));
    assert(!seq_contains("-minrate"@, m));
    assert(!seq_contains("-maxrate"@, m));
    assert(!seq_contains("-bufsize"@, m));
    assert(!seq_contains("17825792"@, m));
    assert(!seq_contains("-g"@, m));
    assert(!seq_contains("12"@, m));
    assert(!seq_contains("-flags"@, m));
    assert(!seq_contains("+ildct+ilme"@, m));
    assert(!seq_contains("-top"@, m));
    assert(!seq_contains("1"@, m));
    assert(!seq_contains("-vtag"@, m));
    assert(!seq_contains("xd5c"@, m));
    assert(!seq_contains("-non_linear_quant"@, m)) by {
        reveal_with_fuel(occurs_from, 21);
        assert(!occurs_from("-non_linear_quant"@, m, 0));
        lemma_occurs_from("-non_linear_quant"@, m, 0);
    }
    assert(!seq_contains("-dc"@, m));
    assert(!seq_contains("10"@, m));
    assert(!seq_contains("-intra_vlc"@, m));
    assert(!seq_contains("-qmin"@, m));
    assert(!seq_contains("-qmax"@, m));
    assert(!seq_contains("3"@, m));
    assert(!seq_contains("-lmin"@, m));
    assert(!seq_contains("1*QP2LAMBDA"@, m));
    assert(!seq_contains("-c:a"@, m));
    assert(!seq_contains("pcm_s24le"@, m));
    assert(!seq_contains("-ar"@, m));
    assert(!seq_contains("48000"@, m));
    assert(!seq_contains("-shortest"@, m));
    let args = dalet_profile().ffmpeg_args;
    assert(args == dalet_args());
    assert(args[54] == "-shortest"@);
    assert forall|i: int| 0 <= i < args.len() implies !seq_contains(#[trigger] args[i], m) by {}
}

/// The runtime location a configured path stands for: the fallback when it
/// is blank, the trimmed path when absolute, and otherwise its normal
/// components placed under the tool's data directory.
pub open spec fn normalized_path(p: Platform, path: Seq<char>, fallback: Seq<char>, base: Seq<char>) -> Seq<char> {
    let t = trim(path);
    if t.len() == 0 {
        fallback
    } else if is_absolute(p, t) {
        t
    } else {
        resolve_under(p, base, t)
    }
}

/// Resolves a configured path against the tool's data directory.
pub fn normalize_runtime_path(path: &str, fallback: &str, env: &HostEnvironment) -> (r: String)
    ensures
        r@ == normalized_path(env.platform, path@, fallback@, app_dir_of(*env)),
{
    let t = trim_chars(&chars_of(path));
    if t.len() == 0 {
        return String::from_str(fallback);
    }
    if path_is_absolute(env.platform, &t) {
        return string_from_chars(&t);
    }
    let base = app_data_dir(env);
    let mut resolved = chars_of(base.as_str());
    push_relative_parts(env.platform, &mut resolved, &t);
    string_from_chars(&resolved)
}

/// The configuration with its three locations normalized.
pub open spec fn with_normalized_paths(c: ConfigView, env: HostEnvironment) -> ConfigView {
    let base = app_dir_of(env);
    let p = env.platform;
    ConfigView {
        nas_retention_path: normalized_path(p, c.nas_retention_path, default_retention_of(env), base),
        binaries_path: normalized_path(p, c.binaries_path, default_binaries_of(env), base),
        output_path: normalized_path(p, c.output_path, downloads_dir_of(env), base),
        ..c
    }
}

/// Normalizes the three configured locations; returns whether any changed.
pub fn normalize_runtime_paths(config: &mut AppConfig, env: &HostEnvironment) -> (changed: bool)
    ensures
        final(config)@ == with_normalized_paths(old(config)@, *env),
        changed == (final(config)@ != old(config)@),
{
    let mut changed = false;
    let fallback = default_nas_retention_path(env);
    let n = normalize_runtime_path(config.nas_retention_path.as_str(), fallback.as_str(), env);
    if !(n == config.nas_retention_path) {
        config.nas_retention_path = n;
        changed = true;
    }
    let fallback = default_binaries_path(env);
    let n = normalize_runtime_path(config.binaries_path.as_str(), fallback.as_str(), env);
    if !(n == config.binaries_path) {
        config.binaries_path = n;
        changed = true;
    }
    let fallback = default_output_path(env);
    let n = normalize_runtime_path(config.output_path.as_str(), fallback.as_str(), env);
    if !(n == config.output_path) {
        config.output_path = n;
        changed = true;
    }
    assert(config@ =~= with_normalized_paths(old(config)@, *env));
    changed
}

/// The repairs applied to a configuration read from disk: the built-in
/// profiles when it has none, the default profile name when it is blank,
/// the Dalet profile migration, and normalized locations.
pub open spec fn repaired_config(c: ConfigView, env: HostEnvironment) -> ConfigView {
    let a = if c.profiles.len() == 0 {
        ConfigView { profiles: builtin_profiles(), ..c }
    } else {
        c
    };
    let b = if trim(a.default_profile).len() == 0 {
        ConfigView { default_profile: default_profile_name_text(), ..a }
    } else {
        a
    };
    let m = ConfigView { profiles: migrated_profiles(b.profiles), ..b };
    with_normalized_paths(m, env)
}

/// Applies the repairs of a freshly read configuration; returns whether the
/// configuration changed (and so must be written back).
pub fn repair_config(config: &mut AppConfig, env: &HostEnvironment) -> (changed: bool)
    ensures
        final(config)@ == repaired_config(old(config)@, *env),
        changed == (final(config)@ != old(config)@),
{
    let mut changed = false;
    if config.profiles.len() == 0 {
        config.profiles = default_profiles();
        changed = true;
    }
    let name = trim_chars(&chars_of(config.default_profile.as_str()));
    if name.len() == 0 {
        config.default_profile = default_profile_name();
        changed = true;
    }
    let ghost b = config@;
    let migrated = migrate_builtin_profiles(config);
    let ghost m = config@;
    let normalized = normalize_runtime_paths(config, env);
    changed = changed || migrated || normalized;
    proof {
        if !changed {
            assert(b == old(config)@);
            assert(m.profiles == b.profiles);
            assert(m =~= b);
        }
        lemma_dalet_profile_current();
        if changed {
            assert(config@ != old(config)@) by {
                if old(config)@.profiles.len() == 0 {
                    assert(config@.profiles.len() == 3);
                } else if trim(old(config)@.default_profile).len() == 0 {
                    reveal_strlit("Dalet XDCAM 50Mbps");
                    assert(trim(default_profile_name_text()) =~= default_profile_name_text());
                    assert(config@.default_profile != old(config)@.default_profile);
                } else if migrated {
                    let i = migration_index(b.profiles)->0;
                    assert(config@.profiles[i] == dalet_profile());
                    assert(needs_migration(old(config)@.profiles[i]));
                } else {
                    assert(normalized);
                }
            }
        }
    }
    changed
}


/// Migrating the profiles a second time changes nothing.
pub proof fn law_migration_idempotent(ps: Seq<ProfileView>)
    ensures
        migration_index(migrated_profiles(ps)) is None,
        migrated_profiles(migrated_profiles(ps)) == migrated_profiles(ps),
{
    lemma_dalet_profile_current();
    let name = default_profile_name_text();
    if let Some(i) = migration_index(ps) {
        let q = ps.update(i, dalet_profile());
        assert(is_first_named(ps, name, i));
        assert(is_first_named(q, name, i));
        if exists|k: int| is_first_named(q, name, k) {
            let k = choose|k: int| is_first_named(q, name, k);
            if k < i {
                assert(q[k].name == ps[k].name);
            }
            if k > i {
                assert(q[i].name == name);
            }
            assert(k == i);
        }
    }
}

/// A normalized location that is absolute and has no surrounding whitespace
/// is left as it is by a second normalization.
pub proof fn law_normalized_path_stable(p: Platform, path: Seq<char>, fallback: Seq<char>, base: Seq<char>)
    requires
        is_absolute(p, normalized_path(p, path, fallback, base)),
        trim(normalized_path(p, path, fallback, base)) == normalized_path(p, path, fallback, base),
    ensures
        normalized_path(p, normalized_path(p, path, fallback, base), fallback, base)
            == normalized_path(p, path, fallback, base),
{
    let y = normalized_path(p, path, fallback, base);
    assert(y.len() > 0);
}

/// The locations of a configuration are normal: absolute, with no
/// surrounding whitespace.
pub open spec fn has_normal_locations(c: ConfigView, p: Platform) -> bool {
    &&& is_absolute(p, c.nas_retention_path) && trim(c.nas_retention_path) == c.nas_retention_path
    &&& is_absolute(p, c.binaries_path) && trim(c.binaries_path) == c.binaries_path
    &&& is_absolute(p, c.output_path) && trim(c.output_path) == c.output_path
}

/// Loading a repaired configuration again repairs nothing, so it is not
/// written back a second time, provided its locations came out normal.
pub proof fn law_repair_idempotent(c: ConfigView, env: HostEnvironment)
    requires
        has_normal_locations(repaired_config(c, env), env.platform),
    ensures
        repaired_config(repaired_config(c, env), env) == repaired_config(c, env),
{
    let r = repaired_config(c, env);
    let p = env.platform;
    let base = app_dir_of(env);
    let a = if c.profiles.len() == 0 {
        ConfigView { profiles: builtin_profiles(), ..c }
    } else {
        c
    };
    let b = if trim(a.default_profile).len() == 0 {
        ConfigView { default_profile: default_profile_name_text(), ..a }
    } else {
        a
    };
    law_migration_idempotent(b.profiles);
    assert(r.profiles == migrated_profiles(b.profiles));
    assert(r.profiles.len() == b.profiles.len());
    assert(b.profiles.len() > 0);
    if trim(a.default_profile).len() == 0 {
        reveal_strlit("Dalet XDCAM 50Mbps");
        lemma_trim_of_trimmed(default_profile_name_text());
    }
    assert(trim(r.default_profile).len() > 0);
    law_normalized_path_stable(p, b.nas_retention_path, default_retention_of(env), base);
    law_normalized_path_stable(p, b.binaries_path, default_binaries_of(env), base);
    law_normalized_path_stable(p, b.output_path, downloads_dir_of(env), base);
    assert(repaired_config(r, env) =~= r);
}

/// The configuration written on first start is read back unchanged, so the
/// next start does not write it again, provided its locations are normal.
pub proof fn law_default_config_stable(env: HostEnvironment)
    requires
        has_normal_locations(default_config_of(env), env.platform),
    ensures
        repaired_config(default_config_of(env), env) == default_config_of(env),
{
    let c = default_config_of(env);
    let name = default_profile_name_text();
    lemma_dalet_profile_current();
    reveal_strlit("Dalet XDCAM 50Mbps");
    lemma_trim_of_trimmed(name);
    assert(trim(c.default_profile).len() > 0);
    let ps = builtin_profiles();
    assert(is_first_named(ps, name, 0));
    let k = choose|k: int| is_first_named(ps, name, k);
    if k > 0 {
        assert(ps[0].name != name);
    }
    assert(migration_index(ps) is None);
    assert(c.nas_retention_path.len() > 0);
    assert(c.binaries_path.len() > 0);
    assert(c.output_path.len() > 0);
    assert(repaired_config(c, env) =~= c);
}

/// When the data directory and the fallback are absolute, a normalized
/// location is absolute, and once it has no surrounding whitespace a second
/// normalization leaves it as it is.
pub proof fn law_normalized_path_absolute(p: Platform, path: Seq<char>, fallback: Seq<char>, base: Seq<char>)
    requires
        is_absolute(p, fallback),
        is_absolute(p, base),
    ensures
        is_absolute(p, normalized_path(p, path, fallback, base)),
        trim(normalized_path(p, path, fallback, base)) == normalized_path(p, path, fallback, base)
            ==> normalized_path(p, normalized_path(p, path, fallback, base), fallback, base)
            == normalized_path(p, path, fallback, base),
{
    let t = trim(path);
    if t.len() > 0 && !is_absolute(p, t) {
        lemma_parts_keep_absolute(p, base, Seq::<char>::empty(), without_drive(p, t));
    }
    if trim(normalized_path(p, path, fallback, base)) == normalized_path(p, path, fallback, base) {
        law_normalized_path_stable(p, path, fallback, base);
    }
}

/// Loading a saved configuration that is already normal (profiles present,
/// a default profile named, the stored Dalet profile current, and absolute
/// trimmed locations) changes nothing, so it is not written back.
pub proof fn law_normal_config_unchanged(c: ConfigView, env: HostEnvironment)
    requires
        c.profiles.len() > 0,
        trim(c.default_profile).len() > 0,
        forall|i: int| is_first_named(c.profiles, default_profile_name_text(), i)
            ==> !needs_migration(#[trigger] c.profiles[i]),
        has_normal_locations(c, env.platform),
    ensures
        repaired_config(c, env) == c,
{
    let ps = c.profiles;
    if exists|i: int| is_first_named(ps, default_profile_name_text(), i) {
        let i = choose|i: int| is_first_named(ps, default_profile_name_text(), i);
        assert(!needs_migration(ps[i]));
    }
    assert(migration_index(ps) is None);
    assert(c.nas_retention_path.len() > 0);
    assert(c.binaries_path.len() > 0);
    assert(c.output_path.len() > 0);
    assert(repaired_config(c, env) =~= c);
}

/// On first start, exported files go to the host's downloads directory:
/// `HOME/Downloads/omni-downloader` on Unix, `USERPROFILE\Downloads\Omni
/// Downloader` on Windows, and `downloads` under the data directory when
/// neither is known.
pub proof fn law_default_output_is_downloads(env: HostEnvironment)
    ensures
        default_config_of(env).output_path == downloads_dir_of(env),
        env.platform == Platform::Unix && env.home is Some ==> default_config_of(env).output_path
            == path_push(
            Platform::Unix,
            path_push(Platform::Unix, env.home->0@, "Downloads"@),
            "omni-downloader"@,
        ),
        env.platform == Platform::Windows && env.user_profile is Some ==> default_config_of(
            env,
        ).output_path == path_push(
            Platform::Windows,
            path_push(Platform::Windows, env.user_profile->0@, "Downloads"@),
            "Omni Downloader"@,
        ),
        env.home is None && (env.platform == Platform::Unix || env.user_profile is None)
            ==> default_config_of(env).output_path == path_push(
            env.platform,
            app_dir_of(env),
            "downloads"@,
        ),
{
}

/// A stored first Dalet profile that has none of its arguments equal to
/// `-shortest`, or one that uses the old silence source, is outdated: the
/// migration replaces it by the built-in profile, which ends in
/// `-shortest`, and reports the change.
pub proof fn law_outdated_dalet_migrates(ps: Seq<ProfileView>, k: int)
    requires
        is_first_named(ps, "Dalet XDCAM 50Mbps"@, k),
        (forall|i: int| 0 <= i < ps[k].ffmpeg_args.len() ==> #[trigger] ps[k].ffmpeg_args[i] != "-shortest"@)
            || (exists|i: int|
            0 <= i < ps[k].ffmpeg_args.len() && seq_contains(
                #[trigger] ps[k].ffmpeg_args[i],
                "aevalsrc=0:d=1"@,
            )),
    ensures
        migration_index(ps) == Some(k),
        migrated_profiles(ps)[k] == dalet_profile(),
        migrated_profiles(ps)[k].ffmpeg_args.last() == "-shortest"@,
        migrated_profiles(ps).len() == ps.len(),
        forall|j: int| 0 <= j < ps.len() && j != k ==> #[trigger] migrated_profiles(ps)[j] == ps[j],
{
    let name = default_profile_name_text();
    let c = choose|i: int| is_first_named(ps, name, i);
    if c < k {
        assert(ps[c].name != name);
    }
    if c > k {
        assert(ps[k].name != name);
    }
    assert(c == k);
}

} // verus!
