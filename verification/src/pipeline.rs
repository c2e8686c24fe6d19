//! The download-and-transcode pipeline as a sequence of steps: each step
//! takes the outcome of the previous action and names the next one, so that
//! the caller only runs processes and touches files.
use vstd::prelude::*;
use crate::binaries::RuntimeBinaries;
use crate::config::{
    clone_strings, default_profile, dalet_profile, profile_views, EncodingProfile, ProfileView,
};
use crate::ingest::{
    build_output_stem, build_retention_filename, ensure_profile_extension,
    law_named_batch_names_distinct, looks_like_direct_media_url, media_markers, output_stem,
    retention_filename, with_profile_extension, DownloadExecution,
};
use crate::paths::{
    is_sep, join_path, main_sep, path_extension, path_extension_chars, path_push,
    starts_with_drive, Platform,
};
use crate::text::{
    ascii_lowercase, chars_of, decimal, push_chars, push_decimal, push_decimal_padded, push_str_chars,
    seq_contains, string_from_chars, string_views, trim, trim_chars, zero_padded,
};

verus! {

pub open spec fn opt_string_view(o: Option<String>) -> Option<Seq<char>> {
    match o {
        Some(s) => Some(s@),
        None => None,
    }
}

/// The first present value (`first_string` looks up several keys in turn).
pub open spec fn first_present(candidates: Seq<Option<String>>) -> Option<Seq<char>>
    decreases candidates.len(),
{
    if candidates.len() == 0 {
        None
    } else {
        match candidates[0] {
            Some(s) => Some(s@),
            None => first_present(candidates.drop_first()),
        }
    }
}

/// The first of the looked-up values that is present.
pub fn first_string(candidates: &Vec<Option<String>>) -> (r: Option<String>)
    ensures
        opt_string_view(r) == first_present(candidates@),
{
    let mut i: usize = 0;
    assert(candidates@.skip(0) =~= candidates@);
    while i < candidates.len()
        invariant
            i <= candidates.len(),
            first_present(candidates@) == first_present(candidates@.skip(i as int)),
        decreases candidates.len() - i,
    {
        proof {
            let rest = candidates@.skip(i as int);
            assert(rest[0] == candidates@[i as int]);
            assert(rest.drop_first() =~= candidates@.skip(i + 1));
        }
        match &candidates[i] {
            Some(s) => {
                return Some(s.clone());
            },
            None => {},
        }
        i = i + 1;
    }
    assert(candidates@.skip(i as int) =~= Seq::<Option<String>>::empty());
    None
}

/// What a yt-dlp probe tells about a URL.
pub struct MediaProbe {
    pub title: Option<String>,
    pub extractor: Option<String>,
}

/// The string members `title`, `fulltitle`, `extractor_key` and `extractor`
/// of the JSON document a yt-dlp probe prints (`None` where a member is
/// absent or not a string).
pub struct ProbeFields {
    pub title: Option<String>,
    pub fulltitle: Option<String>,
    pub extractor_key: Option<String>,
    pub extractor: Option<String>,
}

/// The probe of a URL: the trimmed error output when yt-dlp failed, an error
/// when its output was not JSON, and otherwise the title (`title`, else
/// `fulltitle`) and the extractor (`extractor_key`, else `extractor`).
pub fn probe_outcome(success: bool, stderr: &str, fields: Option<ProbeFields>) -> (r: Result<MediaProbe, String>)
    ensures
        !success ==> (r matches Err(e) && e@ == trim(stderr@)),
        success && fields is None ==> (r matches Err(e) && e@ == "yt-dlp returned invalid JSON"@),
        success && fields is Some ==> (r matches Ok(m) && opt_string_view(m.title) == first_present(
            seq![fields->0.title, fields->0.fulltitle],
        ) && opt_string_view(m.extractor) == first_present(
            seq![fields->0.extractor_key, fields->0.extractor],
        )),
{
    if !success {
        let t = trim_chars(&chars_of(stderr));
        return Err(string_from_chars(&t));
    }
    match fields {
        None => Err(String::from_str("yt-dlp returned invalid JSON")),
        Some(f) => {
            let mut titles: Vec<Option<String>> = Vec::new();
            titles.push(f.title);
            titles.push(f.fulltitle);
            let mut extractors: Vec<Option<String>> = Vec::new();
            extractors.push(f.extractor_key);
            extractors.push(f.extractor);
            assert(titles@ =~= seq![f.title, f.fulltitle]);
            assert(extractors@ =~= seq![f.extractor_key, f.extractor]);
            Ok(MediaProbe { title: first_string(&titles), extractor: first_string(&extractors) })
        },
    }
}

/// The first of two looked-up values that is present.
pub open spec fn either(first: Option<Seq<char>>, second: Option<Seq<char>>) -> Option<Seq<char>> {
    if first is Some {
        first
    } else {
        second
    }
}

pub open spec fn probe_fields_view(f: ProbeFields) -> (
    Option<Seq<char>>,
    Option<Seq<char>>,
    Option<Seq<char>>,
    Option<Seq<char>>,
) {
    (
        opt_string_view(f.title),
        opt_string_view(f.fulltitle),
        opt_string_view(f.extractor_key),
        opt_string_view(f.extractor),
    )
}

/// What `serde_json` reads from the bytes a yt-dlp probe printed: `None`
/// when they are not JSON, else the string members `title`, `fulltitle`,
/// `extractor_key` and `extractor` of the document (each `None` where absent
/// or not a string).
pub uninterp spec fn probe_json_members(stdout: Seq<u8>) -> Option<
    (Option<Seq<char>>, Option<Seq<char>>, Option<Seq<char>>, Option<Seq<char>>),
>;

/// Parses the probe's output with `serde_json::from_slice` into a
/// `serde_json::Value` and reads four members with `Value::get` and
/// `Value::as_str`. The contract names the result and says nothing of how
/// JSON is parsed.
#[verifier::external_body]
fn read_probe_json(stdout: &[u8]) -> (r: Option<ProbeFields>)
    ensures
        match r {
            Some(f) => probe_json_members(stdout@) == Some(probe_fields_view(f)),
            None => probe_json_members(stdout@) is None,
        },
{
    let json: serde_json::Value = serde_json::from_slice(stdout).ok()?;
    let member = |key: &str| json.get(key).and_then(serde_json::Value::as_str).map(String::from);
    Some(ProbeFields {
        title: member("title"),
        fulltitle: member("fulltitle"),
        extractor_key: member("extractor_key"),
        extractor: member("extractor"),
    })
}

/// The outcome of a yt-dlp probe from its exit status and its two outputs:
/// the trimmed error output when it failed, an error when its output is not
/// JSON, and otherwise the title (`title`, else `fulltitle`) and the
/// extractor (`extractor_key`, else `extractor`).
pub fn probe_media(success: bool, stdout: &[u8], stderr: &str) -> (r: Result<MediaProbe, String>)
    ensures
        !success ==> (r matches Err(e) && e@ == trim(stderr@)),
        success && probe_json_members(stdout@) is None ==> (r matches Err(e) && e@
            == "yt-dlp returned invalid JSON"@),
        success ==> (probe_json_members(stdout@) matches Some((t, ft, ek, ex)) ==> (r matches Ok(m)
            && opt_string_view(m.title) == either(t, ft) && opt_string_view(m.extractor) == either(
            ek,
            ex,
        ))),
{
    let fields = if success {
        read_probe_json(stdout)
    } else {
        None
    };
    proof {
        if fields is Some {
            let f = fields->0;
            reveal_with_fuel(first_present, 3);
            assert(first_present(seq![f.title, f.fulltitle]) == either(
                opt_string_view(f.title),
                opt_string_view(f.fulltitle),
            ));
            assert(first_present(seq![f.extractor_key, f.extractor]) == either(
                opt_string_view(f.extractor_key),
                opt_string_view(f.extractor),
            ));
        }
    }
    probe_outcome(success, stderr, fields)
}

/// A media item to download, and where it was found.
pub struct MediaResolution {
    pub download_url: String,
    pub suggested_title: Option<String>,
    pub extractor: Option<String>,
    pub source: String,
}

pub open spec fn looks_direct(url: Seq<char>) -> bool {
    exists|i: int|
        0 <= i < media_markers().len() && seq_contains(
            ascii_lowercase(url),
            #[trigger] media_markers()[i],
        )
}

pub open spec fn unresolvable_text() -> Seq<char> {
    "yt-dlp could not resolve the provided URL and it does not look like a direct media asset"@
}

/// The media items of the input URL: the URL itself with the probe's title
/// and extractor when yt-dlp understood it, else the URL as a direct media
/// link when it looks like one, else an error.
pub fn resolve_media_urls(input_url: &str, probe: Result<MediaProbe, String>) -> (r: Result<Vec<MediaResolution>, String>)
    ensures
        match r {
            Ok(items) => items@.len() == 1 && items@[0].download_url@ == input_url@ && (match probe {
                Ok(m) => opt_string_view(items@[0].suggested_title) == opt_string_view(m.title)
                    && opt_string_view(items@[0].extractor) == opt_string_view(m.extractor)
                    && items@[0].source@ == "yt-dlp-probe"@,
                Err(_) => looks_direct(input_url@) && items@[0].suggested_title is None
                    && opt_string_view(items@[0].extractor) == Some("direct-url"@)
                    && items@[0].source@ == "direct-media-url"@,
            }),
            Err(e) => probe is Err && !looks_direct(input_url@) && e@ == unresolvable_text(),
        },
{
    let mut items: Vec<MediaResolution> = Vec::new();
    match probe {
        Ok(m) => {
            items.push(
                MediaResolution {
                    download_url: String::from_str(input_url),
                    suggested_title: m.title,
                    extractor: m.extractor,
                    source: String::from_str("yt-dlp-probe"),
                },
            );
            Ok(items)
        },
        Err(_) => {
            if looks_like_direct_media_url(input_url) {
                items.push(
                    MediaResolution {
                        download_url: String::from_str(input_url),
                        suggested_title: None,
                        extractor: Some(String::from_str("direct-url")),
                        source: String::from_str("direct-media-url"),
                    },
                );
                Ok(items)
            } else {
                Err(
                    String::from_str(
                        "yt-dlp could not resolve the provided URL and it does not look like a direct media asset",
                    ),
                )
            }
        },
    }
}

/// The profile a download uses: the first one called `name`, else the first
/// configured one, else the built-in Dalet profile.
pub open spec fn chosen_profile(profiles: Seq<ProfileView>, name: Seq<char>) -> ProfileView {
    if exists|i: int| 0 <= i < profiles.len() && profiles[i].name == name {
        let i = choose|i: int|
            0 <= i < profiles.len() && profiles[i].name == name && forall|j: int|
                0 <= j < i ==> #[trigger] profiles[j].name != name;
        profiles[i]
    } else if profiles.len() > 0 {
        profiles[0]
    } else {
        dalet_profile()
    }
}

pub fn select_profile(profiles: &Vec<EncodingProfile>, name: &str) -> (r: EncodingProfile)
    ensures
        r@ == chosen_profile(profile_views(profiles@), name@),
{
    let ghost ps = profile_views(profiles@);
    let n = String::from_str(name);
    let mut i: usize = 0;
    while i < profiles.len()
        invariant
            i <= profiles.len(),
            n@ == name@,
            ps == profile_views(profiles@),
            forall|j: int| 0 <= j < i ==> #[trigger] ps[j].name != name@,
        decreases profiles.len() - i,
    {
        if profiles[i].name == n {
            proof {
                assert(ps[i as int].name == name@);
                let k = choose|k: int|
                    0 <= k < ps.len() && ps[k].name == name@ && forall|j: int|
                        0 <= j < k ==> #[trigger] ps[j].name != name@;
                if k < i {
                    assert(ps[k].name != name@);
                }
                if k > i {
                    assert(ps[i as int].name != name@);
                }
            }
            return profiles[i].clone();
        }
        i = i + 1;
    }
    if profiles.len() > 0 {
        profiles[0].clone()
    } else {
        default_profile()
    }
}

/// A directory entry: its path and whether it is a regular file.
pub struct DirEntryFacts {
    pub path: String,
    pub is_file: bool,
}

/// A finished download (not a `.part` or `.ytdl` leftover of yt-dlp).
pub open spec fn is_finished_download(p: Platform, e: DirEntryFacts) -> bool {
    e.is_file && path_extension(p, e.path@) != Some("part"@) && path_extension(p, e.path@) != Some(
        "ytdl"@,
    )
}

/// The first entry, in listing order, that is a finished download.
pub fn select_downloaded_file(p: Platform, entries: &Vec<DirEntryFacts>) -> (r: Option<String>)
    ensures
        match r {
            Some(path) => exists|i: int|
                0 <= i < entries@.len() && is_finished_download(p, #[trigger] entries@[i])
                    && entries@[i].path@ == path@ && forall|j: int|
                    0 <= j < i ==> !is_finished_download(p, #[trigger] entries@[j]),
            None => forall|i: int|
                0 <= i < entries@.len() ==> !is_finished_download(p, #[trigger] entries@[i]),
        },
{
    let part = chars_of("part");
    let ytdl = chars_of("ytdl");
    let mut i: usize = 0;
    while i < entries.len()
        invariant
            i <= entries.len(),
            part@ == "part"@,
            ytdl@ == "ytdl"@,
            forall|j: int| 0 <= j < i ==> !is_finished_download(p, #[trigger] entries@[j]),
        decreases entries.len() - i,
    {
        let e = &entries[i];
        if e.is_file {
            let ext = path_extension_chars(p, &chars_of(e.path.as_str()));
            let leftover = match &ext {
                Some(x) => vec_eq(x, &part) || vec_eq(x, &ytdl),
                None => false,
            };
            if !leftover {
                assert(is_finished_download(p, entries@[i as int]));
                return Some(e.path.clone());
            }
        }
        i = i + 1;
    }
    None
}

fn vec_eq(a: &Vec<char>, b: &Vec<char>) -> (r: bool)
    ensures
        r == (a@ == b@),
{
    if a.len() != b.len() {
        return false;
    }
    let mut k: usize = 0;
    while k < a.len()
        invariant
            a.len() == b.len(),
            k <= a.len(),
            forall|j: int| 0 <= j < k ==> a@[j] == b@[j],
        decreases a.len() - k,
    {
        if a[k] != b[k] {
            return false;
        }
        k = k + 1;
    }
    assert(a@ =~= b@);
    true
}


/// Adds the log line for `seg` when it holds more than whitespace:
/// `prefix`, a space, and `seg` trimmed.
pub open spec fn note_line(prefix: Seq<char>, acc: Seq<Seq<char>>, seg: Seq<char>) -> Seq<Seq<char>> {
    if trim(seg).len() > 0 {
        acc.push(prefix + seq![' '] + trim(seg))
    } else {
        acc
    }
}

/// The log lines for the lines of `rest` (with `seg` the line being read).
pub open spec fn lines_from(prefix: Seq<char>, acc: Seq<Seq<char>>, seg: Seq<char>, rest: Seq<char>) -> Seq<Seq<char>>
    decreases rest.len(),
{
    if rest.len() == 0 {
        note_line(prefix, acc, seg)
    } else if rest[0] == '\n' {
        lines_from(prefix, note_line(prefix, acc, seg), Seq::<char>::empty(), rest.drop_first())
    } else {
        lines_from(prefix, acc, seg.push(rest[0]), rest.drop_first())
    }
}

/// One log line per non-blank line of `text`: `prefix`, a space, and the
/// trimmed line.
pub open spec fn output_log_lines(prefix: Seq<char>, text: Seq<char>) -> Seq<Seq<char>> {
    lines_from(prefix, Seq::<Seq<char>>::empty(), Seq::<char>::empty(), text)
}

fn push_note_line(out: &mut Vec<String>, prefix: &str, seg: &Vec<char>)
    ensures
        string_views(final(out)@) == note_line(prefix@, string_views(old(out)@), seg@),
{
    let t = trim_chars(seg);
    if t.len() > 0 {
        let mut line = chars_of(prefix);
        line.push(' ');
        push_chars(&mut line, &t);
        assert(line@ =~= prefix@ + seq![' '] + t@);
        let ghost old_out = out@;
        let text = string_from_chars(&line);
        out.push(text);
        assert(out@ == old_out.push(text));
        assert(string_views(out@) =~= string_views(old_out).push(prefix@ + seq![' '] + t@));
    }
}

fn push_output_lines(out: &mut Vec<String>, prefix: &str, text: &str)
    ensures
        string_views(final(out)@) == lines_from(prefix@, string_views(old(out)@), Seq::<char>::empty(), text@),
{
    let v = chars_of(text);
    let mut seg: Vec<char> = Vec::new();
    let mut i: usize = 0;
    assert(v@.skip(0) =~= v@);
    while i < v.len()
        invariant
            i <= v.len(),
            v@ == text@,
            lines_from(prefix@, string_views(old(out)@), Seq::<char>::empty(), text@) == lines_from(
                prefix@,
                string_views(out@),
                seg@,
                v@.skip(i as int),
            ),
        decreases v.len() - i,
    {
        let c = v[i];
        proof {
            let rest = v@.skip(i as int);
            assert(rest[0] == c);
            assert(rest.drop_first() =~= v@.skip(i + 1));
        }
        if c == '\n' {
            push_note_line(out, prefix, &seg);
            seg = Vec::new();
            assert(seg@ =~= Seq::<char>::empty());
        } else {
            seg.push(c);
        }
        i = i + 1;
    }
    assert(v@.skip(v.len() as int) =~= Seq::<char>::empty());
    push_note_line(out, prefix, &seg);
}

/// The log lines for a finished command: those of its standard output, then
/// those of its error output.
pub fn log_command_output(prefix: &str, stdout: &str, stderr: &str) -> (r: Vec<String>)
    ensures
        string_views(r@) == output_log_lines(prefix@, stdout@) + output_log_lines(prefix@, stderr@),
{
    let mut out: Vec<String> = Vec::new();
    assert(string_views(out@) =~= Seq::<Seq<char>>::empty());
    push_output_lines(&mut out, prefix, stdout);
    let ghost first = string_views(out@);
    push_output_lines(&mut out, prefix, stderr);
    proof {
        lemma_lines_from_acc(prefix@, first, Seq::<char>::empty(), stderr@);
        assert(first + Seq::<Seq<char>>::empty() =~= first);
    }
    out
}

/// `lines_from` only appends to what it starts with.
pub proof fn lemma_lines_from_acc(prefix: Seq<char>, acc: Seq<Seq<char>>, seg: Seq<char>, rest: Seq<char>)
    ensures
        lines_from(prefix, acc, seg, rest) == acc + lines_from(prefix, Seq::<Seq<char>>::empty(), seg, rest),
    decreases rest.len(),
{
    let e = Seq::<Seq<char>>::empty();
    assert(acc + e =~= acc);
    if rest.len() == 0 {
        if trim(seg).len() > 0 {
            assert(acc.push(prefix + seq![' '] + trim(seg)) =~= acc + e.push(prefix + seq![' '] + trim(seg)));
        }
    } else if rest[0] == '\n' {
        lemma_lines_from_acc(prefix, note_line(prefix, acc, seg), Seq::<char>::empty(), rest.drop_first());
        lemma_lines_from_acc(prefix, note_line(prefix, e, seg), Seq::<char>::empty(), rest.drop_first());
        if trim(seg).len() > 0 {
            assert(acc.push(prefix + seq![' '] + trim(seg)) =~= acc + e.push(prefix + seq![' '] + trim(seg)));
        }
        let x = lines_from(prefix, e, Seq::<char>::empty(), rest.drop_first());
        assert(note_line(prefix, acc, seg) + x =~= acc + (note_line(prefix, e, seg) + x));
    } else {
        lemma_lines_from_acc(prefix, acc, seg.push(rest[0]), rest.drop_first());
        lemma_lines_from_acc(prefix, e, seg.push(rest[0]), rest.drop_first());
    }
}

/// A character of the base32hex alphabet used by xid (`0-9`, `a-v`).
pub open spec fn is_base32hex(c: char) -> bool {
    ('0' <= c && c <= '9') || ('a' <= c && c <= 'v')
}

/// `xid::new()`, rendered with `to_string()`: a fresh globally unique id.
/// The crate documents the text as 20 characters of its base32hex alphabet;
/// which id comes back depends on the clock, the machine and a counter, so
/// nothing more is stated. `xid::new` panics only if the system clock reads
/// earlier than 1970.
#[verifier::external_body]
fn new_job_id() -> (id: String)
    ensures
        id@.len() == 20,
        forall|i: int| 0 <= i < 20 ==> is_base32hex(#[trigger] id@[i]),
{
    xid::new().to_string()
}

/// Where a download-and-transcode run stands.
#[derive(Clone, Copy, PartialEq, Eq, Debug, Structural)]
pub enum IngestStage {
    Downloading,
    Locating,
    Archiving,
    Transcoding,
    Finished,
    Failed,
}

/// What the caller must do next.
pub enum IngestAction {
    /// Create `work_dir`, then run `program` with `args`.
    Download { work_dir: String, program: String, args: Vec<String> },
    /// List the entries of `work_dir`.
    Locate { work_dir: String },
    /// Copy `source` to `destination` (a failure is only reported).
    Archive { source: String, destination: String },
    /// Run `program` with `args`; once it ran, remove `downloaded` and
    /// `work_dir`.
    Transcode { program: String, args: Vec<String>, downloaded: String, work_dir: String },
    /// The run is over; these files were exported.
    Complete(DownloadExecution),
    /// The run failed with `message`; remove `cleanup` when given.
    Fail { message: String, cleanup: Option<String> },
}

/// The text an `IngestAction` carries.
pub enum IngestActionView {
    Download(Seq<char>, Seq<char>, Seq<Seq<char>>),
    Locate(Seq<char>),
    Archive(Seq<char>, Seq<char>),
    Transcode(Seq<char>, Seq<Seq<char>>, Seq<char>, Seq<char>),
    Complete(Seq<Seq<char>>),
    Fail(Seq<char>, Option<Seq<char>>),
}

impl View for IngestAction {
    type V = IngestActionView;

    open spec fn view(&self) -> IngestActionView {
        match self {
            IngestAction::Download { work_dir, program, args } => IngestActionView::Download(
                work_dir@,
                program@,
                string_views(args@),
            ),
            IngestAction::Locate { work_dir } => IngestActionView::Locate(work_dir@),
            IngestAction::Archive { source, destination } => IngestActionView::Archive(
                source@,
                destination@,
            ),
            IngestAction::Transcode { program, args, downloaded, work_dir } => IngestActionView::Transcode(
                program@,
                string_views(args@),
                downloaded@,
                work_dir@,
            ),
            IngestAction::Complete(e) => IngestActionView::Complete(string_views(e.exported_files@)),
            IngestAction::Fail { message, cleanup } => IngestActionView::Fail(
                message@,
                opt_string_view(*cleanup),
            ),
        }
    }
}

/// The outcome of the last action.
pub enum IngestEvent {
    /// The command ran and exited, successfully or not.
    Exited { success: bool },
    /// The entries of the working directory, in listing order.
    Listed(Vec<DirEntryFacts>),
    /// The copy to retention storage was attempted.
    Archived,
    /// The action could not be carried out, for this reason.
    Aborted(String),
}

/// A download-and-transcode run over the resolved media items.
pub struct IngestJob {
    pub platform: Platform,
    pub job_id: String,
    pub target_filename: String,
    pub profile: EncodingProfile,
    pub binaries: RuntimeBinaries,
    pub output_dir: String,
    pub retention_dir: String,
    pub temp_dir: String,
    pub items: Vec<MediaResolution>,
    pub index: usize,
    pub stage: IngestStage,
    pub current_download: String,
    pub current_output: String,
    pub exported: Vec<String>,
}

/// The first finished download among the entries, in listing order.
pub open spec fn first_finished(p: Platform, entries: Seq<DirEntryFacts>) -> Option<Seq<char>> {
    if exists|i: int| 0 <= i < entries.len() && is_finished_download(p, entries[i]) {
        let i = choose|i: int|
            0 <= i < entries.len() && is_finished_download(p, entries[i]) && forall|j: int|
                0 <= j < i ==> !is_finished_download(p, #[trigger] entries[j]);
        Some(entries[i].path@)
    } else {
        None
    }
}

pub open spec fn item_label(i: int) -> Seq<char> {
    decimal((i + 1) as nat)
}

impl IngestJob {
    /// The working directory of item `i`:
    /// `<temp>/omni-downloader/<job id>/item-NN`.
    pub open spec fn work_dir(&self, i: int) -> Seq<char> {
        let p = self.platform;
        path_push(
            p,
            path_push(p, path_push(p, self.temp_dir@, "omni-downloader"@), self.job_id@),
            "item-"@ + zero_padded(decimal((i + 1) as nat), 2),
        )
    }

    /// The yt-dlp arguments that download item `i` into its working directory.
    pub open spec fn download_args(&self, i: int) -> Seq<Seq<char>> {
        seq![
            "--no-playlist"@,
            "--newline"@,
            "-o"@,
            path_push(self.platform, self.work_dir(i), "downloaded.%(ext)s"@),
            self.items@[i].download_url@,
        ]
    }

    /// The stem of item `i`'s exported file.
    pub open spec fn stem(&self, i: int) -> Seq<char> {
        output_stem(
            self.target_filename@,
            opt_string_view(self.items@[i].suggested_title),
            self.job_id@,
            i as nat,
            self.items@.len(),
        )
    }

    /// The exported file of item `i`.
    pub open spec fn planned_output(&self, i: int) -> Seq<char> {
        path_push(
            self.platform,
            self.output_dir@,
            with_profile_extension(self.stem(i), self.profile@.extension),
        )
    }

    /// The exported files of all items, in order.
    pub open spec fn planned_outputs(&self) -> Seq<Seq<char>> {
        Seq::new(self.items@.len(), |i: int| self.planned_output(i))
    }

    /// Where the original download of item `i` is kept.
    pub open spec fn retention_target(&self, i: int, downloaded: Seq<char>) -> Seq<char> {
        path_push(
            self.platform,
            self.retention_dir@,
            retention_filename(self.stem(i), path_extension(self.platform, downloaded)),
        )
    }

    /// The ffmpeg arguments that transcode `downloaded` into `output`.
    pub open spec fn transcode_args(&self, downloaded: Seq<char>, output: Seq<char>) -> Seq<Seq<char>> {
        seq!["-y"@, "-i"@, downloaded] + self.profile@.ffmpeg_args + seq![output]
    }

    /// The run's bookkeeping holds: items before `index` are exported, in
    /// order, to their planned files.
    pub open spec fn wf(&self) -> bool {
        &&& self.index <= self.items@.len()
        &&& self.exported@.len() == self.index
        &&& forall|j: int|
            0 <= j < self.index ==> #[trigger] self.exported@[j]@ == self.planned_output(j)
        &&& (self.stage == IngestStage::Finished ==> self.index == self.items@.len())
        &&& (self.stage != IngestStage::Finished && self.stage != IngestStage::Failed
            ==> self.index < self.items@.len())
        &&& ((self.stage == IngestStage::Archiving || self.stage == IngestStage::Transcoding)
            ==> self.current_output@ == self.planned_output(self.index as int))
    }

    /// The events the run accepts in its current stage.
    pub open spec fn accepts_event(&self, event: IngestEvent) -> bool {
        match self.stage {
            IngestStage::Downloading | IngestStage::Transcoding => event is Exited || event is Aborted,
            IngestStage::Locating => event is Listed || event is Aborted,
            IngestStage::Archiving => event is Archived,
            _ => false,
        }
    }

    /// The same run parameters.
    pub open spec fn same_plan(&self, other: &IngestJob) -> bool {
        &&& self.platform == other.platform
        &&& self.job_id@ == other.job_id@
        &&& self.target_filename@ == other.target_filename@
        &&& self.profile@ == other.profile@
        &&& self.binaries.yt_dlp@ == other.binaries.yt_dlp@
        &&& self.binaries.ffmpeg@ == other.binaries.ffmpeg@
        &&& self.output_dir@ == other.output_dir@
        &&& self.retention_dir@ == other.retention_dir@
        &&& self.temp_dir@ == other.temp_dir@
        &&& self.items == other.items
    }
}


impl IngestJob {
    /// The next stage and action after `event`.
    pub open spec fn expected_step(&self, event: IngestEvent) -> (IngestStage, IngestActionView) {
        let i = self.index as int;
        let p = self.platform;
        match self.stage {
            IngestStage::Downloading => match event {
                IngestEvent::Exited { success } => if success {
                    (IngestStage::Locating, IngestActionView::Locate(self.work_dir(i)))
                } else {
                    (
                        IngestStage::Failed,
                        IngestActionView::Fail(
                            "yt-dlp download failed for item "@ + item_label(i),
                            Some(self.work_dir(i)),
                        ),
                    )
                },
                IngestEvent::Aborted(m) => (IngestStage::Failed, IngestActionView::Fail(m@, None)),
                _ => (self.stage, IngestActionView::Fail(Seq::<char>::empty(), None)),
            },
            IngestStage::Locating => match event {
                IngestEvent::Listed(entries) => match first_finished(p, entries@) {
                    Some(f) => (
                        IngestStage::Archiving,
                        IngestActionView::Archive(f, self.retention_target(i, f)),
                    ),
                    None => (
                        IngestStage::Failed,
                        IngestActionView::Fail("Downloaded file not found"@, None),
                    ),
                },
                IngestEvent::Aborted(m) => (IngestStage::Failed, IngestActionView::Fail(m@, None)),
                _ => (self.stage, IngestActionView::Fail(Seq::<char>::empty(), None)),
            },
            IngestStage::Archiving => (
                IngestStage::Transcoding,
                IngestActionView::Transcode(
                    self.binaries.ffmpeg@,
                    self.transcode_args(self.current_download@, self.current_output@),
                    self.current_download@,
                    self.work_dir(i),
                ),
            ),
            IngestStage::Transcoding => match event {
                IngestEvent::Exited { success } => if !success {
                    (
                        IngestStage::Failed,
                        IngestActionView::Fail("FFmpeg transcoding failed for item "@ + item_label(i), None),
                    )
                } else if i + 1 < self.items@.len() {
                    (
                        IngestStage::Downloading,
                        IngestActionView::Download(
                            self.work_dir(i + 1),
                            self.binaries.yt_dlp@,
                            self.download_args(i + 1),
                        ),
                    )
                } else {
                    (
                        IngestStage::Finished,
                        IngestActionView::Complete(
                            string_views(self.exported@).push(self.current_output@),
                        ),
                    )
                },
                IngestEvent::Aborted(m) => (IngestStage::Failed, IngestActionView::Fail(m@, None)),
                _ => (self.stage, IngestActionView::Fail(Seq::<char>::empty(), None)),
            },
            _ => (self.stage, IngestActionView::Fail(Seq::<char>::empty(), None)),
        }
    }

    /// The item index after `event`: one further once an item's transcode
    /// succeeded.
    pub open spec fn expected_index(&self, event: IngestEvent) -> int {
        if self.stage == IngestStage::Transcoding && event == (IngestEvent::Exited { success: true }) {
            self.index + 1
        } else {
            self.index as int
        }
    }

    fn work_dir_exec(&self, i: usize) -> (r: String)
        requires
            i < self.items@.len(),
        ensures
            r@ == self.work_dir(i as int),
    {
        let p = self.platform;
        let a = join_path(p, self.temp_dir.as_str(), "omni-downloader");
        let b = join_path(p, a.as_str(), self.job_id.as_str());
        let mut name: Vec<char> = Vec::new();
        push_str_chars(&mut name, "item-");
        let n_items = self.items.len();
        assert(i < n_items);
        push_decimal_padded(&mut name, i as u64 + 1, 2);
        let n = string_from_chars(&name);
        join_path(p, b.as_str(), n.as_str())
    }

    fn download_action(&self, i: usize) -> (r: IngestAction)
        requires
            i < self.items@.len(),
        ensures
            r@ == IngestActionView::Download(
                self.work_dir(i as int),
                self.binaries.yt_dlp@,
                self.download_args(i as int),
            ),
    {
        let work_dir = self.work_dir_exec(i);
        let template = join_path(self.platform, work_dir.as_str(), "downloaded.%(ext)s");
        let mut args: Vec<String> = Vec::new();
        args.push(String::from_str("--no-playlist"));
        args.push(String::from_str("--newline"));
        args.push(String::from_str("-o"));
        args.push(template);
        args.push(self.items[i].download_url.clone());
        assert(string_views(args@) =~= self.download_args(i as int));
        IngestAction::Download { work_dir, program: self.binaries.yt_dlp.clone(), args }
    }

    fn stem_exec(&self, i: usize) -> (r: String)
        requires
            i < self.items@.len(),
        ensures
            r@ == self.stem(i as int),
    {
        let title: Option<&str> = match &self.items[i].suggested_title {
            Some(t) => Some(t.as_str()),
            None => None,
        };
        build_output_stem(
            self.target_filename.as_str(),
            title,
            self.job_id.as_str(),
            i,
            self.items.len(),
        )
    }

    fn planned_output_exec(&self, i: usize) -> (r: String)
        requires
            i < self.items@.len(),
        ensures
            r@ == self.planned_output(i as int),
    {
        let stem = self.stem_exec(i);
        let name = ensure_profile_extension(stem.as_str(), self.profile.extension.as_str());
        join_path(self.platform, self.output_dir.as_str(), name.as_str())
    }

    fn retention_target_exec(&self, i: usize, downloaded: &str) -> (r: String)
        requires
            i < self.items@.len(),
        ensures
            r@ == self.retention_target(i as int, downloaded@),
    {
        let stem = self.stem_exec(i);
        let ext = path_extension_chars(self.platform, &chars_of(downloaded));
        let name = match ext {
            Some(e) => {
                let es = string_from_chars(&e);
                build_retention_filename(stem.as_str(), Some(es.as_str()))
            },
            None => build_retention_filename(stem.as_str(), None),
        };
        join_path(self.platform, self.retention_dir.as_str(), name.as_str())
    }

    fn transcode_args_exec(&self) -> (r: Vec<String>)
        ensures
            string_views(r@) == self.transcode_args(self.current_download@, self.current_output@),
    {
        let mut args: Vec<String> = Vec::new();
        args.push(String::from_str("-y"));
        args.push(String::from_str("-i"));
        args.push(self.current_download.clone());
        let mut k: usize = 0;
        let ghost head = string_views(args@);
        assert(head =~= seq!["-y"@, "-i"@, self.current_download@]);
        while k < self.profile.ffmpeg_args.len()
            invariant
                k <= self.profile.ffmpeg_args.len(),
                head.len() == 3,
                args@.len() == 3 + k,
                string_views(args@) == head + string_views(self.profile.ffmpeg_args@).take(k as int),
            decreases self.profile.ffmpeg_args.len() - k,
        {
            let ghost before = args@;
            let ghost fa = string_views(self.profile.ffmpeg_args@);
            let a = self.profile.ffmpeg_args[k].clone();
            args.push(a);
            proof {
                assert(args@ == before.push(a));
                assert(a@ == fa[k as int]);
                let lhs = string_views(args@);
                let rhs = head + fa.take(k + 1);
                assert(lhs.len() == rhs.len());
                assert forall|j: int| 0 <= j < lhs.len() implies lhs[j] == rhs[j] by {
                    if j < 3 + k {
                        assert(lhs[j] == string_views(before)[j]);
                    } else {
                        assert(lhs[j] == a@);
                    }
                }
                assert(lhs =~= rhs);
            }
            k = k + 1;
        }
        assert(string_views(self.profile.ffmpeg_args@).take(k as int) =~= string_views(self.profile.ffmpeg_args@));
        let ghost before = args@;
        let out = self.current_output.clone();
        args.push(out);
        assert(args@ == before.push(out));
        assert(string_views(args@) =~= self.transcode_args(self.current_download@, self.current_output@));
        args
    }

    /// Starts a run over the resolved media items with a fresh job id, the
    /// profile chosen by `profile_name`, and the configured output and
    /// retention directories; the first action downloads the first item.
    pub fn start(
        platform: Platform,
        config: &crate::config::AppConfig,
        profile_name: &str,
        target_filename: &str,
        binaries: RuntimeBinaries,
        temp_dir: &str,
        items: Vec<MediaResolution>,
    ) -> (r: (IngestJob, IngestAction))
        ensures
            r.0.wf(),
            r.0.platform == platform,
            r.0.job_id@.len() == 20,
            r.0.target_filename@ == target_filename@,
            r.0.profile@ == chosen_profile(profile_views(config.profiles@), profile_name@),
            r.0.binaries == binaries,
            r.0.output_dir@ == config.output_path@,
            r.0.retention_dir@ == config.nas_retention_path@,
            r.0.temp_dir@ == temp_dir@,
            r.0.items == items,
            r.0.index == 0,
            items@.len() == 0 ==> r.0.stage == IngestStage::Finished && r.1@
                == IngestActionView::Complete(Seq::<Seq<char>>::empty()),
            items@.len() > 0 ==> r.0.stage == IngestStage::Downloading && r.1@
                == IngestActionView::Download(
                r.0.work_dir(0),
                binaries.yt_dlp@,
                r.0.download_args(0),
            ),
    {
        let job = IngestJob {
            platform,
            job_id: new_job_id(),
            target_filename: String::from_str(target_filename),
            profile: select_profile(&config.profiles, profile_name),
            binaries,
            output_dir: config.output_path.clone(),
            retention_dir: config.nas_retention_path.clone(),
            temp_dir: String::from_str(temp_dir),
            items,
            index: 0,
            stage: IngestStage::Downloading,
            current_download: String::new(),
            current_output: String::new(),
            exported: Vec::new(),
        };
        if job.items.len() == 0 {
            let mut done = job;
            done.stage = IngestStage::Finished;
            let files: Vec<String> = Vec::new();
            assert(string_views(files@) =~= Seq::<Seq<char>>::empty());
            (done, IngestAction::Complete(DownloadExecution { exported_files: files }))
        } else {
            let action = job.download_action(0);
            (job, action)
        }
    }

    /// Whether the run waits for `event`.
    pub fn accepts(&self, event: &IngestEvent) -> (r: bool)
        ensures
            r == self.accepts_event(*event),
    {
        match self.stage {
            IngestStage::Downloading | IngestStage::Transcoding => match event {
                IngestEvent::Exited { .. } | IngestEvent::Aborted(_) => true,
                _ => false,
            },
            IngestStage::Locating => match event {
                IngestEvent::Listed(_) | IngestEvent::Aborted(_) => true,
                _ => false,
            },
            IngestStage::Archiving => match event {
                IngestEvent::Archived => true,
                _ => false,
            },
            _ => false,
        }
    }

    fn failure_text(prefix: &str, i: usize) -> (r: String)
        requires
            i < usize::MAX,
        ensures
            r@ == prefix@ + item_label(i as int),
    {
        let mut m = chars_of(prefix);
        push_decimal(&mut m, i as u64 + 1);
        string_from_chars(&m)
    }

    /// Takes the outcome of the last action and returns the next one.
    pub fn advance(&mut self, event: IngestEvent) -> (action: IngestAction)
        requires
            old(self).wf(),
            old(self).accepts_event(event),
        ensures
            final(self).wf(),
            final(self).same_plan(&*old(self)),
            (final(self).stage, action@) == old(self).expected_step(event),
            final(self).index == old(self).expected_index(event),
            old(self).stage == IngestStage::Locating && final(self).stage == IngestStage::Archiving
                ==> Some(final(self).current_download@) == first_finished(
                old(self).platform,
                event->Listed_0@,
            ),
    {
        let i = self.index;
        let n_items = self.items.len();
        assert(self.stage != IngestStage::Finished && self.stage != IngestStage::Failed);
        assert(i < n_items);
        match self.stage {
            IngestStage::Downloading => match event {
                IngestEvent::Exited { success } => {
                    let work_dir = self.work_dir_exec(i);
                    if success {
                        self.stage = IngestStage::Locating;
                        IngestAction::Locate { work_dir }
                    } else {
                        self.stage = IngestStage::Failed;
                        IngestAction::Fail {
                            message: Self::failure_text("yt-dlp download failed for item ", i),
                            cleanup: Some(work_dir),
                        }
                    }
                },
                IngestEvent::Aborted(m) => {
                    self.stage = IngestStage::Failed;
                    IngestAction::Fail { message: m, cleanup: None }
                },
                _ => {
                    assert(false);
                    IngestAction::Fail { message: String::new(), cleanup: None }
                },
            },
            IngestStage::Locating => match event {
                IngestEvent::Listed(entries) => {
                    match select_downloaded_file(self.platform, &entries) {
                        Some(f) => {
                            proof {
                                let es = entries@;
                                let p = self.platform;
                                let k = choose|k: int|
                                    0 <= k < es.len() && is_finished_download(p, es[k]) && forall|j: int|
                                        0 <= j < k ==> !is_finished_download(p, #[trigger] es[j]);
                                let w = choose|w: int|
                                    0 <= w < es.len() && is_finished_download(p, #[trigger] es[w])
                                        && es[w].path@ == f@ && forall|j: int|
                                        0 <= j < w ==> !is_finished_download(p, #[trigger] es[j]);
                                if k < w {
                                    assert(!is_finished_download(p, es[k]));
                                }
                                if w < k {
                                    assert(!is_finished_download(p, es[w]));
                                }
                            }
                            let destination = self.retention_target_exec(i, f.as_str());
                            self.current_output = self.planned_output_exec(i);
                            self.current_download = f.clone();
                            self.stage = IngestStage::Archiving;
                            IngestAction::Archive { source: f, destination }
                        },
                        None => {
                            self.stage = IngestStage::Failed;
                            IngestAction::Fail {
                                message: String::from_str("Downloaded file not found"),
                                cleanup: None,
                            }
                        },
                    }
                },
                IngestEvent::Aborted(m) => {
                    self.stage = IngestStage::Failed;
                    IngestAction::Fail { message: m, cleanup: None }
                },
                _ => {
                    assert(false);
                    IngestAction::Fail { message: String::new(), cleanup: None }
                },
            },
            IngestStage::Archiving => {
                let args = self.transcode_args_exec();
                let work_dir = self.work_dir_exec(i);
                self.stage = IngestStage::Transcoding;
                IngestAction::Transcode {
                    program: self.binaries.ffmpeg.clone(),
                    args,
                    downloaded: self.current_download.clone(),
                    work_dir,
                }
            },
            IngestStage::Transcoding => match event {
                IngestEvent::Exited { success } => {
                    if !success {
                        self.stage = IngestStage::Failed;
                        IngestAction::Fail {
                            message: Self::failure_text("FFmpeg transcoding failed for item ", i),
                            cleanup: None,
                        }
                    } else {
                        let ghost before = self.exported@;
                        let out = self.current_output.clone();
                        self.exported.push(out);
                        self.index = i + 1;
                        proof {
                            assert(self.exported@ == before.push(out));
                            assert(string_views(self.exported@) =~= string_views(before).push(
                                out@,
                            ));
                        }
                        if i + 1 < self.items.len() {
                            self.stage = IngestStage::Downloading;
                            self.download_action(i + 1)
                        } else {
                            self.stage = IngestStage::Finished;
                            let files = clone_strings(&self.exported);
                            IngestAction::Complete(DownloadExecution { exported_files: files })
                        }
                    }
                },
                IngestEvent::Aborted(m) => {
                    self.stage = IngestStage::Failed;
                    IngestAction::Fail { message: m, cleanup: None }
                },
                _ => {
                    assert(false);
                    IngestAction::Fail { message: String::new(), cleanup: None }
                },
            },
            _ => {
                assert(false);
                IngestAction::Fail { message: String::new(), cleanup: None }
            },
        }
    }
}

/// A run that completes exports every item exactly once, in order, to its
/// planned file.
pub proof fn law_completion_exports_every_item(job: IngestJob, event: IngestEvent)
    requires
        job.wf(),
        job.accepts_event(event),
        job.expected_step(event).1 is Complete,
    ensures
        job.expected_step(event).1 == IngestActionView::Complete(job.planned_outputs()),
{
    let files = string_views(job.exported@).push(job.current_output@);
    assert(files =~= job.planned_outputs());
}

/// The position of a stage within the work on one item.
pub open spec fn ingest_rank(stage: IngestStage) -> int {
    match stage {
        IngestStage::Downloading => 0,
        IngestStage::Locating => 1,
        IngestStage::Archiving => 2,
        IngestStage::Transcoding => 3,
        IngestStage::Finished => 4,
        IngestStage::Failed => 4,
    }
}

/// How far a run has come: four steps per finished item plus the steps of
/// the current one.
pub open spec fn ingest_progress(index: int, stage: IngestStage) -> int {
    4 * index + ingest_rank(stage)
}

/// Every accepted event moves a run strictly forward and never past
/// `4 * items + 4`, so a run over `n` items ends after at most `4 * n + 4`
/// actions.
pub proof fn law_run_moves_forward(job: IngestJob, event: IngestEvent)
    requires
        job.wf(),
        job.accepts_event(event),
    ensures
        ingest_progress(job.expected_index(event), job.expected_step(event).0) > ingest_progress(
            job.index as int,
            job.stage,
        ),
        ingest_progress(job.expected_index(event), job.expected_step(event).0) <= 4
            * job.items@.len() + 4,
{
}

/// When the caller names the exported file, no two items of a run are
/// exported to the same file.
pub proof fn law_named_run_outputs_distinct(job: IngestJob, i: int, j: int)
    requires
        trim(job.target_filename@).len() > 0,
        0 <= i < job.items@.len(),
        0 <= j < job.items@.len(),
        i != j,
    ensures
        job.planned_output(i) != job.planned_output(j),
{
    let n = job.items@.len();
    law_named_batch_names_distinct(
        job.target_filename@,
        opt_string_view(job.items@[i].suggested_title),
        opt_string_view(job.items@[j].suggested_title),
        job.job_id@,
        i as nat,
        j as nat,
        n,
        job.profile@.extension,
    );
    let a = with_profile_extension(job.stem(i), job.profile@.extension);
    let b = with_profile_extension(job.stem(j), job.profile@.extension);
    let dir = job.output_dir@;
    let p = job.platform;
    let prefix = if dir.len() == 0 || is_sep(p, dir.last()) || (starts_with_drive(p, dir) && dir.len() == 2) {
        dir
    } else {
        dir.push(main_sep(p))
    };
    assert(path_push(p, dir, a) == prefix + a);
    assert(path_push(p, dir, b) == prefix + b);
    assert((prefix + a).skip(prefix.len() as int) =~= a);
    assert((prefix + b).skip(prefix.len() as int) =~= b);
}

/// Each item is transcoded only right after its original was handed to
/// retention storage, and that hand-over only follows a successful lookup
/// of the downloaded file.
pub proof fn law_transcode_follows_archive(job: IngestJob, event: IngestEvent)
    requires
        job.wf(),
        job.accepts_event(event),
    ensures
        job.expected_step(event).0 == IngestStage::Transcoding ==> job.stage == IngestStage::Archiving,
        job.expected_step(event).0 == IngestStage::Archiving ==> job.stage == IngestStage::Locating
            && job.expected_step(event).1 is Archive && event is Listed,
{
}

/// The profile a run uses: the first one called `name` when the
/// configuration has one; otherwise the first configured profile; only a
/// configuration without profiles falls back to the built-in Dalet profile.
pub proof fn law_profile_choice(ps: Seq<ProfileView>, name: Seq<char>)
    ensures
        (exists|i: int| 0 <= i < ps.len() && ps[i].name == name) ==> (exists|i: int|
            0 <= i < ps.len() && chosen_profile(ps, name) == ps[i] && ps[i].name == name
                && forall|j: int| 0 <= j < i ==> #[trigger] ps[j].name != name),
        (forall|i: int| 0 <= i < ps.len() ==> #[trigger] ps[i].name != name) && ps.len() > 0
            ==> chosen_profile(ps, name) == ps[0],
        ps.len() == 0 ==> chosen_profile(ps, name).name == "Dalet XDCAM 50Mbps"@
            && chosen_profile(ps, name).extension == "mxf"@,
{
    if exists|i: int| 0 <= i < ps.len() && ps[i].name == name {
        let w = choose|i: int| 0 <= i < ps.len() && ps[i].name == name;
        lemma_first_named_exists(ps, name, w);
    }
}

/// When some profile is called `name`, a first one is.
proof fn lemma_first_named_exists(ps: Seq<ProfileView>, name: Seq<char>, w: int)
    requires
        0 <= w < ps.len(),
        ps[w].name == name,
    ensures
        exists|i: int|
            0 <= i < ps.len() && ps[i].name == name && forall|j: int|
                0 <= j < i ==> #[trigger] ps[j].name != name,
    decreases w,
{
    if exists|j: int| 0 <= j < w && ps[j].name == name {
        let j = choose|j: int| 0 <= j < w && ps[j].name == name;
        lemma_first_named_exists(ps, name, j);
    } else {
        assert(forall|j: int| 0 <= j < w ==> #[trigger] ps[j].name != name);
    }
}

} // verus!
