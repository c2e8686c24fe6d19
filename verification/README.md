# omni_downloader

The verified core of Omni Downloader, a newsroom tool that downloads media
with yt-dlp, keeps the original in retention storage and transcodes it with
ffmpeg into a broadcast profile.

`src/` is checked by Verus:

- `text`, `paths`: character-level text operations and file-system paths as
  text, each stated over `Seq<char>`.
- `config`: the configuration, its built-in encoding profiles, the per-host
  default locations and the repairs applied when it is loaded.
- `ingest`: file naming (sanitizing, numbering, extensions, retention names).
- `pipeline`: media resolution and the download-and-transcode run as a state
  machine (`IngestJob`): each call takes the outcome of the last action and
  returns the next one.
- `binaries`: the choice of yt-dlp and ffmpeg executables and the installer
  state machine (`BinaryInstaller`).
- `cleanup`, `logging`: the retention sweep and the log line format.
- `mcp`, `cli`: the decisions of the JSON-RPC tool server and of the worker's
  command line.

`app/` is the worker program: it reads the host, runs the actions the state
machines ask for (processes, files, HTTP, archives) and speaks JSON.
