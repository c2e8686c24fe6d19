//! The decisions of the JSON-RPC tool server: which handler a request goes
//! to, what the tools take from their arguments, how a target name is built,
//! what an article page yields, and the replies. Reading request lines and
//! writing the JSON replies is left to the caller.
use vstd::prelude::*;
use crate::config::AppConfig;
use crate::ingest::{filename_char, is_filename_safe, map_filename_chars};
use crate::pipeline::opt_string_view;
use crate::text::{
    chars_of, collapse_whitespace, collapse_ws, decimal, is_digit, is_ws, joined,
    lemma_collapse_keeps, lemma_decimal_digits, lemma_zero_padded_digits, push_decimal_padded,
    push_joined, push_str_chars, str_eq, string_from_chars, string_views, trim, trim_chars,
    zero_padded,
};

verus! {

/// The handler a request goes to.
#[derive(Clone, Copy, PartialEq, Eq, Debug, Structural)]
pub enum McpRoute {
    Initialize,
    ListTools,
    ExtractArticleMedia,
    DownloadAndIngest,
    ToolNotFound,
    MethodNotFound,
}

pub open spec fn route_of(method: Seq<char>, tool_name: Seq<char>) -> McpRoute {
    if method == "initialize"@ {
        McpRoute::Initialize
    } else if method == "tools/list"@ {
        McpRoute::ListTools
    } else if method == "tools/call"@ {
        if tool_name == "extract_article_media"@ {
            McpRoute::ExtractArticleMedia
        } else if tool_name == "download_and_ingest_dalet"@ {
            McpRoute::DownloadAndIngest
        } else {
            McpRoute::ToolNotFound
        }
    } else {
        McpRoute::MethodNotFound
    }
}

/// Routes a request by its method and, for `tools/call`, the tool's name
/// (the empty string where the request names none).
pub fn route_request(method: &str, tool_name: &str) -> (r: McpRoute)
    ensures
        r == route_of(method@, tool_name@),
{
    if str_eq(method, "initialize") {
        McpRoute::Initialize
    } else if str_eq(method, "tools/list") {
        McpRoute::ListTools
    } else if str_eq(method, "tools/call") {
        if str_eq(tool_name, "extract_article_media") {
            McpRoute::ExtractArticleMedia
        } else if str_eq(tool_name, "download_and_ingest_dalet") {
            McpRoute::DownloadAndIngest
        } else {
            McpRoute::ToolNotFound
        }
    } else {
        McpRoute::MethodNotFound
    }
}

/// What a request line holds: its `id` (as JSON text, `null` when absent),
/// its `method`, the tool `name` of its `params` and the tool arguments of
/// `params.arguments` (each `None` where absent or of another JSON type).
pub struct RpcRequestFields {
    pub id_json: String,
    pub method: Option<String>,
    pub tool_name: Option<String>,
    pub arguments: ToolArguments,
}

pub open spec fn rpc_fields_view(f: RpcRequestFields) -> (
    Seq<char>,
    Option<Seq<char>>,
    Option<Seq<char>>,
    Option<Seq<char>>,
    Option<Seq<char>>,
    Option<Seq<char>>,
    Option<Seq<char>>,
    Option<i64>,
) {
    (
        f.id_json@,
        opt_string_view(f.method),
        opt_string_view(f.tool_name),
        opt_string_view(f.arguments.url),
        opt_string_view(f.arguments.target_filename),
        opt_string_view(f.arguments.profile_name),
        opt_string_view(f.arguments.email),
        f.arguments.order,
    )
}

/// What `serde_json` reads from a request line: the parse error's message
/// when it is not JSON, else the `id` serialized back to JSON text, the
/// string members `method` and `params.name`, and the members `url`,
/// `target_filename`, `profile_name`, `email` (strings) and `order` (an
/// integer that fits `i64`) of `params.arguments`.
pub uninterp spec fn rpc_request_members(line: Seq<char>) -> Result<
    (
        Seq<char>,
        Option<Seq<char>>,
        Option<Seq<char>>,
        Option<Seq<char>>,
        Option<Seq<char>>,
        Option<Seq<char>>,
        Option<Seq<char>>,
        Option<i64>,
    ),
    Seq<char>,
>;

/// Parses a request line with `serde_json::from_str` into a
/// `serde_json::Value`, reads its members by indexing (`Value[&str]`, which
/// gives `null` for a missing member), `Value::as_str` and `Value::as_i64`,
/// and writes the `id` back with `serde_json::to_string`.
/// The contract names the result and says nothing of how JSON is parsed.
#[verifier::external_body]
fn read_rpc_request(line: &str) -> (r: Result<RpcRequestFields, String>)
    ensures
        match r {
            Ok(f) => rpc_request_members(line@) matches Ok(v) && v == rpc_fields_view(f),
            Err(e) => rpc_request_members(line@) matches Err(m) && m == e@,
        },
{
    let request: serde_json::Value = serde_json::from_str(line).map_err(|e| e.to_string())?;
    let (params, args) = (&request["params"], &request["params"]["arguments"]);
    let text = |v: &serde_json::Value| v.as_str().map(String::from);
    let arguments = ToolArguments {
        url: text(&args["url"]),
        target_filename: text(&args["target_filename"]),
        profile_name: text(&args["profile_name"]),
        email: text(&args["email"]),
        order: args["order"].as_i64(),
    };
    let id_json = serde_json::to_string(&request["id"]).unwrap_or_default();
    let method = text(&request["method"]);
    Ok(RpcRequestFields { id_json, method, tool_name: text(&params["name"]), arguments })
}

/// The text of an optional member, or the empty string.
pub open spec fn or_empty(o: Option<Seq<char>>) -> Seq<char> {
    match o {
        Some(s) => s,
        None => Seq::<char>::empty(),
    }
}

/// Routes a decoded request: its method, else the empty method, and its
/// tool name, else the empty name.
pub fn route_fields(fields: &RpcRequestFields) -> (r: McpRoute)
    ensures
        r == route_of(or_empty(opt_string_view(fields.method)), or_empty(opt_string_view(fields.tool_name))),
{
    let method: &str = match &fields.method {
        Some(m) => m.as_str(),
        None => "",
    };
    let tool: &str = match &fields.tool_name {
        Some(t) => t.as_str(),
        None => "",
    };
    proof {
        reveal_strlit("");
        assert(""@ =~= Seq::<char>::empty());
    }
    assert(method@ == or_empty(opt_string_view(fields.method)));
    assert(tool@ == or_empty(opt_string_view(fields.tool_name)));
    route_request(method, tool)
}

/// What the server does with one line of its input.
pub enum DecodedLine {
    /// Nothing but whitespace: skipped.
    Blank,
    /// Not JSON: the parser's message is logged and nothing is answered.
    Invalid(String),
    /// A request and the handler it goes to.
    Request(RpcRequestFields, McpRoute),
}

/// Decodes one line of the server's input.
pub fn decode_line(line: &str) -> (r: DecodedLine)
    ensures
        trim(line@).len() == 0 <==> r is Blank,
        trim(line@).len() > 0 ==> match rpc_request_members(line@) {
            Err(e) => r matches DecodedLine::Invalid(m) && m@ == e,
            Ok(v) => r matches DecodedLine::Request(f, route) && rpc_fields_view(f) == v && route
                == route_of(or_empty(v.1), or_empty(v.2)),
        },
{
    let t = trim_chars(&chars_of(line));
    if t.len() == 0 {
        return DecodedLine::Blank;
    }
    match read_rpc_request(line) {
        Ok(fields) => {
            let route = route_fields(&fields);
            DecodedLine::Request(fields, route)
        },
        Err(e) => DecodedLine::Invalid(e),
    }
}

/// The content of a tool's reply: one text item, flagged when it reports an
/// error.
pub struct ToolReply {
    pub is_error: bool,
    pub text: String,
}

/// The arguments of a tool call: the string-valued and integer-valued
/// entries the tools read (`None` where absent or of another JSON type).
pub struct ToolArguments {
    pub url: Option<String>,
    pub target_filename: Option<String>,
    pub profile_name: Option<String>,
    pub email: Option<String>,
    pub order: Option<i64>,
}

/// A download to run: the source, the name of the exported file, and the
/// encoding profile.
pub struct DownloadRequest {
    pub url: String,
    pub target_filename: String,
    pub profile_name: String,
}

/// Reserved and control characters become `'_'`, and the
/// whitespace-separated words are joined with `'_'`.
pub open spec fn mcp_safe_name(s: Seq<char>) -> Seq<char> {
    collapse_ws(s.map_values(|c: char| filename_char(c)), '_')
}

/// Makes text safe to stand in a file name, joining its words with `_`.
pub fn sanitize_filename(input: &str) -> (r: String)
    ensures
        r@ == mcp_safe_name(input@),
{
    let chars = chars_of(input);
    let mapped = map_filename_chars(&chars);
    let joined_words = collapse_whitespace(&mapped, '_');
    string_from_chars(&joined_words)
}

/// The order number in at least four digits.
pub open spec fn order_text(order: i64) -> Seq<char> {
    zero_padded(decimal(order as nat), 4)
}

/// The target name made of the sanitized e-mail (when not empty) and the
/// order number (when not negative): `<order>_<email>`, either one alone,
/// or `download`.
pub open spec fn target_name_text(email: Option<Seq<char>>, order: Option<i64>) -> Seq<char> {
    let e = match email {
        Some(s) => if mcp_safe_name(s).len() > 0 {
            Some(mcp_safe_name(s))
        } else {
            None
        },
        None => None,
    };
    let o = match order {
        Some(n) => if n >= 0 {
            Some(order_text(n))
        } else {
            None
        },
        None => None,
    };
    match (e, o) {
        (Some(es), Some(os)) => os + seq!['_'] + es,
        (Some(es), None) => es,
        (None, Some(os)) => os,
        (None, None) => "download"@,
    }
}

/// The name of the exported file when the caller gives none.
pub fn build_mcp_target_name(email: Option<&str>, order: Option<i64>) -> (r: String)
    ensures
        r@ == target_name_text(
            match email {
                Some(s) => Some(s@),
                None => None,
            },
            order,
        ),
{
    let e: Option<String> = match email {
        Some(s) => {
            let name = sanitize_filename(s);
            if name.as_str().unicode_len() > 0 {
                Some(name)
            } else {
                None
            }
        },
        None => None,
    };
    let o: Option<Vec<char>> = match order {
        Some(n) => {
            if n >= 0 {
                let mut digits: Vec<char> = Vec::new();
                push_decimal_padded(&mut digits, n as u64, 4);
                Some(digits)
            } else {
                None
            }
        },
        None => None,
    };
    match (e, o) {
        (Some(es), Some(os)) => {
            let mut out = os;
            out.push('_');
            push_str_chars(&mut out, es.as_str());
            string_from_chars(&out)
        },
        (Some(es), None) => es,
        (None, Some(os)) => string_from_chars(&os),
        (None, None) => String::from_str("download"),
    }
}

pub open spec fn missing_url_text() -> Seq<char> {
    "Missing 'url' argument"@
}

/// The reply of a tool called without its `url` argument.
pub fn missing_url_reply() -> (r: ToolReply)
    ensures
        r.is_error,
        r.text@ == missing_url_text(),
{
    ToolReply { is_error: true, text: String::from_str("Missing 'url' argument") }
}

/// What the download tool runs for its arguments: the `url` argument, which
/// it needs; the given target name, else one built from `email` and
/// `order`; the given profile, else the configured default.
pub open spec fn planned_download(args: ToolArguments, default_profile: Seq<char>) -> Result<
    (Seq<char>, Seq<char>, Seq<char>),
    Seq<char>,
> {
    match args.url {
        None => Err(missing_url_text()),
        Some(url) => Ok(
            (
                url@,
                match args.target_filename {
                    Some(t) => t@,
                    None => target_name_text(opt_string_view(args.email), args.order),
                },
                match args.profile_name {
                    Some(p) => p@,
                    None => default_profile,
                },
            ),
        ),
    }
}

pub open spec fn request_view(r: Result<DownloadRequest, ToolReply>) -> Result<
    (Seq<char>, Seq<char>, Seq<char>),
    Seq<char>,
> {
    match r {
        Ok(d) => Ok((d.url@, d.target_filename@, d.profile_name@)),
        Err(reply) => Err(reply.text@),
    }
}

/// The download the `download_and_ingest_dalet` tool runs, or its error
/// reply.
pub fn plan_download_tool(args: &ToolArguments, config: &AppConfig) -> (r: Result<
    DownloadRequest,
    ToolReply,
>)
    ensures
        request_view(r) == planned_download(*args, config.default_profile@),
        r matches Err(reply) ==> reply.is_error,
{
    let url = match &args.url {
        Some(u) => u.clone(),
        None => {
            return Err(missing_url_reply());
        },
    };
    let target_filename = match &args.target_filename {
        Some(t) => t.clone(),
        None => {
            let email: Option<&str> = match &args.email {
                Some(e) => Some(e.as_str()),
                None => None,
            };
            build_mcp_target_name(email, args.order)
        },
    };
    let profile_name = match &args.profile_name {
        Some(p) => p.clone(),
        None => config.default_profile.clone(),
    };
    Ok(DownloadRequest { url, target_filename, profile_name })
}

/// The reply to a call of an unknown tool.
pub fn tool_not_found_reply() -> (r: ToolReply)
    ensures
        r.is_error,
        r.text@ == "Tool not found"@,
{
    ToolReply { is_error: true, text: String::from_str("Tool not found") }
}

/// The reply when a download fails with `error`.
pub fn execution_failed_reply(error: &str) -> (r: ToolReply)
    ensures
        r.is_error,
        r.text@ == "Execution failed: "@ + error@,
{
    let mut out: Vec<char> = Vec::new();
    push_str_chars(&mut out, "Execution failed: ");
    push_str_chars(&mut out, error);
    ToolReply { is_error: true, text: string_from_chars(&out) }
}

/// What an article page yields: the source of its embedded player and the
/// title shown above it.
pub struct ArticleMedia {
    pub iframe_src: String,
    pub title: String,
}

/// What `scraper` finds in an HTML document: the text pieces of its first
/// `h1` element (`None` when it has none), and the `src` attribute of each
/// `iframe` element in the order `Html::select` walks the parsed tree, the
/// order in which its nodes were created (`None` for one without it).
pub uninterp spec fn scraped_article(html: Seq<char>) -> (Option<Seq<Seq<char>>>, Seq<Option<Seq<char>>>);

pub open spec fn opt_strings_view(o: Option<Vec<String>>) -> Option<Seq<Seq<char>>> {
    match o {
        Some(v) => Some(string_views(v@)),
        None => None,
    }
}

pub open spec fn opt_views(v: Seq<Option<String>>) -> Seq<Option<Seq<char>>> {
    v.map_values(|o: Option<String>| opt_string_view(o))
}

/// Parses `html` with `scraper` (`Html::parse_document`) and selects, with
/// the selectors `h1` and `iframe`, the text nodes of the first heading
/// (`ElementRef::text`) and the `src` attribute of every frame
/// (`ElementRef::attr`). The contract names the result and says nothing of
/// how HTML is parsed.
#[verifier::external_body]
fn scrape_article(html: &str) -> (r: (Option<Vec<String>>, Vec<Option<String>>))
    ensures
        (opt_strings_view(r.0), opt_views(r.1@)) == scraped_article(html@),
{
    let document = scraper::Html::parse_document(html);
    let heading = scraper::Selector::parse("h1").unwrap();
    let frame = scraper::Selector::parse("iframe").unwrap();
    let mut title = None;
    for node in document.select(&heading).take(1) {
        title = Some(node.text().map(String::from).collect());
    }
    let mut sources = Vec::new();
    for node in document.select(&frame) {
        sources.push(node.attr("src").map(String::from));
    }
    (title, sources)
}

/// The first frame that has a `src` attribute.
pub open spec fn first_source(sources: Seq<Option<Seq<char>>>) -> Option<Seq<char>>
    decreases sources.len(),
{
    if sources.len() == 0 {
        None
    } else {
        match sources[0] {
            Some(s) => Some(s),
            None => first_source(sources.drop_first()),
        }
    }
}

pub open spec fn no_iframe_text() -> Seq<char> {
    "No iframe found in the article."@
}

/// The player source and the title of a page from what was scraped of it:
/// the first frame source, which must not be empty, and the first heading's
/// text pieces joined by spaces, or `Unknown Title`.
pub open spec fn article_of(scraped: (Option<Seq<Seq<char>>>, Seq<Option<Seq<char>>>)) -> Result<
    (Seq<char>, Seq<char>),
    Seq<char>,
> {
    match first_source(scraped.1) {
        Some(src) => if src.len() > 0 {
            Ok(
                (
                    src,
                    match scraped.0 {
                        Some(parts) => joined(parts, " "@),
                        None => "Unknown Title"@,
                    },
                ),
            )
        } else {
            Err(no_iframe_text())
        },
        None => Err(no_iframe_text()),
    }
}

pub open spec fn article_view(r: Result<ArticleMedia, String>) -> Result<
    (Seq<char>, Seq<char>),
    Seq<char>,
> {
    match r {
        Ok(a) => Ok((a.iframe_src@, a.title@)),
        Err(e) => Err(e@),
    }
}

/// The article media from the scraped heading pieces and frame sources.
pub fn article_media_from(title_parts: &Option<Vec<String>>, sources: &Vec<Option<String>>) -> (r:
    Result<ArticleMedia, String>)
    ensures
        article_view(r) == article_of((opt_strings_view(*title_parts), opt_views(sources@))),
{
    let ghost views = opt_views(sources@);
    let mut found: Option<String> = None;
    let mut i: usize = 0;
    assert(views.skip(0) =~= views);
    while i < sources.len()
        invariant_except_break
            found is None,
            first_source(views) == first_source(views.skip(i as int)),
        invariant
            i <= sources.len(),
            views == opt_views(sources@),
        ensures
            found is Some ==> first_source(views) == opt_string_view(found),
            found is None ==> i == sources.len() && first_source(views) == first_source(
                views.skip(i as int),
            ),
        decreases sources.len() - i,
    {
        proof {
            let rest = views.skip(i as int);
            assert(rest[0] == views[i as int]);
            assert(rest.drop_first() =~= views.skip(i + 1));
        }
        match &sources[i] {
            Some(s) => {
                found = Some(s.clone());
                break;
            },
            None => {},
        }
        i = i + 1;
    }
    proof {
        if found is None {
            assert(views.skip(i as int) =~= Seq::<Option<Seq<char>>>::empty());
        }
    }
    let src = match found {
        Some(s) => s,
        None => {
            return Err(String::from_str("No iframe found in the article."));
        },
    };
    if src.as_str().unicode_len() == 0 {
        return Err(String::from_str("No iframe found in the article."));
    }
    let title = match title_parts {
        Some(parts) => {
            let mut out: Vec<char> = Vec::new();
            push_joined(&mut out, parts, " ");
            string_from_chars(&out)
        },
        None => String::from_str("Unknown Title"),
    };
    Ok(ArticleMedia { iframe_src: src, title })
}

/// The player source and title of an article page.
pub fn parse_article(html: &str) -> (r: Result<ArticleMedia, String>)
    ensures
        article_view(r) == article_of(scraped_article(html@)),
{
    let (title_parts, sources) = scrape_article(html);
    article_media_from(&title_parts, &sources)
}

/// The reply of the article tool: what was found, or why nothing was.
pub fn extract_reply(result: &Result<ArticleMedia, String>) -> (r: ToolReply)
    ensures
        r.is_error == result is Err,
        r.text@ == (match article_view(*result) {
            Ok((src, title)) => "Found iframe: "@ + src + "\nSummary Title: "@ + title,
            Err(e) => "Error extracting media: "@ + e,
        }),
{
    let mut out: Vec<char> = Vec::new();
    match result {
        Ok(media) => {
            push_str_chars(&mut out, "Found iframe: ");
            push_str_chars(&mut out, media.iframe_src.as_str());
            push_str_chars(&mut out, "\nSummary Title: ");
            push_str_chars(&mut out, media.title.as_str());
            ToolReply { is_error: false, text: string_from_chars(&out) }
        },
        Err(e) => {
            push_str_chars(&mut out, "Error extracting media: ");
            push_str_chars(&mut out, e.as_str());
            ToolReply { is_error: true, text: string_from_chars(&out) }
        },
    }
}

/// A character that may stand in a target name: allowed in file names and
/// not whitespace.
pub open spec fn is_name_char(c: char) -> bool {
    is_filename_safe(c) && !is_ws(c)
}

/// The e-mail part of a target name holds only name characters.
pub proof fn lemma_safe_name_chars(s: Seq<char>)
    ensures
        forall|i: int| 0 <= i < mcp_safe_name(s).len() ==> is_name_char(#[trigger] mcp_safe_name(s)[i]),
{
    let m = s.map_values(|c: char| filename_char(c));
    let p = |c: char| is_name_char(c);
    assert forall|i: int| 0 <= i < m.len() && !is_ws(m[i]) implies p(#[trigger] m[i]) by {}
    lemma_collapse_keeps(m, '_', p);
}

/// A target name built from the e-mail and the order number is never empty
/// and holds no whitespace and no character that file names may not hold.
pub proof fn law_target_name_safe(email: Option<Seq<char>>, order: Option<i64>)
    ensures
        target_name_text(email, order).len() > 0,
        forall|i: int|
            0 <= i < target_name_text(email, order).len() ==> is_name_char(
                #[trigger] target_name_text(email, order)[i],
            ),
{
    let t = target_name_text(email, order);
    if let Some(s) = email {
        lemma_safe_name_chars(s);
    }
    if let Some(n) = order {
        if n >= 0 {
            lemma_decimal_digits(n as nat);
            lemma_zero_padded_digits(decimal(n as nat), 4);
            let o = order_text(n);
            assert forall|i: int| 0 <= i < o.len() implies is_name_char(#[trigger] o[i]) by {
                assert(is_digit(o[i]));
            }
            if let Some(s) = email {
                let e = mcp_safe_name(s);
                if e.len() > 0 {
                    assert forall|i: int| 0 <= i < t.len() implies is_name_char(#[trigger] t[i]) by {
                        if i < o.len() {
                            assert(t[i] == o[i]);
                        } else if i == o.len() {
                            assert(t[i] == '_');
                        } else {
                            assert(t[i] == e[i - o.len() - 1]);
                        }
                    }
                }
            }
        }
    }
    reveal_strlit("download");
}

} // verus!
