use omni_downloader::cli::{
    argument_value, has_flag, plan_download_command, usage_text, worker_command, CliError,
    WorkerCommand,
};
use omni_downloader::config::{AppConfig, HostEnvironment};
use omni_downloader::mcp::{
    decode_line, DecodedLine,
    article_media_from, build_mcp_target_name, execution_failed_reply, extract_reply,
    parse_article, plan_download_tool, route_request, sanitize_filename, tool_not_found_reply,
    McpRoute, ToolArguments,
};
use omni_downloader::paths::Platform;

fn config() -> AppConfig {
    let env = HostEnvironment {
        platform: Platform::Unix,
        local_app_data: None,
        home: Some("/home/ana".to_string()),
        user_profile: None,
        current_dir: None,
    };
    let mut cfg = AppConfig::default_for(&env);
    cfg.default_profile = "H.264 1080p MP4".to_string();
    cfg
}

fn strings(v: &[&str]) -> Vec<String> {
    v.iter().map(|s| s.to_string()).collect()
}

#[test]
fn requests_are_routed_by_method_and_tool() {
    assert_eq!(route_request("initialize", ""), McpRoute::Initialize);
    assert_eq!(route_request("tools/list", "x"), McpRoute::ListTools);
    assert_eq!(route_request("tools/call", "extract_article_media"), McpRoute::ExtractArticleMedia);
    assert_eq!(route_request("tools/call", "download_and_ingest_dalet"), McpRoute::DownloadAndIngest);
    assert_eq!(route_request("tools/call", "other"), McpRoute::ToolNotFound);
    assert_eq!(route_request("ping", ""), McpRoute::MethodNotFound);
}

#[test]
fn mcp_names_join_words_with_underscores() {
    assert_eq!(sanitize_filename("John Doe <jd@x.com>"), "John_Doe__jd@x.com_");
    assert_eq!(sanitize_filename("  a \t b  "), "a___b");
    assert_eq!(sanitize_filename("   "), "");
}

#[test]
fn target_names_combine_order_and_sender() {
    assert_eq!(build_mcp_target_name(Some("Jane Roe"), Some(7)), "0007_Jane_Roe");
    assert_eq!(build_mcp_target_name(Some("Jane"), None), "Jane");
    assert_eq!(build_mcp_target_name(None, Some(12345)), "12345");
    assert_eq!(build_mcp_target_name(Some("  "), Some(-1)), "download");
    assert_eq!(build_mcp_target_name(None, None), "download");
}

#[test]
fn download_tool_needs_a_url() {
    let args = ToolArguments { url: None, target_filename: None, profile_name: None, email: None, order: None };
    let reply = plan_download_tool(&args, &config()).err().unwrap();
    assert!(reply.is_error);
    assert_eq!(reply.text, "Missing 'url' argument");
}

#[test]
fn download_tool_fills_in_defaults() {
    let args = ToolArguments {
        url: Some("https://v/1".to_string()),
        target_filename: None,
        profile_name: None,
        email: Some("ed@news".to_string()),
        order: Some(3),
    };
    let request = plan_download_tool(&args, &config()).ok().unwrap();
    assert_eq!(request.url, "https://v/1");
    assert_eq!(request.target_filename, "0003_ed@news");
    assert_eq!(request.profile_name, "H.264 1080p MP4");
    let args = ToolArguments {
        url: Some("u".to_string()),
        target_filename: Some("".to_string()),
        profile_name: Some("P".to_string()),
        email: None,
        order: None,
    };
    let request = plan_download_tool(&args, &config()).ok().unwrap();
    assert_eq!(request.target_filename, "");
    assert_eq!(request.profile_name, "P");
}

#[test]
fn articles_yield_the_first_frame_and_heading() {
    let html = "<html><body><h1>Hello <b>World</b></h1><iframe></iframe><iframe src=\"https://player/x\"></iframe><iframe src=\"https://player/y\"></iframe></body></html>";
    let media = parse_article(html).ok().unwrap();
    assert_eq!(media.iframe_src, "https://player/x");
    assert_eq!(media.title, "Hello  World");
}

#[test]
fn articles_without_frames_are_rejected() {
    let e = parse_article("<html><h1>T</h1><p>text</p></html>").err().unwrap();
    assert_eq!(e, "No iframe found in the article.");
    let e = parse_article("<iframe src=\"\"></iframe>").err().unwrap();
    assert_eq!(e, "No iframe found in the article.");
    let media = parse_article("<iframe src=\"https://p\"></iframe>").ok().unwrap();
    assert_eq!(media.title, "Unknown Title");
}

#[test]
fn scraped_parts_are_combined() {
    let media = article_media_from(&Some(strings(&["a", "b"])), &vec![None, Some("s".to_string())]).ok().unwrap();
    assert_eq!(media.title, "a b");
    assert_eq!(media.iframe_src, "s");
    assert!(article_media_from(&None, &vec![None]).is_err());
}

#[test]
fn replies_carry_text() {
    let ok = extract_reply(&parse_article("<h1>N</h1><iframe src=\"https://p\"></iframe>"));
    assert!(!ok.is_error);
    assert_eq!(ok.text, "Found iframe: https://p\nSummary Title: N");
    let err = extract_reply(&Err("timeout".to_string()));
    assert!(err.is_error);
    assert_eq!(err.text, "Error extracting media: timeout");
    assert_eq!(tool_not_found_reply().text, "Tool not found");
    assert_eq!(execution_failed_reply("boom").text, "Execution failed: boom");
}

#[test]
fn worker_modes_come_from_the_first_argument() {
    assert!(matches!(worker_command(&[]), WorkerCommand::Usage));
    assert!(matches!(worker_command(&strings(&["--mcp"])), WorkerCommand::Mcp));
    assert!(matches!(worker_command(&strings(&["mcp", "x"])), WorkerCommand::Mcp));
    assert!(matches!(worker_command(&strings(&["download"])), WorkerCommand::Download));
    assert!(matches!(worker_command(&strings(&["-h"])), WorkerCommand::Help));
    match worker_command(&strings(&["frobnicate"])) {
        WorkerCommand::Unknown(name) => assert_eq!(name, "frobnicate"),
        _ => panic!("expected an unknown command"),
    }
}

#[test]
fn option_values_follow_their_names() {
    let args = strings(&["--json", "--url", "x", "--url", "y"]);
    assert_eq!(argument_value(&args, "--url"), Some("x".to_string()));
    assert_eq!(argument_value(&strings(&["--url"]), "--url"), None);
    assert_eq!(argument_value(&strings(&["a", "--url"]), "--url"), None);
    assert!(has_flag(&args, "--json"));
    assert!(!has_flag(&args, "--verbose"));
}

#[test]
fn download_command_reads_its_options() {
    let cfg = config();
    let args = strings(&["--url", "https://v", "--target-filename", "  ", "--json"]);
    let command = plan_download_command(&args, &cfg).ok().unwrap();
    assert_eq!(command.request.url, "https://v");
    assert_eq!(command.request.target_filename, "download");
    assert_eq!(command.request.profile_name, "H.264 1080p MP4");
    assert!(command.json_output);
    let args = strings(&["--url", "u", "--profile-name", "P", "--target-filename", "T"]);
    let command = plan_download_command(&args, &cfg).ok().unwrap();
    assert_eq!(command.request.target_filename, "T");
    assert_eq!(command.request.profile_name, "P");
    assert!(!command.json_output);
}

#[test]
fn download_command_needs_a_url() {
    let cfg = config();
    let e = plan_download_command(&strings(&["--url", "   "]), &cfg).err().unwrap();
    assert_eq!(e, CliError::MissingUrl { json_output: false });
    assert_eq!(e.message(), "Missing required argument: --url");
    assert!(plan_download_command(&[], &cfg).is_err());
    let e = plan_download_command(&strings(&["--json", "--url", " "]), &cfg).err().unwrap();
    assert_eq!(e, CliError::MissingUrl { json_output: true });
    assert!(usage_text().starts_with("Usage:\n  omni-downloader --mcp\n"));
}

#[test]
fn target_names_are_safe_file_names() {
    for (email, order) in [
        (Some("a:b / c?"), Some(0)),
        (Some("\t\n"), Some(42)),
        (Some("x*y"), None),
        (None, Some(-5)),
    ] {
        let name = build_mcp_target_name(email, order);
        assert!(!name.is_empty());
        assert!(!name.chars().any(|c| c.is_whitespace() || c.is_control() || "<>:\"/\\|?*".contains(c)));
    }
    assert_eq!(build_mcp_target_name(Some("a:b / c?"), Some(0)), "0000_a_b___c_");
    assert_eq!(build_mcp_target_name(Some("\t\n"), Some(42)), "0042___");
}

#[test]
fn request_lines_are_decoded_and_routed() {
    assert!(matches!(decode_line("  \n"), DecodedLine::Blank));
    match decode_line("{not json\n") {
        DecodedLine::Invalid(message) => assert!(!message.is_empty()),
        _ => panic!("expected a parse failure"),
    }
    let line = r#"{"jsonrpc":"2.0","id":7,"method":"tools/call","params":{"name":"download_and_ingest_dalet","arguments":{"url":"https://v","order":3,"email":5}}}"#;
    match decode_line(line) {
        DecodedLine::Request(fields, route) => {
            assert_eq!(route, McpRoute::DownloadAndIngest);
            assert_eq!(fields.id_json, "7");
            assert_eq!(fields.arguments.url, Some("https://v".to_string()));
            assert_eq!(fields.arguments.order, Some(3));
            assert_eq!(fields.arguments.email, None);
            assert_eq!(fields.arguments.target_filename, None);
        }
        _ => panic!("expected a request"),
    }
    match decode_line(r#"{"method":"initialize","id":"a"}"#) {
        DecodedLine::Request(fields, route) => {
            assert_eq!(route, McpRoute::Initialize);
            assert_eq!(fields.id_json, "\"a\"");
        }
        _ => panic!("expected a request"),
    }
    match decode_line("[1]") {
        DecodedLine::Request(fields, route) => {
            assert_eq!(route, McpRoute::MethodNotFound);
            assert_eq!(fields.id_json, "null");
        }
        _ => panic!("expected a request"),
    }
}
