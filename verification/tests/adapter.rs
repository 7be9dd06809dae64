use gemini_mcp::build_prompt_args;
use gemini_mcp::gemini_config;
use gemini_mcp::interpret_output;
use gemini_mcp::server_instructions;
use gemini_mcp::trim_bytes;
use gemini_mcp::GeminiError;
use gemini_mcp::PromptRequest;

fn prompt_request(prompt: &str, model: Option<&str>, max_tokens: Option<u32>) -> PromptRequest {
    PromptRequest {
        prompt: prompt.to_owned(),
        model: model.map(|m| m.to_owned()),
        max_tokens,
    }
}

#[test]
fn prompt_only_builds_exact_args() {
    let args = build_prompt_args(&prompt_request("What is Rust?", None, None));
    assert_eq!(args, vec!["--prompt".to_owned(), "What is Rust?".to_owned()]);
}

#[test]
fn model_appends_after_prompt_flags() {
    let args = build_prompt_args(&prompt_request("summarize README.md", Some("gemini-2.5-flash"), None));
    assert_eq!(
        args,
        vec![
            "--prompt".to_owned(),
            "summarize README.md".to_owned(),
            "--model".to_owned(),
            "gemini-2.5-flash".to_owned(),
        ]
    );
}

#[test]
fn max_tokens_is_never_forwarded() {
    let args = build_prompt_args(&prompt_request("hi", None, Some(512)));
    assert_eq!(args, vec!["--prompt".to_owned(), "hi".to_owned()]);
    let args = build_prompt_args(&prompt_request("hi", Some("gemini-2.5-pro"), Some(512)));
    assert_eq!(args.len(), 4);
    assert!(!args.contains(&"--max-tokens".to_owned()));
}

#[test]
fn empty_prompt_still_builds_both_args() {
    let args = build_prompt_args(&prompt_request("", None, None));
    assert_eq!(args, vec!["--prompt".to_owned(), "".to_owned()]);
}

#[test]
fn success_returns_trimmed_stdout() {
    let r = interpret_output(true, &b"  hello \n".to_vec(), &Vec::new());
    assert_eq!(r, Ok("hello".to_owned()));
}

#[test]
fn failure_carries_trimmed_stderr() {
    let r = interpret_output(false, &b"ignored".to_vec(), &b"bad prompt\n".to_vec());
    assert_eq!(r, Err(GeminiError::Tool("bad prompt".to_owned())));
    let msg = r.unwrap_err().into_message();
    assert!(msg.contains("bad prompt"));
}

#[test]
fn spawn_failure_is_a_distinct_kind() {
    let spawn = GeminiError::Spawn("No such file or directory (os error 2)".to_owned());
    let tool = GeminiError::Tool("bad prompt".to_owned());
    assert!(matches!(spawn, GeminiError::Spawn(_)));
    assert!(!matches!(spawn, GeminiError::Tool(_)));
    assert!(matches!(tool, GeminiError::Tool(_)));
    assert_ne!(spawn, tool);
    assert!(spawn.into_message().contains("os error 2"));
}

#[test]
fn empty_output_maps_to_empty_text() {
    assert_eq!(interpret_output(true, &Vec::new(), &Vec::new()), Ok(String::new()));
    assert_eq!(
        interpret_output(true, &b" \t\r\n".to_vec(), &Vec::new()),
        Ok(String::new())
    );
}

#[test]
fn interior_whitespace_is_kept() {
    let r = interpret_output(true, &b"\t a  b \n\n".to_vec(), &Vec::new());
    assert_eq!(r, Ok("a  b".to_owned()));
}

#[test]
fn invalid_utf8_is_replaced_not_dropped() {
    let r = interpret_output(true, &vec![0xff, b'a'], &Vec::new());
    assert_eq!(r, Ok("\u{fffd}a".to_owned()));
}

#[test]
fn trim_bytes_removes_only_edges() {
    assert_eq!(trim_bytes(&b"  x y\x0b\x0c ".to_vec()), b"x y".to_vec());
    assert_eq!(trim_bytes(&Vec::new()), Vec::<u8>::new());
    assert_eq!(trim_bytes(&b"plain".to_vec()), b"plain".to_vec());
}

#[test]
fn config_without_key_names_env_var_and_model_flag() {
    let r = gemini_config(&None);
    assert_eq!(
        r,
        "Gemini CLI configuration:\n- API key: Set via GOOGLE_API_KEY environment variable\n- Model: Use --model flag (default: gemini-2.5-pro)"
    );
    assert!(r.contains("GOOGLE_API_KEY"));
    assert!(r.contains("--model"));
}

#[test]
fn config_with_key_never_echoes_it() {
    let r = gemini_config(&Some("secret".to_owned()));
    assert_eq!(
        r,
        "Note: Gemini API key should be set via GOOGLE_API_KEY environment variable"
    );
    assert!(!r.contains("secret"));
    let other = gemini_config(&Some("another-key-entirely".to_owned()));
    assert_eq!(r, other);
}

#[test]
fn concurrent_results_keep_their_own_output() {
    let first = interpret_output(true, &b"alpha output\n".to_vec(), &Vec::new());
    let second = interpret_output(true, &b"beta output\n".to_vec(), &Vec::new());
    assert_eq!(first, Ok("alpha output".to_owned()));
    assert_eq!(second, Ok("beta output".to_owned()));
    assert_ne!(first, second);
}

#[test]
fn instructions_are_fixed_usage_text() {
    let text = server_instructions();
    assert!(text.contains("gemini_prompt"));
    assert!(text.contains("--model"));
    assert_eq!(text, server_instructions());
}
