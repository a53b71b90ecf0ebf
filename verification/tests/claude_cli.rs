use claude_cli::models::get_claude_cli_models;
use claude_cli::models::resolve_model;
use claude_cli::models::DEFAULT_CLAUDE_MODEL;
use claude_cli::outcome::ErrorKind;
use claude_cli::outcome::Outcome;
use claude_cli::runner::availability_from_probe;
use claude_cli::runner::build_full_prompt;
use claude_cli::runner::decide_poll;
use claude_cli::runner::harvest;
use claude_cli::runner::preflight;
use claude_cli::runner::spawn_failure;
use claude_cli::runner::timeout_detail;
use claude_cli::runner::LoopStep;
use claude_cli::runner::PollEvent;
use claude_cli::runner::DEFAULT_TIMEOUT_SECS;
use claude_cli::runner::POLL_INTERVAL_MS;
use claude_cli::runner::TIMEOUT_MS;

#[test]
fn test_empty_text_returns_empty() {
    let result = preflight("");
    assert!(result.is_some());
    assert_eq!(result.unwrap(), Outcome::PassThrough("".to_string()));
}

#[test]
fn test_whitespace_text_returns_whitespace() {
    let result = preflight("   ");
    assert!(result.is_some());
    assert_eq!(result.unwrap(), Outcome::PassThrough("   ".to_string()));
}

#[test]
fn test_unicode_whitespace_text_passes_through() {
    let result = preflight("\u{3000}\t\r\n\u{00A0}");
    assert_eq!(
        result,
        Some(Outcome::PassThrough("\u{3000}\t\r\n\u{00A0}".to_string()))
    );
}

#[test]
fn test_nonblank_text_goes_to_backend() {
    assert_eq!(preflight("Hello"), None);
    assert_eq!(preflight("  x  "), None);
}

#[test]
fn test_harvest_success_trims_output() {
    let r = harvest("orig", true, b"  Hello world  \n", b"");
    assert_eq!(r, Outcome::Success("Hello world".to_string()));
}

#[test]
fn test_harvest_empty_output_passes_through() {
    let r = harvest("orig", true, b"", b"");
    assert_eq!(r, Outcome::PassThrough("orig".to_string()));
}

#[test]
fn test_harvest_blank_output_passes_through() {
    let r = harvest("orig", true, b" \n\t ", b"");
    assert_eq!(r, Outcome::PassThrough("orig".to_string()));
}

#[test]
fn test_harvest_nonzero_exit_is_backend_error() {
    let r = harvest("orig", false, b"", b"rate limited");
    assert_eq!(
        r,
        Outcome::Failure(ErrorKind::BackendError, "rate limited".to_string())
    );
}

#[test]
fn test_harvest_replaces_invalid_encoding() {
    let r = harvest("orig", true, &[0xFF, b'a'], b"");
    assert_eq!(r, Outcome::Success("\u{FFFD}a".to_string()));
}

#[test]
fn test_harvest_stderr_decoded_lossily() {
    let r = harvest("orig", false, b"", &[b'b', 0xC0, b'd']);
    assert_eq!(
        r,
        Outcome::Failure(ErrorKind::BackendError, "b\u{FFFD}d".to_string())
    );
}

#[test]
fn test_poll_exited_leads_to_harvest() {
    assert_eq!(decide_poll(PollEvent::Exited(true), 5), LoopStep::Harvest(true));
    assert_eq!(
        decide_poll(PollEvent::Exited(false), TIMEOUT_MS + 1000),
        LoopStep::Harvest(false)
    );
}

#[test]
fn test_poll_within_deadline_sleeps() {
    assert_eq!(
        decide_poll(PollEvent::StillRunning, 0),
        LoopStep::Sleep(POLL_INTERVAL_MS)
    );
    assert_eq!(
        decide_poll(PollEvent::StillRunning, TIMEOUT_MS),
        LoopStep::Sleep(POLL_INTERVAL_MS)
    );
}

#[test]
fn test_poll_past_deadline_times_out() {
    let step = decide_poll(PollEvent::StillRunning, TIMEOUT_MS + 1);
    assert_eq!(
        step,
        LoopStep::Abort(Outcome::Failure(
            ErrorKind::Timeout,
            "timed out after 30 seconds".to_string()
        ))
    );
}

#[test]
fn test_poll_failure_is_wait_error() {
    let step = decide_poll(PollEvent::PollFailed("status check failed".to_string()), 5);
    assert_eq!(
        step,
        LoopStep::Abort(Outcome::Failure(
            ErrorKind::WaitError,
            "status check failed".to_string()
        ))
    );
}

#[test]
fn test_spawn_failure_carries_os_message() {
    let r = spawn_failure("No such file or directory".to_string());
    assert_eq!(
        r,
        Outcome::Failure(
            ErrorKind::SpawnError,
            "No such file or directory".to_string()
        )
    );
}

#[test]
fn test_timeout_detail_names_configured_deadline() {
    assert_eq!(DEFAULT_TIMEOUT_SECS, 30);
    assert_eq!(TIMEOUT_MS, 30_000);
    assert_eq!(timeout_detail(), "timed out after 30 seconds".to_string());
}

#[test]
fn test_availability_follows_probe_exit() {
    assert!(availability_from_probe(Some(true)));
    assert!(!availability_from_probe(Some(false)));
    assert!(!availability_from_probe(None));
}

#[test]
fn test_run_is_deterministic_for_identical_observations() {
    let a = harvest("same text", true, b" out \n", b"");
    let b = harvest("same text", true, b" out \n", b"");
    assert_eq!(a, b);
    let c = decide_poll(PollEvent::StillRunning, 17);
    let d = decide_poll(PollEvent::StillRunning, 17);
    assert_eq!(c, d);
}

#[test]
fn test_build_full_prompt_uses_fixed_template() {
    let p = build_full_prompt("Fix grammar", "hi there");
    assert_eq!(p, "Fix grammar\n\nText:\nhi there".to_string());
}

#[test]
fn test_build_full_prompt_keeps_text_verbatim() {
    let p = build_full_prompt("Summarize", "  line one\nline two  ");
    assert_eq!(p, "Summarize\n\nText:\n  line one\nline two  ".to_string());
}

#[test]
fn test_resolve_model_empty_gives_default() {
    assert_eq!(resolve_model(""), "haiku".to_string());
    assert_eq!(DEFAULT_CLAUDE_MODEL, "haiku");
}

#[test]
fn test_resolve_model_passes_unknown_through() {
    assert_eq!(resolve_model("opus"), "opus".to_string());
    assert_eq!(resolve_model("experimental-tier"), "experimental-tier".to_string());
}

#[test]
fn test_get_claude_cli_models_table() {
    let models = get_claude_cli_models();
    assert_eq!(models.len(), 3);
    assert_eq!(
        models[0],
        ("haiku".to_string(), "Haiku (fastest, cheapest)".to_string())
    );
    assert_eq!(
        models[1],
        ("sonnet".to_string(), "Sonnet (balanced)".to_string())
    );
    assert_eq!(
        models[2],
        ("opus".to_string(), "Opus (most capable)".to_string())
    );
}
