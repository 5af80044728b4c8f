use open_url::config::{Config, Handler};
use open_url::dispatch::{
    after_matched_run, default_run_request, default_run_result, fallback_run_request,
    matched_run_request, resolve_script, select_handler, DispatchError, Followup, RunOutcome,
};

fn handler(pattern: &str, script: &str) -> Handler {
    Handler { pattern: pattern.to_string(), script: script.to_string() }
}

fn github_config() -> Config {
    Config { handlers: vec![handler("^https://github\\.com", "github")] }
}

#[test]
fn empty_config_selects_no_handler() {
    let config = Config { handlers: vec![] };
    for url in ["https://example.com", "", "not a url at all"] {
        let r = select_handler(&config, &url.to_string());
        assert!(matches!(r, Ok(None)));
    }
}

#[test]
fn matching_url_selects_the_handler() {
    let config = github_config();
    let r = select_handler(&config, &"https://github.com/x".to_string());
    assert!(matches!(r, Ok(Some(0))));
}

#[test]
fn unmatched_url_selects_none() {
    let config = github_config();
    let r = select_handler(&config, &"https://example.com".to_string());
    assert!(matches!(r, Ok(None)));
}

#[test]
fn escaped_dot_is_taken_literally() {
    let config = github_config();
    let r = select_handler(&config, &"https://githubxcom/y".to_string());
    assert!(matches!(r, Ok(None)));
}

#[test]
fn pattern_may_match_anywhere_in_the_url() {
    let config = Config { handlers: vec![handler("example", "ex")] };
    let r = select_handler(&config, &"https://www.example.com".to_string());
    assert!(matches!(r, Ok(Some(0))));
}

#[test]
fn first_matching_handler_wins() {
    let config = Config {
        handlers: vec![
            handler("nomatch", "first"),
            handler("github", "second"),
            handler("github", "third"),
        ],
    };
    let r = select_handler(&config, &"https://github.com/x".to_string());
    assert!(matches!(r, Ok(Some(1))));
}

#[test]
fn invalid_pattern_aborts_selection() {
    let config = Config { handlers: vec![handler("(", "broken"), handler("github", "github")] };
    let r = select_handler(&config, &"https://github.com/x".to_string());
    match r {
        Err(DispatchError::Pattern { pattern }) => assert_eq!(pattern, "("),
        _ => panic!("expected a pattern error"),
    }
}

#[test]
fn invalid_pattern_aborts_even_without_any_match() {
    let config = Config { handlers: vec![handler("nomatch", "a"), handler("[", "b")] };
    let r = select_handler(&config, &"https://example.com".to_string());
    match r {
        Err(DispatchError::Pattern { pattern }) => assert_eq!(pattern, "["),
        _ => panic!("expected a pattern error"),
    }
}

#[test]
fn invalid_pattern_after_a_match_is_never_compiled() {
    let config = Config { handlers: vec![handler("github", "github"), handler("(", "broken")] };
    let r = select_handler(&config, &"https://github.com/x".to_string());
    assert!(matches!(r, Ok(Some(0))));
}

#[test]
fn successful_handler_ends_dispatch() {
    let config = github_config();
    let url = "https://github.com/x".to_string();
    let i = select_handler(&config, &url).unwrap().unwrap();
    let request = matched_run_request(&config, i, &url);
    assert_eq!(request.script, "github");
    assert_eq!(request.url, "https://github.com/x");
    assert_eq!(request.pattern, "^https://github\\.com");
    let followup = after_matched_run(&request, &RunOutcome::Exited { success: true }).unwrap();
    assert_eq!(followup, Followup::Done);
}

#[test]
fn failing_handler_falls_back_to_default() {
    let config = github_config();
    let url = "https://github.com/x".to_string();
    let i = select_handler(&config, &url).unwrap().unwrap();
    let request = matched_run_request(&config, i, &url);
    let followup = after_matched_run(&request, &RunOutcome::Exited { success: false }).unwrap();
    assert_eq!(followup, Followup::RunDefault);
    let fallback = fallback_run_request(&request);
    assert_eq!(fallback.script, "_default");
    assert_eq!(fallback.url, "https://github.com/x");
    assert_eq!(fallback.pattern, "^https://github\\.com");
    assert!(default_run_result(&RunOutcome::Exited { success: true }).is_ok());
    let err = default_run_result(&RunOutcome::Exited { success: false }).unwrap_err();
    assert!(matches!(err, DispatchError::DefaultFailed));
}

#[test]
fn default_request_carries_url_and_empty_pattern() {
    let request = default_run_request(&"https://example.com".to_string());
    assert_eq!(request.script, "_default");
    assert_eq!(request.url, "https://example.com");
    assert_eq!(request.pattern, "");
}

#[test]
fn spawn_failure_of_matched_handler_names_its_script() {
    let config = github_config();
    let url = "https://github.com/x".to_string();
    let request = matched_run_request(&config, 0, &url);
    let err = after_matched_run(&request, &RunOutcome::SpawnFailed).unwrap_err();
    match err {
        DispatchError::SpawnFailed { script } => assert_eq!(script, "github"),
        _ => panic!("expected a spawn failure"),
    }
}

#[test]
fn spawn_failure_of_default_names_the_reserved_script() {
    let err = default_run_result(&RunOutcome::SpawnFailed).unwrap_err();
    match err {
        DispatchError::SpawnFailed { script } => assert_eq!(script, "_default"),
        _ => panic!("expected a spawn failure"),
    }
}

#[test]
fn missing_script_error_names_the_script() {
    let name = "script-that-is-surely-not-installed".to_string();
    match resolve_script(&name) {
        Err(DispatchError::ScriptNotFound { script }) => {
            assert_eq!(script, "script-that-is-surely-not-installed")
        },
        Err(_) => panic!("expected a script-not-found error"),
        Ok(_) => panic!("an uninstalled script resolved to a path"),
    }
}

#[test]
fn messages_name_their_subject() {
    let not_found = DispatchError::ScriptNotFound { script: "github".to_string() };
    assert_eq!(not_found.message(), "Script not found for github");
    let bad_pattern = DispatchError::Pattern { pattern: "(".to_string() };
    assert_eq!(bad_pattern.message(), "invalid handler pattern (");
    let spawn = DispatchError::SpawnFailed { script: "github".to_string() };
    assert_eq!(spawn.message(), "Failed to spawn script github");
    assert_eq!(
        DispatchError::DefaultFailed.message(),
        "Default handler returned non-zero exit code"
    );
}
