use hermit_bot::config::{
    additional_prefixes, error_handling, find_token, ConfigError, ErrorHandling, FrameworkErrorKind,
    COMMAND_PREFIX, EDIT_TRACKING_SECONDS,
    TOKEN_VARIABLE,
};
use hermit_bot::installer::{install_steps, needs_dependency_install};
use hermit_bot::text::{contains, starts_with, str_equal, u64_to_decimal};

fn vars(pairs: &[(&str, &str)]) -> Vec<(String, String)> {
    pairs.iter().map(|(k, v)| (k.to_string(), v.to_string())).collect()
}

#[test]
fn token_is_found() {
    let v = vars(&[("HOME", "/root"), ("DISCORD_TOKEN", "abc"), ("DISCORD_TOKEN", "later")]);
    assert_eq!(find_token(&v), Ok("abc".to_string()));
}

#[test]
fn token_missing_is_an_error() {
    let v = vars(&[("HOME", "/root"), ("discord_token", "x"), ("DISCORD_TOKEN_2", "y")]);
    let e = find_token(&v).unwrap_err();
    assert_eq!(e, ConfigError::TokenMissing);
    assert_eq!(e.message(), "'DISCORD_TOKEN' was not found");
    assert_eq!(find_token(&vec![]), Err(ConfigError::TokenMissing));
}

#[test]
fn prefixes_and_tracking() {
    assert_eq!(TOKEN_VARIABLE, "DISCORD_TOKEN");
    assert_eq!(COMMAND_PREFIX, "ht");
    assert_eq!(additional_prefixes(), vec!["hermit", "Ht", "bot"]);
    assert_eq!(EDIT_TRACKING_SECONDS, 3000);
}

#[test]
fn installer_runs_only_on_shuttle() {
    assert!(needs_dependency_install("shuttle"));
    assert!(needs_dependency_install("my-shuttle-container-1"));
    assert!(!needs_dependency_install(""));
    assert!(!needs_dependency_install("laptop"));
    assert!(!needs_dependency_install("Shuttle"));
    assert!(!needs_dependency_install("shuttl"));
}

#[test]
fn installer_steps() {
    let steps = install_steps();
    assert_eq!(steps.len(), 3);
    assert_eq!(steps[0].program, "apt");
    assert_eq!(steps[0].args, vec!["install", "-y", "libopus-dev", "ffmpeg", "curl"]);
    assert_eq!(steps[0].spawn_failure, "failed to run apt");
    assert_eq!(steps[0].failure, "failed to install dependencies");
    assert_eq!(steps[1].program, "curl");
    assert_eq!(
        steps[1].args,
        vec!["-L", "https://github.com/yt-dlp/yt-dlp/releases/latest/download/yt-dlp", "-o", "/usr/local/bin/yt-dlp"]
    );
    assert_eq!(steps[1].failure, "Failed to download YT-dlp");
    assert_eq!(steps[2].program, "chmod");
    assert_eq!(steps[2].args, vec!["a+rx", "/usr/local/bin/yt-dlp"]);
    assert_eq!(steps[2].spawn_failure, "Failed to run chmod");
    assert_eq!(steps[2].failure, "Failed to make yt-dlp executable");
}

#[test]
fn decimal_matches_display() {
    for n in [0u64, 1, 9, 10, 99, 100, 101, 123456789, u64::MAX] {
        assert_eq!(u64_to_decimal(n), n.to_string());
    }
}

#[test]
fn text_helpers_on_unicode() {
    assert!(starts_with("héllo", "hé"));
    assert!(!starts_with("hé", "héllo"));
    assert!(starts_with("abc", ""));
    assert!(str_equal("äb", "äb"));
    assert!(!str_equal("äb", "ab"));
    assert!(contains("xxshuttleyy", "shuttle"));
    assert!(contains("abc", ""));
    assert!(!contains("", "a"));
    assert!(contains("ééa", "éa"));
}

#[test]
fn framework_errors_are_handled_by_kind() {
    assert_eq!(error_handling(FrameworkErrorKind::Setup), ErrorHandling::Abort);
    assert_eq!(error_handling(FrameworkErrorKind::Command), ErrorHandling::LogCommandError);
    assert_eq!(error_handling(FrameworkErrorKind::Other), ErrorHandling::DefaultHandler);
}
