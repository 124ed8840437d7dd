//! The settings and their built-in values, read from an empty environment.

use slick::{get_env, EnvDefaults};

fn defaults() -> EnvDefaults {
    EnvDefaults::new(&Vec::new())
}

#[test]
fn test_get_env_returns_non_empty_defaults() {
    let cache = defaults();
    assert!(!get_env(&cache, "SLICK_PROMPT_SYMBOL").is_empty());
    assert!(!get_env(&cache, "SLICK_PROMPT_ROOT_SYMBOL").is_empty());
    assert!(!get_env(&cache, "SLICK_PROMPT_VICMD_SYMBOL").is_empty());
}

#[test]
fn test_get_env_git_remote_symbols_exist() {
    let cache = defaults();
    assert!(!get_env(&cache, "SLICK_PROMPT_GIT_REMOTE_AHEAD").is_empty());
    assert!(!get_env(&cache, "SLICK_PROMPT_GIT_REMOTE_BEHIND").is_empty());
}

#[test]
fn test_get_env_color_values_are_numeric_or_named() {
    let cache = defaults();
    let colors = [
        "SLICK_PROMPT_ERROR_COLOR",
        "SLICK_PROMPT_PATH_COLOR",
        "SLICK_PROMPT_GIT_BRANCH_COLOR",
        "SLICK_PROMPT_GIT_STATUS_COLOR",
        "SLICK_PROMPT_ROOT_COLOR",
        "SLICK_PROMPT_SSH_COLOR",
        "SLICK_PROMPT_SYMBOL_COLOR",
        "SLICK_PROMPT_GIT_MASTER_BRANCH_COLOR",
    ];

    for color_var in &colors {
        let val = get_env(&cache, color_var);
        assert!(!val.is_empty(), "{} should not be empty", color_var);
        assert_ne!(val, "??", "{} should be a valid config", color_var);
    }
}

#[test]
fn test_get_env_git_fetch_is_boolean() {
    let cache = defaults();
    let val = get_env(&cache, "SLICK_PROMPT_GIT_FETCH");
    assert!(val == "0" || val == "1", "GIT_FETCH should be 0 or 1");
}

#[test]
fn test_get_env_max_exec_time_is_numeric() {
    let cache = defaults();
    let val = get_env(&cache, "SLICK_PROMPT_CMD_MAX_EXEC_TIME");
    assert!(
        val.parse::<u64>().is_ok(),
        "CMD_MAX_EXEC_TIME should be numeric"
    );
}

#[test]
fn test_get_env_special_chars() {
    let cache = defaults();
    let nbsp = get_env(&cache, "SLICK_PROMPT_NON_BREAKING_SPACE");
    assert_eq!(nbsp.chars().count(), 1);
}

#[test]
fn test_get_env_unknown() {
    let cache = defaults();
    assert_eq!(get_env(&cache, "UNKNOWN_VAR"), "??");
    assert_eq!(get_env(&cache, "DOES_NOT_EXIST"), "??");
    assert_eq!(get_env(&cache, ""), "??");
}
