//! Lookups in a snapshot of the environment.

use slick::{get_env, get_env_var, get_env_var_or, EnvDefaults};

#[test]
fn test_get_env_returns_default_symbol() {
    let cache = EnvDefaults::new(&Vec::new());
    assert_eq!(get_env(&cache, "SLICK_PROMPT_SYMBOL"), "$");
}

#[test]
fn test_get_env_returns_default_colors() {
    let cache = EnvDefaults::new(&Vec::new());
    assert_eq!(get_env(&cache, "SLICK_PROMPT_ERROR_COLOR"), "196");
    assert_eq!(get_env(&cache, "SLICK_PROMPT_PATH_COLOR"), "74");
    assert_eq!(get_env(&cache, "SLICK_PROMPT_GIT_BRANCH_COLOR"), "3");
}

#[test]
fn test_get_env_unknown_returns_question_marks() {
    let cache = EnvDefaults::new(&Vec::new());
    assert_eq!(get_env(&cache, "UNKNOWN_VAR"), "??");
}

#[test]
fn test_get_env_var_returns_empty_for_missing() {
    let vars: Vec<(String, String)> = Vec::new();
    assert_eq!(get_env_var(&vars, "UNLIKELY_TO_EXIST_VAR_12345"), "");
}

#[test]
fn test_get_env_var_or_returns_default() {
    let vars: Vec<(String, String)> = Vec::new();
    assert_eq!(
        get_env_var_or(&vars, "UNLIKELY_TO_EXIST_VAR_12345", "default"),
        "default"
    );
}

#[test]
fn test_get_env_var_returns_value_when_set() {
    let vars = vec![
        ("A".to_string(), "1".to_string()),
        ("UNLIKELY_TO_EXIST_VAR_12345".to_string(), "here".to_string()),
    ];
    assert_eq!(get_env_var(&vars, "UNLIKELY_TO_EXIST_VAR_12345"), "here");
    assert_eq!(get_env_var_or(&vars, "UNLIKELY_TO_EXIST_VAR_12345", "default"), "here");
    assert_eq!(get_env_var_or(&vars, "a", "default"), "default");
}
