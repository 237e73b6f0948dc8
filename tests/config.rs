use lc::config::{default_max_history, set_config, Config, ConfigError, DEFAULT_SYSTEM_PROMPT};

#[test]
fn defaults_when_no_config() {
    let c = Config::default();
    assert_eq!(c.openai_base_url, "https://api.openai.com/v1");
    assert_eq!(c.max_history, 10);
    assert_eq!(c.default_model, "gpt-4o-mini");
    assert_eq!(c.openai_api_key, "");
    assert_eq!(c.system_prompt, DEFAULT_SYSTEM_PROMPT);
    assert!(c.system_prompt.starts_with("You are a professional Linux command-line assistant named lc."));
    assert_eq!(default_max_history(), 10);
}

#[test]
fn set_each_string_key() {
    let mut c = Config::default();
    assert!(c.set_value("openai_api_key", "k-1").is_ok());
    assert!(c.set_value("openai_base_url", "http://localhost:8080/v1").is_ok());
    assert!(c.set_value("default_model", "m").is_ok());
    assert!(c.set_value("system_prompt", "be brief").is_ok());
    assert_eq!(c.openai_api_key, "k-1");
    assert_eq!(c.openai_base_url, "http://localhost:8080/v1");
    assert_eq!(c.default_model, "m");
    assert_eq!(c.system_prompt, "be brief");
    assert_eq!(c.max_history, 10);
}

#[test]
fn set_max_history_parses_decimal() {
    let mut c = Config::default();
    assert!(c.set_value("max_history", "25").is_ok());
    assert_eq!(c.max_history, 25);
    assert!(c.set_value("max_history", "+3").is_ok());
    assert_eq!(c.max_history, 3);
    assert!(c.set_value("max_history", "0").is_ok());
    assert_eq!(c.max_history, 0);
}

#[test]
fn set_max_history_rejects_non_numbers() {
    let mut c = Config::default();
    for bad in ["", "ten", "-1", " 5", "+", "99999999999999999999999"] {
        match c.set_value("max_history", bad) {
            Err(ConfigError::InvalidMaxHistory(v)) => assert_eq!(v, bad),
            other => panic!("unexpected {:?}", other),
        }
        assert_eq!(c.max_history, 10);
    }
}

#[test]
fn set_unknown_key_is_refused() {
    let mut c = Config::default();
    match c.set_value("colour", "red") {
        Err(e) => {
            assert!(matches!(e, ConfigError::UnknownKey(ref k) if k == "colour"));
            assert_eq!(e.message(), "Unknown config key: colour");
        }
        Ok(()) => panic!("accepted an unknown key"),
    }
    assert_eq!(c.openai_base_url, "https://api.openai.com/v1");
}

#[test]
fn set_config_splits_at_first_equals() {
    let mut c = Config::default();
    let r = set_config(&mut c, "system_prompt=a=b");
    assert_eq!(r.unwrap(), Some("system_prompt".to_string()));
    assert_eq!(c.system_prompt, "a=b");
    let r = set_config(&mut c, "openai_api_key=");
    assert_eq!(r.unwrap(), Some("openai_api_key".to_string()));
    assert_eq!(c.openai_api_key, "");
}

#[test]
fn set_config_without_equals_changes_nothing() {
    let mut c = Config::default();
    assert_eq!(set_config(&mut c, "max_history").unwrap(), None);
    assert_eq!(c.max_history, 10);
}

#[test]
fn set_config_reports_errors() {
    let mut c = Config::default();
    assert!(matches!(set_config(&mut c, "nope=1"), Err(ConfigError::UnknownKey(_))));
    let e = set_config(&mut c, "max_history=x").unwrap_err();
    assert_eq!(e.message(), "Invalid max_history value: x");
}
