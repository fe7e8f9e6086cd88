use gimper_bot::config::{parse_config, ConfigError};

#[test]
fn reads_token_and_prefix() {
    let c = parse_config("[config]\ntoken = \"abc.def\"\nprefix = \"!\"\n").unwrap();
    assert_eq!(c.token, "abc.def");
    assert_eq!(c.prefix, "!");
}

#[test]
fn ignores_extra_keys() {
    let text = "title = \"bot\"\n[config]\nprefix = \"~\"\ntoken = \"t\"\nowner = 7\n[other]\nx = 1\n";
    let c = parse_config(text).unwrap();
    assert_eq!(c.token, "t");
    assert_eq!(c.prefix, "~");
}

#[test]
fn rejects_text_that_is_not_toml() {
    assert_eq!(parse_config("[config\ntoken = ").err(), Some(ConfigError::Malformed));
}

#[test]
fn rejects_missing_prefix() {
    assert_eq!(parse_config("[config]\ntoken = \"abc\"\n").err(), Some(ConfigError::Malformed));
}

#[test]
fn rejects_missing_section() {
    assert_eq!(parse_config("token = \"abc\"\nprefix = \"!\"\n").err(), Some(ConfigError::Malformed));
}

#[test]
fn rejects_empty_text() {
    assert_eq!(parse_config("").err(), Some(ConfigError::Malformed));
}

#[test]
fn rejects_token_that_is_not_a_string() {
    assert_eq!(parse_config("[config]\ntoken = 5\nprefix = \"!\"\n").err(), Some(ConfigError::Malformed));
}

#[test]
fn rejects_section_that_is_not_a_table() {
    assert_eq!(parse_config("config = \"x\"\n").err(), Some(ConfigError::Malformed));
}
