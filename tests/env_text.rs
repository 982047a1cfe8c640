use agent_conversation::{parse_env, Credentials, EnvEntry};

fn entry(k: &str, v: &str) -> EnvEntry {
    EnvEntry { key: k.to_string(), value: v.to_string() }
}

#[test]
fn parse_env_reads_settings() {
    let text = "OPENAI_API_KEY=SECRET-REDACTED\n  NAME = \"quoted value\" \r\n\nEMPTY=\n=novalue\nnoequals\nQ=\"\"\nEQ=a=b\n";
    assert_eq!(
        parse_env(text),
        vec![
            entry("OPENAI_API_KEY", "SECRET-REDACTED"),
            entry("NAME", "quoted value"),
            entry("EQ", "a=b"),
        ]
    );
}

#[test]
fn parse_env_of_empty_text() {
    assert!(parse_env("").is_empty());
    assert!(parse_env("\n\n").is_empty());
}

#[test]
fn parse_env_last_line_without_newline() {
    assert_eq!(parse_env("A=1\nB=\"\"2\"\""), vec![entry("A", "1"), entry("B", "2")]);
    assert_eq!(parse_env("K=\" spaced \""), vec![entry("K", " spaced ")]);
}

#[test]
fn credential_lookup_takes_the_last_setting() {
    let c = Credentials::from_env_text("KEY=first\nOTHER=x\nKEY=second\n");
    assert_eq!(c.get_credential("KEY"), Some("second".to_string()));
    assert_eq!(c.get_credential("OTHER"), Some("x".to_string()));
    assert_eq!(c.get_credential("MISSING"), None);
}
