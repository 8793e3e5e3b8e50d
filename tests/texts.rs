use cron_core::commands::{AbortCommand, ClearCommand, ConfigCommand, SkillCommand};
use cron_core::i18n::I18n;

fn texts() -> I18n {
    I18n::new(
        "en",
        Some(vec![
            ("cmd_abort_desc".to_string(), "Abort the current turn".to_string()),
            ("cmd_clear_desc".to_string(), "Clear the session".to_string()),
            ("greet".to_string(), "Hello {0}, meet {1}; bye {0}".to_string()),
            ("greet".to_string(), "shadowed".to_string()),
        ]),
    )
}

#[test]
fn get_known_and_unknown_keys() {
    let t = texts();
    assert_eq!(t.current_lang, "en");
    assert_eq!(t.get("cmd_abort_desc"), "Abort the current turn");
    assert_eq!(t.get("missing_key"), "missing_key");
    assert_eq!(t.get("greet"), "Hello {0}, meet {1}; bye {0}");
}

#[test]
fn get_args_fills_placeholders() {
    let t = texts();
    let s = t.get_args("greet", &["Ann".to_string(), "Bo".to_string()]);
    assert_eq!(s, "Hello Ann, meet Bo; bye Ann");
}

#[test]
fn get_args_with_many_arguments() {
    let t = I18n::new(
        "en",
        Some(vec![("k".to_string(), "{10}-{1}-{0}".to_string())]),
    );
    let args: Vec<String> = (0..11).map(|i| format!("a{}", i)).collect();
    assert_eq!(t.get_args("k", &args), "a10-a1-a0");
}

#[test]
fn get_args_without_arguments_is_get() {
    let t = texts();
    assert_eq!(t.get_args("greet", &[]), "Hello {0}, meet {1}; bye {0}");
    assert_eq!(t.get_args("nope {0}", &["x".to_string()]), "nope x");
}

#[test]
fn missing_language_file_uses_builtin_texts() {
    let t = I18n::new("xx", None);
    assert_eq!(t.current_lang, "xx");
    assert_eq!(t.get("processing"), "...");
    assert_eq!(t.get("wait"), "...");
    assert_eq!(t.get("cmd_abort_desc"), "cmd_abort_desc");
}

#[test]
fn command_names_and_descriptions() {
    let t = texts();
    assert_eq!(AbortCommand.name(), "abort");
    assert_eq!(ClearCommand.name(), "clear");
    assert_eq!(ConfigCommand.name(), "config");
    assert_eq!(SkillCommand.name(), "skill");
    assert_eq!(AbortCommand.description(&t), "Abort the current turn");
    assert_eq!(ClearCommand.description(&t), "Clear the session");
    assert_eq!(ConfigCommand.description(&t), "cmd_config_desc");
    assert_eq!(SkillCommand.description(&t), "cmd_skill_desc");
}
