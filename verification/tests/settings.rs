use swaddle::command::inhibit_command;
use swaddle::text::{decimal, has_prefix, holds_char, same_text, trim_trailing};
use swaddle::{config_argument, config_location, get_config_path, read_config, ConfigFile, Settings};

fn strings(list: &[&str]) -> Vec<String> {
    list.iter().map(|s| s.to_string()).collect()
}

#[test]
fn standard_settings() {
    let settings = Settings::default_in("/home/you");
    assert!(!settings.debug);
    assert_eq!(settings.log_level(), "info");
    assert_eq!(settings.server.inhibit_duration, 25);
    assert_eq!(settings.server.sleep_duration, 5);
    let ha = settings.ha.unwrap();
    assert_eq!(ha.host, "http://192.168.1.188:8123");
    assert_eq!(ha.token, "");
    assert_eq!(ha.entity, "switch.cuco_cp5d_306c_switch_2");
    assert!(ha.enabled);
    assert_eq!(
        settings.swayidle.config_path,
        "/home/you/.config/niri/swayidle.conf"
    );
    assert!(settings.swayidle.enabled);
    assert_eq!(
        Settings::default_in("").swayidle.config_path,
        "/.config/niri/swayidle.conf"
    );
}

#[test]
fn log_levels() {
    let mut settings = Settings::default_in("");
    assert_eq!(settings.log_level(), "info");
    settings.debug = true;
    assert_eq!(settings.log_level(), "debug");
}

#[test]
fn path_of_the_configuration_file() {
    let expected = "/home/you/.config/swaddle/config.toml";
    assert_eq!(get_config_path("/home/you"), expected);
    assert_eq!(get_config_path("/home/you/"), expected);
    assert_eq!(get_config_path("/"), "/.config/swaddle/config.toml");
    assert_eq!(get_config_path(""), ".config/swaddle/config.toml");
}

#[test]
fn location_of_the_configuration_file() {
    let usual = "/home/you/.config/swaddle/config.toml".to_string();
    assert_eq!(config_location(None, "/home/you"), usual);
    assert_eq!(config_location(Some(usual.clone()), "/elsewhere"), usual);
    assert_eq!(config_location(Some("/a".to_string()), "/home/you"), "/a");
    assert_eq!(config_location(Some("/a".to_string()), ""), "/a");
    assert_eq!(config_location(Some(String::new()), "/home/you"), "");
}

#[test]
fn path_on_the_command_line() {
    let path = |args: &[&str]| config_argument(&strings(args));
    assert_eq!(path(&["swaddle"]), None);
    assert_eq!(path(&[]), None);
    assert_eq!(path(&["swaddle", "--config"]), None);
    assert_eq!(path(&["swaddle", "--config", "/a"]), Some("/a".to_string()));
    assert_eq!(
        path(&["swaddle", "-v", "--config", "/a", "--config", "/b"]),
        Some("/a".to_string())
    );
    assert_eq!(
        path(&["swaddle", "--config", "--config"]),
        Some("--config".to_string())
    );
    assert_eq!(path(&["swaddle", "--config=/a"]), None);
}

#[test]
fn unreadable_configuration() {
    let file = ConfigFile::Unreadable("missing field `server`".to_string());
    let error = read_config("/x", file).unwrap_err();
    assert_eq!(error.message(), "missing field `server`");
}

#[test]
fn numbers_in_decimal() {
    for n in [0, 7, 9, 10, 25, 100, 1009, u64::MAX] {
        assert_eq!(decimal(n), n.to_string());
    }
    assert_eq!(inhibit_command(u64::MAX).args[10], "sleep 18446744073709551615");
    assert_eq!(inhibit_command(0).args[10], "sleep 0");
}

#[test]
fn pieces_of_text() {
    assert!(has_prefix("\u{e9}ab", "\u{e9}a"));
    assert!(has_prefix("ab", ""));
    assert!(!has_prefix("a", "ab"));
    assert!(!has_prefix("ba", "a"));
    assert!(same_text("a", "a") && !same_text("a", "A"));
    assert!(holds_char("a\0b", '\0') && !holds_char("ab", '\0'));
    assert_eq!(trim_trailing("a/b//", '/'), "a/b");
    assert_eq!(trim_trailing("/\u{e9}", '/'), "/\u{e9}");
    assert_eq!(trim_trailing("///", '/'), "");
}
