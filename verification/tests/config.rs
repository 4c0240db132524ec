use qqbot::config::{carried_over_settings, read_toml_table, AppConfig, SettingValue};

fn text(k: &str, v: &str) -> (String, SettingValue) {
    (k.to_string(), SettingValue::Text(v.to_string()))
}

fn integer(k: &str, v: i64) -> (String, SettingValue) {
    (k.to_string(), SettingValue::Integer(v))
}

#[test]
fn defaults() {
    let c = AppConfig::new();
    assert_eq!(c.cookie, "");
    assert_eq!(c.bot_prompt, "");
    assert_eq!(c.manger_qq_id, 0);
    assert_eq!(c.host, "0.0.0.0");
    assert_eq!(c.prot, 5410);
}

#[test]
fn every_setting_carried_over() {
    let entries = vec![
        integer("prot", 8080),
        text("host", "127.0.0.1"),
        text("api_key", "c=1"),
        integer("manger_qq_id", 12345),
        text("bot_prompt", "be brief"),
    ];
    let c = AppConfig::from_settings(&entries).unwrap();
    assert_eq!(c.cookie, "c=1");
    assert_eq!(c.bot_prompt, "be brief");
    assert_eq!(c.manger_qq_id, 12345);
    assert_eq!(c.host, "127.0.0.1");
    assert_eq!(c.prot, 8080);
}

#[test]
fn unknown_keys_ignored_and_defaults_kept() {
    let entries = vec![text("cookie", "k"), (String::from("extra"), SettingValue::Other), integer("prot", 1)];
    let c = AppConfig::from_settings(&entries).unwrap();
    assert_eq!(c.cookie, "");
    assert_eq!(c.host, "0.0.0.0");
    assert_eq!(c.prot, 1);
}

#[test]
fn negative_number_keeps_its_bits() {
    let c = AppConfig::from_settings(&vec![integer("manger_qq_id", -1)]).unwrap();
    assert_eq!(c.manger_qq_id, u64::MAX);
}

#[test]
fn wrong_kind_is_refused() {
    assert!(AppConfig::from_settings(&vec![integer("host", 1)]).is_none());
    assert!(AppConfig::from_settings(&vec![text("prot", "80")]).is_none());
    assert!(AppConfig::from_settings(&vec![(String::from("api_key"), SettingValue::Other)]).is_none());
    assert!(AppConfig::from_settings(&vec![(String::from("cookie"), SettingValue::Other)]).is_some());
}

#[test]
fn empty_file_gives_defaults() {
    let c = AppConfig::from_settings(&vec![]).unwrap();
    assert_eq!(c.host, "0.0.0.0");
    assert_eq!(c.prot, 5410);
}

#[test]
fn carried_over_from_text() {
    let c = carried_over_settings("api_key = \"k1\"\nprot = 99\nname = true\n").unwrap();
    assert_eq!(c.cookie, "k1");
    assert_eq!(c.prot, 99);
    assert_eq!(c.host, "0.0.0.0");
    let c = carried_over_settings("cookie = \"x\"\n").unwrap();
    assert_eq!(c.cookie, "");
}

#[test]
fn carried_over_refusals() {
    assert!(carried_over_settings("this is = = not toml").is_none());
    assert!(carried_over_settings("prot = \"80\"").is_none());
}

#[test]
fn toml_entries() {
    let e = read_toml_table("a = \"s\"\nb = 3\nc = 1.5\n").unwrap();
    assert_eq!(e.len(), 3);
    assert!(e.iter().any(|(k, v)| k == "a" && matches!(v, SettingValue::Text(s) if s == "s")));
    assert!(e.iter().any(|(k, v)| k == "b" && matches!(v, SettingValue::Integer(3))));
    assert!(e.iter().any(|(k, v)| k == "c" && matches!(v, SettingValue::Other)));
    assert!(read_toml_table("[").is_none());
}
