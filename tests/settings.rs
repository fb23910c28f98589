use fritz_logger::backend::BackendKind;
use fritz_logger::settings::{
    add_defaults, defaults, get_base, get_csv, get_for_backend, load, refresh, render_block,
    BackendSettings, ConfigError, ConfigStore, Entry, Section, Value,
};

fn entry(section: &str, key: &str, value: Value) -> Entry {
    Entry { section: section.to_string(), key: key.to_string(), value }
}

fn base_store() -> ConfigStore {
    let mut store = ConfigStore::new();
    assert!(add_defaults(&mut store, Section::Base).is_ok());
    store
}

#[test]
fn defaults_read_back_unchanged() {
    let store = base_store();
    let base = get_base(&store).ok().unwrap();
    assert_eq!(base.url, "http://fritz.box");
    assert_eq!(base.username, "");
    assert_eq!(base.password, "");
    assert_eq!(base.interval, 60);
    assert_eq!(base.backends, vec!["Console".to_string()]);
}

#[test]
fn loading_one_key_keeps_the_others() {
    let mut store = base_store();
    load(&mut store, vec![entry("Base", "interval", Value::Int(30))]);
    let base = get_base(&store).ok().unwrap();
    assert_eq!(base.interval, 30);
    assert_eq!(base.url, "http://fritz.box");
    assert_eq!(base.username, "");
    assert_eq!(base.backends, vec!["Console".to_string()]);
}

#[test]
fn later_files_win() {
    let mut store = base_store();
    load(&mut store, vec![entry("Base", "url", Value::Str("http://a".to_string()))]);
    load(&mut store, vec![entry("Base", "url", Value::Str("http://b".to_string()))]);
    assert_eq!(get_base(&store).ok().unwrap().url, "http://b");
}

#[test]
fn loaded_values_beat_later_defaults() {
    let mut store = ConfigStore::new();
    load(&mut store, vec![entry("Csv", "out_dir", Value::Str("/var/log".to_string()))]);
    assert!(add_defaults(&mut store, Section::Csv).is_ok());
    assert_eq!(get_csv(&store).ok().unwrap().out_dir, "/var/log");
    assert!(store.default_text().contains("out_dir = \"/var/log\""));
}

#[test]
fn unregistered_section_is_missing() {
    let store = base_store();
    assert!(matches!(
        get_csv(&store),
        Err(ConfigError::Missing { ref section, ref key }) if section == "Csv" && key == "out_dir"
    ));
}

#[test]
fn value_of_wrong_type_is_refused() {
    let mut store = base_store();
    load(&mut store, vec![entry("Base", "interval", Value::Str("often".to_string()))]);
    assert!(matches!(
        get_base(&store),
        Err(ConfigError::WrongType { ref key, .. }) if key == "interval"
    ));
}

#[test]
fn negative_interval_is_refused() {
    let mut store = base_store();
    load(&mut store, vec![entry("Base", "interval", Value::Int(-1))]);
    assert!(matches!(get_base(&store), Err(ConfigError::WrongType { .. })));
}

#[test]
fn refresh_checks_every_registered_section() {
    let mut store = base_store();
    assert!(refresh(&store).is_ok());
    load(&mut store, vec![entry("Base", "url", Value::Bool(true))]);
    assert!(refresh(&store).is_err());
}

#[test]
fn defaults_text_has_one_block_per_section_with_options() {
    let mut store = base_store();
    let text = defaults(&mut store).ok().unwrap();
    assert!(text.starts_with("[Base]\n"));
    assert!(text.contains("url = \"http://fritz.box\"\n"));
    assert!(text.contains("interval = 60\n"));
    assert!(text.contains("[Csv]\nout_dir = \".\"\n\n"));
    assert!(!text.contains("[Console]"));
    assert_eq!(text.matches('[').count() - text.matches("[\"").count(), 2);
}

#[test]
fn empty_body_renders_nothing() {
    assert_eq!(render_block("Console", ""), "");
    assert_eq!(render_block("A", "x = 1\n"), "[A]\nx = 1\n\n");
}

#[test]
fn section_defaults_are_listed() {
    let pairs = Section::Csv.defaults();
    assert_eq!(pairs.len(), 1);
    assert_eq!(pairs[0].0, "out_dir");
    assert!(matches!(pairs[0].1, Value::Str(ref s) if s == "."));
    assert_eq!(Section::Base.defaults().len(), 5);
    assert_eq!(Section::Console.name(), "Console");
}

#[test]
fn backend_settings_come_from_their_section() {
    let mut store = ConfigStore::new();
    assert!(get_for_backend(&store, BackendKind::Console).is_err());
    assert!(add_defaults(&mut store, Section::Console).is_ok());
    assert!(add_defaults(&mut store, Section::Csv).is_ok());
    assert!(matches!(get_for_backend(&store, BackendKind::Console), Ok(BackendSettings::Console(_))));
    load(&mut store, vec![entry("Csv", "out_dir", Value::Str("/tmp/x".to_string()))]);
    match get_for_backend(&store, BackendKind::Csv) {
        Ok(BackendSettings::Csv(s)) => assert_eq!(s.out_dir, "/tmp/x"),
        _ => panic!("expected CSV settings"),
    }
}
