use kaulan::config::{
    config_dir_from, default_media_types, default_periodic_discovery_enabled,
    generate_fallback_device_name, get_config_dir, get_config_path, get_configured_device_name,
    get_hostname_device_name, is_generic_hostname, load_config,
    load_media_types, load_or_create_device_id, load_periodic_discovery_enabled, save_config,
    save_media_types, save_periodic_discovery_enabled, set_device_name, with_device_id, Config,
};

fn strings(v: &[&str]) -> Vec<String> {
    v.iter().map(|s| s.to_string()).collect()
}

fn sample() -> Config {
    Config {
        music_directory: Some("/music".to_string()),
        device_id: Some("abc-def-123".to_string()),
        device_name: Some("Den".to_string()),
        periodic_discovery_enabled: false,
        media_types: Some(strings(&["video"])),
    }
}

#[test]
fn defaults_of_a_fresh_installation() {
    let c = Config::default();
    assert!(c.music_directory.is_none() && c.device_id.is_none() && c.device_name.is_none());
    assert!(c.periodic_discovery_enabled);
    assert_eq!(c.media_types, Some(strings(&["audio"])));
    assert_eq!(default_media_types(), Some(strings(&["audio"])));
    assert!(default_periodic_discovery_enabled());
}

#[test]
fn settings_defaults_law_on_missing_file() {
    assert!(load_periodic_discovery_enabled(None));
    assert_eq!(load_media_types(None), strings(&["audio"]));
    assert_eq!(load_config(None), None);
    assert_eq!(get_configured_device_name(None), None);
}

#[test]
fn music_directory_is_saved_and_read_back() {
    let saved = save_config(Some(sample()), "/new");
    assert_eq!(load_config(Some(&saved)), Some("/new".to_string()));
    assert_eq!(saved.device_name.as_deref(), Some("Den"));
    let fresh = save_config(None, "/m");
    assert_eq!(fresh.music_directory.as_deref(), Some("/m"));
    assert!(fresh.periodic_discovery_enabled);
}

#[test]
fn device_name_must_have_1_to_64_characters() {
    let ok = set_device_name(Some(sample()), "Living room").unwrap();
    assert_eq!(get_configured_device_name(Some(&ok)), Some("Living room".to_string()));
    assert_eq!(ok.music_directory.as_deref(), Some("/music"));
    assert_eq!(set_device_name(None, "").err(), Some("Device name must be 1-64 characters".to_string()));
    let long = "x".repeat(65);
    assert!(set_device_name(None, &long).is_err());
    assert!(set_device_name(None, &"名".repeat(33)).is_ok());
    assert!(set_device_name(None, &"名".repeat(64)).is_ok());
    assert!(set_device_name(None, &"名".repeat(65)).is_err());
    assert!(set_device_name(None, &"x".repeat(64)).is_ok());
}

#[test]
fn periodic_discovery_round_trips() {
    let off = save_periodic_discovery_enabled(None, false);
    assert!(!load_periodic_discovery_enabled(Some(&off)));
    let on = save_periodic_discovery_enabled(Some(sample()), true);
    assert!(load_periodic_discovery_enabled(Some(&on)));
    assert_eq!(on.device_id.as_deref(), Some("abc-def-123"));
}

#[test]
fn media_types_round_trip_and_validation() {
    let both = strings(&["audio", "video"]);
    let saved = save_media_types(Some(sample()), &both).unwrap();
    assert_eq!(load_media_types(Some(&saved)), both);
    assert_eq!(saved.device_name.as_deref(), Some("Den"));
    assert_eq!(
        save_media_types(None, &strings(&["audio", "images"])).err(),
        Some("Invalid media type: images. Must be 'audio' or 'video'.".to_string())
    );
    assert_eq!(
        save_media_types(None, &vec![]).err(),
        Some("At least one media type must be selected.".to_string())
    );
}

#[test]
fn generic_hostnames_are_not_device_names() {
    assert!(is_generic_hostname(" LocalHost "));
    assert!(is_generic_hostname(""));
    assert!(is_generic_hostname("android"));
    assert!(!is_generic_hostname("studio-pc"));
    assert_eq!(get_hostname_device_name(Some("studio-pc".to_string())), Some("studio-pc".to_string()));
    assert_eq!(get_hostname_device_name(Some("localhost".to_string())), None);
    assert_eq!(get_hostname_device_name(None), None);
    assert_eq!(get_hostname_device_name(Some("  ANDROID ".to_string())), None);
}

#[test]
fn fallback_device_name_uses_id_prefix() {
    assert_eq!(generate_fallback_device_name("12-34-56-78"), "Kaulan Player 123456");
    assert_eq!(generate_fallback_device_name("ab"), "Kaulan Player ab");
    assert_eq!(generate_fallback_device_name("---"), "Kaulan Player");
}

#[test]
fn config_directory_choice() {
    assert_eq!(config_dir_from(Some("/o"), Some("android"), Some("/a"), Some("/u")), Some("/o".to_string()));
    assert_eq!(config_dir_from(None, Some("android"), Some("/a"), Some("/u")), Some("/a".to_string()));
    assert_eq!(config_dir_from(None, Some("android"), None, Some("/u")), None);
    assert_eq!(config_dir_from(None, None, None, Some("/u/.config")), Some("/u/.config/kaulan".to_string()));
    assert_eq!(config_dir_from(None, Some("linux"), None, None), None);
    assert_eq!(get_config_dir(Some("/o"), None, None), Some("/o".to_string()));
    assert_eq!(get_config_path(Some("/o")), Some("/o/config.json".to_string()));
    assert_eq!(get_config_path(None), None);
}

#[test]
fn device_id_is_kept_or_made() {
    let c = sample();
    let random: [u8; 16] = [0, 1, 2, 3, 4, 5, 6, 7, 8, 9, 10, 11, 12, 13, 14, 15];
    assert_eq!(load_or_create_device_id(Some(&c), random), ("abc-def-123".to_string(), false));
    let (id, fresh) = load_or_create_device_id(None, random);
    assert!(fresh);
    assert_eq!(id, "00010203-0405-4607-8809-0a0b0c0d0e0f");
    let (id2, _) = load_or_create_device_id(None, [0xff; 16]);
    assert_eq!(id2, "ffffffff-ffff-4fff-bfff-ffffffffffff");
    let saved = with_device_id(None, &id);
    assert_eq!(saved.device_id.as_deref(), Some(id.as_str()));
}
