use songrec::preferences::{Preferences, PreferencesInterface};

fn same(a: &Preferences, b: &Preferences) -> bool {
    a.enable_notifications == b.enable_notifications
        && a.enable_mpris == b.enable_mpris
        && a.no_duplicates == b.no_duplicates
        && a.buffer_size_secs == b.buffer_size_secs
        && a.request_interval_secs == b.request_interval_secs
        && a.request_interval_secs_v2 == b.request_interval_secs_v2
        && a.request_interval_secs_v3 == b.request_interval_secs_v3
        && a.current_device_name == b.current_device_name
}

#[test]
fn new_sets_nothing() {
    let prefs = Preferences::new();
    assert_eq!(prefs.enable_notifications, None);
    assert_eq!(prefs.enable_mpris, None);
    assert_eq!(prefs.no_duplicates, None);
    assert_eq!(prefs.buffer_size_secs, None);
    assert_eq!(prefs.request_interval_secs, None);
    assert_eq!(prefs.request_interval_secs_v2, None);
    assert_eq!(prefs.request_interval_secs_v3, None);
    assert_eq!(prefs.current_device_name, None);
}

#[test]
fn with_interval_is_builtin_with_that_interval() {
    let prefs = Preferences::with_interval(10);
    assert_eq!(prefs.enable_notifications, Some(true));
    assert_eq!(prefs.enable_mpris, Some(false));
    assert_eq!(prefs.no_duplicates, Some(true));
    assert_eq!(prefs.buffer_size_secs, Some(12));
    assert_eq!(prefs.request_interval_secs, None);
    assert_eq!(prefs.request_interval_secs_v2, None);
    assert_eq!(prefs.request_interval_secs_v3, Some(10));
    assert_eq!(prefs.current_device_name, None);
}

#[test]
fn default_has_interval_of_eight() {
    let prefs = Preferences::default();
    assert!(same(&prefs, &Preferences::with_interval(8)));
    assert_eq!(prefs.request_interval(), 8);
    assert_eq!(prefs.buffer_size(), 12);
    assert!(prefs.suppress_duplicates());
}

#[test]
fn merging_nothing_into_default_gives_default() {
    let merged = Preferences::default().merge(Preferences::new());
    assert!(same(&merged, &Preferences::default()));
    let again = merged.merge(Preferences::new());
    assert!(same(&again, &Preferences::default()));
}

#[test]
fn first_generation_default_is_upgraded() {
    let mut current = Preferences::new();
    current.request_interval_secs = Some(4);
    let merged = current.merge(Preferences::new());
    assert_eq!(merged.request_interval_secs, None);
    assert_eq!(merged.request_interval_secs_v2, None);
    assert_eq!(merged.request_interval_secs_v3, None);
    assert_eq!(merged.request_interval(), 8);
}

#[test]
fn second_generation_default_is_upgraded() {
    let mut current = Preferences::default();
    current.request_interval_secs_v2 = Some(10);
    let merged = current.merge(Preferences::new());
    assert_eq!(merged.request_interval_secs_v2, None);
    assert_eq!(merged.request_interval_secs_v3, Some(8));
}

#[test]
fn customized_first_generation_value_survives() {
    let mut current = Preferences::default();
    current.request_interval_secs = Some(6);
    current.request_interval_secs_v2 = Some(7);
    assert_eq!(current.request_interval(), 6);
    let merged = current.merge(Preferences::new());
    assert_eq!(merged.request_interval_secs, None);
    assert_eq!(merged.request_interval_secs_v2, None);
    assert_eq!(merged.request_interval_secs_v3, Some(6));
}

#[test]
fn customized_second_generation_value_survives() {
    let mut current = Preferences::default();
    current.request_interval_secs = Some(4);
    current.request_interval_secs_v2 = Some(7);
    let merged = current.merge(Preferences::new());
    assert_eq!(merged.request_interval_secs_v3, Some(7));
}

#[test]
fn interval_of_the_update_wins() {
    let mut current = Preferences::default();
    current.request_interval_secs = Some(6);
    let mut incoming = Preferences::new();
    incoming.request_interval_secs_v2 = Some(15);
    let merged = current.merge(incoming);
    assert_eq!(merged.request_interval_secs_v3, Some(15));
}

#[test]
fn update_takes_each_field_that_is_set() {
    let mut current = Preferences::default();
    current.current_device_name = Some("mic".to_string());
    let mut incoming = Preferences::new();
    incoming.enable_notifications = Some(false);
    incoming.no_duplicates = Some(false);
    incoming.buffer_size_secs = Some(20);
    let merged = current.merge(incoming);
    assert_eq!(merged.enable_notifications, Some(false));
    assert_eq!(merged.enable_mpris, Some(false));
    assert_eq!(merged.no_duplicates, Some(false));
    assert_eq!(merged.buffer_size_secs, Some(20));
    assert_eq!(merged.request_interval_secs_v3, Some(8));
    assert_eq!(merged.current_device_name, Some("mic".to_string()));
    assert!(!merged.suppress_duplicates());
    assert_eq!(merged.buffer_size(), 20);
}

#[test]
fn media_control_switch_does_not_touch_duplicates() {
    let mut incoming = Preferences::new();
    incoming.enable_mpris = Some(true);
    let merged = Preferences::default().merge(incoming);
    assert_eq!(merged.enable_mpris, Some(true));
    assert_eq!(merged.no_duplicates, Some(true));
    let mut current = Preferences::default();
    current.no_duplicates = Some(false);
    let mut incoming = Preferences::new();
    incoming.enable_mpris = Some(true);
    assert_eq!(current.merge(incoming).no_duplicates, Some(false));
}

#[test]
fn device_name_of_the_update_wins() {
    let mut current = Preferences::default();
    current.current_device_name = Some("old".to_string());
    let mut incoming = Preferences::new();
    incoming.current_device_name = Some("new".to_string());
    assert_eq!(current.merge(incoming).current_device_name, Some("new".to_string()));
}

#[test]
fn interface_falls_back_to_defaults() {
    let interface = PreferencesInterface::new(Some("/tmp/preferences.toml".to_string()), None);
    assert_eq!(interface.preferences_file_path, Some("/tmp/preferences.toml".to_string()));
    assert!(same(&interface.preferences, &Preferences::default()));
    let interface = PreferencesInterface::new(None, None);
    assert_eq!(interface.preferences_file_path, None);
    assert!(same(&interface.preferences, &Preferences::default()));
}

#[test]
fn interface_keeps_what_was_loaded() {
    let mut loaded = Preferences::new();
    loaded.request_interval_secs = Some(4);
    let interface = PreferencesInterface::new(None, Some(loaded));
    assert_eq!(interface.preferences.request_interval_secs, Some(4));
    assert_eq!(interface.preferences.request_interval_secs_v3, None);
    assert_eq!(interface.preferences.request_interval(), 8);
}

#[test]
fn interface_update_merges_and_keeps_path() {
    let mut interface = PreferencesInterface::new(
        Some("prefs.toml".to_string()),
        Some(Preferences::with_interval(10)),
    );
    let mut incoming = Preferences::new();
    incoming.no_duplicates = Some(false);
    interface.update(incoming);
    assert_eq!(interface.preferences_file_path, Some("prefs.toml".to_string()));
    assert_eq!(interface.preferences.no_duplicates, Some(false));
    assert_eq!(interface.preferences.request_interval_secs_v3, Some(10));
    interface.update(Preferences::new());
    assert_eq!(interface.preferences.no_duplicates, Some(false));
    assert_eq!(interface.preferences.request_interval_secs_v3, Some(10));
}
