use flashcap::settings::parse_save_directory_setting;
use flashcap::settings::resolve_exclude_shadow;
use flashcap::settings::resolve_timer_delay;
use flashcap::settings::save_directory_for;
use flashcap::settings::SaveDirectorySetting;

#[test]
fn missing_save_directory_defaults_to_temp() {
    assert!(matches!(parse_save_directory_setting(None), SaveDirectorySetting::Temp));
}

#[test]
fn tmp_sentinel_selects_temp() {
    assert!(matches!(parse_save_directory_setting(Some("tmp")), SaveDirectorySetting::Temp));
}

#[test]
fn macos_default_sentinel_selects_os_default() {
    assert!(matches!(
        parse_save_directory_setting(Some("macos_default")),
        SaveDirectorySetting::OsDefault
    ));
}

#[test]
fn custom_tag_keeps_the_path() {
    match parse_save_directory_setting(Some("custom:/Users/me/Shots")) {
        SaveDirectorySetting::Custom(p) => assert_eq!(p, "/Users/me/Shots"),
        _ => panic!("expected a custom setting"),
    }
}

#[test]
fn unrecognized_value_defaults_to_temp() {
    assert!(matches!(
        parse_save_directory_setting(Some("somewhere")),
        SaveDirectorySetting::Temp
    ));
}

#[test]
fn empty_custom_path_defaults_to_temp() {
    assert!(matches!(parse_save_directory_setting(Some("custom:")), SaveDirectorySetting::Temp));
}

#[test]
fn exclude_shadow_defaults_to_true() {
    assert!(resolve_exclude_shadow(None));
    assert!(resolve_exclude_shadow(Some(true)));
    assert!(!resolve_exclude_shadow(Some(false)));
}

#[test]
fn timer_delay_defaults_to_five() {
    assert_eq!(resolve_timer_delay(None), 5);
    assert_eq!(resolve_timer_delay(Some(0)), 0);
    assert_eq!(resolve_timer_delay(Some(12)), 12);
}

#[test]
fn temp_setting_resolves_to_fixed_directory() {
    let dir = save_directory_for(&SaveDirectorySetting::Temp, None, None);
    assert_eq!(dir, "/tmp/flashcap");
}

#[test]
fn custom_setting_resolves_to_its_path() {
    let setting = SaveDirectorySetting::Custom(String::from("/Users/me/Shots"));
    let dir = save_directory_for(&setting, None, None);
    assert_eq!(dir, "/Users/me/Shots");
}

#[test]
fn os_default_uses_trimmed_tool_output() {
    let dir = save_directory_for(
        &SaveDirectorySetting::OsDefault,
        Some(String::from("  /Users/me/Desktop\n")),
        Some(String::from("/Users/me/DesktopDir")),
    );
    assert_eq!(dir, "/Users/me/Desktop");
}

#[test]
fn os_default_falls_back_to_desktop_then_fixed() {
    let dir = save_directory_for(
        &SaveDirectorySetting::OsDefault,
        None,
        Some(String::from("/Users/me/DesktopDir")),
    );
    assert_eq!(dir, "/Users/me/DesktopDir");
    let dir = save_directory_for(&SaveDirectorySetting::OsDefault, None, None);
    assert_eq!(dir, "/tmp/flashcap");
}

#[test]
fn os_default_with_blank_tool_output_falls_back() {
    let dir = save_directory_for(
        &SaveDirectorySetting::OsDefault,
        Some(String::from(" \n\t")),
        Some(String::from("/Users/me/DesktopDir")),
    );
    assert_eq!(dir, "/Users/me/DesktopDir");
}
