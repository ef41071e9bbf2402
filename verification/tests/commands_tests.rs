use handy_settings::commands::change_app_language_setting;
use handy_settings::commands::change_append_trailing_space_setting;
use handy_settings::commands::change_audio_feedback_setting;
use handy_settings::commands::change_audio_feedback_volume_setting;
use handy_settings::commands::change_autostart_setting;
use handy_settings::commands::change_clipboard_handling_setting;
use handy_settings::commands::change_debug_mode_setting;
use handy_settings::commands::change_mute_while_recording_setting;
use handy_settings::commands::change_overlay_position_setting;
use handy_settings::commands::change_paste_method_setting;
use handy_settings::commands::change_ptt_setting;
use handy_settings::commands::change_selected_language_setting;
use handy_settings::commands::change_sound_theme_setting;
use handy_settings::commands::change_start_hidden_setting;
use handy_settings::commands::change_translate_to_english_setting;
use handy_settings::commands::change_update_checks_setting;
use handy_settings::commands::change_word_correction_threshold_setting;
use handy_settings::commands::update_custom_words;
use handy_settings::commands::NoticeValue;
use handy_settings::commands::SettingChanged;
use handy_settings::json::Number;
use handy_settings::options::ClipboardHandling;
use handy_settings::options::OverlayPosition;
use handy_settings::options::PasteMethod;
use handy_settings::options::SoundTheme;
use handy_settings::platform::Environment;
use handy_settings::platform::Platform;
use handy_settings::settings::get_default_settings;
use handy_settings::settings::AppSettings;
use handy_settings::store::get_settings;
use handy_settings::store::SettingsStore;

fn environment() -> Environment {
    Environment { platform: Platform::Windows, locale: Some("en_US".to_string()) }
}

fn fresh() -> SettingsStore {
    SettingsStore::new(environment(), Some(get_default_settings(&environment()).encode()))
}

fn defaults() -> AppSettings {
    get_default_settings(&environment())
}

fn notice(setting: &str, value: bool) -> Result<SettingChanged, String> {
    Ok(SettingChanged { setting: setting.to_string(), value: NoticeValue::Switch(value) })
}

#[test]
fn switches_change_one_setting_each() {
    let mut store = fresh();
    let mut expected = defaults();

    assert_eq!(change_ptt_setting(&mut store, false), Ok(()));
    expected.push_to_talk = false;
    assert_eq!(get_settings(&mut store), expected);

    assert_eq!(change_audio_feedback_setting(&mut store, true), Ok(()));
    expected.audio_feedback = true;
    assert_eq!(get_settings(&mut store), expected);

    assert_eq!(change_translate_to_english_setting(&mut store, true), Ok(()));
    expected.translate_to_english = true;
    assert_eq!(get_settings(&mut store), expected);

    assert_eq!(change_mute_while_recording_setting(&mut store, true), Ok(()));
    expected.mute_while_recording = true;
    assert_eq!(get_settings(&mut store), expected);

    assert_eq!(change_append_trailing_space_setting(&mut store, true), Ok(()));
    expected.append_trailing_space = true;
    assert_eq!(get_settings(&mut store), expected);
    assert!(store.is_dirty());
}

#[test]
fn switches_that_others_listen_to_give_a_notice() {
    let mut store = fresh();
    let mut expected = defaults();

    assert_eq!(change_debug_mode_setting(&mut store, true), notice("debug_mode", true));
    expected.debug_mode = true;
    assert_eq!(get_settings(&mut store), expected);

    assert_eq!(change_start_hidden_setting(&mut store, true), notice("start_hidden", true));
    expected.start_hidden = true;
    assert_eq!(get_settings(&mut store), expected);

    assert_eq!(change_autostart_setting(&mut store, true), notice("autostart_enabled", true));
    expected.autostart_enabled = true;
    assert_eq!(get_settings(&mut store), expected);

    assert_eq!(
        change_update_checks_setting(&mut store, false),
        notice("update_checks_enabled", false)
    );
    expected.update_checks_enabled = false;
    assert_eq!(get_settings(&mut store), expected);

    assert_eq!(change_debug_mode_setting(&mut store, false), notice("debug_mode", false));
    expected.debug_mode = false;
    assert_eq!(get_settings(&mut store), expected);
}

#[test]
fn numbers_are_kept_as_they_are_given() {
    let mut store = fresh();
    let mut expected = defaults();
    let volume = Number::Float(0.25f64.to_bits());
    let threshold = Number::Float(0.3f64.to_bits());
    assert_eq!(change_audio_feedback_volume_setting(&mut store, volume), Ok(()));
    assert_eq!(change_word_correction_threshold_setting(&mut store, threshold), Ok(()));
    expected.audio_feedback_volume = volume;
    expected.word_correction_threshold = threshold;
    assert_eq!(get_settings(&mut store), expected);
}

#[test]
fn texts_are_kept_as_they_are_given() {
    let mut store = fresh();
    let mut expected = defaults();
    assert_eq!(change_selected_language_setting(&mut store, "de".to_string()), Ok(()));
    assert_eq!(
        change_app_language_setting(&mut store, "pt-BR".to_string()),
        Ok(SettingChanged {
            setting: "app_language".to_string(),
            value: NoticeValue::Text("pt-BR".to_string())
        })
    );
    let words = vec!["Verus".to_string(), "Tauri".to_string()];
    assert_eq!(update_custom_words(&mut store, words.clone()), Ok(()));
    expected.selected_language = "de".to_string();
    expected.app_language = "pt-BR".to_string();
    expected.custom_words = words;
    assert_eq!(get_settings(&mut store), expected);
}

#[test]
fn sound_themes_by_name() {
    for (name, theme) in [
        ("marimba", SoundTheme::Marimba),
        ("pop", SoundTheme::Pop),
        ("custom", SoundTheme::Custom),
        ("trumpet", SoundTheme::Marimba),
        ("", SoundTheme::Marimba),
        ("Pop", SoundTheme::Marimba),
    ] {
        let mut store = fresh();
        assert_eq!(change_sound_theme_setting(&mut store, name.to_string()), Ok(()));
        assert_eq!(get_settings(&mut store).sound_theme, theme, "{:?}", name);
    }
}

#[test]
fn overlay_positions_by_name() {
    for (name, position) in [
        ("none", OverlayPosition::Hidden),
        ("top", OverlayPosition::Top),
        ("bottom", OverlayPosition::Bottom),
        ("left", OverlayPosition::Bottom),
        ("hidden", OverlayPosition::Bottom),
    ] {
        let mut store = fresh();
        assert_eq!(change_overlay_position_setting(&mut store, "top".to_string()), Ok(()));
        assert_eq!(change_overlay_position_setting(&mut store, name.to_string()), Ok(()));
        assert_eq!(get_settings(&mut store).overlay_position, position, "{:?}", name);
    }
}

#[test]
fn paste_methods_by_name() {
    for (name, method) in [
        ("ctrl_v", PasteMethod::CtrlV),
        ("direct", PasteMethod::Direct),
        ("none", PasteMethod::Disabled),
        ("shift_insert", PasteMethod::ShiftInsert),
        ("ctrl_shift_v", PasteMethod::CtrlShiftV),
        ("typing", PasteMethod::CtrlV),
    ] {
        let mut store = fresh();
        assert_eq!(change_paste_method_setting(&mut store, "direct".to_string()), Ok(()));
        assert_eq!(change_paste_method_setting(&mut store, name.to_string()), Ok(()));
        assert_eq!(get_settings(&mut store).paste_method, method, "{:?}", name);
    }
}

#[test]
fn clipboard_handling_by_name() {
    for (name, handling) in [
        ("dont_modify", ClipboardHandling::DontModify),
        ("copy_to_clipboard", ClipboardHandling::CopyToClipboard),
        ("keep", ClipboardHandling::DontModify),
    ] {
        let mut store = fresh();
        assert_eq!(
            change_clipboard_handling_setting(&mut store, "copy_to_clipboard".to_string()),
            Ok(())
        );
        assert_eq!(change_clipboard_handling_setting(&mut store, name.to_string()), Ok(()));
        assert_eq!(get_settings(&mut store).clipboard_handling, handling, "{:?}", name);
    }
}

#[test]
fn a_command_on_a_store_without_a_document_starts_from_the_defaults() {
    let mut store = SettingsStore::new(environment(), None);
    assert_eq!(change_ptt_setting(&mut store, false), Ok(()));
    let mut expected = defaults();
    expected.push_to_talk = false;
    assert_eq!(get_settings(&mut store), expected);
    assert_eq!(store.document(), Some(&expected.encode()));
}
