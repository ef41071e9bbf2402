use handy_settings::bindings::BindingMap;
use handy_settings::bindings::ShortcutBinding;
use handy_settings::json::Json;
use handy_settings::json::Number;
use handy_settings::options::ClipboardHandling;
use handy_settings::options::KeyboardImplementation;
use handy_settings::options::LogLevel;
use handy_settings::options::ModelUnloadTimeout;
use handy_settings::options::OverlayPosition;
use handy_settings::options::PasteMethod;
use handy_settings::options::RecordingRetentionPeriod;
use handy_settings::options::SoundTheme;
use handy_settings::platform::Environment;
use handy_settings::platform::Platform;
use handy_settings::settings::default_always_on_microphone;
use handy_settings::settings::default_app_language;
use handy_settings::settings::default_audio_feedback_volume;
use handy_settings::settings::default_autostart_enabled;
use handy_settings::settings::default_debug_mode;
use handy_settings::settings::default_history_limit;
use handy_settings::settings::default_log_level;
use handy_settings::settings::default_model;
use handy_settings::settings::default_overlay_position;
use handy_settings::settings::default_paste_delay_ms;
use handy_settings::settings::default_recording_retention_period;
use handy_settings::settings::default_selected_language;
use handy_settings::settings::default_sound_theme;
use handy_settings::settings::default_start_hidden;
use handy_settings::settings::default_translate_to_english;
use handy_settings::settings::default_update_checks_enabled;
use handy_settings::settings::default_word_correction_threshold;
use handy_settings::settings::get_default_bindings;
use handy_settings::settings::get_default_settings;
use handy_settings::settings::AppSettings;

fn text(s: &str) -> Json {
    Json::String(s.to_string())
}

fn object(members: Vec<(&str, Json)>) -> Json {
    Json::Object(members.into_iter().map(|(k, v)| (k.to_string(), v)).collect())
}

fn environment(platform: Platform, locale: Option<&str>) -> Environment {
    Environment { platform, locale: locale.map(|l| l.to_string()) }
}

fn binding(id: &str, name: &str, description: &str, default: &str, current: &str) -> ShortcutBinding {
    ShortcutBinding {
        id: id.to_string(),
        name: name.to_string(),
        description: description.to_string(),
        default_binding: default.to_string(),
        current_binding: current.to_string(),
    }
}

#[test]
fn defaults_of_single_settings() {
    assert_eq!(default_model(), "");
    assert!(!default_always_on_microphone());
    assert!(!default_translate_to_english());
    assert!(!default_start_hidden());
    assert!(!default_autostart_enabled());
    assert!(default_update_checks_enabled());
    assert_eq!(default_selected_language(), "auto");
    assert!(!default_debug_mode());
    assert_eq!(default_log_level(), LogLevel::Debug);
    assert_eq!(default_paste_delay_ms(), 60);
    assert_eq!(default_history_limit(), 5);
    assert_eq!(default_recording_retention_period(), RecordingRetentionPeriod::PreserveLimit);
    assert_eq!(default_sound_theme(), SoundTheme::Marimba);
}

#[test]
fn default_numbers_are_the_bits_of_the_doubles() {
    assert_eq!(default_audio_feedback_volume(), Number::Float(1.0f64.to_bits()));
    assert_eq!(default_word_correction_threshold(), Number::Float(0.18f64.to_bits()));
}

#[test]
fn default_overlay_position_by_platform() {
    assert_eq!(default_overlay_position(Platform::Linux), OverlayPosition::Hidden);
    assert_eq!(default_overlay_position(Platform::Windows), OverlayPosition::Bottom);
    assert_eq!(default_overlay_position(Platform::MacOs), OverlayPosition::Bottom);
    assert_eq!(default_overlay_position(Platform::Other), OverlayPosition::Bottom);
}

#[test]
fn default_language_of_the_interface() {
    assert_eq!(default_app_language(&Some("en_US".to_string())), "en-US");
    assert_eq!(default_app_language(&Some("de-DE".to_string())), "de-DE");
    assert_eq!(default_app_language(&None), "en");
}

#[test]
fn default_bindings_by_platform() {
    for (platform, shortcut) in [
        (Platform::Windows, "ctrl+space"),
        (Platform::MacOs, "option+space"),
        (Platform::Linux, "ctrl+space"),
        (Platform::Other, "alt+space"),
    ] {
        let bindings = get_default_bindings(platform);
        assert_eq!(bindings.len(), 2);
        assert_eq!(bindings.keys(), vec!["transcribe".to_string(), "cancel".to_string()]);
        assert_eq!(
            bindings.get("transcribe"),
            Some(&binding(
                "transcribe",
                "Transcribe",
                "Converts your speech into text.",
                shortcut,
                shortcut
            ))
        );
        assert_eq!(
            bindings.get("cancel"),
            Some(&binding("cancel", "Cancel", "Cancels the current recording.", "escape", "escape"))
        );
    }
}

#[test]
fn default_settings_on_linux() {
    let s = get_default_settings(&environment(Platform::Linux, Some("fr_CA")));
    assert_eq!(s.bindings, get_default_bindings(Platform::Linux));
    assert!(s.push_to_talk);
    assert!(!s.audio_feedback);
    assert_eq!(s.audio_feedback_volume, Number::Float(1.0f64.to_bits()));
    assert_eq!(s.sound_theme, SoundTheme::Marimba);
    assert!(!s.start_hidden);
    assert!(!s.autostart_enabled);
    assert!(s.update_checks_enabled);
    assert_eq!(s.selected_model, "");
    assert!(!s.always_on_microphone);
    assert_eq!(s.selected_microphone, None);
    assert_eq!(s.clamshell_microphone, None);
    assert_eq!(s.selected_output_device, None);
    assert!(!s.translate_to_english);
    assert_eq!(s.selected_language, "auto");
    assert_eq!(s.overlay_position, OverlayPosition::Hidden);
    assert!(!s.debug_mode);
    assert_eq!(s.log_level, LogLevel::Debug);
    assert!(s.custom_words.is_empty());
    assert_eq!(s.model_unload_timeout, ModelUnloadTimeout::Never);
    assert_eq!(s.word_correction_threshold, Number::Float(0.18f64.to_bits()));
    assert_eq!(s.history_limit, 5);
    assert_eq!(s.recording_retention_period, RecordingRetentionPeriod::PreserveLimit);
    assert_eq!(s.paste_method, PasteMethod::Direct);
    assert_eq!(s.clipboard_handling, ClipboardHandling::DontModify);
    assert!(!s.mute_while_recording);
    assert!(!s.append_trailing_space);
    assert_eq!(s.app_language, "fr-CA");
    assert_eq!(s.keyboard_implementation, KeyboardImplementation::Tauri);
    assert_eq!(s.paste_delay_ms, 60);
}

#[test]
fn default_settings_on_macos() {
    let s = get_default_settings(&environment(Platform::MacOs, None));
    assert_eq!(s.bindings.get("transcribe").unwrap().current_binding, "option+space");
    assert_eq!(s.overlay_position, OverlayPosition::Bottom);
    assert_eq!(s.paste_method, PasteMethod::CtrlV);
    assert_eq!(s.app_language, "en");
    assert_eq!(s.keyboard_implementation, KeyboardImplementation::HandyKeys);
}

#[test]
fn default_settings_are_the_same_every_time() {
    let env = environment(Platform::Windows, Some("en_GB"));
    assert_eq!(get_default_settings(&env), get_default_settings(&env));
}

#[test]
fn every_default_binding_has_its_default_combination_in_force() {
    for platform in [Platform::Windows, Platform::MacOs, Platform::Linux, Platform::Other] {
        let bindings = get_default_bindings(platform);
        for i in 0..bindings.len() {
            let b = bindings.binding_at(i);
            assert_eq!(b.current_binding, b.default_binding);
            assert_eq!(&b.id, bindings.key_at(i));
            assert!(!b.current_binding.trim().is_empty());
        }
    }
}

#[test]
fn the_document_of_the_defaults_has_one_member_for_each_setting() {
    let doc = get_default_settings(&environment(Platform::Linux, None)).encode();
    let members = match doc {
        Json::Object(members) => members,
        other => panic!("not an object: {:?}", other),
    };
    let keys: Vec<&str> = members.iter().map(|(k, _)| k.as_str()).collect();
    assert_eq!(
        keys,
        vec![
            "bindings",
            "push_to_talk",
            "audio_feedback",
            "audio_feedback_volume",
            "sound_theme",
            "start_hidden",
            "autostart_enabled",
            "update_checks_enabled",
            "selected_model",
            "always_on_microphone",
            "selected_microphone",
            "clamshell_microphone",
            "selected_output_device",
            "translate_to_english",
            "selected_language",
            "overlay_position",
            "debug_mode",
            "log_level",
            "custom_words",
            "model_unload_timeout",
            "word_correction_threshold",
            "history_limit",
            "recording_retention_period",
            "paste_method",
            "clipboard_handling",
            "mute_while_recording",
            "append_trailing_space",
            "app_language",
            "keyboard_implementation",
            "paste_delay_ms",
        ]
    );
    assert_eq!(members[1].1, Json::Bool(true));
    assert_eq!(members[3].1, Json::Number(Number::Float(1.0f64.to_bits())));
    assert_eq!(members[4].1, text("marimba"));
    assert_eq!(members[10].1, Json::Null);
    assert_eq!(members[15].1, text("none"));
    assert_eq!(members[17].1, text("debug"));
    assert_eq!(members[18].1, Json::Array(vec![]));
    assert_eq!(members[21].1, Json::Number(Number::PosInt(5)));
    assert_eq!(members[23].1, text("direct"));
    assert_eq!(members[28].1, text("tauri"));
    assert_eq!(members[29].1, Json::Number(Number::PosInt(60)));
}

#[test]
fn the_document_of_a_binding() {
    let b = binding("cancel", "Cancel", "Cancels the current recording.", "escape", "f1");
    assert_eq!(
        b.encode(),
        object(vec![
            ("id", text("cancel")),
            ("name", text("Cancel")),
            ("description", text("Cancels the current recording.")),
            ("default_binding", text("escape")),
            ("current_binding", text("f1")),
        ])
    );
    assert_eq!(ShortcutBinding::decode(&b.encode()), Some(b));
}

#[test]
fn a_binding_needs_all_five_strings() {
    let whole = vec![
        ("id", text("a")),
        ("name", text("b")),
        ("description", text("c")),
        ("default_binding", text("d")),
        ("current_binding", text("e")),
    ];
    assert_eq!(ShortcutBinding::decode(&object(whole.clone())), Some(binding("a", "b", "c", "d", "e")));
    for missing in 0..whole.len() {
        let mut members = whole.clone();
        members.remove(missing);
        assert_eq!(ShortcutBinding::decode(&object(members)), None);
    }
    for wrong in 0..whole.len() {
        let mut members = whole.clone();
        members[wrong].1 = Json::Null;
        assert_eq!(ShortcutBinding::decode(&object(members)), None);
    }
    assert_eq!(ShortcutBinding::decode(&Json::Null), None);
    assert_eq!(ShortcutBinding::decode(&text("a")), None);
}

#[test]
fn a_binding_may_hold_more_than_it_needs() {
    let doc = object(vec![
        ("extra", Json::Bool(true)),
        ("current_binding", text("e")),
        ("default_binding", text("d")),
        ("description", text("c")),
        ("name", text("b")),
        ("id", text("a")),
    ]);
    assert_eq!(ShortcutBinding::decode(&doc), Some(binding("a", "b", "c", "d", "e")));
}

#[test]
fn settings_are_read_back_from_their_document() {
    let mut s = get_default_settings(&environment(Platform::MacOs, Some("ja_JP")));
    s.push_to_talk = false;
    s.audio_feedback_volume = Number::Float(0.5f64.to_bits());
    s.sound_theme = SoundTheme::Custom;
    s.selected_model = "large".to_string();
    s.selected_microphone = Some("Built-in".to_string());
    s.selected_output_device = Some(String::new());
    s.overlay_position = OverlayPosition::Top;
    s.log_level = LogLevel::Error;
    s.custom_words = vec!["Verus".to_string(), "".to_string(), "naïve".to_string()];
    s.model_unload_timeout = ModelUnloadTimeout::Sec5;
    s.word_correction_threshold = Number::PosInt(1);
    s.history_limit = usize::MAX;
    s.recording_retention_period = RecordingRetentionPeriod::Months3;
    s.paste_method = PasteMethod::Disabled;
    s.clipboard_handling = ClipboardHandling::CopyToClipboard;
    s.keyboard_implementation = KeyboardImplementation::Tauri;
    s.paste_delay_ms = u64::MAX;
    s.bindings.insert("transcribe".to_string(), binding("transcribe", "T", "", "a", "b"));
    s.bindings.insert("extra".to_string(), binding("other", "O", "o", "x", "y"));
    let doc = s.encode();
    for platform in [Platform::Windows, Platform::MacOs, Platform::Linux, Platform::Other] {
        assert_eq!(AppSettings::decode(&doc, &environment(platform, None)), Some(s.clone()));
    }
}

#[test]
fn a_document_that_is_no_object_does_not_decode() {
    let env = environment(Platform::Linux, None);
    assert_eq!(AppSettings::decode(&Json::Null, &env), None);
    assert_eq!(AppSettings::decode(&Json::Bool(true), &env), None);
    assert_eq!(AppSettings::decode(&Json::Number(Number::PosInt(1)), &env), None);
    assert_eq!(AppSettings::decode(&text("settings"), &env), None);
    assert_eq!(AppSettings::decode(&Json::Array(vec![]), &env), None);
}

#[test]
fn an_empty_object_decodes_to_the_defaults() {
    let env = environment(Platform::Windows, Some("en_US"));
    assert_eq!(AppSettings::decode(&object(vec![]), &env), Some(get_default_settings(&env)));
}

#[test]
fn unknown_members_are_ignored() {
    let env = environment(Platform::Windows, None);
    let doc = object(vec![
        ("future_setting", text("x")),
        ("push_to_talk", Json::Bool(false)),
        ("another", Json::Array(vec![Json::Null])),
    ]);
    let mut expected = get_default_settings(&env);
    expected.push_to_talk = false;
    assert_eq!(AppSettings::decode(&doc, &env), Some(expected));
}

#[test]
fn each_setting_falls_back_by_itself() {
    let env = environment(Platform::Linux, Some("en_US"));
    let doc = object(vec![
        ("bindings", text("not a table")),
        ("push_to_talk", text("yes")),
        ("audio_feedback", Json::Bool(true)),
        ("audio_feedback_volume", text("loud")),
        ("sound_theme", text("trumpet")),
        ("selected_model", Json::Number(Number::PosInt(3))),
        ("selected_microphone", Json::Bool(false)),
        ("clamshell_microphone", text("USB")),
        ("overlay_position", Json::Number(Number::PosInt(1))),
        ("log_level", Json::Number(Number::PosInt(6))),
        ("custom_words", Json::Array(vec![text("ok"), Json::Null])),
        ("model_unload_timeout", text("min3")),
        ("word_correction_threshold", Json::Number(Number::PosInt(0))),
        ("history_limit", Json::Number(Number::NegInt(-1))),
        ("recording_retention_period", text("weeks2")),
        ("paste_method", Json::Null),
        ("keyboard_implementation", text("handy_keys")),
        ("paste_delay_ms", Json::Number(Number::Float(60.5f64.to_bits()))),
    ]);
    let mut expected = get_default_settings(&env);
    expected.audio_feedback = true;
    expected.clamshell_microphone = Some("USB".to_string());
    expected.word_correction_threshold = Number::PosInt(0);
    expected.recording_retention_period = RecordingRetentionPeriod::Weeks2;
    expected.keyboard_implementation = KeyboardImplementation::HandyKeys;
    assert_eq!(AppSettings::decode(&doc, &env), Some(expected));
}

#[test]
fn a_log_level_that_does_not_decode_leaves_the_rest_of_the_document() {
    let env = environment(Platform::Windows, None);
    for bad in [Json::Number(Number::PosInt(6)), text("verbose")] {
        let doc = object(vec![
            ("history_limit", Json::Number(Number::PosInt(9))),
            ("log_level", bad),
            ("debug_mode", Json::Bool(true)),
        ]);
        let s = AppSettings::decode(&doc, &env).unwrap();
        assert_eq!(s.log_level, LogLevel::Debug);
        assert_eq!(s.history_limit, 9);
        assert!(s.debug_mode);
    }
    for (good, level) in [
        (Json::Number(Number::PosInt(4)), LogLevel::Warn),
        (text("warn"), LogLevel::Warn),
        (Json::Number(Number::PosInt(2)), LogLevel::Debug),
        (text("debug"), LogLevel::Debug),
    ] {
        let doc = object(vec![("log_level", good)]);
        assert_eq!(AppSettings::decode(&doc, &env).unwrap().log_level, level);
    }
}

#[test]
fn one_bad_binding_fails_the_whole_table() {
    let env = environment(Platform::Windows, None);
    let good = binding("transcribe", "T", "d", "a", "b").encode();
    let doc = object(vec![("bindings", object(vec![("transcribe", good), ("cancel", Json::Null)]))]);
    let s = AppSettings::decode(&doc, &env).unwrap();
    assert_eq!(s.bindings, get_default_bindings(Platform::Windows));
}

#[test]
fn an_empty_table_of_bindings_decodes_as_empty() {
    let env = environment(Platform::Windows, None);
    let doc = object(vec![("bindings", object(vec![]))]);
    let s = AppSettings::decode(&doc, &env).unwrap();
    assert_eq!(s.bindings.len(), 0);
}

#[test]
fn a_table_keeps_one_binding_for_each_key() {
    let first = binding("a", "first", "", "x", "x");
    let second = binding("a", "second", "", "y", "y");
    let other = binding("b", "other", "", "z", "z");
    let doc = Json::Object(vec![
        ("a".to_string(), first.encode()),
        ("b".to_string(), other.encode()),
        ("a".to_string(), second.encode()),
    ]);
    let table = BindingMap::decode(&doc).unwrap();
    assert_eq!(table.len(), 2);
    assert_eq!(table.keys(), vec!["a".to_string(), "b".to_string()]);
    assert_eq!(table.get("a"), Some(&second));
    assert_eq!(table.get("b"), Some(&other));
}

#[test]
fn inserting_into_a_table() {
    let mut table = BindingMap::new();
    assert_eq!(table.len(), 0);
    assert!(!table.contains_key("a"));
    assert_eq!(table.get("a"), None);
    table.insert("a".to_string(), binding("a", "1", "", "", ""));
    table.insert("b".to_string(), binding("b", "2", "", "", ""));
    table.insert("a".to_string(), binding("a", "3", "", "", ""));
    assert_eq!(table.len(), 2);
    assert!(table.contains_key("a"));
    assert!(table.contains_key("b"));
    assert!(!table.contains_key("c"));
    assert!(!table.contains_key("A"));
    assert_eq!(table.get("a").unwrap().name, "3");
    assert_eq!(table.key_at(0), "a");
    assert_eq!(table.key_at(1), "b");
    assert_eq!(table.binding_at(1).name, "2");
    assert_eq!(table.clone(), table);
    assert_eq!(BindingMap::decode(&table.encode()), Some(table));
}

#[test]
fn a_binding_with_another_combination_in_force() {
    let b = binding("cancel", "Cancel", "d", "escape", "escape");
    assert_eq!(b.with_current("f1".to_string()), binding("cancel", "Cancel", "d", "escape", "f1"));
    assert_eq!(b.clone(), b);
}

#[test]
fn a_size_that_does_not_fit_falls_back() {
    let doc = object(vec![("n", Json::Number(Number::PosInt(7)))]);
    assert_eq!(doc.size_or("n", 5), 7);
    assert_eq!(doc.size_or("m", 5), 5);
    assert_eq!(doc.unsigned_or("n", 1), 7);
    assert_eq!(object(vec![("n", Json::Number(Number::NegInt(-7)))]).unsigned_or("n", 1), 1);
}

#[test]
fn reading_members_of_a_document() {
    let doc = object(vec![
        ("flag", Json::Bool(true)),
        ("text", text("hello")),
        ("nothing", Json::Null),
        ("list", Json::Array(vec![text("a"), text("b")])),
        ("number", Json::Number(Number::NegInt(-3))),
        ("flag", Json::Bool(false)),
    ]);
    assert_eq!(doc.get("flag"), Some(&Json::Bool(true)));
    assert_eq!(doc.get("absent"), None);
    assert_eq!(Json::Null.get("flag"), None);
    assert!(doc.bool_or("flag", false));
    assert!(doc.bool_or("text", true));
    assert_eq!(doc.text_or("text", "x".to_string()), "hello");
    assert_eq!(doc.text_or("flag", "x".to_string()), "x");
    assert_eq!(doc.text_field("text"), Some("hello".to_string()));
    assert_eq!(doc.text_field("nothing"), None);
    assert_eq!(doc.optional_text_or("nothing", Some("x".to_string())), None);
    assert_eq!(doc.optional_text_or("text", None), Some("hello".to_string()));
    assert_eq!(doc.optional_text_or("flag", Some("x".to_string())), Some("x".to_string()));
    assert_eq!(doc.text_list_or("list", vec![]), vec!["a".to_string(), "b".to_string()]);
    assert_eq!(doc.text_list_or("text", vec!["d".to_string()]), vec!["d".to_string()]);
    assert_eq!(doc.number_or("number", Number::PosInt(0)), Number::NegInt(-3));
    assert_eq!(doc.number_or("text", Number::PosInt(0)), Number::PosInt(0));
    assert_eq!(Json::optional_text(&None), Json::Null);
    assert_eq!(Json::optional_text(&Some("a".to_string())), text("a"));
    assert_eq!(Json::text_list(&vec!["a".to_string()]), Json::Array(vec![text("a")]));
    assert_eq!(Json::text("a"), text("a"));
}
