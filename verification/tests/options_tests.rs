use handy_settings::json::Json;
use handy_settings::json::Number;
use handy_settings::options::ClipboardHandling;
use handy_settings::options::KeyboardImplementation;
use handy_settings::options::LogLevel;
use handy_settings::options::ModelUnloadTimeout;
use handy_settings::options::OverlayPosition;
use handy_settings::options::PasteMethod;
use handy_settings::options::RecordingRetentionPeriod;
use handy_settings::options::SoundTheme;
use handy_settings::platform::Platform;

fn text(s: &str) -> Json {
    Json::String(s.to_string())
}

fn object(members: Vec<(&str, Json)>) -> Json {
    Json::Object(members.into_iter().map(|(k, v)| (k.to_string(), v)).collect())
}

#[test]
fn timeouts_in_minutes() {
    assert_eq!(ModelUnloadTimeout::Never.to_minutes(), None);
    assert_eq!(ModelUnloadTimeout::Immediately.to_minutes(), Some(0));
    assert_eq!(ModelUnloadTimeout::Min2.to_minutes(), Some(2));
    assert_eq!(ModelUnloadTimeout::Min5.to_minutes(), Some(5));
    assert_eq!(ModelUnloadTimeout::Min10.to_minutes(), Some(10));
    assert_eq!(ModelUnloadTimeout::Min15.to_minutes(), Some(15));
    assert_eq!(ModelUnloadTimeout::Hour1.to_minutes(), Some(60));
    assert_eq!(ModelUnloadTimeout::Sec5.to_minutes(), Some(0));
}

#[test]
fn timeouts_in_seconds() {
    assert_eq!(ModelUnloadTimeout::Never.to_seconds(), None);
    assert_eq!(ModelUnloadTimeout::Immediately.to_seconds(), Some(0));
    assert_eq!(ModelUnloadTimeout::Min2.to_seconds(), Some(120));
    assert_eq!(ModelUnloadTimeout::Min5.to_seconds(), Some(300));
    assert_eq!(ModelUnloadTimeout::Min10.to_seconds(), Some(600));
    assert_eq!(ModelUnloadTimeout::Min15.to_seconds(), Some(900));
    assert_eq!(ModelUnloadTimeout::Hour1.to_seconds(), Some(3600));
    assert_eq!(ModelUnloadTimeout::Sec5.to_seconds(), Some(5));
}

#[test]
fn sound_paths() {
    assert_eq!(SoundTheme::Marimba.to_start_path(), "resources/marimba_start.wav");
    assert_eq!(SoundTheme::Marimba.to_stop_path(), "resources/marimba_stop.wav");
    assert_eq!(SoundTheme::Pop.to_start_path(), "resources/pop_start.wav");
    assert_eq!(SoundTheme::Pop.to_stop_path(), "resources/pop_stop.wav");
    assert_eq!(SoundTheme::Custom.to_start_path(), "resources/custom_start.wav");
    assert_eq!(SoundTheme::Custom.to_stop_path(), "resources/custom_stop.wav");
}

#[test]
fn names_of_sound_themes() {
    assert_eq!(SoundTheme::Marimba.as_str(), "marimba");
    assert_eq!(SoundTheme::Pop.as_str(), "pop");
    assert_eq!(SoundTheme::Custom.as_str(), "custom");
}

#[test]
fn names_in_documents() {
    assert_eq!(OverlayPosition::Hidden.as_str(), "none");
    assert_eq!(OverlayPosition::Top.as_str(), "top");
    assert_eq!(OverlayPosition::Bottom.as_str(), "bottom");
    assert_eq!(ModelUnloadTimeout::Min10.as_str(), "min10");
    assert_eq!(ModelUnloadTimeout::Hour1.as_str(), "hour1");
    assert_eq!(ModelUnloadTimeout::Sec5.as_str(), "sec5");
    assert_eq!(PasteMethod::CtrlV.as_str(), "ctrl_v");
    assert_eq!(PasteMethod::Disabled.as_str(), "none");
    assert_eq!(PasteMethod::ShiftInsert.as_str(), "shift_insert");
    assert_eq!(PasteMethod::CtrlShiftV.as_str(), "ctrl_shift_v");
    assert_eq!(ClipboardHandling::DontModify.as_str(), "dont_modify");
    assert_eq!(ClipboardHandling::CopyToClipboard.as_str(), "copy_to_clipboard");
    assert_eq!(RecordingRetentionPeriod::PreserveLimit.as_str(), "preserve_limit");
    assert_eq!(RecordingRetentionPeriod::Days3.as_str(), "days3");
    assert_eq!(RecordingRetentionPeriod::Weeks2.as_str(), "weeks2");
    assert_eq!(RecordingRetentionPeriod::Months3.as_str(), "months3");
    assert_eq!(KeyboardImplementation::Tauri.as_str(), "tauri");
    assert_eq!(KeyboardImplementation::HandyKeys.as_str(), "handy_keys");
    assert_eq!(LogLevel::Warn.as_str(), "warn");
}

#[test]
fn every_value_is_read_back_from_its_name() {
    for v in [OverlayPosition::Hidden, OverlayPosition::Top, OverlayPosition::Bottom] {
        assert_eq!(OverlayPosition::from_name(v.as_str()), Some(v));
        assert_eq!(OverlayPosition::decode(&v.encode()), Some(v));
    }
    for v in [
        ModelUnloadTimeout::Never,
        ModelUnloadTimeout::Immediately,
        ModelUnloadTimeout::Min2,
        ModelUnloadTimeout::Min5,
        ModelUnloadTimeout::Min10,
        ModelUnloadTimeout::Min15,
        ModelUnloadTimeout::Hour1,
        ModelUnloadTimeout::Sec5,
    ] {
        assert_eq!(ModelUnloadTimeout::from_name(v.as_str()), Some(v));
        assert_eq!(ModelUnloadTimeout::decode(&v.encode()), Some(v));
    }
    for v in [
        PasteMethod::CtrlV,
        PasteMethod::Direct,
        PasteMethod::Disabled,
        PasteMethod::ShiftInsert,
        PasteMethod::CtrlShiftV,
    ] {
        assert_eq!(PasteMethod::from_name(v.as_str()), Some(v));
        assert_eq!(PasteMethod::decode(&v.encode()), Some(v));
    }
    for v in [ClipboardHandling::DontModify, ClipboardHandling::CopyToClipboard] {
        assert_eq!(ClipboardHandling::from_name(v.as_str()), Some(v));
        assert_eq!(ClipboardHandling::decode(&v.encode()), Some(v));
    }
    for v in [
        RecordingRetentionPeriod::Never,
        RecordingRetentionPeriod::PreserveLimit,
        RecordingRetentionPeriod::Days3,
        RecordingRetentionPeriod::Weeks2,
        RecordingRetentionPeriod::Months3,
    ] {
        assert_eq!(RecordingRetentionPeriod::from_name(v.as_str()), Some(v));
        assert_eq!(RecordingRetentionPeriod::decode(&v.encode()), Some(v));
    }
    for v in [KeyboardImplementation::Tauri, KeyboardImplementation::HandyKeys] {
        assert_eq!(KeyboardImplementation::from_name(v.as_str()), Some(v));
        assert_eq!(KeyboardImplementation::decode(&v.encode()), Some(v));
    }
    for v in [SoundTheme::Marimba, SoundTheme::Pop, SoundTheme::Custom] {
        assert_eq!(SoundTheme::from_name(v.as_str()), Some(v));
        assert_eq!(SoundTheme::decode(&v.encode()), Some(v));
    }
    for v in [LogLevel::Trace, LogLevel::Debug, LogLevel::Info, LogLevel::Warn, LogLevel::Error] {
        assert_eq!(LogLevel::from_name(v.as_str()), Some(v));
        assert_eq!(LogLevel::decode(&v.encode()), Some(v));
    }
}

#[test]
fn unknown_names_give_nothing() {
    assert_eq!(OverlayPosition::from_name("middle"), None);
    assert_eq!(OverlayPosition::from_name("Top"), None);
    assert_eq!(PasteMethod::from_name("ctrl-v"), None);
    assert_eq!(SoundTheme::from_name(""), None);
    assert_eq!(KeyboardImplementation::from_name("handykeys"), None);
}

#[test]
fn a_value_is_a_string_or_an_object_with_one_null_member() {
    assert_eq!(OverlayPosition::decode(&text("top")), Some(OverlayPosition::Top));
    assert_eq!(
        OverlayPosition::decode(&object(vec![("top", Json::Null)])),
        Some(OverlayPosition::Top)
    );
    assert_eq!(OverlayPosition::decode(&object(vec![("top", Json::Bool(true))])), None);
    assert_eq!(
        OverlayPosition::decode(&object(vec![("top", Json::Null), ("bottom", Json::Null)])),
        None
    );
    assert_eq!(OverlayPosition::decode(&object(vec![])), None);
    assert_eq!(OverlayPosition::decode(&Json::Null), None);
    assert_eq!(OverlayPosition::decode(&Json::Number(Number::PosInt(1))), None);
    assert_eq!(OverlayPosition::decode(&Json::Array(vec![text("top")])), None);
}

#[test]
fn log_level_as_integer_and_as_string() {
    let as_integer = LogLevel::decode(&Json::Number(Number::PosInt(2)));
    let as_string = LogLevel::decode(&text("debug"));
    assert_eq!(as_integer, Some(LogLevel::Debug));
    assert_eq!(as_string, Some(LogLevel::Debug));
    assert_eq!(as_integer, as_string);
}

#[test]
fn log_level_codes() {
    assert_eq!(LogLevel::from_code(0), None);
    assert_eq!(LogLevel::from_code(1), Some(LogLevel::Trace));
    assert_eq!(LogLevel::from_code(2), Some(LogLevel::Debug));
    assert_eq!(LogLevel::from_code(3), Some(LogLevel::Info));
    assert_eq!(LogLevel::from_code(4), Some(LogLevel::Warn));
    assert_eq!(LogLevel::from_code(5), Some(LogLevel::Error));
    assert_eq!(LogLevel::from_code(6), None);
    assert_eq!(LogLevel::from_code(u64::MAX), None);
}

#[test]
fn log_level_out_of_range_or_unknown_does_not_decode() {
    assert_eq!(LogLevel::decode(&Json::Number(Number::PosInt(6))), None);
    assert_eq!(LogLevel::decode(&text("verbose")), None);
    assert_eq!(LogLevel::decode(&Json::Number(Number::PosInt(0))), None);
    assert_eq!(LogLevel::decode(&Json::Number(Number::NegInt(-2))), None);
    assert_eq!(LogLevel::decode(&Json::Number(Number::Float(0x4000_0000_0000_0000))), None);
    assert_eq!(LogLevel::decode(&Json::Null), None);
    assert_eq!(LogLevel::decode(&Json::Bool(true)), None);
    assert_eq!(LogLevel::decode(&object(vec![("debug", Json::Null)])), None);
}

#[test]
fn log_level_in_upper_case_decodes() {
    assert_eq!(LogLevel::decode(&text("DEBUG")), Some(LogLevel::Debug));
    assert_eq!(LogLevel::decode(&text("Error")), Some(LogLevel::Error));
}

#[test]
fn a_field_that_does_not_decode_falls_back() {
    let doc = object(vec![
        ("a", text("top")),
        ("b", text("sideways")),
        ("c", Json::Number(Number::PosInt(3))),
    ]);
    assert_eq!(OverlayPosition::read(&doc, "a", OverlayPosition::Bottom), OverlayPosition::Top);
    assert_eq!(OverlayPosition::read(&doc, "b", OverlayPosition::Bottom), OverlayPosition::Bottom);
    assert_eq!(OverlayPosition::read(&doc, "c", OverlayPosition::Hidden), OverlayPosition::Hidden);
    assert_eq!(OverlayPosition::read(&doc, "d", OverlayPosition::Top), OverlayPosition::Top);
    assert_eq!(LogLevel::read(&doc, "c", LogLevel::Debug), LogLevel::Info);
    assert_eq!(LogLevel::read(&doc, "a", LogLevel::Debug), LogLevel::Debug);
    assert_eq!(LogLevel::read(&Json::Null, "a", LogLevel::Warn), LogLevel::Warn);
}

#[test]
fn defaults_that_depend_on_the_platform() {
    assert_eq!(
        KeyboardImplementation::default_for(Platform::MacOs),
        KeyboardImplementation::HandyKeys
    );
    assert_eq!(KeyboardImplementation::default_for(Platform::Windows), KeyboardImplementation::Tauri);
    assert_eq!(KeyboardImplementation::default_for(Platform::Linux), KeyboardImplementation::Tauri);
    assert_eq!(KeyboardImplementation::default_for(Platform::Other), KeyboardImplementation::Tauri);
    assert_eq!(PasteMethod::default_for(Platform::Linux), PasteMethod::Direct);
    assert_eq!(PasteMethod::default_for(Platform::MacOs), PasteMethod::CtrlV);
    assert_eq!(PasteMethod::default_for(Platform::Windows), PasteMethod::CtrlV);
    assert_eq!(PasteMethod::default_for(Platform::Other), PasteMethod::CtrlV);
}

#[test]
fn defaults_that_do_not_depend_on_anything() {
    assert_eq!(ModelUnloadTimeout::default(), ModelUnloadTimeout::Never);
    assert_eq!(ClipboardHandling::default(), ClipboardHandling::DontModify);
}

#[test]
fn the_engine_to_fall_back_on() {
    assert_eq!(
        KeyboardImplementation::HandyKeys.fallback_engine(),
        Some(KeyboardImplementation::Tauri)
    );
    assert_eq!(KeyboardImplementation::Tauri.fallback_engine(), None);
}
