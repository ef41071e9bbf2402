//! The settings, their defaults, and the document that holds them.

use crate::assoc::distinct_keys;
use crate::assoc::found;
use crate::assoc::lemma_found_after_push;
use crate::assoc::lemma_position_is;
use crate::bindings::bindings_document;
use crate::bindings::bindings_or;
use crate::bindings::combos_filled;
use crate::bindings::lemma_bindings_or_found;
use crate::bindings::lemma_bindings_or_same;
use crate::bindings::BindingsView;
use crate::bindings::BindingMap;
use crate::bindings::BindingView;
use crate::bindings::ShortcutBinding;
use crate::json::lemma_bool_or_found;
use crate::json::lemma_bool_or_same;
use crate::json::lemma_number_or_found;
use crate::json::lemma_number_or_same;
use crate::json::lemma_optional_text_or_found;
use crate::json::lemma_optional_text_or_same;
use crate::json::lemma_size_or_found;
use crate::json::lemma_size_or_same;
use crate::json::lemma_text_list_or_found;
use crate::json::lemma_text_list_or_same;
use crate::json::lemma_text_or_found;
use crate::json::lemma_text_or_same;
use crate::json::lemma_unsigned_or_found;
use crate::json::lemma_unsigned_or_same;
use crate::json::members_view;
use crate::json::optional_text_document;
use crate::json::optional_text_view;
use crate::json::push_member;
use crate::json::text_list_document;
use crate::json::Json;
use crate::json::JsonView;
use crate::json::Number;
use crate::options::ClipboardHandling;
use crate::options::KeyboardImplementation;
use crate::options::LogLevel;
use crate::options::ModelUnloadTimeout;
use crate::options::OverlayPosition;
use crate::options::PasteMethod;
use crate::options::RecordingRetentionPeriod;
use crate::options::SoundTheme;
use crate::platform::Environment;
use crate::platform::EnvironmentView;
use crate::platform::Platform;
use crate::text::hyphenate;
use crate::text::hyphenated;
use crate::text::is_blank;
use crate::text::is_whitespace;
use crate::text::text_of;
use vstd::prelude::*;

verus! {

/// The settings of the application: the bindings of its actions, the engine
/// that captures key combinations, and the preferences of the user.
#[derive(Debug, PartialEq, Eq)]
pub struct AppSettings {
    pub bindings: BindingMap,
    pub push_to_talk: bool,
    pub audio_feedback: bool,
    pub audio_feedback_volume: Number,
    pub sound_theme: SoundTheme,
    pub start_hidden: bool,
    pub autostart_enabled: bool,
    pub update_checks_enabled: bool,
    pub selected_model: String,
    pub always_on_microphone: bool,
    pub selected_microphone: Option<String>,
    pub clamshell_microphone: Option<String>,
    pub selected_output_device: Option<String>,
    pub translate_to_english: bool,
    pub selected_language: String,
    pub overlay_position: OverlayPosition,
    pub debug_mode: bool,
    pub log_level: LogLevel,
    pub custom_words: Vec<String>,
    pub model_unload_timeout: ModelUnloadTimeout,
    pub word_correction_threshold: Number,
    pub history_limit: usize,
    pub recording_retention_period: RecordingRetentionPeriod,
    pub paste_method: PasteMethod,
    pub clipboard_handling: ClipboardHandling,
    pub mute_while_recording: bool,
    pub append_trailing_space: bool,
    pub app_language: String,
    pub keyboard_implementation: KeyboardImplementation,
    pub paste_delay_ms: u64,
}

/// The mathematical value of an [`AppSettings`].
pub ghost struct AppSettingsView {
    pub bindings: BindingsView,
    pub push_to_talk: bool,
    pub audio_feedback: bool,
    pub audio_feedback_volume: Number,
    pub sound_theme: SoundTheme,
    pub start_hidden: bool,
    pub autostart_enabled: bool,
    pub update_checks_enabled: bool,
    pub selected_model: Seq<char>,
    pub always_on_microphone: bool,
    pub selected_microphone: Option<Seq<char>>,
    pub clamshell_microphone: Option<Seq<char>>,
    pub selected_output_device: Option<Seq<char>>,
    pub translate_to_english: bool,
    pub selected_language: Seq<char>,
    pub overlay_position: OverlayPosition,
    pub debug_mode: bool,
    pub log_level: LogLevel,
    pub custom_words: Seq<Seq<char>>,
    pub model_unload_timeout: ModelUnloadTimeout,
    pub word_correction_threshold: Number,
    pub history_limit: usize,
    pub recording_retention_period: RecordingRetentionPeriod,
    pub paste_method: PasteMethod,
    pub clipboard_handling: ClipboardHandling,
    pub mute_while_recording: bool,
    pub append_trailing_space: bool,
    pub app_language: Seq<char>,
    pub keyboard_implementation: KeyboardImplementation,
    pub paste_delay_ms: u64,
}

impl View for AppSettings {
    type V = AppSettingsView;

    open spec fn view(&self) -> AppSettingsView {
        AppSettingsView {
            bindings: self.bindings@,
            push_to_talk: self.push_to_talk,
            audio_feedback: self.audio_feedback,
            audio_feedback_volume: self.audio_feedback_volume,
            sound_theme: self.sound_theme,
            start_hidden: self.start_hidden,
            autostart_enabled: self.autostart_enabled,
            update_checks_enabled: self.update_checks_enabled,
            selected_model: self.selected_model@,
            always_on_microphone: self.always_on_microphone,
            selected_microphone: optional_text_view(self.selected_microphone),
            clamshell_microphone: optional_text_view(self.clamshell_microphone),
            selected_output_device: optional_text_view(self.selected_output_device),
            translate_to_english: self.translate_to_english,
            selected_language: self.selected_language@,
            overlay_position: self.overlay_position,
            debug_mode: self.debug_mode,
            log_level: self.log_level,
            custom_words: self.custom_words.deep_view(),
            model_unload_timeout: self.model_unload_timeout,
            word_correction_threshold: self.word_correction_threshold,
            history_limit: self.history_limit,
            recording_retention_period: self.recording_retention_period,
            paste_method: self.paste_method,
            clipboard_handling: self.clipboard_handling,
            mute_while_recording: self.mute_while_recording,
            append_trailing_space: self.append_trailing_space,
            app_language: self.app_language@,
            keyboard_implementation: self.keyboard_implementation,
            paste_delay_ms: self.paste_delay_ms,
        }
    }
}

/// A copy of an optional text.
fn clone_optional_text(s: &Option<String>) -> (r: Option<String>)
    ensures
        optional_text_view(r) == optional_text_view(*s),
{
    match s {
        Some(text) => Some(text.clone()),
        None => None,
    }
}

/// A copy of a list of texts.
fn clone_text_list(list: &Vec<String>) -> (r: Vec<String>)
    ensures
        r.deep_view() == list.deep_view(),
{
    let n: usize = list.len();
    let mut out: Vec<String> = Vec::new();
    let mut i: usize = 0;
    while i < n
        invariant
            n == list.len(),
            i <= n,
            out.len() == i,
            forall|k: int| 0 <= k < i ==> (#[trigger] out[k])@ == list[k]@,
        decreases n - i,
    {
        out.push(list[i].clone());
        i += 1;
    }
    assert(out.deep_view() =~= list.deep_view());
    out
}

impl Clone for AppSettings {
    fn clone(&self) -> (r: Self)
        ensures
            r@ == self@,
    {
        AppSettings {
            bindings: self.bindings.clone(),
            push_to_talk: self.push_to_talk,
            audio_feedback: self.audio_feedback,
            audio_feedback_volume: self.audio_feedback_volume,
            sound_theme: self.sound_theme,
            start_hidden: self.start_hidden,
            autostart_enabled: self.autostart_enabled,
            update_checks_enabled: self.update_checks_enabled,
            selected_model: self.selected_model.clone(),
            always_on_microphone: self.always_on_microphone,
            selected_microphone: clone_optional_text(&self.selected_microphone),
            clamshell_microphone: clone_optional_text(&self.clamshell_microphone),
            selected_output_device: clone_optional_text(&self.selected_output_device),
            translate_to_english: self.translate_to_english,
            selected_language: self.selected_language.clone(),
            overlay_position: self.overlay_position,
            debug_mode: self.debug_mode,
            log_level: self.log_level,
            custom_words: clone_text_list(&self.custom_words),
            model_unload_timeout: self.model_unload_timeout,
            word_correction_threshold: self.word_correction_threshold,
            history_limit: self.history_limit,
            recording_retention_period: self.recording_retention_period,
            paste_method: self.paste_method,
            clipboard_handling: self.clipboard_handling,
            mute_while_recording: self.mute_while_recording,
            append_trailing_space: self.append_trailing_space,
            app_language: self.app_language.clone(),
            keyboard_implementation: self.keyboard_implementation,
            paste_delay_ms: self.paste_delay_ms,
        }
    }
}

impl AppSettings {
    /// Settings are well formed when no two of their bindings share a key.
    pub open spec fn wf(&self) -> bool {
        self.bindings.wf()
    }
}

/// The model at first: none is selected.
pub fn default_model() -> (r: String)
    ensures
        r@ == ""@,
{
    text_of("")
}

/// Whether the microphone stays open at first: it does not.
pub fn default_always_on_microphone() -> (r: bool)
    ensures
        !r,
{
    false
}

/// Whether speech is translated into English at first: it is not.
pub fn default_translate_to_english() -> (r: bool)
    ensures
        !r,
{
    false
}

/// Whether the application starts without a window at first: it does not.
pub fn default_start_hidden() -> (r: bool)
    ensures
        !r,
{
    false
}

/// Whether the application starts with the system at first: it does not.
pub fn default_autostart_enabled() -> (r: bool)
    ensures
        !r,
{
    false
}

/// Whether updates are looked for at first: they are.
pub fn default_update_checks_enabled() -> (r: bool)
    ensures
        r,
{
    true
}

/// The language that is spoken at first: found out automatically.
pub fn default_selected_language() -> (r: String)
    ensures
        r@ == "auto"@,
{
    text_of("auto")
}

/// Where the overlay is shown at first: nowhere on Linux, at the bottom elsewhere.
pub open spec fn initial_overlay_position(platform: Platform) -> OverlayPosition {
    if platform == Platform::Linux {
        OverlayPosition::Hidden
    } else {
        OverlayPosition::Bottom
    }
}

/// Where the overlay is shown at first.
pub fn default_overlay_position(platform: Platform) -> (r: OverlayPosition)
    ensures
        r == initial_overlay_position(platform),
{
    match platform {
        Platform::Linux => OverlayPosition::Hidden,
        _ => OverlayPosition::Bottom,
    }
}

/// Whether the debug mode is on at first: it is not.
pub fn default_debug_mode() -> (r: bool)
    ensures
        !r,
{
    false
}

/// How much is logged at first.
pub fn default_log_level() -> (r: LogLevel)
    ensures
        r == LogLevel::Debug,
{
    LogLevel::Debug
}

/// The threshold for word correction at first: 0.18, as the bits of a double.
pub fn default_word_correction_threshold() -> (r: Number)
    ensures
        r == Number::Float(0x3fc7_0a3d_70a3_d70a),
{
    Number::Float(0x3fc7_0a3d_70a3_d70a)
}

/// How long to wait before pasting at first, in milliseconds.
pub fn default_paste_delay_ms() -> (r: u64)
    ensures
        r == 60,
{
    60
}

/// How many entries the history keeps at first.
pub fn default_history_limit() -> (r: usize)
    ensures
        r == 5,
{
    5
}

/// How long recordings are kept at first: as many as the history keeps.
pub fn default_recording_retention_period() -> (r: RecordingRetentionPeriod)
    ensures
        r == RecordingRetentionPeriod::PreserveLimit,
{
    RecordingRetentionPeriod::PreserveLimit
}

/// The volume of audio feedback at first: 1.0, as the bits of a double.
pub fn default_audio_feedback_volume() -> (r: Number)
    ensures
        r == Number::Float(0x3ff0_0000_0000_0000),
{
    Number::Float(0x3ff0_0000_0000_0000)
}

/// The sound theme at first.
pub fn default_sound_theme() -> (r: SoundTheme)
    ensures
        r == SoundTheme::Marimba,
{
    SoundTheme::Marimba
}

/// The language of the interface at first: the locale of the user with hyphens
/// for underscores, or English where the locale is not known.
pub open spec fn initial_app_language(locale: Option<Seq<char>>) -> Seq<char> {
    match locale {
        Some(l) => hyphenated(l),
        None => "en"@,
    }
}

/// The language of the interface at first.
pub fn default_app_language(locale: &Option<String>) -> (r: String)
    ensures
        r@ == initial_app_language(optional_text_view(*locale)),
{
    match locale {
        Some(l) => hyphenate(l.as_str()),
        None => text_of("en"),
    }
}

/// The id of the action that starts and stops a transcription.
pub open spec fn transcribe_id() -> Seq<char> {
    "transcribe"@
}

/// The id of the action that cancels a recording.
pub open spec fn cancel_id() -> Seq<char> {
    "cancel"@
}

/// The key combination that the transcribe action ships with.
pub open spec fn default_shortcut(platform: Platform) -> Seq<char> {
    match platform {
        Platform::Windows => "ctrl+space"@,
        Platform::MacOs => "option+space"@,
        Platform::Linux => "ctrl+space"@,
        Platform::Other => "alt+space"@,
    }
}

/// The bindings that ship with the application: transcribe, then cancel.
pub open spec fn default_bindings(platform: Platform) -> BindingsView {
    seq![
        (
            transcribe_id(),
            BindingView {
                id: transcribe_id(),
                name: "Transcribe"@,
                description: "Converts your speech into text."@,
                default_binding: default_shortcut(platform),
                current_binding: default_shortcut(platform),
            },
        ),
        (
            cancel_id(),
            BindingView {
                id: cancel_id(),
                name: "Cancel"@,
                description: "Cancels the current recording."@,
                default_binding: "escape"@,
                current_binding: "escape"@,
            },
        ),
    ]
}

/// The two ids that ship are different.
pub proof fn lemma_default_ids_differ()
    ensures
        transcribe_id() != cancel_id(),
{
    reveal_strlit("transcribe");
    reveal_strlit("cancel");
    assert("transcribe"@.len() == 10);
    assert("cancel"@.len() == 6);
}

/// No two of the bindings that ship share a key.
pub proof fn lemma_default_bindings_distinct(platform: Platform)
    ensures
        distinct_keys(default_bindings(platform)),
{
    lemma_default_ids_differ();
}

/// Every binding that ships has a combination in force that is not blank.
pub proof fn lemma_default_bindings_filled(platform: Platform)
    ensures
        combos_filled(default_bindings(platform)),
{
    reveal_strlit("ctrl+space");
    reveal_strlit("option+space");
    reveal_strlit("alt+space");
    reveal_strlit("escape");
    assert("ctrl+space"@.len() == 10 && "ctrl+space"@[0] == 'c');
    assert("option+space"@.len() == 12 && "option+space"@[0] == 'o');
    assert("alt+space"@.len() == 9 && "alt+space"@[0] == 'a');
    assert("escape"@.len() == 6 && "escape"@[0] == 'e');
    assert(
        !is_whitespace('c') && !is_whitespace('o') && !is_whitespace('a') && !is_whitespace('e')
    );
    let bindings = default_bindings(platform);
    assert(!is_blank(bindings[0].1.current_binding)) by {
        assert(!is_whitespace(bindings[0].1.current_binding[0]));
    }
    assert(!is_blank(bindings[1].1.current_binding)) by {
        assert(!is_whitespace(bindings[1].1.current_binding[0]));
    }
}

/// The bindings that ship with the application.
pub fn get_default_bindings(platform: Platform) -> (r: BindingMap)
    ensures
        r@ == default_bindings(platform),
        r.wf(),
{
    let shortcut = match platform {
        Platform::Windows => "ctrl+space",
        Platform::MacOs => "option+space",
        Platform::Linux => "ctrl+space",
        Platform::Other => "alt+space",
    };
    let mut bindings = BindingMap::new();
    bindings.insert(
        text_of("transcribe"),
        ShortcutBinding {
            id: text_of("transcribe"),
            name: text_of("Transcribe"),
            description: text_of("Converts your speech into text."),
            default_binding: text_of(shortcut),
            current_binding: text_of(shortcut),
        },
    );
    bindings.insert(
        text_of("cancel"),
        ShortcutBinding {
            id: text_of("cancel"),
            name: text_of("Cancel"),
            description: text_of("Cancels the current recording."),
            default_binding: text_of("escape"),
            current_binding: text_of("escape"),
        },
    );
    proof {
        lemma_default_ids_differ();
        let first = default_bindings(platform).subrange(0, 1);
        lemma_position_is(Seq::<(Seq<char>, BindingView)>::empty(), transcribe_id(), 0);
        assert(Seq::<(Seq<char>, BindingView)>::empty().push(default_bindings(platform)[0])
            =~= first);
        lemma_position_is(first, cancel_id(), 1);
        assert(first.push(default_bindings(platform)[1]) =~= default_bindings(platform));
    }
    bindings
}

/// The settings that the application starts with in a given environment.
pub open spec fn default_settings(environment: EnvironmentView) -> AppSettingsView {
    AppSettingsView {
        bindings: default_bindings(environment.platform),
        push_to_talk: true,
        audio_feedback: false,
        audio_feedback_volume: Number::Float(0x3ff0_0000_0000_0000),
        sound_theme: SoundTheme::Marimba,
        start_hidden: false,
        autostart_enabled: false,
        update_checks_enabled: true,
        selected_model: ""@,
        always_on_microphone: false,
        selected_microphone: None,
        clamshell_microphone: None,
        selected_output_device: None,
        translate_to_english: false,
        selected_language: "auto"@,
        overlay_position: initial_overlay_position(environment.platform),
        debug_mode: false,
        log_level: LogLevel::Debug,
        custom_words: Seq::empty(),
        model_unload_timeout: ModelUnloadTimeout::Never,
        word_correction_threshold: Number::Float(0x3fc7_0a3d_70a3_d70a),
        history_limit: 5,
        recording_retention_period: RecordingRetentionPeriod::PreserveLimit,
        paste_method: PasteMethod::initial(environment.platform),
        clipboard_handling: ClipboardHandling::DontModify,
        mute_while_recording: false,
        append_trailing_space: false,
        app_language: initial_app_language(environment.locale),
        keyboard_implementation: KeyboardImplementation::initial(environment.platform),
        paste_delay_ms: 60,
    }
}

/// Builds the settings that the application starts with.
pub fn get_default_settings(environment: &Environment) -> (r: AppSettings)
    ensures
        r@ == default_settings(environment@),
        r.wf(),
{
    let r = AppSettings {
        bindings: get_default_bindings(environment.platform),
        push_to_talk: true,
        audio_feedback: false,
        audio_feedback_volume: default_audio_feedback_volume(),
        sound_theme: default_sound_theme(),
        start_hidden: default_start_hidden(),
        autostart_enabled: default_autostart_enabled(),
        update_checks_enabled: default_update_checks_enabled(),
        selected_model: default_model(),
        always_on_microphone: default_always_on_microphone(),
        selected_microphone: None,
        clamshell_microphone: None,
        selected_output_device: None,
        translate_to_english: default_translate_to_english(),
        selected_language: default_selected_language(),
        overlay_position: default_overlay_position(environment.platform),
        debug_mode: default_debug_mode(),
        log_level: default_log_level(),
        custom_words: Vec::new(),
        model_unload_timeout: ModelUnloadTimeout::default(),
        word_correction_threshold: default_word_correction_threshold(),
        history_limit: default_history_limit(),
        recording_retention_period: default_recording_retention_period(),
        paste_method: PasteMethod::default_for(environment.platform),
        clipboard_handling: ClipboardHandling::default(),
        mute_while_recording: false,
        append_trailing_space: false,
        app_language: default_app_language(&environment.locale),
        keyboard_implementation: KeyboardImplementation::default_for(environment.platform),
        paste_delay_ms: default_paste_delay_ms(),
    };
    assert(r.custom_words.deep_view() =~= Seq::<Seq<char>>::empty());
    r
}

/// The members of the document that holds `s`, one for each setting.
#[verifier::opaque]
pub open spec fn settings_members(s: AppSettingsView) -> Seq<(Seq<char>, JsonView)> {
    Seq::empty()
        .push(("bindings"@, bindings_document(s.bindings)))
        .push(("push_to_talk"@, JsonView::Bool(s.push_to_talk)))
        .push(("audio_feedback"@, JsonView::Bool(s.audio_feedback)))
        .push(("audio_feedback_volume"@, JsonView::Number(s.audio_feedback_volume)))
        .push(("sound_theme"@, JsonView::String(s.sound_theme.name())))
        .push(("start_hidden"@, JsonView::Bool(s.start_hidden)))
        .push(("autostart_enabled"@, JsonView::Bool(s.autostart_enabled)))
        .push(("update_checks_enabled"@, JsonView::Bool(s.update_checks_enabled)))
        .push(("selected_model"@, JsonView::String(s.selected_model)))
        .push(("always_on_microphone"@, JsonView::Bool(s.always_on_microphone)))
        .push(("selected_microphone"@, optional_text_document(s.selected_microphone)))
        .push(("clamshell_microphone"@, optional_text_document(s.clamshell_microphone)))
        .push(("selected_output_device"@, optional_text_document(s.selected_output_device)))
        .push(("translate_to_english"@, JsonView::Bool(s.translate_to_english)))
        .push(("selected_language"@, JsonView::String(s.selected_language)))
        .push(("overlay_position"@, JsonView::String(s.overlay_position.name())))
        .push(("debug_mode"@, JsonView::Bool(s.debug_mode)))
        .push(("log_level"@, JsonView::String(s.log_level.name())))
        .push(("custom_words"@, text_list_document(s.custom_words)))
        .push(("model_unload_timeout"@, JsonView::String(s.model_unload_timeout.name())))
        .push(("word_correction_threshold"@, JsonView::Number(s.word_correction_threshold)))
        .push(("history_limit"@, JsonView::Number(Number::PosInt(s.history_limit as u64))))
        .push(
            ("recording_retention_period"@, JsonView::String(s.recording_retention_period.name())),
        )
        .push(("paste_method"@, JsonView::String(s.paste_method.name())))
        .push(("clipboard_handling"@, JsonView::String(s.clipboard_handling.name())))
        .push(("mute_while_recording"@, JsonView::Bool(s.mute_while_recording)))
        .push(("append_trailing_space"@, JsonView::Bool(s.append_trailing_space)))
        .push(("app_language"@, JsonView::String(s.app_language)))
        .push(("keyboard_implementation"@, JsonView::String(s.keyboard_implementation.name())))
        .push(("paste_delay_ms"@, JsonView::Number(Number::PosInt(s.paste_delay_ms))))
}

/// The document that holds `s`: an object with one member for each setting.
pub open spec fn settings_document(s: AppSettingsView) -> JsonView {
    JsonView::Object(settings_members(s))
}

/// What an object decodes to: each setting read from the member under its
/// name, or taken from `fallback` where that member is missing or does not decode.
pub open spec fn settings_read(doc: JsonView, fallback: AppSettingsView) -> AppSettingsView {
    AppSettingsView {
        bindings: bindings_or(doc, "bindings"@, fallback.bindings),
        push_to_talk: doc.bool_or("push_to_talk"@, fallback.push_to_talk),
        audio_feedback: doc.bool_or("audio_feedback"@, fallback.audio_feedback),
        audio_feedback_volume: doc.number_or(
            "audio_feedback_volume"@,
            fallback.audio_feedback_volume,
        ),
        sound_theme: SoundTheme::field_or(doc, "sound_theme"@, fallback.sound_theme),
        start_hidden: doc.bool_or("start_hidden"@, fallback.start_hidden),
        autostart_enabled: doc.bool_or("autostart_enabled"@, fallback.autostart_enabled),
        update_checks_enabled: doc.bool_or(
            "update_checks_enabled"@,
            fallback.update_checks_enabled,
        ),
        selected_model: doc.text_or("selected_model"@, fallback.selected_model),
        always_on_microphone: doc.bool_or("always_on_microphone"@, fallback.always_on_microphone),
        selected_microphone: doc.optional_text_or(
            "selected_microphone"@,
            fallback.selected_microphone,
        ),
        clamshell_microphone: doc.optional_text_or(
            "clamshell_microphone"@,
            fallback.clamshell_microphone,
        ),
        selected_output_device: doc.optional_text_or(
            "selected_output_device"@,
            fallback.selected_output_device,
        ),
        translate_to_english: doc.bool_or("translate_to_english"@, fallback.translate_to_english),
        selected_language: doc.text_or("selected_language"@, fallback.selected_language),
        overlay_position: OverlayPosition::field_or(
            doc,
            "overlay_position"@,
            fallback.overlay_position,
        ),
        debug_mode: doc.bool_or("debug_mode"@, fallback.debug_mode),
        log_level: LogLevel::field_or(doc, "log_level"@, fallback.log_level),
        custom_words: doc.text_list_or("custom_words"@, fallback.custom_words),
        model_unload_timeout: ModelUnloadTimeout::field_or(
            doc,
            "model_unload_timeout"@,
            fallback.model_unload_timeout,
        ),
        word_correction_threshold: doc.number_or(
            "word_correction_threshold"@,
            fallback.word_correction_threshold,
        ),
        history_limit: doc.size_or("history_limit"@, fallback.history_limit),
        recording_retention_period: RecordingRetentionPeriod::field_or(
            doc,
            "recording_retention_period"@,
            fallback.recording_retention_period,
        ),
        paste_method: PasteMethod::field_or(doc, "paste_method"@, fallback.paste_method),
        clipboard_handling: ClipboardHandling::field_or(
            doc,
            "clipboard_handling"@,
            fallback.clipboard_handling,
        ),
        mute_while_recording: doc.bool_or("mute_while_recording"@, fallback.mute_while_recording),
        append_trailing_space: doc.bool_or(
            "append_trailing_space"@,
            fallback.append_trailing_space,
        ),
        app_language: doc.text_or("app_language"@, fallback.app_language),
        keyboard_implementation: KeyboardImplementation::field_or(
            doc,
            "keyboard_implementation"@,
            fallback.keyboard_implementation,
        ),
        paste_delay_ms: doc.unsigned_or("paste_delay_ms"@, fallback.paste_delay_ms),
    }
}

/// What a document decodes to in a given environment: nothing unless it is an
/// object; then each setting by itself, with the default of the environment
/// for every setting that cannot be read.
pub open spec fn settings_decoded(doc: JsonView, environment: EnvironmentView) -> Option<
    AppSettingsView,
> {
    if doc is Object {
        Some(settings_read(doc, default_settings(environment)))
    } else {
        None
    }
}

impl AppSettings {
    /// The document that holds these settings.
    pub fn encode(&self) -> (r: Json)
        ensures
            r@ == settings_document(self@),
    {
        let mut members: Vec<(String, Json)> = Vec::new();
        proof {
            reveal(settings_members);
            assert(members_view(members) =~= Seq::empty());
        }
        push_member(&mut members, "bindings", self.bindings.encode());
        push_member(&mut members, "push_to_talk", Json::Bool(self.push_to_talk));
        push_member(&mut members, "audio_feedback", Json::Bool(self.audio_feedback));
        push_member(
            &mut members,
            "audio_feedback_volume",
            Json::Number(self.audio_feedback_volume),
        );
        push_member(&mut members, "sound_theme", self.sound_theme.encode());
        push_member(&mut members, "start_hidden", Json::Bool(self.start_hidden));
        push_member(&mut members, "autostart_enabled", Json::Bool(self.autostart_enabled));
        push_member(&mut members, "update_checks_enabled", Json::Bool(self.update_checks_enabled));
        push_member(&mut members, "selected_model", Json::text(self.selected_model.as_str()));
        push_member(&mut members, "always_on_microphone", Json::Bool(self.always_on_microphone));
        push_member(
            &mut members,
            "selected_microphone",
            Json::optional_text(&self.selected_microphone),
        );
        push_member(
            &mut members,
            "clamshell_microphone",
            Json::optional_text(&self.clamshell_microphone),
        );
        push_member(
            &mut members,
            "selected_output_device",
            Json::optional_text(&self.selected_output_device),
        );
        push_member(&mut members, "translate_to_english", Json::Bool(self.translate_to_english));
        push_member(&mut members, "selected_language", Json::text(self.selected_language.as_str()));
        push_member(&mut members, "overlay_position", self.overlay_position.encode());
        push_member(&mut members, "debug_mode", Json::Bool(self.debug_mode));
        push_member(&mut members, "log_level", self.log_level.encode());
        push_member(&mut members, "custom_words", Json::text_list(&self.custom_words));
        push_member(&mut members, "model_unload_timeout", self.model_unload_timeout.encode());
        push_member(
            &mut members,
            "word_correction_threshold",
            Json::Number(self.word_correction_threshold),
        );
        push_member(
            &mut members,
            "history_limit",
            Json::Number(Number::PosInt(self.history_limit as u64)),
        );
        push_member(
            &mut members,
            "recording_retention_period",
            self.recording_retention_period.encode(),
        );
        push_member(&mut members, "paste_method", self.paste_method.encode());
        push_member(&mut members, "clipboard_handling", self.clipboard_handling.encode());
        push_member(&mut members, "mute_while_recording", Json::Bool(self.mute_while_recording));
        push_member(&mut members, "append_trailing_space", Json::Bool(self.append_trailing_space));
        push_member(&mut members, "app_language", Json::text(self.app_language.as_str()));
        push_member(&mut members, "keyboard_implementation", self.keyboard_implementation.encode());
        push_member(
            &mut members,
            "paste_delay_ms",
            Json::Number(Number::PosInt(self.paste_delay_ms)),
        );
        Json::object(members)
    }

    /// Decodes a document. Nothing comes back unless it is an object; then
    /// every setting that cannot be read has the default of the environment.
    pub fn decode(doc: &Json, environment: &Environment) -> (r: Option<AppSettings>)
        ensures
            match r {
                Some(s) => settings_decoded(doc@, environment@) == Some(s@) && s.wf(),
                None => settings_decoded(doc@, environment@) is None,
            },
    {
        match doc {
            Json::Object(_) => {},
            _ => {
                return None;
            },
        }
        let fallback = get_default_settings(environment);
        Some(
            AppSettings {
                bindings: BindingMap::read(doc, "bindings", fallback.bindings),
                push_to_talk: doc.bool_or("push_to_talk", fallback.push_to_talk),
                audio_feedback: doc.bool_or("audio_feedback", fallback.audio_feedback),
                audio_feedback_volume: doc.number_or(
                    "audio_feedback_volume",
                    fallback.audio_feedback_volume,
                ),
                sound_theme: SoundTheme::read(doc, "sound_theme", fallback.sound_theme),
                start_hidden: doc.bool_or("start_hidden", fallback.start_hidden),
                autostart_enabled: doc.bool_or("autostart_enabled", fallback.autostart_enabled),
                update_checks_enabled: doc.bool_or(
                    "update_checks_enabled",
                    fallback.update_checks_enabled,
                ),
                selected_model: doc.text_or("selected_model", fallback.selected_model),
                always_on_microphone: doc.bool_or(
                    "always_on_microphone",
                    fallback.always_on_microphone,
                ),
                selected_microphone: doc.optional_text_or(
                    "selected_microphone",
                    fallback.selected_microphone,
                ),
                clamshell_microphone: doc.optional_text_or(
                    "clamshell_microphone",
                    fallback.clamshell_microphone,
                ),
                selected_output_device: doc.optional_text_or(
                    "selected_output_device",
                    fallback.selected_output_device,
                ),
                translate_to_english: doc.bool_or(
                    "translate_to_english",
                    fallback.translate_to_english,
                ),
                selected_language: doc.text_or("selected_language", fallback.selected_language),
                overlay_position: OverlayPosition::read(
                    doc,
                    "overlay_position",
                    fallback.overlay_position,
                ),
                debug_mode: doc.bool_or("debug_mode", fallback.debug_mode),
                log_level: LogLevel::read(doc, "log_level", fallback.log_level),
                custom_words: doc.text_list_or("custom_words", fallback.custom_words),
                model_unload_timeout: ModelUnloadTimeout::read(
                    doc,
                    "model_unload_timeout",
                    fallback.model_unload_timeout,
                ),
                word_correction_threshold: doc.number_or(
                    "word_correction_threshold",
                    fallback.word_correction_threshold,
                ),
                history_limit: doc.size_or("history_limit", fallback.history_limit),
                recording_retention_period: RecordingRetentionPeriod::read(
                    doc,
                    "recording_retention_period",
                    fallback.recording_retention_period,
                ),
                paste_method: PasteMethod::read(doc, "paste_method", fallback.paste_method),
                clipboard_handling: ClipboardHandling::read(
                    doc,
                    "clipboard_handling",
                    fallback.clipboard_handling,
                ),
                mute_while_recording: doc.bool_or(
                    "mute_while_recording",
                    fallback.mute_while_recording,
                ),
                append_trailing_space: doc.bool_or(
                    "append_trailing_space",
                    fallback.append_trailing_space,
                ),
                app_language: doc.text_or("app_language", fallback.app_language),
                keyboard_implementation: KeyboardImplementation::read(
                    doc,
                    "keyboard_implementation",
                    fallback.keyboard_implementation,
                ),
                paste_delay_ms: doc.unsigned_or("paste_delay_ms", fallback.paste_delay_ms),
            },
        )
    }
}

/// Each setting is found in the document under its own name.
pub proof fn lemma_settings_members(s: AppSettingsView)
    ensures
        found(settings_members(s), "bindings"@) == Some(bindings_document(s.bindings)),
        found(settings_members(s), "push_to_talk"@) == Some(JsonView::Bool(s.push_to_talk)),
        found(settings_members(s), "audio_feedback"@) == Some(JsonView::Bool(s.audio_feedback)),
        found(
            settings_members(s),
            "audio_feedback_volume"@,
        ) == Some(JsonView::Number(s.audio_feedback_volume)),
        found(settings_members(s), "sound_theme"@) == Some(JsonView::String(s.sound_theme.name())),
        found(settings_members(s), "start_hidden"@) == Some(JsonView::Bool(s.start_hidden)),
        found(
            settings_members(s),
            "autostart_enabled"@,
        ) == Some(JsonView::Bool(s.autostart_enabled)),
        found(
            settings_members(s),
            "update_checks_enabled"@,
        ) == Some(JsonView::Bool(s.update_checks_enabled)),
        found(settings_members(s), "selected_model"@) == Some(JsonView::String(s.selected_model)),
        found(
            settings_members(s),
            "always_on_microphone"@,
        ) == Some(JsonView::Bool(s.always_on_microphone)),
        found(settings_members(s), "selected_microphone"@) == Some(
            optional_text_document(s.selected_microphone),
        ),
        found(settings_members(s), "clamshell_microphone"@) == Some(
            optional_text_document(s.clamshell_microphone),
        ),
        found(settings_members(s), "selected_output_device"@) == Some(
            optional_text_document(s.selected_output_device),
        ),
        found(
            settings_members(s),
            "translate_to_english"@,
        ) == Some(JsonView::Bool(s.translate_to_english)),
        found(
            settings_members(s),
            "selected_language"@,
        ) == Some(JsonView::String(s.selected_language)),
        found(settings_members(s), "overlay_position"@) == Some(
            JsonView::String(s.overlay_position.name()),
        ),
        found(settings_members(s), "debug_mode"@) == Some(JsonView::Bool(s.debug_mode)),
        found(settings_members(s), "log_level"@) == Some(JsonView::String(s.log_level.name())),
        found(settings_members(s), "custom_words"@) == Some(text_list_document(s.custom_words)),
        found(settings_members(s), "model_unload_timeout"@) == Some(
            JsonView::String(s.model_unload_timeout.name()),
        ),
        found(
            settings_members(s),
            "word_correction_threshold"@,
        ) == Some(JsonView::Number(s.word_correction_threshold)),
        found(settings_members(s), "history_limit"@) == Some(
            JsonView::Number(Number::PosInt(s.history_limit as u64)),
        ),
        found(settings_members(s), "recording_retention_period"@) == Some(
            JsonView::String(s.recording_retention_period.name()),
        ),
        found(settings_members(s), "paste_method"@) == Some(
            JsonView::String(s.paste_method.name()),
        ),
        found(settings_members(s), "clipboard_handling"@) == Some(
            JsonView::String(s.clipboard_handling.name()),
        ),
        found(
            settings_members(s),
            "mute_while_recording"@,
        ) == Some(JsonView::Bool(s.mute_while_recording)),
        found(
            settings_members(s),
            "append_trailing_space"@,
        ) == Some(JsonView::Bool(s.append_trailing_space)),
        found(settings_members(s), "app_language"@) == Some(JsonView::String(s.app_language)),
        found(settings_members(s), "keyboard_implementation"@) == Some(
            JsonView::String(s.keyboard_implementation.name()),
        ),
        found(settings_members(s), "paste_delay_ms"@) == Some(
            JsonView::Number(Number::PosInt(s.paste_delay_ms)),
        ),
{
    reveal(settings_members);
    reveal_strlit("bindings");
    reveal_strlit("push_to_talk");
    reveal_strlit("audio_feedback");
    reveal_strlit("audio_feedback_volume");
    reveal_strlit("sound_theme");
    reveal_strlit("start_hidden");
    reveal_strlit("autostart_enabled");
    reveal_strlit("update_checks_enabled");
    reveal_strlit("selected_model");
    reveal_strlit("always_on_microphone");
    reveal_strlit("selected_microphone");
    reveal_strlit("clamshell_microphone");
    reveal_strlit("selected_output_device");
    reveal_strlit("translate_to_english");
    reveal_strlit("selected_language");
    reveal_strlit("overlay_position");
    reveal_strlit("debug_mode");
    reveal_strlit("log_level");
    reveal_strlit("custom_words");
    reveal_strlit("model_unload_timeout");
    reveal_strlit("word_correction_threshold");
    reveal_strlit("history_limit");
    reveal_strlit("recording_retention_period");
    reveal_strlit("paste_method");
    reveal_strlit("clipboard_handling");
    reveal_strlit("mute_while_recording");
    reveal_strlit("append_trailing_space");
    reveal_strlit("app_language");
    reveal_strlit("keyboard_implementation");
    reveal_strlit("paste_delay_ms");
    assert("bindings"@.len() == 8);
    assert("push_to_talk"@.len() == 12);
    assert("audio_feedback"@.len() == 14);
    assert("audio_feedback_volume"@.len() == 21);
    assert("sound_theme"@.len() == 11);
    assert("start_hidden"@.len() == 12);
    assert("autostart_enabled"@.len() == 17);
    assert("update_checks_enabled"@.len() == 21);
    assert("selected_model"@.len() == 14);
    assert("always_on_microphone"@.len() == 20);
    assert("selected_microphone"@.len() == 19);
    assert("clamshell_microphone"@.len() == 20);
    assert("selected_output_device"@.len() == 22);
    assert("translate_to_english"@.len() == 20);
    assert("selected_language"@.len() == 17);
    assert("overlay_position"@.len() == 16);
    assert("debug_mode"@.len() == 10);
    assert("log_level"@.len() == 9);
    assert("custom_words"@.len() == 12);
    assert("model_unload_timeout"@.len() == 20);
    assert("word_correction_threshold"@.len() == 25);
    assert("history_limit"@.len() == 13);
    assert("recording_retention_period"@.len() == 26);
    assert("paste_method"@.len() == 12);
    assert("clipboard_handling"@.len() == 18);
    assert("mute_while_recording"@.len() == 20);
    assert("append_trailing_space"@.len() == 21);
    assert("app_language"@.len() == 12);
    assert("keyboard_implementation"@.len() == 23);
    assert("paste_delay_ms"@.len() == 14);
    assert("push_to_talk"@[4] == '_');
    assert("start_hidden"@[4] == 't');
    assert("custom_words"@[4] == 'o');
    assert("paste_method"@[4] == 'e');
    assert("app_language"@[4] == 'l');
    assert("audio_feedback"@[0] == 'a');
    assert("selected_model"@[0] == 's');
    assert("paste_delay_ms"@[0] == 'p');
    assert("autostart_enabled"@[0] == 'a');
    assert("selected_language"@[0] == 's');
    assert("always_on_microphone"@[5] == 's');
    assert("clamshell_microphone"@[5] == 'h');
    assert("translate_to_english"@[5] == 'l');
    assert("model_unload_timeout"@[5] == '_');
    assert("mute_while_recording"@[5] == 'w');
    assert("audio_feedback_volume"@[3] == 'i');
    assert("update_checks_enabled"@[3] == 'a');
    assert("append_trailing_space"@[3] == 'e');
    let members = settings_members(s);
    lemma_position_is(members, "bindings"@, 0);
    lemma_position_is(members, "push_to_talk"@, 1);
    lemma_position_is(members, "audio_feedback"@, 2);
    lemma_position_is(members, "audio_feedback_volume"@, 3);
    lemma_position_is(members, "sound_theme"@, 4);
    lemma_position_is(members, "start_hidden"@, 5);
    lemma_position_is(members, "autostart_enabled"@, 6);
    lemma_position_is(members, "update_checks_enabled"@, 7);
    lemma_position_is(members, "selected_model"@, 8);
    lemma_position_is(members, "always_on_microphone"@, 9);
    lemma_position_is(members, "selected_microphone"@, 10);
    lemma_position_is(members, "clamshell_microphone"@, 11);
    lemma_position_is(members, "selected_output_device"@, 12);
    lemma_position_is(members, "translate_to_english"@, 13);
    lemma_position_is(members, "selected_language"@, 14);
    lemma_position_is(members, "overlay_position"@, 15);
    lemma_position_is(members, "debug_mode"@, 16);
    lemma_position_is(members, "log_level"@, 17);
    lemma_position_is(members, "custom_words"@, 18);
    lemma_position_is(members, "model_unload_timeout"@, 19);
    lemma_position_is(members, "word_correction_threshold"@, 20);
    lemma_position_is(members, "history_limit"@, 21);
    lemma_position_is(members, "recording_retention_period"@, 22);
    lemma_position_is(members, "paste_method"@, 23);
    lemma_position_is(members, "clipboard_handling"@, 24);
    lemma_position_is(members, "mute_while_recording"@, 25);
    lemma_position_is(members, "append_trailing_space"@, 26);
    lemma_position_is(members, "app_language"@, 27);
    lemma_position_is(members, "keyboard_implementation"@, 28);
    lemma_position_is(members, "paste_delay_ms"@, 29);
}


/// The first ten settings are read from the document that holds them,
/// whatever the fallback.
proof fn lemma_settings_read_part_1(s: AppSettingsView, d: AppSettingsView)
    requires
        distinct_keys(s.bindings),
    ensures
        ({
            let read = settings_read(settings_document(s), d);
            &&& read.bindings == s.bindings
            &&& read.push_to_talk == s.push_to_talk
            &&& read.audio_feedback == s.audio_feedback
            &&& read.audio_feedback_volume == s.audio_feedback_volume
            &&& read.sound_theme == s.sound_theme
            &&& read.start_hidden == s.start_hidden
            &&& read.autostart_enabled == s.autostart_enabled
            &&& read.update_checks_enabled == s.update_checks_enabled
            &&& read.selected_model == s.selected_model
            &&& read.always_on_microphone == s.always_on_microphone
        }),
{
    lemma_settings_members(s);
    let doc = settings_document(s);
    lemma_bindings_or_found(doc, "bindings"@, s.bindings, d.bindings);
    lemma_bool_or_found(doc, "push_to_talk"@, s.push_to_talk, d.push_to_talk);
    lemma_bool_or_found(doc, "audio_feedback"@, s.audio_feedback, d.audio_feedback);
    lemma_number_or_found(
        doc,
        "audio_feedback_volume"@,
        s.audio_feedback_volume,
        d.audio_feedback_volume,
    );
    s.sound_theme.lemma_field_or_found(doc, "sound_theme"@, d.sound_theme);
    lemma_bool_or_found(doc, "start_hidden"@, s.start_hidden, d.start_hidden);
    lemma_bool_or_found(doc, "autostart_enabled"@, s.autostart_enabled, d.autostart_enabled);
    lemma_bool_or_found(
        doc,
        "update_checks_enabled"@,
        s.update_checks_enabled,
        d.update_checks_enabled,
    );
    lemma_text_or_found(doc, "selected_model"@, s.selected_model, d.selected_model);
    lemma_bool_or_found(
        doc,
        "always_on_microphone"@,
        s.always_on_microphone,
        d.always_on_microphone,
    );
}

/// The next ten settings are read from the document that holds them,
/// whatever the fallback.
proof fn lemma_settings_read_part_2(s: AppSettingsView, d: AppSettingsView)
    requires
        distinct_keys(s.bindings),
    ensures
        ({
            let read = settings_read(settings_document(s), d);
            &&& read.selected_microphone == s.selected_microphone
            &&& read.clamshell_microphone == s.clamshell_microphone
            &&& read.selected_output_device == s.selected_output_device
            &&& read.translate_to_english == s.translate_to_english
            &&& read.selected_language == s.selected_language
            &&& read.overlay_position == s.overlay_position
            &&& read.debug_mode == s.debug_mode
            &&& read.log_level == s.log_level
            &&& read.custom_words == s.custom_words
            &&& read.model_unload_timeout == s.model_unload_timeout
        }),
{
    lemma_settings_members(s);
    let doc = settings_document(s);
    lemma_optional_text_or_found(
        doc,
        "selected_microphone"@,
        s.selected_microphone,
        d.selected_microphone,
    );
    lemma_optional_text_or_found(
        doc,
        "clamshell_microphone"@,
        s.clamshell_microphone,
        d.clamshell_microphone,
    );
    lemma_optional_text_or_found(
        doc,
        "selected_output_device"@,
        s.selected_output_device,
        d.selected_output_device,
    );
    lemma_bool_or_found(
        doc,
        "translate_to_english"@,
        s.translate_to_english,
        d.translate_to_english,
    );
    lemma_text_or_found(doc, "selected_language"@, s.selected_language, d.selected_language);
    s.overlay_position.lemma_field_or_found(doc, "overlay_position"@, d.overlay_position);
    lemma_bool_or_found(doc, "debug_mode"@, s.debug_mode, d.debug_mode);
    s.log_level.lemma_field_or_found(doc, "log_level"@, d.log_level);
    lemma_text_list_or_found(doc, "custom_words"@, s.custom_words, d.custom_words);
    s.model_unload_timeout.lemma_field_or_found(
        doc,
        "model_unload_timeout"@,
        d.model_unload_timeout,
    );
}

/// The last ten settings are read from the document that holds them,
/// whatever the fallback.
proof fn lemma_settings_read_part_3(s: AppSettingsView, d: AppSettingsView)
    requires
        distinct_keys(s.bindings),
    ensures
        ({
            let read = settings_read(settings_document(s), d);
            &&& read.word_correction_threshold == s.word_correction_threshold
            &&& read.history_limit == s.history_limit
            &&& read.recording_retention_period == s.recording_retention_period
            &&& read.paste_method == s.paste_method
            &&& read.clipboard_handling == s.clipboard_handling
            &&& read.mute_while_recording == s.mute_while_recording
            &&& read.append_trailing_space == s.append_trailing_space
            &&& read.app_language == s.app_language
            &&& read.keyboard_implementation == s.keyboard_implementation
            &&& read.paste_delay_ms == s.paste_delay_ms
        }),
{
    lemma_settings_members(s);
    let doc = settings_document(s);
    lemma_number_or_found(
        doc,
        "word_correction_threshold"@,
        s.word_correction_threshold,
        d.word_correction_threshold,
    );
    lemma_size_or_found(doc, "history_limit"@, s.history_limit, d.history_limit);
    s.recording_retention_period.lemma_field_or_found(
        doc,
        "recording_retention_period"@,
        d.recording_retention_period,
    );
    s.paste_method.lemma_field_or_found(doc, "paste_method"@, d.paste_method);
    s.clipboard_handling.lemma_field_or_found(doc, "clipboard_handling"@, d.clipboard_handling);
    lemma_bool_or_found(
        doc,
        "mute_while_recording"@,
        s.mute_while_recording,
        d.mute_while_recording,
    );
    lemma_bool_or_found(
        doc,
        "append_trailing_space"@,
        s.append_trailing_space,
        d.append_trailing_space,
    );
    lemma_text_or_found(doc, "app_language"@, s.app_language, d.app_language);
    s.keyboard_implementation.lemma_field_or_found(
        doc,
        "keyboard_implementation"@,
        d.keyboard_implementation,
    );
    lemma_unsigned_or_found(doc, "paste_delay_ms"@, s.paste_delay_ms, d.paste_delay_ms);
}

/// Settings whose bindings have distinct keys are read from the document that
/// holds them, whatever the fallback.
pub proof fn lemma_settings_read_document(s: AppSettingsView, d: AppSettingsView)
    requires
        distinct_keys(s.bindings),
    ensures
        settings_read(settings_document(s), d) == s,
{
    lemma_settings_read_part_1(s, d);
    lemma_settings_read_part_2(s, d);
    lemma_settings_read_part_3(s, d);
}

/// Settings whose bindings have distinct keys are read back from the document
/// that holds them, in any environment.
pub proof fn lemma_settings_decoded_document(s: AppSettingsView, environment: EnvironmentView)
    requires
        distinct_keys(s.bindings),
    ensures
        settings_decoded(settings_document(s), environment) == Some(s),
{
    lemma_settings_read_document(s, default_settings(environment));
}

/// The log level of a document is read by itself. A level that decodes is the
/// level of the settings; one that is missing or does not decode leaves the
/// document to load all the same, with the default level.
pub proof fn lemma_log_level_is_read_by_itself(doc: JsonView, environment: EnvironmentView)
    requires
        doc is Object,
    ensures
        settings_decoded(doc, environment) is Some,
        settings_decoded(doc, environment)->0.log_level == match doc.field("log_level"@) {
            Some(value) => match LogLevel::decoded(value) {
                Some(level) => level,
                None => LogLevel::Debug,
            },
            None => LogLevel::Debug,
        },
{
    reveal(LogLevel::field_or);
}

/// Whether `key` is the name of a setting.
pub open spec fn is_setting_name(key: Seq<char>) -> bool {
    ||| key == "bindings"@
    ||| key == "push_to_talk"@
    ||| key == "audio_feedback"@
    ||| key == "audio_feedback_volume"@
    ||| key == "sound_theme"@
    ||| key == "start_hidden"@
    ||| key == "autostart_enabled"@
    ||| key == "update_checks_enabled"@
    ||| key == "selected_model"@
    ||| key == "always_on_microphone"@
    ||| key == "selected_microphone"@
    ||| key == "clamshell_microphone"@
    ||| key == "selected_output_device"@
    ||| key == "translate_to_english"@
    ||| key == "selected_language"@
    ||| key == "overlay_position"@
    ||| key == "debug_mode"@
    ||| key == "log_level"@
    ||| key == "custom_words"@
    ||| key == "model_unload_timeout"@
    ||| key == "word_correction_threshold"@
    ||| key == "history_limit"@
    ||| key == "recording_retention_period"@
    ||| key == "paste_method"@
    ||| key == "clipboard_handling"@
    ||| key == "mute_while_recording"@
    ||| key == "append_trailing_space"@
    ||| key == "app_language"@
    ||| key == "keyboard_implementation"@
    ||| key == "paste_delay_ms"@
}

/// The first ten settings are read alike from two documents that hold the
/// same under the name of every setting.
proof fn lemma_settings_read_same_part_1(a: JsonView, b: JsonView, fallback: AppSettingsView)
    requires
        forall|key: Seq<char>| is_setting_name(key) ==> a.field(key) == b.field(key),
    ensures
        ({
            let x = settings_read(a, fallback);
            let y = settings_read(b, fallback);
            &&& x.bindings == y.bindings
            &&& x.push_to_talk == y.push_to_talk
            &&& x.audio_feedback == y.audio_feedback
            &&& x.audio_feedback_volume == y.audio_feedback_volume
            &&& x.sound_theme == y.sound_theme
            &&& x.start_hidden == y.start_hidden
            &&& x.autostart_enabled == y.autostart_enabled
            &&& x.update_checks_enabled == y.update_checks_enabled
            &&& x.selected_model == y.selected_model
            &&& x.always_on_microphone == y.always_on_microphone
        }),
{
    assert(is_setting_name("bindings"@));
    lemma_bindings_or_same(a, b, "bindings"@, fallback.bindings);
    assert(is_setting_name("push_to_talk"@));
    lemma_bool_or_same(a, b, "push_to_talk"@, fallback.push_to_talk);
    assert(is_setting_name("audio_feedback"@));
    lemma_bool_or_same(a, b, "audio_feedback"@, fallback.audio_feedback);
    assert(is_setting_name("audio_feedback_volume"@));
    lemma_number_or_same(a, b, "audio_feedback_volume"@, fallback.audio_feedback_volume);
    assert(is_setting_name("sound_theme"@));
    SoundTheme::lemma_field_or_same(a, b, "sound_theme"@, fallback.sound_theme);
    assert(is_setting_name("start_hidden"@));
    lemma_bool_or_same(a, b, "start_hidden"@, fallback.start_hidden);
    assert(is_setting_name("autostart_enabled"@));
    lemma_bool_or_same(a, b, "autostart_enabled"@, fallback.autostart_enabled);
    assert(is_setting_name("update_checks_enabled"@));
    lemma_bool_or_same(a, b, "update_checks_enabled"@, fallback.update_checks_enabled);
    assert(is_setting_name("selected_model"@));
    lemma_text_or_same(a, b, "selected_model"@, fallback.selected_model);
    assert(is_setting_name("always_on_microphone"@));
    lemma_bool_or_same(a, b, "always_on_microphone"@, fallback.always_on_microphone);
}

/// The next ten settings are read alike from two documents that hold the
/// same under the name of every setting.
proof fn lemma_settings_read_same_part_2(a: JsonView, b: JsonView, fallback: AppSettingsView)
    requires
        forall|key: Seq<char>| is_setting_name(key) ==> a.field(key) == b.field(key),
    ensures
        ({
            let x = settings_read(a, fallback);
            let y = settings_read(b, fallback);
            &&& x.selected_microphone == y.selected_microphone
            &&& x.clamshell_microphone == y.clamshell_microphone
            &&& x.selected_output_device == y.selected_output_device
            &&& x.translate_to_english == y.translate_to_english
            &&& x.selected_language == y.selected_language
            &&& x.overlay_position == y.overlay_position
            &&& x.debug_mode == y.debug_mode
            &&& x.log_level == y.log_level
            &&& x.custom_words == y.custom_words
            &&& x.model_unload_timeout == y.model_unload_timeout
        }),
{
    assert(is_setting_name("selected_microphone"@));
    lemma_optional_text_or_same(a, b, "selected_microphone"@, fallback.selected_microphone);
    assert(is_setting_name("clamshell_microphone"@));
    lemma_optional_text_or_same(a, b, "clamshell_microphone"@, fallback.clamshell_microphone);
    assert(is_setting_name("selected_output_device"@));
    lemma_optional_text_or_same(a, b, "selected_output_device"@, fallback.selected_output_device);
    assert(is_setting_name("translate_to_english"@));
    lemma_bool_or_same(a, b, "translate_to_english"@, fallback.translate_to_english);
    assert(is_setting_name("selected_language"@));
    lemma_text_or_same(a, b, "selected_language"@, fallback.selected_language);
    assert(is_setting_name("overlay_position"@));
    OverlayPosition::lemma_field_or_same(a, b, "overlay_position"@, fallback.overlay_position);
    assert(is_setting_name("debug_mode"@));
    lemma_bool_or_same(a, b, "debug_mode"@, fallback.debug_mode);
    assert(is_setting_name("log_level"@));
    LogLevel::lemma_field_or_same(a, b, "log_level"@, fallback.log_level);
    assert(is_setting_name("custom_words"@));
    lemma_text_list_or_same(a, b, "custom_words"@, fallback.custom_words);
    assert(is_setting_name("model_unload_timeout"@));
    ModelUnloadTimeout::lemma_field_or_same(
        a,
        b,
        "model_unload_timeout"@,
        fallback.model_unload_timeout,
    );
}

/// The last ten settings are read alike from two documents that hold the
/// same under the name of every setting.
proof fn lemma_settings_read_same_part_3(a: JsonView, b: JsonView, fallback: AppSettingsView)
    requires
        forall|key: Seq<char>| is_setting_name(key) ==> a.field(key) == b.field(key),
    ensures
        ({
            let x = settings_read(a, fallback);
            let y = settings_read(b, fallback);
            &&& x.word_correction_threshold == y.word_correction_threshold
            &&& x.history_limit == y.history_limit
            &&& x.recording_retention_period == y.recording_retention_period
            &&& x.paste_method == y.paste_method
            &&& x.clipboard_handling == y.clipboard_handling
            &&& x.mute_while_recording == y.mute_while_recording
            &&& x.append_trailing_space == y.append_trailing_space
            &&& x.app_language == y.app_language
            &&& x.keyboard_implementation == y.keyboard_implementation
            &&& x.paste_delay_ms == y.paste_delay_ms
        }),
{
    assert(is_setting_name("word_correction_threshold"@));
    lemma_number_or_same(a, b, "word_correction_threshold"@, fallback.word_correction_threshold);
    assert(is_setting_name("history_limit"@));
    lemma_size_or_same(a, b, "history_limit"@, fallback.history_limit);
    assert(is_setting_name("recording_retention_period"@));
    RecordingRetentionPeriod::lemma_field_or_same(
        a,
        b,
        "recording_retention_period"@,
        fallback.recording_retention_period,
    );
    assert(is_setting_name("paste_method"@));
    PasteMethod::lemma_field_or_same(a, b, "paste_method"@, fallback.paste_method);
    assert(is_setting_name("clipboard_handling"@));
    ClipboardHandling::lemma_field_or_same(
        a,
        b,
        "clipboard_handling"@,
        fallback.clipboard_handling,
    );
    assert(is_setting_name("mute_while_recording"@));
    lemma_bool_or_same(a, b, "mute_while_recording"@, fallback.mute_while_recording);
    assert(is_setting_name("append_trailing_space"@));
    lemma_bool_or_same(a, b, "append_trailing_space"@, fallback.append_trailing_space);
    assert(is_setting_name("app_language"@));
    lemma_text_or_same(a, b, "app_language"@, fallback.app_language);
    assert(is_setting_name("keyboard_implementation"@));
    KeyboardImplementation::lemma_field_or_same(
        a,
        b,
        "keyboard_implementation"@,
        fallback.keyboard_implementation,
    );
    assert(is_setting_name("paste_delay_ms"@));
    lemma_unsigned_or_same(a, b, "paste_delay_ms"@, fallback.paste_delay_ms);
}

/// What a document decodes to depends on nothing but what it holds under the
/// names of the settings: two objects that hold the same there decode alike,
/// whatever else they hold and in whatever order.
pub proof fn lemma_settings_decoded_same(a: JsonView, b: JsonView, environment: EnvironmentView)
    requires
        a is Object,
        b is Object,
        forall|key: Seq<char>| is_setting_name(key) ==> a.field(key) == b.field(key),
    ensures
        settings_decoded(a, environment) == settings_decoded(b, environment),
{
    let fallback = default_settings(environment);
    lemma_settings_read_same_part_1(a, b, fallback);
    lemma_settings_read_same_part_2(a, b, fallback);
    lemma_settings_read_same_part_3(a, b, fallback);
}

/// A member under a name that is not the name of a setting is ignored: a
/// document decodes with it as it does without it.
pub proof fn lemma_unknown_member_is_ignored(
    members: Seq<(Seq<char>, JsonView)>,
    key: Seq<char>,
    value: JsonView,
    environment: EnvironmentView,
)
    requires
        !is_setting_name(key),
    ensures
        settings_decoded(JsonView::Object(members.push((key, value))), environment)
            == settings_decoded(JsonView::Object(members), environment),
{
    let with = JsonView::Object(members.push((key, value)));
    let without = JsonView::Object(members);
    assert forall|name: Seq<char>| is_setting_name(name) implies with.field(name)
        == without.field(name) by {
        lemma_found_after_push(members, key, value, name);
    }
    lemma_settings_decoded_same(with, without, environment);
}

/// An object without members decodes to the defaults.
pub proof fn lemma_empty_object_is_defaults(environment: EnvironmentView)
    ensures
        settings_decoded(JsonView::Object(Seq::empty()), environment) == Some(
            default_settings(environment),
        ),
{
    let empty = JsonView::Object(Seq::empty());
    assert forall|key: Seq<char>| (#[trigger] empty.field(key)) is None by {
        lemma_position_is(Seq::<(Seq<char>, JsonView)>::empty(), key, 0);
    }
    reveal(bindings_or);
    reveal(JsonView::bool_or);
    reveal(JsonView::text_or);
    reveal(JsonView::optional_text_or);
    reveal(JsonView::unsigned_or);
    reveal(JsonView::size_or);
    reveal(JsonView::number_or);
    reveal(JsonView::text_list_or);
    reveal(SoundTheme::field_or);
    reveal(OverlayPosition::field_or);
    reveal(LogLevel::field_or);
    reveal(ModelUnloadTimeout::field_or);
    reveal(RecordingRetentionPeriod::field_or);
    reveal(PasteMethod::field_or);
    reveal(ClipboardHandling::field_or);
    reveal(KeyboardImplementation::field_or);
}

/// A document that holds nothing under the name of any setting decodes to the
/// defaults: every setting that is missing has its default.
pub proof fn lemma_missing_settings_are_defaults(doc: JsonView, environment: EnvironmentView)
    requires
        doc is Object,
        forall|key: Seq<char>| is_setting_name(key) ==> doc.field(key) is None,
    ensures
        settings_decoded(doc, environment) == Some(default_settings(environment)),
{
    let empty = JsonView::Object(Seq::empty());
    assert forall|key: Seq<char>| is_setting_name(key) implies doc.field(key) == empty.field(
        key,
    ) by {
        lemma_position_is(Seq::<(Seq<char>, JsonView)>::empty(), key, 0);
    }
    lemma_settings_decoded_same(doc, empty, environment);
    lemma_empty_object_is_defaults(environment);
}

} // verus!
