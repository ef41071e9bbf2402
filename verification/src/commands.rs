//! The commands that change one setting each.

use crate::json::Number;
use crate::options::ClipboardHandling;
use crate::options::OverlayPosition;
use crate::options::PasteMethod;
use crate::options::SoundTheme;
use crate::settings::settings_document;
use crate::settings::AppSettingsView;
use crate::store::get_settings;
use crate::store::lemma_settings_distinct;
use crate::store::lemma_written_is_read;
use crate::store::write_settings;
use crate::store::SettingsStore;
use crate::store::StoreView;
use crate::text::text_of;
use vstd::prelude::*;

verus! {

/// The new value of a setting in a notice: a switch or a text.
#[derive(Debug, PartialEq, Eq)]
pub enum NoticeValue {
    Switch(bool),
    Text(String),
}

/// The notice that goes out to listeners when a setting has changed that
/// other parts of the application depend on.
#[derive(Debug, PartialEq, Eq)]
pub struct SettingChanged {
    pub setting: String,
    pub value: NoticeValue,
}

/// The mathematical value of a [`NoticeValue`].
pub ghost enum NoticeValueView {
    Switch(bool),
    Text(Seq<char>),
}

/// The mathematical value of a [`SettingChanged`].
pub ghost struct SettingChangedView {
    pub setting: Seq<char>,
    pub value: NoticeValueView,
}

impl View for NoticeValue {
    type V = NoticeValueView;

    open spec fn view(&self) -> NoticeValueView {
        match self {
            NoticeValue::Switch(on) => NoticeValueView::Switch(*on),
            NoticeValue::Text(text) => NoticeValueView::Text(text@),
        }
    }
}

impl View for SettingChanged {
    type V = SettingChangedView;

    open spec fn view(&self) -> SettingChangedView {
        SettingChangedView { setting: self.setting@, value: self.value@ }
    }
}

/// The store after `settings` have been saved by a command: the settings are
/// read first, and the whole is written back.
pub open spec fn saved(store: StoreView, settings: AppSettingsView) -> StoreView {
    store.healed().written(settings_document(settings))
}

/// What a command saves is what the store holds from then on, as long as the
/// command leaves the bindings alone: the one setting is changed and no other.
pub proof fn lemma_saved_is_read(store: StoreView, settings: AppSettingsView)
    requires
        settings.bindings == store.settings().bindings,
    ensures
        saved(store, settings).settings() == settings,
        saved(store, settings).dirty,
{
    lemma_settings_distinct(store);
    lemma_written_is_read(store.healed(), settings);
}

/// The sound theme that a name stands for; an unknown name stands for marimba.
pub open spec fn sound_theme_named(name: Seq<char>) -> SoundTheme {
    match SoundTheme::named(name) {
        Some(theme) => theme,
        None => SoundTheme::Marimba,
    }
}

/// The overlay position that a name stands for; an unknown name stands for the bottom.
pub open spec fn overlay_position_named(name: Seq<char>) -> OverlayPosition {
    match OverlayPosition::named(name) {
        Some(position) => position,
        None => OverlayPosition::Bottom,
    }
}

/// The paste method that a name stands for; an unknown name stands for Ctrl+V.
pub open spec fn paste_method_named(name: Seq<char>) -> PasteMethod {
    match PasteMethod::named(name) {
        Some(method) => method,
        None => PasteMethod::CtrlV,
    }
}

/// The clipboard handling that a name stands for; an unknown name stands for
/// leaving the clipboard alone.
pub open spec fn clipboard_handling_named(name: Seq<char>) -> ClipboardHandling {
    match ClipboardHandling::named(name) {
        Some(handling) => handling,
        None => ClipboardHandling::DontModify,
    }
}

/// Turns push-to-talk on or off.
pub fn change_ptt_setting(store: &mut SettingsStore, enabled: bool) -> (r: Result<(), String>)
    ensures
        r is Ok,
        final(store)@ == saved(
            old(store)@,
            (AppSettingsView { push_to_talk: enabled, ..old(store)@.settings() }),
        ),
{
    let mut settings = get_settings(store);
    settings.push_to_talk = enabled;
    write_settings(store, settings);
    Ok(())
}

/// Turns the sounds at the start and end of a recording on or off.
pub fn change_audio_feedback_setting(
    store: &mut SettingsStore,
    enabled: bool,
) -> (r: Result<(), String>)
    ensures
        r is Ok,
        final(store)@ == saved(
            old(store)@,
            (AppSettingsView { audio_feedback: enabled, ..old(store)@.settings() }),
        ),
{
    let mut settings = get_settings(store);
    settings.audio_feedback = enabled;
    write_settings(store, settings);
    Ok(())
}

/// Sets the volume of the sounds, a number as the document holds it.
pub fn change_audio_feedback_volume_setting(
    store: &mut SettingsStore,
    volume: Number,
) -> (r: Result<(), String>)
    ensures
        r is Ok,
        final(store)@ == saved(
            old(store)@,
            (AppSettingsView { audio_feedback_volume: volume, ..old(store)@.settings() }),
        ),
{
    let mut settings = get_settings(store);
    settings.audio_feedback_volume = volume;
    write_settings(store, settings);
    Ok(())
}

/// Sets the sound theme by its name; an unknown name gives marimba.
pub fn change_sound_theme_setting(
    store: &mut SettingsStore,
    theme: String,
) -> (r: Result<(), String>)
    ensures
        r is Ok,
        final(store)@ == saved(
            old(store)@,
            (AppSettingsView { sound_theme: sound_theme_named(theme@), ..old(store)@.settings() }),
        ),
{
    let mut settings = get_settings(store);
    let parsed = match SoundTheme::from_name(theme.as_str()) {
        Some(value) => value,
        None => SoundTheme::Marimba,
    };
    settings.sound_theme = parsed;
    write_settings(store, settings);
    Ok(())
}

/// Turns translation into English on or off.
pub fn change_translate_to_english_setting(
    store: &mut SettingsStore,
    enabled: bool,
) -> (r: Result<(), String>)
    ensures
        r is Ok,
        final(store)@ == saved(
            old(store)@,
            (AppSettingsView { translate_to_english: enabled, ..old(store)@.settings() }),
        ),
{
    let mut settings = get_settings(store);
    settings.translate_to_english = enabled;
    write_settings(store, settings);
    Ok(())
}

/// Sets the language that is spoken.
pub fn change_selected_language_setting(
    store: &mut SettingsStore,
    language: String,
) -> (r: Result<(), String>)
    ensures
        r is Ok,
        final(store)@ == saved(
            old(store)@,
            (AppSettingsView { selected_language: language@, ..old(store)@.settings() }),
        ),
{
    let mut settings = get_settings(store);
    settings.selected_language = language;
    write_settings(store, settings);
    Ok(())
}

/// Sets where the overlay is shown, by name; an unknown name gives the bottom.
pub fn change_overlay_position_setting(
    store: &mut SettingsStore,
    position: String,
) -> (r: Result<(), String>)
    ensures
        r is Ok,
        final(store)@ == saved(
            old(store)@,
            (
                AppSettingsView {
                    overlay_position: overlay_position_named(position@),
                    ..old(store)@.settings()
                }
            ),
        ),
{
    let mut settings = get_settings(store);
    let parsed = match OverlayPosition::from_name(position.as_str()) {
        Some(value) => value,
        None => OverlayPosition::Bottom,
    };
    settings.overlay_position = parsed;
    write_settings(store, settings);
    Ok(())
}

/// Turns the debug mode on or off.
/// Gives the notice for the listeners.
pub fn change_debug_mode_setting(
    store: &mut SettingsStore,
    enabled: bool,
) -> (r: Result<SettingChanged, String>)
    ensures
        r matches Ok(notice) && notice@ == (SettingChangedView {
            setting: "debug_mode"@,
            value: NoticeValueView::Switch(enabled),
        }),
        final(store)@ == saved(
            old(store)@,
            (AppSettingsView { debug_mode: enabled, ..old(store)@.settings() }),
        ),
{
    let mut settings = get_settings(store);
    settings.debug_mode = enabled;
    write_settings(store, settings);
    Ok(SettingChanged { setting: text_of("debug_mode"), value: NoticeValue::Switch(enabled) })
}

/// Sets whether the application starts without a window.
/// Gives the notice for the listeners.
pub fn change_start_hidden_setting(
    store: &mut SettingsStore,
    enabled: bool,
) -> (r: Result<SettingChanged, String>)
    ensures
        r matches Ok(notice) && notice@ == (SettingChangedView {
            setting: "start_hidden"@,
            value: NoticeValueView::Switch(enabled),
        }),
        final(store)@ == saved(
            old(store)@,
            (AppSettingsView { start_hidden: enabled, ..old(store)@.settings() }),
        ),
{
    let mut settings = get_settings(store);
    settings.start_hidden = enabled;
    write_settings(store, settings);
    Ok(SettingChanged { setting: text_of("start_hidden"), value: NoticeValue::Switch(enabled) })
}

/// Sets whether the application starts with the system.
/// Gives the notice for the listeners.
pub fn change_autostart_setting(
    store: &mut SettingsStore,
    enabled: bool,
) -> (r: Result<SettingChanged, String>)
    ensures
        r matches Ok(notice) && notice@ == (SettingChangedView {
            setting: "autostart_enabled"@,
            value: NoticeValueView::Switch(enabled),
        }),
        final(store)@ == saved(
            old(store)@,
            (AppSettingsView { autostart_enabled: enabled, ..old(store)@.settings() }),
        ),
{
    let mut settings = get_settings(store);
    settings.autostart_enabled = enabled;
    write_settings(store, settings);
    Ok(
        SettingChanged {
            setting: text_of("autostart_enabled"),
            value: NoticeValue::Switch(enabled),
        },
    )
}

/// Turns the check for updates on or off.
/// Gives the notice for the listeners.
pub fn change_update_checks_setting(
    store: &mut SettingsStore,
    enabled: bool,
) -> (r: Result<SettingChanged, String>)
    ensures
        r matches Ok(notice) && notice@ == (SettingChangedView {
            setting: "update_checks_enabled"@,
            value: NoticeValueView::Switch(enabled),
        }),
        final(store)@ == saved(
            old(store)@,
            (AppSettingsView { update_checks_enabled: enabled, ..old(store)@.settings() }),
        ),
{
    let mut settings = get_settings(store);
    settings.update_checks_enabled = enabled;
    write_settings(store, settings);
    Ok(
        SettingChanged {
            setting: text_of("update_checks_enabled"),
            value: NoticeValue::Switch(enabled),
        },
    )
}

/// Replaces the words that the user has added.
pub fn update_custom_words(store: &mut SettingsStore, words: Vec<String>) -> (r: Result<(), String>)
    ensures
        r is Ok,
        final(store)@ == saved(
            old(store)@,
            (AppSettingsView { custom_words: words.deep_view(), ..old(store)@.settings() }),
        ),
{
    let mut settings = get_settings(store);
    settings.custom_words = words;
    write_settings(store, settings);
    Ok(())
}

/// Sets the threshold for word correction, a number as the document holds it.
pub fn change_word_correction_threshold_setting(
    store: &mut SettingsStore,
    threshold: Number,
) -> (r: Result<(), String>)
    ensures
        r is Ok,
        final(store)@ == saved(
            old(store)@,
            (AppSettingsView { word_correction_threshold: threshold, ..old(store)@.settings() }),
        ),
{
    let mut settings = get_settings(store);
    settings.word_correction_threshold = threshold;
    write_settings(store, settings);
    Ok(())
}

/// Sets the paste method by its name; an unknown name gives Ctrl+V.
pub fn change_paste_method_setting(
    store: &mut SettingsStore,
    method: String,
) -> (r: Result<(), String>)
    ensures
        r is Ok,
        final(store)@ == saved(
            old(store)@,
            (
                AppSettingsView {
                    paste_method: paste_method_named(method@),
                    ..old(store)@.settings()
                }
            ),
        ),
{
    let mut settings = get_settings(store);
    let parsed = match PasteMethod::from_name(method.as_str()) {
        Some(value) => value,
        None => PasteMethod::CtrlV,
    };
    settings.paste_method = parsed;
    write_settings(store, settings);
    Ok(())
}

/// Sets the clipboard handling by its name; an unknown name leaves the clipboard alone.
pub fn change_clipboard_handling_setting(
    store: &mut SettingsStore,
    handling: String,
) -> (r: Result<(), String>)
    ensures
        r is Ok,
        final(store)@ == saved(
            old(store)@,
            (
                AppSettingsView {
                    clipboard_handling: clipboard_handling_named(handling@),
                    ..old(store)@.settings()
                }
            ),
        ),
{
    let mut settings = get_settings(store);
    let parsed = match ClipboardHandling::from_name(handling.as_str()) {
        Some(value) => value,
        None => ClipboardHandling::DontModify,
    };
    settings.clipboard_handling = parsed;
    write_settings(store, settings);
    Ok(())
}

/// Sets whether other sound is muted during a recording.
pub fn change_mute_while_recording_setting(
    store: &mut SettingsStore,
    enabled: bool,
) -> (r: Result<(), String>)
    ensures
        r is Ok,
        final(store)@ == saved(
            old(store)@,
            (AppSettingsView { mute_while_recording: enabled, ..old(store)@.settings() }),
        ),
{
    let mut settings = get_settings(store);
    settings.mute_while_recording = enabled;
    write_settings(store, settings);
    Ok(())
}

/// Sets whether a space follows the text that is pasted.
pub fn change_append_trailing_space_setting(
    store: &mut SettingsStore,
    enabled: bool,
) -> (r: Result<(), String>)
    ensures
        r is Ok,
        final(store)@ == saved(
            old(store)@,
            (AppSettingsView { append_trailing_space: enabled, ..old(store)@.settings() }),
        ),
{
    let mut settings = get_settings(store);
    settings.append_trailing_space = enabled;
    write_settings(store, settings);
    Ok(())
}

/// Sets the language of the interface.
/// Gives the notice for the listeners.
pub fn change_app_language_setting(store: &mut SettingsStore, language: String) -> (r: Result<
    SettingChanged,
    String,
>)
    ensures
        r matches Ok(notice) && notice@ == (SettingChangedView {
            setting: "app_language"@,
            value: NoticeValueView::Text(language@),
        }),
        final(store)@ == saved(
            old(store)@,
            (AppSettingsView { app_language: language@, ..old(store)@.settings() }),
        ),
{
    let mut settings = get_settings(store);
    settings.app_language = language.clone();
    write_settings(store, settings);
    Ok(SettingChanged { setting: text_of("app_language"), value: NoticeValue::Text(language) })
}

} // verus!
