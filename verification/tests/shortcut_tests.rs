use handy_settings::binding_change::change_binding;
use handy_settings::binding_change::reset_binding;
use handy_settings::binding_change::BindingChange;
use handy_settings::binding_change::BindingResponse;
use handy_settings::bindings::ShortcutBinding;
use handy_settings::json::Json;
use handy_settings::options::KeyboardImplementation;
use handy_settings::platform::Environment;
use handy_settings::platform::Platform;
use handy_settings::settings::get_default_settings;
use handy_settings::settings::AppSettings;
use handy_settings::shortcut::register_cancel_shortcut;
use handy_settings::shortcut::register_shortcut;
use handy_settings::shortcut::resume_binding;
use handy_settings::shortcut::suspend_binding;
use handy_settings::shortcut::unregister_cancel_shortcut;
use handy_settings::shortcut::unregister_shortcut;
use handy_settings::shortcut::validate_shortcut_for_implementation;
use handy_settings::shortcut::BackendCall;
use handy_settings::shortcut::BackendRequest;
use handy_settings::startup::init_shortcuts;
use handy_settings::startup::Startup;
use handy_settings::store::get_settings;
use handy_settings::store::get_stored_binding;
use handy_settings::store::SettingsStore;

fn object(members: Vec<(&str, Json)>) -> Json {
    Json::Object(members.into_iter().map(|(k, v)| (k.to_string(), v)).collect())
}

fn windows() -> Environment {
    Environment { platform: Platform::Windows, locale: None }
}

fn macos() -> Environment {
    Environment { platform: Platform::MacOs, locale: None }
}

fn binding(id: &str, name: &str, description: &str, default: &str, current: &str) -> ShortcutBinding {
    ShortcutBinding {
        id: id.to_string(),
        name: name.to_string(),
        description: description.to_string(),
        default_binding: default.to_string(),
        current_binding: current.to_string(),
    }
}

fn transcribe(current: &str) -> ShortcutBinding {
    binding("transcribe", "Transcribe", "Converts your speech into text.", "ctrl+space", current)
}

fn cancel(current: &str) -> ShortcutBinding {
    binding("cancel", "Cancel", "Cancels the current recording.", "escape", current)
}

fn store_with(settings: &AppSettings, environment: Environment) -> SettingsStore {
    SettingsStore::new(environment, Some(settings.encode()))
}

fn fresh() -> SettingsStore {
    store_with(&get_default_settings(&windows()), windows())
}

fn on(backend: KeyboardImplementation, call: BackendCall) -> Option<BackendRequest> {
    Some(BackendRequest { backend, call })
}

#[test]
fn a_blank_combination_is_turned_down_and_nothing_changes() {
    for blank in ["   ", "", "\t", " \u{a0}\n"] {
        let mut store = fresh();
        let before = store.document().cloned();
        let change = change_binding(&mut store, "transcribe".to_string(), blank.to_string());
        assert_eq!(change.request(), None);
        assert_eq!(change, BindingChange::Finished(Err("Binding cannot be empty".to_string())));
        assert!(!store.is_dirty());
        assert_eq!(store.document().cloned(), before);
        assert_eq!(get_stored_binding(&mut store, "transcribe"), Some(transcribe("ctrl+space")));
    }
}

#[test]
fn a_blank_combination_is_turned_down_before_anything_is_read() {
    let mut store = SettingsStore::new(windows(), None);
    let change = change_binding(&mut store, "transcribe".to_string(), " ".to_string());
    assert_eq!(change.into_outcome(), Some(Err("Binding cannot be empty".to_string())));
    assert!(!store.is_dirty());
    assert_eq!(store.document(), None);
}

#[test]
fn an_unknown_id_is_answered_with_a_failure() {
    let mut store = fresh();
    let before = store.document().cloned();
    let change = change_binding(&mut store, "paste".to_string(), "f2".to_string());
    assert_eq!(change.request(), None);
    assert_eq!(
        change.into_outcome(),
        Some(Ok(BindingResponse {
            success: false,
            binding: None,
            error: Some("Binding with id 'paste' not found in defaults".to_string()),
        }))
    );
    assert!(!store.is_dirty());
    assert_eq!(store.document().cloned(), before);
}

#[test]
fn the_cancel_binding_is_changed_without_an_engine() {
    let mut store = fresh();
    let change = change_binding(&mut store, "cancel".to_string(), "f1".to_string());
    assert_eq!(change.request(), None);
    assert_eq!(
        change.into_outcome(),
        Some(Ok(BindingResponse { success: true, binding: Some(cancel("f1")), error: None }))
    );
    assert!(store.is_dirty());
    assert_eq!(get_stored_binding(&mut store, "cancel"), Some(cancel("f1")));
    assert_eq!(get_stored_binding(&mut store, "transcribe"), Some(transcribe("ctrl+space")));
}

#[test]
fn the_cancel_binding_is_made_from_the_defaults_where_none_is_stored() {
    let document = object(vec![("bindings", object(vec![("transcribe", transcribe("f9").encode())]))]);
    let mut store = SettingsStore::new(windows(), Some(document));
    let change = change_binding(&mut store, "cancel".to_string(), "f1".to_string());
    assert_eq!(change.request(), None);
    assert_eq!(
        change.into_outcome(),
        Some(Ok(BindingResponse { success: true, binding: Some(cancel("f1")), error: None }))
    );
    let settings = get_settings(&mut store);
    assert_eq!(settings.bindings.keys(), vec!["transcribe".to_string(), "cancel".to_string()]);
    assert_eq!(settings.bindings.get("cancel"), Some(&cancel("f1")));
    assert_eq!(settings.bindings.get("transcribe"), Some(&transcribe("f9")));
}

#[test]
fn a_change_runs_through_release_check_and_registration() {
    let mut store = fresh();
    let tauri = KeyboardImplementation::Tauri;
    let change = change_binding(&mut store, "transcribe".to_string(), "ctrl+shift+d".to_string());
    assert_eq!(change.request(), on(tauri, BackendCall::Unregister(transcribe("ctrl+space"))));
    assert!(!store.is_dirty());

    let change = change.advance(&mut store, Ok(()));
    assert_eq!(change.request(), on(tauri, BackendCall::Validate("ctrl+shift+d".to_string())));
    assert!(!store.is_dirty());

    let change = change.advance(&mut store, Ok(()));
    assert_eq!(change.request(), on(tauri, BackendCall::Register(transcribe("ctrl+shift+d"))));
    assert!(!store.is_dirty());
    assert_eq!(get_stored_binding(&mut store, "transcribe"), Some(transcribe("ctrl+space")));

    let change = change.advance(&mut store, Ok(()));
    assert_eq!(change.request(), None);
    assert_eq!(
        change.into_outcome(),
        Some(Ok(BindingResponse {
            success: true,
            binding: Some(transcribe("ctrl+shift+d")),
            error: None
        }))
    );
    assert!(store.is_dirty());
    assert_eq!(get_stored_binding(&mut store, "transcribe"), Some(transcribe("ctrl+shift+d")));
    assert_eq!(get_stored_binding(&mut store, "cancel"), Some(cancel("escape")));
}

#[test]
fn a_failed_release_does_not_stop_the_change() {
    let mut store = fresh();
    let change = change_binding(&mut store, "transcribe".to_string(), "f8".to_string());
    let change = change.advance(&mut store, Err("not registered".to_string()));
    assert_eq!(
        change.request(),
        on(KeyboardImplementation::Tauri, BackendCall::Validate("f8".to_string()))
    );
    let change = change.advance(&mut store, Ok(())).advance(&mut store, Ok(()));
    assert_eq!(
        change.into_outcome(),
        Some(Ok(BindingResponse { success: true, binding: Some(transcribe("f8")), error: None }))
    );
    assert_eq!(get_stored_binding(&mut store, "transcribe"), Some(transcribe("f8")));
}

#[test]
fn an_invalid_combination_is_turned_down_with_what_the_engine_said() {
    let mut store = fresh();
    let before = store.document().cloned();
    let change = change_binding(&mut store, "transcribe".to_string(), "ctrl+".to_string());
    let change = change.advance(&mut store, Ok(()));
    let change = change.advance(&mut store, Err("Invalid shortcut: ctrl+".to_string()));
    assert_eq!(change.request(), None);
    assert_eq!(change.into_outcome(), Some(Err("Invalid shortcut: ctrl+".to_string())));
    assert!(!store.is_dirty());
    assert_eq!(store.document().cloned(), before);
}

#[test]
fn a_failed_registration_leaves_the_stored_binding_as_it_was() {
    let mut store = fresh();
    let before = store.document().cloned();
    let change = change_binding(&mut store, "transcribe".to_string(), "f8".to_string());
    let change = change.advance(&mut store, Ok(())).advance(&mut store, Ok(()));
    let change = change.advance(&mut store, Err("already bound".to_string()));
    assert_eq!(change.request(), None);
    assert_eq!(
        change.into_outcome(),
        Some(Ok(BindingResponse {
            success: false,
            binding: None,
            error: Some("Failed to register shortcut: already bound".to_string()),
        }))
    );
    assert!(!store.is_dirty());
    assert_eq!(store.document().cloned(), before);
    assert_eq!(get_stored_binding(&mut store, "transcribe"), Some(transcribe("ctrl+space")));
}

#[test]
fn a_change_that_is_done_stays_done() {
    let mut store = fresh();
    let change = change_binding(&mut store, "transcribe".to_string(), " ".to_string());
    let change = change.advance(&mut store, Ok(()));
    assert_eq!(change, BindingChange::Finished(Err("Binding cannot be empty".to_string())));
    let change = change.advance(&mut store, Err("late".to_string()));
    assert_eq!(change, BindingChange::Finished(Err("Binding cannot be empty".to_string())));
    assert!(!store.is_dirty());
}

#[test]
fn a_change_that_is_not_done_has_no_outcome() {
    let mut store = fresh();
    let change = change_binding(&mut store, "transcribe".to_string(), "f8".to_string());
    assert_eq!(change.into_outcome(), None);
}

#[test]
fn a_change_goes_to_the_engine_that_the_settings_name() {
    let mut settings = get_default_settings(&windows());
    settings.keyboard_implementation = KeyboardImplementation::HandyKeys;
    let mut store = store_with(&settings, windows());
    let handy = KeyboardImplementation::HandyKeys;
    let change = change_binding(&mut store, "transcribe".to_string(), "f8".to_string());
    assert_eq!(change.request(), on(handy, BackendCall::Unregister(transcribe("ctrl+space"))));
    let change = change.advance(&mut store, Ok(()));
    assert_eq!(change.request(), on(handy, BackendCall::Validate("f8".to_string())));
    let change = change.advance(&mut store, Ok(()));
    assert_eq!(change.request(), on(handy, BackendCall::Register(transcribe("f8"))));
}

#[test]
fn a_binding_that_is_not_stored_is_made_from_the_defaults() {
    let document = object(vec![("bindings", object(vec![]))]);
    let mut store = SettingsStore::new(windows(), Some(document));
    let change = change_binding(&mut store, "transcribe".to_string(), "f8".to_string());
    assert_eq!(
        change.request(),
        on(KeyboardImplementation::Tauri, BackendCall::Unregister(transcribe("ctrl+space")))
    );
    let change = change.advance(&mut store, Ok(())).advance(&mut store, Ok(()));
    let change = change.advance(&mut store, Ok(()));
    assert_eq!(
        change.into_outcome(),
        Some(Ok(BindingResponse { success: true, binding: Some(transcribe("f8")), error: None }))
    );
    assert_eq!(get_settings(&mut store).bindings.keys(), vec!["transcribe".to_string()]);
}

#[test]
fn resetting_goes_back_to_the_default_combination() {
    let mut settings = get_default_settings(&windows());
    settings.bindings.insert("transcribe".to_string(), transcribe("f8"));
    let mut store = store_with(&settings, windows());
    let change = reset_binding(&mut store, "transcribe".to_string());
    assert_eq!(
        change.request(),
        on(KeyboardImplementation::Tauri, BackendCall::Unregister(transcribe("f8")))
    );
    let change = change.advance(&mut store, Ok(()));
    assert_eq!(
        change.request(),
        on(KeyboardImplementation::Tauri, BackendCall::Validate("ctrl+space".to_string()))
    );
    let change = change.advance(&mut store, Ok(())).advance(&mut store, Ok(()));
    assert_eq!(
        change.into_outcome(),
        Some(Ok(BindingResponse {
            success: true,
            binding: Some(transcribe("ctrl+space")),
            error: None
        }))
    );
    assert_eq!(get_stored_binding(&mut store, "transcribe"), Some(transcribe("ctrl+space")));
}

#[test]
fn resetting_the_cancel_binding_needs_no_engine() {
    let mut settings = get_default_settings(&windows());
    settings.bindings.insert("cancel".to_string(), cancel("f1"));
    let mut store = store_with(&settings, windows());
    let change = reset_binding(&mut store, "cancel".to_string());
    assert_eq!(change.request(), None);
    assert_eq!(
        change.into_outcome(),
        Some(Ok(BindingResponse { success: true, binding: Some(cancel("escape")), error: None }))
    );
    assert_eq!(get_stored_binding(&mut store, "cancel"), Some(cancel("escape")));
}

#[test]
fn resetting_an_unknown_id_is_answered_with_a_failure() {
    let mut store = fresh();
    let change = reset_binding(&mut store, "paste".to_string());
    assert_eq!(
        change.into_outcome(),
        Some(Ok(BindingResponse {
            success: false,
            binding: None,
            error: Some("Binding with id 'paste' not found in defaults".to_string()),
        }))
    );
    assert!(!store.is_dirty());
}

#[test]
fn suspending_and_resuming_leave_the_store_alone() {
    let mut store = fresh();
    let before = store.document().cloned();
    let tauri = KeyboardImplementation::Tauri;
    assert_eq!(
        suspend_binding(&mut store, "transcribe"),
        on(tauri, BackendCall::Unregister(transcribe("ctrl+space")))
    );
    assert_eq!(
        resume_binding(&mut store, "transcribe"),
        on(tauri, BackendCall::Register(transcribe("ctrl+space")))
    );
    assert_eq!(suspend_binding(&mut store, "paste"), None);
    assert_eq!(resume_binding(&mut store, "paste"), None);
    assert!(!store.is_dirty());
    assert_eq!(store.document().cloned(), before);
}

#[test]
fn requests_go_to_the_engine_that_the_settings_name() {
    for backend in [KeyboardImplementation::Tauri, KeyboardImplementation::HandyKeys] {
        let mut settings = get_default_settings(&windows());
        settings.keyboard_implementation = backend;
        let mut store = store_with(&settings, windows());
        assert_eq!(register_cancel_shortcut(&mut store), BackendRequest {
            backend,
            call: BackendCall::RegisterCancel
        });
        assert_eq!(unregister_cancel_shortcut(&mut store), BackendRequest {
            backend,
            call: BackendCall::UnregisterCancel
        });
        assert_eq!(register_shortcut(&mut store, cancel("f1")), BackendRequest {
            backend,
            call: BackendCall::Register(cancel("f1"))
        });
        assert_eq!(unregister_shortcut(&mut store, cancel("f1")), BackendRequest {
            backend,
            call: BackendCall::Unregister(cancel("f1"))
        });
        assert_eq!(validate_shortcut_for_implementation("ctrl+k", backend), BackendRequest {
            backend,
            call: BackendCall::Validate("ctrl+k".to_string())
        });
        assert!(!store.is_dirty());
    }
}

#[test]
fn starting_on_the_engine_that_the_settings_name() {
    let mut store = SettingsStore::new(windows(), None);
    let tauri = KeyboardImplementation::Tauri;
    let startup = init_shortcuts(&mut store);
    assert_eq!(startup, Startup::Initializing { backend: tauri });
    assert_eq!(startup.request(), on(tauri, BackendCall::Init));
    assert!(store.is_dirty());
    store.mark_clean();

    let startup = startup.advance(&mut store, Ok(()));
    assert_eq!(startup.request(), on(tauri, BackendCall::Register(transcribe("ctrl+space"))));

    let startup = startup.advance(&mut store, Ok(()));
    assert_eq!(startup, Startup::Ready { backend: tauri, warning: None });
    assert_eq!(startup.request(), None);
    assert!(!store.is_dirty());
}

#[test]
fn falling_back_is_persisted_and_not_tried_again() {
    let mut store = SettingsStore::new(macos(), None);
    let handy = KeyboardImplementation::HandyKeys;
    let tauri = KeyboardImplementation::Tauri;
    let startup = init_shortcuts(&mut store);
    assert_eq!(startup.request(), on(handy, BackendCall::Init));
    store.mark_clean();

    let startup = startup.advance(&mut store, Err("no permission".to_string()));
    assert_eq!(startup, Startup::Initializing { backend: tauri });
    assert_eq!(startup.request(), on(tauri, BackendCall::Init));
    assert!(store.is_dirty());
    assert_eq!(get_settings(&mut store).keyboard_implementation, tauri);

    let startup = startup.advance(&mut store, Ok(()));
    assert_eq!(
        startup.request(),
        on(
            tauri,
            BackendCall::Register(binding(
                "transcribe",
                "Transcribe",
                "Converts your speech into text.",
                "option+space",
                "option+space"
            ))
        )
    );

    let document = store.document().cloned();
    let mut restarted = SettingsStore::new(macos(), document);
    let startup = init_shortcuts(&mut restarted);
    assert_eq!(startup, Startup::Initializing { backend: tauri });
    assert!(!restarted.is_dirty());
}

#[test]
fn falling_back_changes_no_other_setting() {
    let mut settings = get_default_settings(&macos());
    settings.history_limit = 77;
    settings.bindings.insert("cancel".to_string(), cancel("f1"));
    let mut store = store_with(&settings, macos());
    let startup = init_shortcuts(&mut store);
    let _ = startup.advance(&mut store, Err("failed".to_string()));
    settings.keyboard_implementation = KeyboardImplementation::Tauri;
    assert_eq!(get_settings(&mut store), settings);
}

#[test]
fn without_an_engine_to_fall_back_on_there_are_no_shortcuts() {
    let mut store = fresh();
    let before = store.document().cloned();
    let startup = init_shortcuts(&mut store);
    let startup = startup.advance(&mut store, Err("hook failed".to_string()));
    assert_eq!(startup, Startup::Unavailable { error: "hook failed".to_string() });
    assert_eq!(startup.request(), None);
    assert!(!store.is_dirty());
    assert_eq!(store.document().cloned(), before);
    let startup = startup.advance(&mut store, Ok(()));
    assert_eq!(startup, Startup::Unavailable { error: "hook failed".to_string() });
}

#[test]
fn both_engines_failing_leaves_the_fallback_persisted() {
    let mut store = SettingsStore::new(macos(), None);
    let startup = init_shortcuts(&mut store);
    let startup = startup.advance(&mut store, Err("first".to_string()));
    let startup = startup.advance(&mut store, Err("second".to_string()));
    assert_eq!(startup, Startup::Unavailable { error: "second".to_string() });
    assert_eq!(get_settings(&mut store).keyboard_implementation, KeyboardImplementation::Tauri);
}

#[test]
fn a_failed_registration_at_the_start_is_a_warning() {
    let mut store = fresh();
    let startup = init_shortcuts(&mut store);
    let startup = startup.advance(&mut store, Ok(()));
    let startup = startup.advance(&mut store, Err("taken".to_string()));
    assert_eq!(
        startup,
        Startup::Ready { backend: KeyboardImplementation::Tauri, warning: Some("taken".to_string()) }
    );
}
