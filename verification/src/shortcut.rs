//! Requests to the engines that capture key combinations, each routed to
//! the engine that the settings name.

use crate::assoc::found;
use crate::bindings::BindingView;
use crate::bindings::ShortcutBinding;
use crate::options::KeyboardImplementation;
use crate::store::get_settings;
use crate::store::SettingsStore;
use crate::text::text_of;
use vstd::prelude::*;

verus! {

/// One operation of an engine that captures key combinations.
#[derive(Debug, PartialEq, Eq)]
pub enum BackendCall {
    /// Acquire what the engine needs to capture keys.
    Init,
    /// Bind the combination in force to the action of the binding.
    Register(ShortcutBinding),
    /// Release the combination of the binding.
    Unregister(ShortcutBinding),
    /// Check a combination without binding it.
    Validate(String),
    /// Bind the cancel action for the time of a recording.
    RegisterCancel,
    /// Release the cancel action at the end of a recording.
    UnregisterCancel,
}

/// An operation together with the engine that is to perform it.
#[derive(Debug, PartialEq, Eq)]
pub struct BackendRequest {
    pub backend: KeyboardImplementation,
    pub call: BackendCall,
}

/// The mathematical value of a [`BackendCall`].
pub ghost enum BackendCallView {
    Init,
    Register(BindingView),
    Unregister(BindingView),
    Validate(Seq<char>),
    RegisterCancel,
    UnregisterCancel,
}

/// The mathematical value of a [`BackendRequest`].
pub ghost struct BackendRequestView {
    pub backend: KeyboardImplementation,
    pub call: BackendCallView,
}

impl View for BackendCall {
    type V = BackendCallView;

    open spec fn view(&self) -> BackendCallView {
        match self {
            BackendCall::Init => BackendCallView::Init,
            BackendCall::Register(b) => BackendCallView::Register(b@),
            BackendCall::Unregister(b) => BackendCallView::Unregister(b@),
            BackendCall::Validate(raw) => BackendCallView::Validate(raw@),
            BackendCall::RegisterCancel => BackendCallView::RegisterCancel,
            BackendCall::UnregisterCancel => BackendCallView::UnregisterCancel,
        }
    }
}

impl View for BackendRequest {
    type V = BackendRequestView;

    open spec fn view(&self) -> BackendRequestView {
        BackendRequestView { backend: self.backend, call: self.call@ }
    }
}

/// What an engine answers to an operation: success, or what went wrong.
pub open spec fn reply_view(reply: Result<(), String>) -> Result<(), Seq<char>> {
    match reply {
        Ok(_) => Ok(()),
        Err(e) => Err(e@),
    }
}

/// The value of an optional request.
pub open spec fn optional_request_view(request: Option<BackendRequest>) -> Option<
    BackendRequestView,
> {
    match request {
        Some(r) => Some(r@),
        None => None,
    }
}

impl KeyboardImplementation {
    /// The engine to fall back on when this one cannot be initialized, if there is one.
    pub open spec fn fallback(self) -> Option<KeyboardImplementation> {
        match self {
            KeyboardImplementation::HandyKeys => Some(KeyboardImplementation::Tauri),
            KeyboardImplementation::Tauri => None,
        }
    }

    /// The engine to fall back on when this one cannot be initialized, if there is one.
    pub fn fallback_engine(self) -> (r: Option<KeyboardImplementation>)
        ensures
            r == self.fallback(),
    {
        match self {
            KeyboardImplementation::HandyKeys => Some(KeyboardImplementation::Tauri),
            KeyboardImplementation::Tauri => None,
        }
    }
}

/// The request to bind the cancel action on the engine that the settings
/// name. Made when a recording starts.
pub fn register_cancel_shortcut(store: &mut SettingsStore) -> (r: BackendRequest)
    ensures
        r@ == (BackendRequestView {
            backend: old(store)@.settings().keyboard_implementation,
            call: BackendCallView::RegisterCancel,
        }),
        final(store)@ == old(store)@.healed(),
{
    let settings = get_settings(store);
    BackendRequest { backend: settings.keyboard_implementation, call: BackendCall::RegisterCancel }
}

/// The request to release the cancel action on the engine that the settings
/// name. Made when a recording ends.
pub fn unregister_cancel_shortcut(store: &mut SettingsStore) -> (r: BackendRequest)
    ensures
        r@ == (BackendRequestView {
            backend: old(store)@.settings().keyboard_implementation,
            call: BackendCallView::UnregisterCancel,
        }),
        final(store)@ == old(store)@.healed(),
{
    let settings = get_settings(store);
    BackendRequest {
        backend: settings.keyboard_implementation,
        call: BackendCall::UnregisterCancel,
    }
}

/// The request to register `binding` on the engine that the settings name.
pub fn register_shortcut(store: &mut SettingsStore, binding: ShortcutBinding) -> (r: BackendRequest)
    ensures
        r@ == (BackendRequestView {
            backend: old(store)@.settings().keyboard_implementation,
            call: BackendCallView::Register(binding@),
        }),
        final(store)@ == old(store)@.healed(),
{
    let settings = get_settings(store);
    BackendRequest {
        backend: settings.keyboard_implementation,
        call: BackendCall::Register(binding),
    }
}

/// The request to unregister `binding` on the engine that the settings name.
pub fn unregister_shortcut(store: &mut SettingsStore, binding: ShortcutBinding) -> (r: BackendRequest)
    ensures
        r@ == (BackendRequestView {
            backend: old(store)@.settings().keyboard_implementation,
            call: BackendCallView::Unregister(binding@),
        }),
        final(store)@ == old(store)@.healed(),
{
    let settings = get_settings(store);
    BackendRequest {
        backend: settings.keyboard_implementation,
        call: BackendCall::Unregister(binding),
    }
}

/// The request to check `raw` against the rules of `implementation`.
pub fn validate_shortcut_for_implementation(
    raw: &str,
    implementation: KeyboardImplementation,
) -> (r: BackendRequest)
    ensures
        r@ == (BackendRequestView {
            backend: implementation,
            call: BackendCallView::Validate(raw@),
        }),
{
    BackendRequest { backend: implementation, call: BackendCall::Validate(text_of(raw)) }
}

/// The request that silences the action `id` while its combination is being
/// recorded anew: to unregister the binding that the store holds under `id`.
/// There is nothing to do where the store holds none.
pub fn suspend_binding(store: &mut SettingsStore, id: &str) -> (r: Option<BackendRequest>)
    ensures
        optional_request_view(r) == match found(old(store)@.settings().bindings, id@) {
            Some(b) => Some(
                BackendRequestView {
                    backend: old(store)@.settings().keyboard_implementation,
                    call: BackendCallView::Unregister(b),
                },
            ),
            None => None,
        },
        final(store)@ == old(store)@.healed(),
{
    let settings = get_settings(store);
    match settings.bindings.get(id) {
        Some(b) => Some(
            BackendRequest {
                backend: settings.keyboard_implementation,
                call: BackendCall::Unregister(b.clone()),
            },
        ),
        None => None,
    }
}

/// The request that brings the action `id` back after its combination has
/// been recorded: to register the binding that the store holds under `id`.
/// There is nothing to do where the store holds none.
pub fn resume_binding(store: &mut SettingsStore, id: &str) -> (r: Option<BackendRequest>)
    ensures
        optional_request_view(r) == match found(old(store)@.settings().bindings, id@) {
            Some(b) => Some(
                BackendRequestView {
                    backend: old(store)@.settings().keyboard_implementation,
                    call: BackendCallView::Register(b),
                },
            ),
            None => None,
        },
        final(store)@ == old(store)@.healed(),
{
    let settings = get_settings(store);
    match settings.bindings.get(id) {
        Some(b) => Some(
            BackendRequest {
                backend: settings.keyboard_implementation,
                call: BackendCall::Register(b.clone()),
            },
        ),
        None => None,
    }
}

} // verus!
