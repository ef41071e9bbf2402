//! The start of the shortcuts, with the one fallback from an engine that
//! cannot be initialized.

use crate::assoc::found;
use crate::bindings::BindingView;
use crate::bindings::ShortcutBinding;
use crate::options::KeyboardImplementation;
use crate::settings::default_bindings;
use crate::settings::settings_document;
use crate::settings::transcribe_id;
use crate::settings::AppSettingsView;
use crate::shortcut::optional_request_view;
use crate::shortcut::reply_view;
use crate::shortcut::BackendCall;
use crate::shortcut::BackendCallView;
use crate::shortcut::BackendRequest;
use crate::shortcut::BackendRequestView;
use crate::store::get_settings;
use crate::store::lemma_loaded;
use crate::store::lemma_settings_distinct;
use crate::store::lemma_written_is_read;
use crate::store::load_or_create_app_settings;
use crate::store::write_settings;
use crate::store::SettingsStore;
use crate::store::StoreView;
use vstd::prelude::*;

verus! {

/// How far the start of the shortcuts has come. The first two states wait
/// for the answer of an engine to one request.
#[derive(Debug, PartialEq, Eq)]
pub enum Startup {
    /// Waiting for `backend` to be initialized.
    Initializing { backend: KeyboardImplementation },
    /// Waiting for the transcribe binding to be registered on `backend`.
    Registering { backend: KeyboardImplementation, binding: ShortcutBinding },
    /// Started on `backend`. The warning says why the transcribe binding could
    /// not be registered, if it could not.
    Ready { backend: KeyboardImplementation, warning: Option<String> },
    /// No engine could be initialized: there are no shortcuts in this run.
    Unavailable { error: String },
}

/// The mathematical value of a [`Startup`].
pub ghost enum StartupView {
    Initializing { backend: KeyboardImplementation },
    Registering { backend: KeyboardImplementation, binding: BindingView },
    Ready { backend: KeyboardImplementation, warning: Option<Seq<char>> },
    Unavailable { error: Seq<char> },
}

impl View for Startup {
    type V = StartupView;

    open spec fn view(&self) -> StartupView {
        match self {
            Startup::Initializing { backend } => StartupView::Initializing { backend: *backend },
            Startup::Registering { backend, binding } => StartupView::Registering {
                backend: *backend,
                binding: binding@,
            },
            Startup::Ready { backend, warning } => StartupView::Ready {
                backend: *backend,
                warning: match warning {
                    Some(e) => Some(e@),
                    None => None,
                },
            },
            Startup::Unavailable { error } => StartupView::Unavailable { error: error@ },
        }
    }
}

/// The settings of `store` with `backend` as the engine.
pub open spec fn with_backend(
    store: StoreView,
    backend: KeyboardImplementation,
) -> AppSettingsView {
    AppSettingsView { keyboard_implementation: backend, ..store.settings() }
}

/// The store after `backend` has been persisted as the engine: the settings
/// are read, the engine is put into them, and the whole is written back.
pub open spec fn switched(store: StoreView, backend: KeyboardImplementation) -> StoreView {
    store.healed().written(settings_document(with_backend(store, backend)))
}

impl StartupView {
    /// The request that this state waits for the answer to, if it waits for one.
    pub open spec fn request(self) -> Option<BackendRequestView> {
        match self {
            StartupView::Initializing { backend } => Some(
                BackendRequestView { backend, call: BackendCallView::Init },
            ),
            StartupView::Registering { backend, binding } => Some(
                BackendRequestView { backend, call: BackendCallView::Register(binding) },
            ),
            _ => None,
        }
    }

    /// The state that follows this one when the engine answers `reply`.
    ///
    /// An engine that is initialized goes on to register the transcribe
    /// binding that the store holds. One that fails is given up for the
    /// engine to fall back on, where there is one; where there is none, the
    /// shortcuts are unavailable. The registration of the transcribe binding
    /// ends the start either way.
    pub open spec fn advanced(self, store: StoreView, reply: Result<(), Seq<char>>) -> StartupView {
        match self {
            StartupView::Initializing { backend } => match reply {
                Ok(_) => match found(store.settings().bindings, transcribe_id()) {
                    Some(binding) => StartupView::Registering { backend, binding },
                    None => StartupView::Ready { backend, warning: None },
                },
                Err(e) => match backend.fallback() {
                    Some(other) => StartupView::Initializing { backend: other },
                    None => StartupView::Unavailable { error: e },
                },
            },
            StartupView::Registering { backend, binding } => match reply {
                Ok(_) => StartupView::Ready { backend, warning: None },
                Err(e) => StartupView::Ready { backend, warning: Some(e) },
            },
            _ => self,
        }
    }

    /// The store after the engine has answered `reply` in this state. The
    /// choice of the engine to fall back on is persisted before that engine
    /// is tried; nothing else is written.
    pub open spec fn store_advanced(
        self,
        store: StoreView,
        reply: Result<(), Seq<char>>,
    ) -> StoreView {
        match self {
            StartupView::Initializing { backend } => match reply {
                Ok(_) => store.healed(),
                Err(_) => match backend.fallback() {
                    Some(other) => switched(store, other),
                    None => store,
                },
            },
            _ => store,
        }
    }
}

/// Starts the shortcuts: loads the settings and asks for the engine that they
/// name to be initialized.
pub fn init_shortcuts(store: &mut SettingsStore) -> (r: Startup)
    ensures
        r@ == (StartupView::Initializing {
            backend: old(store)@.loaded().keyboard_implementation,
        }),
        final(store)@ == old(store)@.after_load(),
{
    let settings = load_or_create_app_settings(store);
    Startup::Initializing { backend: settings.keyboard_implementation }
}

impl Startup {
    /// The request that this state waits for the answer to, if it waits for one.
    pub fn request(&self) -> (r: Option<BackendRequest>)
        ensures
            optional_request_view(r) == self@.request(),
    {
        match self {
            Startup::Initializing { backend } => Some(
                BackendRequest { backend: *backend, call: BackendCall::Init },
            ),
            Startup::Registering { backend, binding } => Some(
                BackendRequest { backend: *backend, call: BackendCall::Register(binding.clone()) },
            ),
            _ => None,
        }
    }

    /// Takes the answer of the engine to the request of this state and gives
    /// the state that follows.
    pub fn advance(self, store: &mut SettingsStore, reply: Result<(), String>) -> (r: Startup)
        ensures
            r@ == self@.advanced(old(store)@, reply_view(reply)),
            final(store)@ == self@.store_advanced(old(store)@, reply_view(reply)),
    {
        match self {
            Startup::Initializing { backend } => match reply {
                Ok(_) => {
                    let settings = get_settings(store);
                    match settings.bindings.get("transcribe") {
                        Some(binding) => Startup::Registering { backend, binding: binding.clone() },
                        None => Startup::Ready { backend, warning: None },
                    }
                },
                Err(e) => match backend.fallback_engine() {
                    Some(other) => {
                        let mut settings = get_settings(store);
                        settings.keyboard_implementation = other;
                        write_settings(store, settings);
                        Startup::Initializing { backend: other }
                    },
                    None => Startup::Unavailable { error: e },
                },
            },
            Startup::Registering { backend, binding } => match reply {
                Ok(_) => Startup::Ready { backend, warning: None },
                Err(e) => Startup::Ready { backend, warning: Some(e) },
            },
            Startup::Ready { backend, warning } => Startup::Ready { backend, warning },
            Startup::Unavailable { error } => Startup::Unavailable { error },
        }
    }
}

/// After the settings have been loaded, the store holds the transcribe
/// binding: an engine that is initialized always goes on to register it.
pub proof fn lemma_transcribe_is_registered(store: StoreView, backend: KeyboardImplementation)
    ensures
        (StartupView::Initializing { backend }).advanced(store.after_load(), Ok(())) is Registering,
        (StartupView::Initializing { backend }).store_advanced(store.after_load(), Ok(()))
            == store.after_load(),
{
    lemma_loaded(store);
    let defaults = default_bindings(store.environment.platform);
    assert(defaults[0].0 == transcribe_id());
}

/// When the engine that the settings name cannot be initialized and there is
/// one to fall back on, that one is persisted as the engine and tried next.
/// From then on the store names it: a later start loads it and asks for it
/// first, and if it fails in turn there is no engine left to try.
pub proof fn lemma_fallback_is_persisted(
    store: StoreView,
    backend: KeyboardImplementation,
    error: Seq<char>,
    later_error: Seq<char>,
)
    requires
        backend.fallback() is Some,
    ensures
        ({
            let state = StartupView::Initializing { backend };
            let other = backend.fallback()->0;
            let after = state.store_advanced(store, Err(error));
            &&& state.advanced(store, Err(error)) == (StartupView::Initializing { backend: other })
            &&& after.dirty
            &&& after.settings() == with_backend(store, other)
            &&& after.loaded().keyboard_implementation == other
            &&& after.after_load().settings().keyboard_implementation == other
            &&& other.fallback() is None
            &&& (StartupView::Initializing { backend: other }).advanced(
                after.after_load(),
                Err(later_error),
            ) == (StartupView::Unavailable { error: later_error })
            &&& (StartupView::Initializing { backend: other }).store_advanced(
                after.after_load(),
                Err(later_error),
            ) == after.after_load()
        }),
{
    let other = backend.fallback()->0;
    let after = switched(store, other);
    lemma_settings_distinct(store);
    lemma_written_is_read(store.healed(), with_backend(store, other));
    lemma_loaded(after);
}

/// An engine that fails with none to fall back on leaves the store as it was
/// and the shortcuts unavailable, with the error of the engine.
pub proof fn lemma_no_fallback_left(
    store: StoreView,
    backend: KeyboardImplementation,
    error: Seq<char>,
)
    requires
        backend.fallback() is None,
    ensures
        (StartupView::Initializing { backend }).advanced(store, Err(error))
            == (StartupView::Unavailable { error }),
        (StartupView::Initializing { backend }).store_advanced(store, Err(error)) == store,
{
}

} // verus!
