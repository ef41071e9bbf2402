//! The change of one binding, step by step: what to ask of the engine, what
//! to answer to the user, and when to persist.

use crate::assoc::found;
use crate::assoc::inserted;
use crate::assoc::lemma_inserted;
use crate::assoc::lemma_position_is;
use crate::bindings::combos_filled;
use crate::bindings::lemma_inserted_filled;
use crate::bindings::BindingsView;
use crate::bindings::BindingView;
use crate::bindings::ShortcutBinding;
use crate::options::KeyboardImplementation;
use crate::settings::cancel_id;
use crate::settings::default_bindings;
use crate::settings::get_default_bindings;
use crate::settings::lemma_default_ids_differ;
use crate::settings::settings_document;
use crate::settings::AppSettingsView;
use crate::shortcut::optional_request_view;
use crate::shortcut::reply_view;
use crate::shortcut::BackendCall;
use crate::shortcut::BackendCallView;
use crate::shortcut::BackendRequest;
use crate::shortcut::BackendRequestView;
use crate::store::get_settings;
use crate::store::lemma_get_twice;
use crate::store::lemma_settings_distinct;
use crate::store::lemma_written_is_read;
use crate::store::write_settings;
use crate::store::SettingsStore;
use crate::store::StoreView;
use crate::text::is_blank;
use crate::text::join3;
use crate::text::text_eq;
use crate::text::text_is_blank;
use crate::text::text_of;
use vstd::prelude::*;

verus! {

/// What a change of a binding came to, where it was not turned down outright:
/// the binding as it now stands, or why nothing was changed.
#[derive(Debug, PartialEq, Eq)]
pub struct BindingResponse {
    pub success: bool,
    pub binding: Option<ShortcutBinding>,
    pub error: Option<String>,
}

/// The mathematical value of a [`BindingResponse`].
pub ghost struct BindingResponseView {
    pub success: bool,
    pub binding: Option<BindingView>,
    pub error: Option<Seq<char>>,
}

impl View for BindingResponse {
    type V = BindingResponseView;

    open spec fn view(&self) -> BindingResponseView {
        BindingResponseView {
            success: self.success,
            binding: match self.binding {
                Some(b) => Some(b@),
                None => None,
            },
            error: match self.error {
                Some(e) => Some(e@),
                None => None,
            },
        }
    }
}

impl BindingResponseView {
    /// The response that carries the binding as it now stands.
    pub open spec fn changed(binding: BindingView) -> BindingResponseView {
        BindingResponseView { success: true, binding: Some(binding), error: None }
    }

    /// The response that says why nothing was changed.
    pub open spec fn failed(error: Seq<char>) -> BindingResponseView {
        BindingResponseView { success: false, binding: None, error: Some(error) }
    }
}

impl BindingResponse {
    /// The response that carries the binding as it now stands.
    pub fn changed(binding: ShortcutBinding) -> (r: BindingResponse)
        ensures
            r@ == BindingResponseView::changed(binding@),
    {
        BindingResponse { success: true, binding: Some(binding), error: None }
    }

    /// The response that says why nothing was changed.
    pub fn failed(error: String) -> (r: BindingResponse)
        ensures
            r@ == BindingResponseView::failed(error@),
    {
        BindingResponse { success: false, binding: None, error: Some(error) }
    }
}

/// How far a change of a binding has come. Each state but the last waits for
/// the answer of the engine to one request.
#[derive(Debug, PartialEq, Eq)]
pub enum BindingChange {
    /// Waiting for the old combination to be released.
    Unregistering {
        backend: KeyboardImplementation,
        id: String,
        target: ShortcutBinding,
        combo: String,
    },
    /// Waiting for the new combination to be checked.
    Validating {
        backend: KeyboardImplementation,
        id: String,
        target: ShortcutBinding,
        combo: String,
    },
    /// Waiting for the binding with the new combination to be registered.
    Registering { backend: KeyboardImplementation, id: String, updated: ShortcutBinding },
    /// Done: turned down with a message for the user, or answered with a response.
    Finished(Result<BindingResponse, String>),
}

/// The mathematical value of a [`BindingChange`].
pub ghost enum BindingChangeView {
    Unregistering {
        backend: KeyboardImplementation,
        id: Seq<char>,
        target: BindingView,
        combo: Seq<char>,
    },
    Validating {
        backend: KeyboardImplementation,
        id: Seq<char>,
        target: BindingView,
        combo: Seq<char>,
    },
    Registering { backend: KeyboardImplementation, id: Seq<char>, updated: BindingView },
    Finished(Result<BindingResponseView, Seq<char>>),
}

/// The value of what a change came to.
pub open spec fn outcome_view(outcome: Result<BindingResponse, String>) -> Result<
    BindingResponseView,
    Seq<char>,
> {
    match outcome {
        Ok(response) => Ok(response@),
        Err(e) => Err(e@),
    }
}

impl View for BindingChange {
    type V = BindingChangeView;

    open spec fn view(&self) -> BindingChangeView {
        match self {
            BindingChange::Unregistering { backend, id, target, combo } => {
                BindingChangeView::Unregistering {
                    backend: *backend,
                    id: id@,
                    target: target@,
                    combo: combo@,
                }
            },
            BindingChange::Validating { backend, id, target, combo } => {
                BindingChangeView::Validating {
                    backend: *backend,
                    id: id@,
                    target: target@,
                    combo: combo@,
                }
            },
            BindingChange::Registering { backend, id, updated } => {
                BindingChangeView::Registering { backend: *backend, id: id@, updated: updated@ }
            },
            BindingChange::Finished(outcome) => BindingChangeView::Finished(outcome_view(*outcome)),
        }
    }
}

/// The message for a combination that is empty or blank.
pub open spec fn empty_binding_message() -> Seq<char> {
    "Binding cannot be empty"@
}

/// The message for an id that neither the store nor the defaults know.
pub open spec fn unknown_binding_message(id: Seq<char>) -> Seq<char> {
    "Binding with id '"@ + id + "' not found in defaults"@
}

/// The message for a registration that the engine turned down.
pub open spec fn failed_registration_message(error: Seq<char>) -> Seq<char> {
    "Failed to register shortcut: "@ + error
}

/// The binding that a change of `id` starts from: the one that is stored
/// under `id`, else the one that ships under `id`, if any.
pub open spec fn resolved(stored: BindingsView, defaults: BindingsView, id: Seq<char>) -> Option<
    BindingView,
> {
    match found(stored, id) {
        Some(b) => Some(b),
        None => found(defaults, id),
    }
}

/// The settings of `store` with `binding` under `id`.
pub open spec fn with_binding(
    store: StoreView,
    id: Seq<char>,
    binding: BindingView,
) -> AppSettingsView {
    AppSettingsView {
        bindings: inserted(store.settings().bindings, id, binding),
        ..store.settings()
    }
}

/// The store after `binding` has been persisted under `id`: the settings are
/// read, the binding is put into them, and the whole is written back.
pub open spec fn persisted(store: StoreView, id: Seq<char>, binding: BindingView) -> StoreView {
    store.healed().written(settings_document(with_binding(store, id, binding)))
}

/// The state in which a change of the binding `id` to `combo` starts.
pub open spec fn change_started(
    store: StoreView,
    id: Seq<char>,
    combo: Seq<char>,
) -> BindingChangeView {
    if is_blank(combo) {
        BindingChangeView::Finished(Err(empty_binding_message()))
    } else {
        match resolved(
            store.settings().bindings,
            default_bindings(store.environment.platform),
            id,
        ) {
            None => BindingChangeView::Finished(
                Ok(BindingResponseView::failed(unknown_binding_message(id))),
            ),
            Some(target) => if id == cancel_id() {
                BindingChangeView::Finished(
                    Ok(BindingResponseView::changed(target.with_current(combo))),
                )
            } else {
                BindingChangeView::Unregistering {
                    backend: store.settings().keyboard_implementation,
                    id,
                    target,
                    combo,
                }
            },
        }
    }
}

/// The store after a change of the binding `id` to `combo` has started.
/// A blank combination leaves it untouched. Otherwise the settings are read;
/// and for the cancel action the new combination is persisted at once.
pub open spec fn store_after_change_started(
    store: StoreView,
    id: Seq<char>,
    combo: Seq<char>,
) -> StoreView {
    if is_blank(combo) {
        store
    } else {
        match resolved(
            store.settings().bindings,
            default_bindings(store.environment.platform),
            id,
        ) {
            Some(target) => if id == cancel_id() {
                persisted(store, id, target.with_current(combo))
            } else {
                store.healed()
            },
            None => store.healed(),
        }
    }
}

impl BindingChangeView {
    /// The request that this state waits for the answer to, if it waits for one.
    pub open spec fn request(self) -> Option<BackendRequestView> {
        match self {
            BindingChangeView::Unregistering { backend, id, target, combo } => Some(
                BackendRequestView { backend, call: BackendCallView::Unregister(target) },
            ),
            BindingChangeView::Validating { backend, id, target, combo } => Some(
                BackendRequestView { backend, call: BackendCallView::Validate(combo) },
            ),
            BindingChangeView::Registering { backend, id, updated } => Some(
                BackendRequestView { backend, call: BackendCallView::Register(updated) },
            ),
            BindingChangeView::Finished(_) => None,
        }
    }

    /// The state that follows this one when the engine answers `reply`.
    /// Whether the old combination could be released does not matter. A
    /// combination that the engine finds invalid is turned down with what the
    /// engine said. A registration that the engine turns down ends the change
    /// with a response that says so.
    pub open spec fn advanced(self, reply: Result<(), Seq<char>>) -> BindingChangeView {
        match self {
            BindingChangeView::Unregistering { backend, id, target, combo } => {
                BindingChangeView::Validating { backend, id, target, combo }
            },
            BindingChangeView::Validating { backend, id, target, combo } => match reply {
                Ok(_) => BindingChangeView::Registering {
                    backend,
                    id,
                    updated: target.with_current(combo),
                },
                Err(e) => BindingChangeView::Finished(Err(e)),
            },
            BindingChangeView::Registering { backend, id, updated } => match reply {
                Ok(_) => BindingChangeView::Finished(Ok(BindingResponseView::changed(updated))),
                Err(e) => BindingChangeView::Finished(
                    Ok(BindingResponseView::failed(failed_registration_message(e))),
                ),
            },
            BindingChangeView::Finished(outcome) => BindingChangeView::Finished(outcome),
        }
    }

    /// The store after the engine has answered `reply` in this state: written
    /// only when the new binding has been registered, else as it was.
    pub open spec fn store_advanced(
        self,
        store: StoreView,
        reply: Result<(), Seq<char>>,
    ) -> StoreView {
        match self {
            BindingChangeView::Registering { backend, id, updated } => match reply {
                Ok(_) => persisted(store, id, updated),
                Err(_) => store,
            },
            _ => store,
        }
    }
}

impl BindingChangeView {
    /// Whether the combination that this state would put in force is not blank.
    pub open spec fn combo_filled(self) -> bool {
        match self {
            BindingChangeView::Unregistering { backend, id, target, combo } => !is_blank(combo),
            BindingChangeView::Validating { backend, id, target, combo } => !is_blank(combo),
            BindingChangeView::Registering { backend, id, updated } => !is_blank(
                updated.current_binding,
            ),
            BindingChangeView::Finished(_) => true,
        }
    }
}

/// Puts `binding` under `id` into the settings of the store and writes them back.
fn persist_binding(store: &mut SettingsStore, id: String, binding: ShortcutBinding)
    ensures
        final(store)@ == persisted(old(store)@, id@, binding@),
{
    let mut settings = get_settings(store);
    settings.bindings.insert(id, binding);
    write_settings(store, settings);
}

/// Starts the change of the binding `id` to the combination `binding`.
///
/// A combination that is empty or blank is turned down before anything is
/// read. An id that neither the store nor the defaults know ends the change
/// with a response that says so. The cancel action is never registered here:
/// its new combination is persisted at once. For every other action the
/// change goes on with the request to release the old combination.
pub fn change_binding(store: &mut SettingsStore, id: String, binding: String) -> (r: BindingChange)
    ensures
        r@ == change_started(old(store)@, id@, binding@),
        final(store)@ == store_after_change_started(old(store)@, id@, binding@),
{
    if text_is_blank(binding.as_str()) {
        return BindingChange::Finished(Err(text_of("Binding cannot be empty")));
    }
    let ghost before = store@;
    let settings = get_settings(store);
    let target = match settings.bindings.get(id.as_str()) {
        Some(stored) => stored.clone(),
        None => {
            let defaults = get_default_bindings(store.environment().platform);
            match defaults.get(id.as_str()) {
                Some(shipped) => shipped.clone(),
                None => {
                    let message = join3(
                        "Binding with id '",
                        id.as_str(),
                        "' not found in defaults",
                    );
                    return BindingChange::Finished(Ok(BindingResponse::failed(message)));
                },
            }
        },
    };
    if text_eq(id.as_str(), "cancel") {
        let updated = target.with_current(binding);
        persist_binding(store, id, updated.clone());
        proof {
            lemma_get_twice(before);
        }
        return BindingChange::Finished(Ok(BindingResponse::changed(updated)));
    }
    BindingChange::Unregistering {
        backend: settings.keyboard_implementation,
        id,
        target,
        combo: binding,
    }
}

/// Starts the change of the binding `id` back to the combination it ships
/// with: the default combination of the stored binding, else of the binding
/// that ships under `id`. An id that neither knows ends the change with a
/// response that says so.
pub fn reset_binding(store: &mut SettingsStore, id: String) -> (r: BindingChange)
    ensures
        match resolved(
            old(store)@.settings().bindings,
            default_bindings(old(store)@.environment.platform),
            id@,
        ) {
            Some(target) => {
                &&& r@ == change_started(old(store)@.healed(), id@, target.default_binding)
                &&& final(store)@ == store_after_change_started(
                    old(store)@.healed(),
                    id@,
                    target.default_binding,
                )
            },
            None => {
                &&& r@ == BindingChangeView::Finished(
                    Ok(BindingResponseView::failed(unknown_binding_message(id@))),
                )
                &&& final(store)@ == old(store)@.healed()
            },
        },
{
    let settings = get_settings(store);
    let combo = match settings.bindings.get(id.as_str()) {
        Some(stored) => stored.default_binding.clone(),
        None => {
            let defaults = get_default_bindings(store.environment().platform);
            match defaults.get(id.as_str()) {
                Some(shipped) => shipped.default_binding.clone(),
                None => {
                    let message = join3(
                        "Binding with id '",
                        id.as_str(),
                        "' not found in defaults",
                    );
                    return BindingChange::Finished(Ok(BindingResponse::failed(message)));
                },
            }
        },
    };
    change_binding(store, id, combo)
}

impl BindingChange {
    /// The request that this state waits for the answer to, if it waits for one.
    pub fn request(&self) -> (r: Option<BackendRequest>)
        ensures
            optional_request_view(r) == self@.request(),
    {
        match self {
            BindingChange::Unregistering { backend, id, target, combo } => Some(
                BackendRequest { backend: *backend, call: BackendCall::Unregister(target.clone()) },
            ),
            BindingChange::Validating { backend, id, target, combo } => Some(
                BackendRequest { backend: *backend, call: BackendCall::Validate(combo.clone()) },
            ),
            BindingChange::Registering { backend, id, updated } => Some(
                BackendRequest { backend: *backend, call: BackendCall::Register(updated.clone()) },
            ),
            BindingChange::Finished(_) => None,
        }
    }

    /// Takes the answer of the engine to the request of this state and gives
    /// the state that follows. The store is written only when the binding
    /// with the new combination has been registered.
    pub fn advance(self, store: &mut SettingsStore, reply: Result<(), String>) -> (r: BindingChange)
        ensures
            r@ == self@.advanced(reply_view(reply)),
            final(store)@ == self@.store_advanced(old(store)@, reply_view(reply)),
    {
        match self {
            BindingChange::Unregistering { backend, id, target, combo } => {
                BindingChange::Validating { backend, id, target, combo }
            },
            BindingChange::Validating { backend, id, target, combo } => match reply {
                Ok(_) => {
                    let updated = target.with_current(combo);
                    BindingChange::Registering { backend, id, updated }
                },
                Err(e) => BindingChange::Finished(Err(e)),
            },
            BindingChange::Registering { backend, id, updated } => match reply {
                Ok(_) => {
                    persist_binding(store, id, updated.clone());
                    BindingChange::Finished(Ok(BindingResponse::changed(updated)))
                },
                Err(e) => {
                    let message = join3("Failed to register shortcut: ", e.as_str(), "");
                    proof {
                        reveal_strlit("");
                        assert(message@ =~= failed_registration_message(e@));
                    }
                    BindingChange::Finished(Ok(BindingResponse::failed(message)))
                },
            },
            BindingChange::Finished(outcome) => BindingChange::Finished(outcome),
        }
    }

    /// What the change came to, once it is done.
    pub fn into_outcome(self) -> (r: Option<Result<BindingResponse, String>>)
        ensures
            match r {
                Some(outcome) => self@ == BindingChangeView::Finished(outcome_view(outcome)),
                None => !(self@ is Finished),
            },
    {
        match self {
            BindingChange::Finished(outcome) => Some(outcome),
            _ => None,
        }
    }
}

/// After a binding has been persisted under an id, the store holds the
/// settings as they were but for that binding: it is found under the id, and
/// under every other key is found what was found there before.
pub proof fn lemma_persisted(store: StoreView, id: Seq<char>, binding: BindingView)
    ensures
        persisted(store, id, binding).settings() == with_binding(store, id, binding),
        found(persisted(store, id, binding).settings().bindings, id) == Some(binding),
        forall|other: Seq<char>|
            other != id ==> #[trigger] found(
                persisted(store, id, binding).settings().bindings,
                other,
            )
                == found(store.settings().bindings, other),
        persisted(store, id, binding).dirty,
        persisted(store, id, binding).writes > store.writes,
{
    lemma_settings_distinct(store);
    lemma_inserted(store.settings().bindings, id, binding);
    lemma_written_is_read(store.healed(), with_binding(store, id, binding));
}

/// A combination that is empty or blank is turned down: the change is done at
/// once with the message for the user, no request goes to an engine, and the
/// store is left untouched.
pub proof fn lemma_blank_is_rejected(store: StoreView, id: Seq<char>, combo: Seq<char>)
    requires
        is_blank(combo),
    ensures
        change_started(store, id, combo) == BindingChangeView::Finished(
            Err(empty_binding_message()),
        ),
        change_started(store, id, combo).request() is None,
        store_after_change_started(store, id, combo) == store,
{
}

/// A change of the cancel action never waits for an engine. With a
/// combination that is not blank it is done at once, and the store then holds
/// the cancel binding with the new combination in force and every other
/// binding as before.
pub proof fn lemma_cancel_is_persisted_unregistered(store: StoreView, combo: Seq<char>)
    requires
        !is_blank(combo),
    ensures
        change_started(store, cancel_id(), combo).request() is None,
        resolved(
            store.settings().bindings,
            default_bindings(store.environment.platform),
            cancel_id(),
        ) is Some,
        ({
            let target = resolved(
                store.settings().bindings,
                default_bindings(store.environment.platform),
                cancel_id(),
            )->0;
            let after = store_after_change_started(store, cancel_id(), combo);
            &&& change_started(store, cancel_id(), combo) == BindingChangeView::Finished(
                Ok(BindingResponseView::changed(target.with_current(combo))),
            )
            &&& found(after.settings().bindings, cancel_id()) == Some(target.with_current(combo))
            &&& forall|other: Seq<char>|
                other != cancel_id() ==> #[trigger] found(after.settings().bindings, other)
                    == found(store.settings().bindings, other)
        }),
{
    let defaults = default_bindings(store.environment.platform);
    lemma_default_ids_differ();
    lemma_position_is(defaults, cancel_id(), 1);
    let target = resolved(store.settings().bindings, defaults, cancel_id())->0;
    lemma_persisted(store, cancel_id(), target.with_current(combo));
}

/// Nothing is persisted unless the engine has registered the new binding: in
/// every state and for every answer but that one the store is left as it was.
pub proof fn lemma_only_registered_is_persisted(
    state: BindingChangeView,
    store: StoreView,
    reply: Result<(), Seq<char>>,
)
    ensures
        !(state is Registering && reply is Ok) ==> state.store_advanced(store, reply) == store,
{
}

/// A registration that the engine turns down ends the change with a response
/// that says so, without a binding; the store is left as it was, and so is
/// what it holds under the id.
pub proof fn lemma_failed_registration_persists_nothing(
    state: BindingChangeView,
    store: StoreView,
    error: Seq<char>,
)
    requires
        state is Registering,
    ensures
        state.advanced(Err(error)) == BindingChangeView::Finished(
            Ok(BindingResponseView::failed(failed_registration_message(error))),
        ),
        state.store_advanced(store, Err(error)) == store,
        found(state.store_advanced(store, Err(error)).settings().bindings, state->Registering_id)
            == found(store.settings().bindings, state->Registering_id),
{
}

/// A combination that the engine finds invalid is turned down with what the
/// engine said, and the store is left as it was.
pub proof fn lemma_invalid_combination_persists_nothing(
    state: BindingChangeView,
    store: StoreView,
    error: Seq<char>,
)
    requires
        state is Validating,
    ensures
        state.advanced(Err(error)) == BindingChangeView::Finished(Err(error)),
        state.store_advanced(store, Err(error)) == store,
{
}

/// Once the engine has registered the new binding, the change is done with
/// that binding, and the store holds it under the id and every other binding
/// as before.
pub proof fn lemma_registered_is_persisted(state: BindingChangeView, store: StoreView)
    requires
        state is Registering,
    ensures
        state.advanced(Ok(())) == BindingChangeView::Finished(
            Ok(BindingResponseView::changed(state->Registering_updated)),
        ),
        found(state.store_advanced(store, Ok(())).settings().bindings, state->Registering_id)
            == Some(state->Registering_updated),
        forall|other: Seq<char>|
            other != state->Registering_id ==> #[trigger] found(
                state.store_advanced(store, Ok(())).settings().bindings,
                other,
            ) == found(store.settings().bindings, other),
{
    lemma_persisted(store, state->Registering_id, state->Registering_updated);
}

/// A change that started with an engine to ask runs through three requests
/// at most, in this order: release the old combination, check the new one,
/// register the binding with the new one in force.
pub proof fn lemma_order_of_requests(
    store: StoreView,
    id: Seq<char>,
    combo: Seq<char>,
    released: Result<(), Seq<char>>,
    checked: Result<(), Seq<char>>,
    registered: Result<(), Seq<char>>,
)
    requires
        change_started(store, id, combo) is Unregistering,
    ensures
        ({
            let first = change_started(store, id, combo);
            let second = first.advanced(released);
            let third = second.advanced(checked);
            let target = first->Unregistering_target;
            &&& !is_blank(combo)
            &&& id != cancel_id()
            &&& first.request()->0.call == BackendCallView::Unregister(target)
            &&& second.request()->0.call == BackendCallView::Validate(combo)
            &&& checked is Ok ==> third.request()->0.call == BackendCallView::Register(
                target.with_current(combo),
            )
            &&& checked is Ok ==> third.advanced(registered) is Finished
            &&& checked is Err ==> third is Finished
            &&& first.request()->0.backend == store.settings().keyboard_implementation
            &&& second.request()->0.backend == store.settings().keyboard_implementation
            &&& checked is Ok ==> third.request()->0.backend
                == store.settings().keyboard_implementation
        }),
{
}

/// A change never puts a blank combination in force. Every state that a change
/// goes through carries a combination that is not blank; and if none of the
/// bindings that the store holds had a blank one in force before a step of the
/// change, none has after it.
pub proof fn lemma_change_keeps_combos_filled(
    store: StoreView,
    id: Seq<char>,
    combo: Seq<char>,
    state: BindingChangeView,
    reply: Result<(), Seq<char>>,
)
    requires
        combos_filled(store.settings().bindings),
        state.combo_filled(),
    ensures
        change_started(store, id, combo).combo_filled(),
        combos_filled(store_after_change_started(store, id, combo).settings().bindings),
        state.advanced(reply).combo_filled(),
        combos_filled(state.store_advanced(store, reply).settings().bindings),
        state.request() matches Some(request) ==> (request.call matches BackendCallView::Register(
            binding,
        ) ==> !is_blank(binding.current_binding)),
{
    lemma_get_twice(store);
    let started = store_after_change_started(store, id, combo);
    if started != store && started != store.healed() {
        let target = resolved(
            store.settings().bindings,
            default_bindings(store.environment.platform),
            id,
        )->0;
        lemma_persisted(store, id, target.with_current(combo));
        lemma_inserted_filled(store.settings().bindings, id, target.with_current(combo));
    }
    match state {
        BindingChangeView::Registering { backend, id, updated } => {
            if reply is Ok {
                lemma_persisted(store, id, updated);
                lemma_inserted_filled(store.settings().bindings, id, updated);
            }
        },
        _ => {},
    }
}

} // verus!
