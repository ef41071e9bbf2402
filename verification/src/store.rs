//! The store of the settings document: loading, reading and writing.

use crate::assoc::distinct_keys;
use crate::assoc::found;
use crate::assoc::has_key;
use crate::assoc::inserted;
use crate::assoc::lemma_inserted;
use crate::assoc::lemma_position;
use crate::bindings::bindings_or;
use crate::bindings::combos_filled;
use crate::bindings::lemma_collected_distinct;
use crate::bindings::lemma_inserted_filled;
use crate::bindings::BindingsView;
use crate::bindings::BindingMap;
use crate::bindings::ShortcutBinding;
use crate::json::Json;
use crate::json::JsonView;
use crate::options::RecordingRetentionPeriod;
use crate::platform::Environment;
use crate::platform::EnvironmentView;
use crate::settings::default_bindings;
use crate::settings::default_settings;
use crate::settings::get_default_bindings;
use crate::settings::get_default_settings;
use crate::settings::lemma_default_bindings_distinct;
use crate::settings::lemma_default_bindings_filled;
use crate::settings::lemma_settings_decoded_document;
use crate::settings::settings_decoded;
use crate::settings::settings_document;
use crate::settings::AppSettings;
use crate::settings::AppSettingsView;
use vstd::prelude::*;

verus! {

/// The one place where the settings document is kept. The store holds the
/// document as it was last read or written, and knows whether it has been
/// written since it was last marked clean.
pub struct SettingsStore {
    environment: Environment,
    document: Option<Json>,
    dirty: bool,
    writes: Ghost<nat>,
}

/// The mathematical value of a [`SettingsStore`].
pub ghost struct StoreView {
    pub environment: EnvironmentView,
    pub document: Option<JsonView>,
    pub dirty: bool,
    /// How many times the document has been written.
    pub writes: nat,
}

impl View for SettingsStore {
    type V = StoreView;

    closed spec fn view(&self) -> StoreView {
        StoreView {
            environment: self.environment@,
            document: match self.document {
                Some(doc) => Some(doc@),
                None => None,
            },
            dirty: self.dirty,
            writes: self.writes@,
        }
    }
}

impl StoreView {
    /// This store after `doc` has been written to it.
    pub open spec fn written(self, doc: JsonView) -> StoreView {
        StoreView { document: Some(doc), dirty: true, writes: self.writes + 1, ..self }
    }

    /// What the document decodes to, where there is one and it decodes.
    pub open spec fn decoded(self) -> Option<AppSettingsView> {
        match self.document {
            Some(doc) => settings_decoded(doc, self.environment),
            None => None,
        }
    }

    /// The settings that the store holds: what its document decodes to, or the
    /// defaults of its environment where there is no document or it does not decode.
    pub open spec fn settings(self) -> AppSettingsView {
        match self.decoded() {
            Some(s) => s,
            None => default_settings(self.environment),
        }
    }

    /// This store after its settings have been read: as it was where the
    /// document decodes, else with the defaults written to it.
    pub open spec fn healed(self) -> StoreView {
        if self.decoded() is Some {
            self
        } else {
            self.written(settings_document(default_settings(self.environment)))
        }
    }

    /// The settings that loading gives: what the document decodes to, with
    /// every binding that ships and is missing added; or the defaults.
    pub open spec fn loaded(self) -> AppSettingsView {
        match self.decoded() {
            Some(s) => AppSettingsView {
                bindings: backfilled(s.bindings, default_bindings(self.environment.platform)),
                ..s
            },
            None => default_settings(self.environment),
        }
    }

    /// This store after loading: as it was where the document decodes and
    /// holds every binding that ships, else with what was loaded written to it.
    pub open spec fn after_load(self) -> StoreView {
        if self.decoded() is Some && complete(
            self.decoded()->0.bindings,
            default_bindings(self.environment.platform),
        ) {
            self
        } else {
            self.written(settings_document(self.loaded()))
        }
    }
}

/// Whether `bindings` has an entry under the key of every entry of `defaults`.
pub open spec fn complete(bindings: BindingsView, defaults: BindingsView) -> bool {
    forall|i: int| 0 <= i < defaults.len() ==> has_key(bindings, (#[trigger] defaults[i]).0)
}

/// `bindings` with, of the first `upto` entries of `defaults`, those added
/// whose key it did not have.
pub open spec fn backfilled_upto(
    bindings: BindingsView,
    defaults: BindingsView,
    upto: int,
) -> BindingsView
    decreases upto,
{
    if upto <= 0 {
        bindings
    } else {
        let before = backfilled_upto(bindings, defaults, upto - 1);
        if has_key(before, defaults[upto - 1].0) {
            before
        } else {
            inserted(before, defaults[upto - 1].0, defaults[upto - 1].1)
        }
    }
}

/// `bindings` with every entry of `defaults` added whose key it did not have.
pub open spec fn backfilled(bindings: BindingsView, defaults: BindingsView) -> BindingsView {
    backfilled_upto(bindings, defaults, defaults.len() as int)
}

/// Backfilling keeps keys distinct and every entry that was there; under a
/// key that was missing it puts the entry of `defaults`; and it adds no other key.
pub proof fn lemma_backfilled_upto(bindings: BindingsView, defaults: BindingsView, upto: int)
    requires
        distinct_keys(bindings),
        distinct_keys(defaults),
        0 <= upto <= defaults.len(),
    ensures
        distinct_keys(backfilled_upto(bindings, defaults, upto)),
        forall|key: Seq<char>|
            has_key(bindings, key) ==> #[trigger] found(
                backfilled_upto(bindings, defaults, upto),
                key,
            )
                == found(bindings, key),
        forall|j: int|
            0 <= j < upto && !has_key(bindings, (#[trigger] defaults[j]).0) ==> found(
                backfilled_upto(bindings, defaults, upto),
                defaults[j].0,
            ) == Some(defaults[j].1),
        forall|key: Seq<char>|
            #[trigger] has_key(
                backfilled_upto(bindings, defaults, upto),
                key,
            ) ==> has_key(bindings, key)
                || exists|j: int| 0 <= j < upto && (#[trigger] defaults[j]).0 == key,
        (forall|j: int| 0 <= j < upto ==> has_key(bindings, (#[trigger] defaults[j]).0))
            ==> backfilled_upto(bindings, defaults, upto) == bindings,
    decreases upto,
{
    if upto > 0 {
        lemma_backfilled_upto(bindings, defaults, upto - 1);
        let before = backfilled_upto(bindings, defaults, upto - 1);
        let after = backfilled_upto(bindings, defaults, upto);
        let key = defaults[upto - 1].0;
        let value = defaults[upto - 1].1;
        if has_key(before, key) {
            if !has_key(bindings, key) {
                let j = choose|j: int| 0 <= j < upto - 1 && (#[trigger] defaults[j]).0 == key;
                assert(defaults[j].0 != defaults[upto - 1].0);
            }
        } else {
            lemma_inserted(before, key, value);
            assert forall|k: Seq<char>| has_key(bindings, k) implies #[trigger] found(after, k)
                == found(bindings, k) by {
                assert(found(before, k) == found(bindings, k));
                assert(k != key);
            }
            assert forall|j: int|
                0 <= j < upto && !has_key(bindings, (#[trigger] defaults[j]).0) implies found(
                after,
                defaults[j].0,
            ) == Some(defaults[j].1) by {
                if j < upto - 1 {
                    assert(defaults[j].0 != defaults[upto - 1].0);
                    assert(found(before, defaults[j].0) == Some(defaults[j].1));
                }
            }
            assert forall|k: Seq<char>| #[trigger] has_key(after, k) implies has_key(bindings, k)
                || exists|j: int| 0 <= j < upto && (#[trigger] defaults[j]).0 == k by {
                if k == key {
                    assert(defaults[upto - 1].0 == k);
                } else {
                    assert(found(after, k) == found(before, k));
                    assert(has_key(before, k));
                    if !has_key(bindings, k) {
                        let j = choose|j: int|
                            0 <= j < upto - 1 && (#[trigger] defaults[j]).0 == k;
                        assert(0 <= j < upto && defaults[j].0 == k);
                    }
                }
            }
            if forall|j: int| 0 <= j < upto ==> has_key(bindings, (#[trigger] defaults[j]).0) {
                assert(has_key(bindings, defaults[upto - 1].0));
                assert(found(before, key) == found(bindings, key));
            }
        }
    }
}

/// What has been backfilled holds every entry that ships, and backfilling it
/// again changes nothing.
pub proof fn lemma_backfilled_complete(bindings: BindingsView, defaults: BindingsView)
    requires
        distinct_keys(bindings),
        distinct_keys(defaults),
    ensures
        distinct_keys(backfilled(bindings, defaults)),
        complete(backfilled(bindings, defaults), defaults),
        backfilled(backfilled(bindings, defaults), defaults) == backfilled(bindings, defaults),
        complete(bindings, defaults) ==> backfilled(bindings, defaults) == bindings,
{
    let n = defaults.len() as int;
    let filled = backfilled(bindings, defaults);
    lemma_backfilled_upto(bindings, defaults, n);
    assert forall|i: int| 0 <= i < defaults.len() implies has_key(
        filled,
        (#[trigger] defaults[i]).0,
    ) by {
        if has_key(bindings, defaults[i].0) {
            assert(found(filled, defaults[i].0) == found(bindings, defaults[i].0));
        }
    }
    lemma_backfilled_upto(filled, defaults, n);
}

/// Backfilling a table in which no combination in force is blank, from one in
/// which none is blank, gives a table in which none is blank.
pub proof fn lemma_backfilled_filled(bindings: BindingsView, defaults: BindingsView, upto: int)
    requires
        combos_filled(bindings),
        combos_filled(defaults),
        0 <= upto <= defaults.len(),
    ensures
        combos_filled(backfilled_upto(bindings, defaults, upto)),
    decreases upto,
{
    if upto > 0 {
        lemma_backfilled_filled(bindings, defaults, upto - 1);
        let before = backfilled_upto(bindings, defaults, upto - 1);
        if !has_key(before, defaults[upto - 1].0) {
            lemma_inserted_filled(before, defaults[upto - 1].0, defaults[upto - 1].1);
        }
    }
}

/// Loading never brings in a blank combination: if none of the bindings that
/// the store holds has one in force, none of those that loading gives has.
pub proof fn lemma_load_keeps_combos_filled(store: StoreView)
    requires
        combos_filled(store.settings().bindings),
    ensures
        combos_filled(store.loaded().bindings),
        combos_filled(store.after_load().settings().bindings),
{
    let defaults = default_bindings(store.environment.platform);
    lemma_default_bindings_filled(store.environment.platform);
    if store.decoded() is Some {
        lemma_backfilled_filled(store.decoded()->0.bindings, defaults, defaults.len() as int);
    }
    lemma_loaded(store);
}

/// The bindings of what a document decodes to have distinct keys.
pub proof fn lemma_decoded_distinct(doc: JsonView, environment: EnvironmentView)
    requires
        settings_decoded(doc, environment) is Some,
    ensures
        distinct_keys(settings_decoded(doc, environment)->0.bindings),
{
    reveal(bindings_or);
    lemma_default_bindings_distinct(environment.platform);
    match doc.field("bindings"@) {
        Some(value) => {
            match value {
                JsonView::Object(members) => {
                    lemma_collected_distinct(members, members.len() as int);
                },
                _ => {},
            }
        },
        None => {},
    }
}

impl SettingsStore {
    /// A store that holds `document`, as it was found where the settings are
    /// kept, for an application that runs in `environment`.
    pub fn new(environment: Environment, document: Option<Json>) -> (r: SettingsStore)
        ensures
            r@ == (StoreView {
                environment: environment@,
                document: match document {
                    Some(doc) => Some(doc@),
                    None => None,
                },
                dirty: false,
                writes: 0,
            }),
    {
        SettingsStore { environment, document, dirty: false, writes: Ghost(0) }
    }

    /// The environment that the defaults are made for.
    pub fn environment(&self) -> (r: &Environment)
        ensures
            r@ == self@.environment,
    {
        &self.environment
    }

    /// The document that the store holds.
    pub fn document(&self) -> (r: Option<&Json>)
        ensures
            match r {
                Some(doc) => self@.document == Some(doc@),
                None => self@.document is None,
            },
    {
        match &self.document {
            Some(doc) => Some(doc),
            None => None,
        }
    }

    /// Whether the document has been written since the store was last marked clean.
    pub fn is_dirty(&self) -> (r: bool)
        ensures
            r == self@.dirty,
    {
        self.dirty
    }

    /// Records that the document has been carried to where the settings are kept.
    pub fn mark_clean(&mut self)
        ensures
            final(self)@ == (StoreView { dirty: false, ..old(self)@ }),
    {
        self.dirty = false;
    }

    /// Replaces the document as a whole.
    fn write(&mut self, doc: Json)
        ensures
            final(self)@ == old(self)@.written(doc@),
    {
        self.document = Some(doc);
        self.dirty = true;
        self.writes = Ghost((self.writes@ + 1) as nat);
    }

    /// Decodes the document, where there is one.
    fn decode(&self) -> (r: Option<AppSettings>)
        ensures
            match r {
                Some(s) => self@.decoded() == Some(s@) && s.wf(),
                None => self@.decoded() is None,
            },
    {
        match &self.document {
            Some(doc) => AppSettings::decode(doc, &self.environment),
            None => None,
        }
    }
}

/// Adds to `bindings` every entry of `defaults` whose key it does not have,
/// and tells whether any was added.
pub fn backfill(bindings: &mut BindingMap, defaults: &BindingMap) -> (updated: bool)
    requires
        old(bindings).wf(),
        defaults.wf(),
    ensures
        final(bindings)@ == backfilled(old(bindings)@, defaults@),
        final(bindings).wf(),
        updated == !complete(old(bindings)@, defaults@),
{
    let ghost loaded = bindings@;
    let n: usize = defaults.len();
    let mut updated = false;
    let mut i: usize = 0;
    while i < n
        invariant
            n == defaults@.len(),
            i <= n,
            distinct_keys(defaults@),
            distinct_keys(loaded),
            bindings@ == backfilled_upto(loaded, defaults@, i as int),
            bindings.wf(),
            updated == !(
                forall|j: int| 0 <= j < i ==> has_key(loaded, (#[trigger] defaults@[j]).0)
            ),
        decreases n - i,
    {
        let key = defaults.key_at(i);
        proof {
            lemma_backfilled_upto(loaded, defaults@, i as int);
        }
        if !bindings.contains_key(key.as_str()) {
            bindings.insert(key.clone(), defaults.binding_at(i).clone());
            updated = true;
            proof {
                if has_key(loaded, defaults@[i as int].0) {
                    let key = defaults@[i as int].0;
                    assert(found(backfilled_upto(loaded, defaults@, i as int), key) == found(
                        loaded,
                        key,
                    ));
                }
            }
        } else {
            proof {
                if !has_key(loaded, defaults@[i as int].0) {
                    let k = defaults@[i as int].0;
                    let j = choose|j: int| 0 <= j < i && (#[trigger] defaults@[j]).0 == k;
                    assert(defaults@[j].0 != defaults@[i as int].0);
                }
            }
        }
        i += 1;
    }
    updated
}

/// Loads the settings when the application starts. Where the store holds a
/// document that decodes, every binding that ships and is missing from it is
/// added, and the document is written again if any was. Where it holds none,
/// or one that does not decode, the defaults are written and returned.
pub fn load_or_create_app_settings(store: &mut SettingsStore) -> (r: AppSettings)
    ensures
        r@ == old(store)@.loaded(),
        r.wf(),
        final(store)@ == old(store)@.after_load(),
{
    match store.decode() {
        Some(mut settings) => {
            let defaults = get_default_bindings(store.environment.platform);
            proof {
                lemma_default_bindings_distinct(store@.environment.platform);
            }
            let updated = backfill(&mut settings.bindings, &defaults);
            if updated {
                store.write(settings.encode());
            }
            settings
        },
        None => {
            let defaults = get_default_settings(&store.environment);
            store.write(defaults.encode());
            defaults
        },
    }
}

/// Reads the settings. Where the store holds no document, or one that does
/// not decode, the defaults are written and returned. No binding is added.
pub fn get_settings(store: &mut SettingsStore) -> (r: AppSettings)
    ensures
        r@ == old(store)@.settings(),
        r.wf(),
        final(store)@ == old(store)@.healed(),
{
    match store.decode() {
        Some(settings) => settings,
        None => {
            let defaults = get_default_settings(&store.environment);
            store.write(defaults.encode());
            defaults
        },
    }
}

/// Replaces the document by the one that holds `settings`.
pub fn write_settings(store: &mut SettingsStore, settings: AppSettings)
    ensures
        final(store)@ == old(store)@.written(settings_document(settings@)),
{
    store.write(settings.encode());
}

/// The bindings of the settings that the store holds.
pub fn get_bindings(store: &mut SettingsStore) -> (r: BindingMap)
    ensures
        r@ == old(store)@.settings().bindings,
        r.wf(),
        final(store)@ == old(store)@.healed(),
{
    let settings = get_settings(store);
    settings.bindings
}

/// The binding that the store holds under `id`, if any.
pub fn get_stored_binding(store: &mut SettingsStore, id: &str) -> (r: Option<ShortcutBinding>)
    ensures
        match r {
            Some(b) => found(old(store)@.settings().bindings, id@) == Some(b@),
            None => found(old(store)@.settings().bindings, id@) is None,
        },
        final(store)@ == old(store)@.healed(),
{
    let bindings = get_bindings(store);
    match bindings.get(id) {
        Some(b) => Some(b.clone()),
        None => None,
    }
}

/// How many entries the history keeps.
pub fn get_history_limit(store: &mut SettingsStore) -> (r: usize)
    ensures
        r == old(store)@.settings().history_limit,
        final(store)@ == old(store)@.healed(),
{
    let settings = get_settings(store);
    settings.history_limit
}

/// How long recordings are kept.
pub fn get_recording_retention_period(store: &mut SettingsStore) -> (r: RecordingRetentionPeriod)
    ensures
        r == old(store)@.settings().recording_retention_period,
        final(store)@ == old(store)@.healed(),
{
    let settings = get_settings(store);
    settings.recording_retention_period
}

/// Every binding that ships is keyed by its own id and has the combination it
/// ships with in force.
pub proof fn lemma_default_bindings_in_force(environment: EnvironmentView)
    ensures
        forall|i: int|
            0 <= i < default_bindings(environment.platform).len() ==> {
                let entry = #[trigger] default_bindings(environment.platform)[i];
                entry.0 == entry.1.id && entry.1.current_binding == entry.1.default_binding
            },
        default_settings(environment).bindings == default_bindings(environment.platform),
        complete(default_bindings(environment.platform), default_bindings(environment.platform)),
{
    let defaults = default_bindings(environment.platform);
    lemma_default_bindings_distinct(environment.platform);
    assert forall|i: int| 0 <= i < defaults.len() implies has_key(
        defaults,
        (#[trigger] defaults[i]).0,
    ) by {
        lemma_position(defaults, defaults[i].0);
    }
}

/// Loading from a store that holds no document gives the defaults of the
/// environment, with exactly the bindings that ship, and writes once the
/// document that holds them; what the store holds from then on are those defaults.
pub proof fn lemma_load_without_document(store: StoreView)
    requires
        store.document is None,
    ensures
        store.loaded() == default_settings(store.environment),
        store.loaded().bindings == default_bindings(store.environment.platform),
        store.after_load() == store.written(
            settings_document(default_settings(store.environment)),
        ),
        store.after_load().settings() == default_settings(store.environment),
{
    lemma_default_bindings_distinct(store.environment.platform);
    lemma_settings_decoded_document(default_settings(store.environment), store.environment);
}

/// What loading gives has distinct keys and every binding that ships, and is
/// what the store holds after loading.
pub proof fn lemma_loaded(store: StoreView)
    ensures
        distinct_keys(store.loaded().bindings),
        complete(store.loaded().bindings, default_bindings(store.environment.platform)),
        store.after_load().decoded() == Some(store.loaded()),
{
    let defaults = default_bindings(store.environment.platform);
    lemma_default_bindings_distinct(store.environment.platform);
    lemma_default_bindings_in_force(store.environment);
    match store.decoded() {
        Some(s) => {
            lemma_decoded_distinct(store.document->0, store.environment);
            lemma_backfilled_complete(s.bindings, defaults);
        },
        None => {},
    }
    lemma_settings_decoded_document(store.loaded(), store.environment);
}

/// Loading a second time gives the same settings as the first and leaves the
/// store as the first left it: nothing is written again.
pub proof fn lemma_load_twice(store: StoreView)
    ensures
        store.after_load().loaded() == store.loaded(),
        store.after_load().after_load() == store.after_load(),
{
    let defaults = default_bindings(store.environment.platform);
    lemma_default_bindings_distinct(store.environment.platform);
    lemma_loaded(store);
    lemma_backfilled_complete(store.loaded().bindings, defaults);
}

/// Where the document decodes, loading keeps under every key what the document
/// held there, and puts under the key of every binding that ships and was
/// missing that binding. If none was missing the store is left as it was; if
/// one was, the document is written exactly once.
pub proof fn lemma_load_backfills(store: StoreView)
    requires
        store.decoded() is Some,
    ensures
        forall|key: Seq<char>|
            has_key(store.decoded()->0.bindings, key) ==> #[trigger] found(
                store.loaded().bindings,
                key,
            ) == found(store.decoded()->0.bindings, key),
        forall|i: int|
            0 <= i < default_bindings(store.environment.platform).len() && !has_key(
                store.decoded()->0.bindings,
                (#[trigger] default_bindings(store.environment.platform)[i]).0,
            ) ==> found(
                store.loaded().bindings,
                default_bindings(store.environment.platform)[i].0,
            ) == Some(default_bindings(store.environment.platform)[i].1),
        complete(store.decoded()->0.bindings, default_bindings(store.environment.platform))
            ==> store.after_load() == store && store.loaded() == store.decoded()->0,
        !complete(store.decoded()->0.bindings, default_bindings(store.environment.platform))
            ==> store.after_load().writes == store.writes + 1 && store.after_load().dirty
            && store.after_load().settings() == store.loaded(),
{
    let defaults = default_bindings(store.environment.platform);
    let before = store.decoded()->0.bindings;
    lemma_default_bindings_distinct(store.environment.platform);
    lemma_decoded_distinct(store.document->0, store.environment);
    lemma_backfilled_upto(before, defaults, defaults.len() as int);
    lemma_backfilled_complete(before, defaults);
    lemma_loaded(store);
}

/// The bindings of the settings that a store holds have distinct keys.
pub proof fn lemma_settings_distinct(store: StoreView)
    ensures
        distinct_keys(store.settings().bindings),
{
    lemma_default_bindings_distinct(store.environment.platform);
    if store.decoded() is Some {
        lemma_decoded_distinct(store.document->0, store.environment);
    }
}

/// Reading the settings a second time gives the same settings as the first and
/// writes nothing.
pub proof fn lemma_get_twice(store: StoreView)
    ensures
        store.healed().settings() == store.settings(),
        store.healed().healed() == store.healed(),
{
    lemma_default_bindings_distinct(store.environment.platform);
    lemma_settings_decoded_document(default_settings(store.environment), store.environment);
}

/// What is written is what is read next: settings with distinct keys are the
/// settings that the store holds after they have been written to it.
pub proof fn lemma_written_is_read(store: StoreView, settings: AppSettingsView)
    requires
        distinct_keys(settings.bindings),
    ensures
        store.written(settings_document(settings)).settings() == settings,
        store.written(settings_document(settings)).healed() == store.written(
            settings_document(settings),
        ),
{
    lemma_settings_decoded_document(settings, store.environment);
}

} // verus!
