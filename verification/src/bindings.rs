//! Bindings of actions to key combinations, and the table that holds them.

use crate::assoc::distinct_keys;
use crate::assoc::found;
use crate::assoc::has_key;
use crate::assoc::inserted;
use crate::assoc::lemma_inserted;
use crate::assoc::lemma_position;
use crate::assoc::lemma_position_is;
use crate::assoc::position;
use crate::json::members_view;
use crate::json::push_member;
use crate::json::Json;
use crate::json::JsonView;
use crate::text::is_blank;
use crate::text::text_eq;
use vstd::prelude::*;

verus! {

/// What ties an action to a key combination: the action's id, how it is shown
/// to the user, the combination it ships with and the one in force.
#[derive(Debug, PartialEq, Eq)]
pub struct ShortcutBinding {
    pub id: String,
    pub name: String,
    pub description: String,
    pub default_binding: String,
    pub current_binding: String,
}

/// The mathematical value of a [`ShortcutBinding`].
pub ghost struct BindingView {
    pub id: Seq<char>,
    pub name: Seq<char>,
    pub description: Seq<char>,
    pub default_binding: Seq<char>,
    pub current_binding: Seq<char>,
}

impl View for ShortcutBinding {
    type V = BindingView;

    open spec fn view(&self) -> BindingView {
        BindingView {
            id: self.id@,
            name: self.name@,
            description: self.description@,
            default_binding: self.default_binding@,
            current_binding: self.current_binding@,
        }
    }
}

impl Clone for ShortcutBinding {
    fn clone(&self) -> (r: Self)
        ensures
            r@ == self@,
    {
        ShortcutBinding {
            id: self.id.clone(),
            name: self.name.clone(),
            description: self.description.clone(),
            default_binding: self.default_binding.clone(),
            current_binding: self.current_binding.clone(),
        }
    }
}

impl BindingView {
    /// This binding with `combo` in force.
    pub open spec fn with_current(self, combo: Seq<char>) -> BindingView {
        BindingView { current_binding: combo, ..self }
    }

    /// The document value that holds this binding: an object of five strings.
    pub open spec fn document(self) -> JsonView {
        JsonView::Object(
            seq![
                ("id"@, JsonView::String(self.id)),
                ("name"@, JsonView::String(self.name)),
                ("description"@, JsonView::String(self.description)),
                ("default_binding"@, JsonView::String(self.default_binding)),
                ("current_binding"@, JsonView::String(self.current_binding)),
            ],
        )
    }

    /// What a document value decodes to: a binding, where the value is an
    /// object that holds a string under each of the five keys.
    pub open spec fn decoded(j: JsonView) -> Option<BindingView> {
        if j.text_field("id"@) is Some && j.text_field("name"@) is Some && j.text_field(
            "description"@,
        ) is Some && j.text_field("default_binding"@) is Some && j.text_field("current_binding"@)
            is Some {
            Some(
                BindingView {
                    id: j.text_field("id"@)->0,
                    name: j.text_field("name"@)->0,
                    description: j.text_field("description"@)->0,
                    default_binding: j.text_field("default_binding"@)->0,
                    current_binding: j.text_field("current_binding"@)->0,
                },
            )
        } else {
            None
        }
    }

    /// A binding is read back from the document value that holds it.
    pub proof fn lemma_decoded_document(self)
        ensures
            Self::decoded(self.document()) == Some(self),
    {
        reveal_strlit("id");
        reveal_strlit("name");
        reveal_strlit("description");
        reveal_strlit("default_binding");
        reveal_strlit("current_binding");
        assert("id"@.len() == 2);
        assert("name"@.len() == 4);
        assert("description"@.len() == 11);
        assert("default_binding"@.len() == 15);
        assert("current_binding"@.len() == 15);
        assert("default_binding"@[0] == 'd');
        assert("current_binding"@[0] == 'c');
        let members = self.document()->Object_0;
        lemma_position_is(members, "id"@, 0);
        lemma_position_is(members, "name"@, 1);
        lemma_position_is(members, "description"@, 2);
        lemma_position_is(members, "default_binding"@, 3);
        lemma_position_is(members, "current_binding"@, 4);
    }
}

impl ShortcutBinding {
    /// A copy of this binding with `combo` in force.
    pub fn with_current(&self, combo: String) -> (r: ShortcutBinding)
        ensures
            r@ == self@.with_current(combo@),
    {
        ShortcutBinding {
            id: self.id.clone(),
            name: self.name.clone(),
            description: self.description.clone(),
            default_binding: self.default_binding.clone(),
            current_binding: combo,
        }
    }

    /// Decodes a document value; nothing comes back unless all five strings are there.
    pub fn decode(j: &Json) -> (r: Option<ShortcutBinding>)
        ensures
            match r {
                Some(b) => BindingView::decoded(j@) == Some(b@),
                None => BindingView::decoded(j@) is None,
            },
    {
        let id = match j.text_field("id") {
            Some(s) => s,
            None => {
                return None;
            },
        };
        let name = match j.text_field("name") {
            Some(s) => s,
            None => {
                return None;
            },
        };
        let description = match j.text_field("description") {
            Some(s) => s,
            None => {
                return None;
            },
        };
        let default_binding = match j.text_field("default_binding") {
            Some(s) => s,
            None => {
                return None;
            },
        };
        let current_binding = match j.text_field("current_binding") {
            Some(s) => s,
            None => {
                return None;
            },
        };
        Some(ShortcutBinding { id, name, description, default_binding, current_binding })
    }

    /// The document value that holds this binding.
    pub fn encode(&self) -> (r: Json)
        ensures
            r@ == self@.document(),
    {
        let mut members: Vec<(String, Json)> = Vec::new();
        assert(members_view(members) =~= Seq::empty());
        push_member(&mut members, "id", Json::text(self.id.as_str()));
        push_member(&mut members, "name", Json::text(self.name.as_str()));
        push_member(&mut members, "description", Json::text(self.description.as_str()));
        push_member(&mut members, "default_binding", Json::text(self.default_binding.as_str()));
        push_member(&mut members, "current_binding", Json::text(self.current_binding.as_str()));
        assert(members_view(members) =~= self@.document()->Object_0);
        Json::object(members)
    }
}

/// The bindings of a settings document as a value: keys and bindings in order.
pub type BindingsView = Seq<(Seq<char>, BindingView)>;

/// Whether every binding of `bindings` has a combination in force that is not blank.
pub open spec fn combos_filled(bindings: BindingsView) -> bool {
    forall|i: int|
        0 <= i < bindings.len() ==> !is_blank((#[trigger] bindings[i]).1.current_binding)
}

/// Putting a binding whose combination in force is not blank into a table in
/// which none is blank gives a table in which none is blank.
pub proof fn lemma_inserted_filled(bindings: BindingsView, key: Seq<char>, binding: BindingView)
    requires
        combos_filled(bindings),
        !is_blank(binding.current_binding),
    ensures
        combos_filled(inserted(bindings, key, binding)),
{
    lemma_position(bindings, key);
    let after = inserted(bindings, key, binding);
    assert forall|i: int| 0 <= i < after.len() implies !is_blank(
        (#[trigger] after[i]).1.current_binding,
    ) by {
        if i != position(bindings, key) {
            assert(after[i] == bindings[i]);
        }
    }
}

/// The members of the document value that holds `bindings`, one for each entry.
pub open spec fn bindings_members(bindings: BindingsView) -> Seq<(Seq<char>, JsonView)> {
    Seq::new(bindings.len(), |i: int| (bindings[i].0, bindings[i].1.document()))
}

/// The document value that holds `bindings`: an object with one member for each entry.
pub open spec fn bindings_document(bindings: BindingsView) -> JsonView {
    JsonView::Object(bindings_members(bindings))
}

/// Whether every one of `members` holds a binding.
pub open spec fn all_bindings(members: Seq<(Seq<char>, JsonView)>) -> bool {
    forall|i: int| 0 <= i < members.len() ==> BindingView::decoded(
        (#[trigger] members[i]).1,
    ) is Some
}

/// The bindings of the first `upto` of `members`, each inserted under its key.
pub open spec fn collected(members: Seq<(Seq<char>, JsonView)>, upto: int) -> BindingsView
    decreases upto,
{
    if upto <= 0 {
        Seq::empty()
    } else {
        inserted(
            collected(members, upto - 1),
            members[upto - 1].0,
            BindingView::decoded(members[upto - 1].1)->0,
        )
    }
}

/// What a document value decodes to as a table of bindings: the bindings of
/// its members, where the value is an object and every member holds a binding.
pub open spec fn bindings_decoded(j: JsonView) -> Option<BindingsView> {
    match j {
        JsonView::Object(members) => if all_bindings(members) {
            Some(collected(members, members.len() as int))
        } else {
            None
        },
        _ => None,
    }
}

/// The table under `key` of `doc`, or `fallback` where there is no such member
/// or it does not decode.
#[verifier::opaque]
pub open spec fn bindings_or(
    doc: JsonView,
    key: Seq<char>,
    fallback: BindingsView,
) -> BindingsView {
    match doc.field(key) {
        Some(value) => match bindings_decoded(value) {
            Some(table) => table,
            None => fallback,
        },
        None => fallback,
    }
}

/// What is collected from any members has distinct keys.
pub proof fn lemma_collected_distinct(members: Seq<(Seq<char>, JsonView)>, upto: int)
    requires
        upto <= members.len(),
    ensures
        distinct_keys(collected(members, upto)),
    decreases upto,
{
    if upto > 0 {
        lemma_collected_distinct(members, upto - 1);
        lemma_inserted(
            collected(members, upto - 1),
            members[upto - 1].0,
            BindingView::decoded(members[upto - 1].1)->0,
        );
    }
}

/// What is collected from the members that hold a table with distinct keys is that table.
pub proof fn lemma_collected_members(bindings: BindingsView, upto: int)
    requires
        distinct_keys(bindings),
        0 <= upto <= bindings.len(),
    ensures
        collected(bindings_members(bindings), upto) == bindings.subrange(0, upto),
    decreases upto,
{
    let members = bindings_members(bindings);
    if upto > 0 {
        lemma_collected_members(bindings, upto - 1);
        let before = bindings.subrange(0, upto - 1);
        let key = bindings[upto - 1].0;
        bindings[upto - 1].1.lemma_decoded_document();
        assert forall|j: int| 0 <= j < before.len() implies (#[trigger] before[j]).0 != key by {
            assert(before[j] == bindings[j]);
        }
        lemma_position_is(before, key, before.len() as int);
        assert(before.push((key, bindings[upto - 1].1)) =~= bindings.subrange(0, upto));
    } else {
        assert(bindings.subrange(0, 0) =~= Seq::empty());
    }
}

/// A table of bindings with distinct keys is read back from the document value that holds it.
pub proof fn lemma_bindings_decoded_document(bindings: BindingsView)
    requires
        distinct_keys(bindings),
    ensures
        bindings_decoded(bindings_document(bindings)) == Some(bindings),
{
    let members = bindings_members(bindings);
    assert forall|i: int| 0 <= i < members.len() implies BindingView::decoded(
        (#[trigger] members[i]).1,
    ) is Some by {
        bindings[i].1.lemma_decoded_document();
    }
    lemma_collected_members(bindings, bindings.len() as int);
    assert(bindings.subrange(0, bindings.len() as int) =~= bindings);
}

/// A table with distinct keys that a document holds under a key is the one read from there.
pub proof fn lemma_bindings_or_found(
    doc: JsonView,
    key: Seq<char>,
    value: BindingsView,
    fallback: BindingsView,
)
    requires
        distinct_keys(value),
        doc.field(key) == Some(bindings_document(value)),
    ensures
        bindings_or(doc, key, fallback) == value,
{
    reveal(bindings_or);
    lemma_bindings_decoded_document(value);
}

/// A table is read alike from two documents that hold the same under the key.
pub proof fn lemma_bindings_or_same(
    a: JsonView,
    b: JsonView,
    key: Seq<char>,
    fallback: BindingsView,
)
    requires
        a.field(key) == b.field(key),
    ensures
        bindings_or(a, key, fallback) == bindings_or(b, key, fallback),
{
    reveal(bindings_or);
}

/// A table of bindings, each under a key; no two entries share a key.
#[derive(Debug, PartialEq, Eq)]
pub struct BindingMap {
    entries: Vec<(String, ShortcutBinding)>,
}

impl View for BindingMap {
    type V = BindingsView;

    closed spec fn view(&self) -> BindingsView {
        Seq::new(self.entries.len() as nat, |i: int| (self.entries[i].0@, self.entries[i].1@))
    }
}

impl BindingMap {
    /// The table is well formed when no two of its entries share a key.
    pub open spec fn wf(&self) -> bool {
        distinct_keys(self@)
    }

    /// An empty table.
    pub fn new() -> (r: BindingMap)
        ensures
            r@ == Seq::<(Seq<char>, BindingView)>::empty(),
            r.wf(),
    {
        let r = BindingMap { entries: Vec::new() };
        assert(r@ =~= Seq::empty());
        r
    }

    /// The number of entries.
    pub fn len(&self) -> (r: usize)
        ensures
            r == self@.len(),
    {
        self.entries.len()
    }

    /// The key of the entry at `index`.
    pub fn key_at(&self, index: usize) -> (r: &String)
        requires
            index < self@.len(),
        ensures
            r@ == self@[index as int].0,
    {
        &self.entries[index].0
    }

    /// The binding of the entry at `index`.
    pub fn binding_at(&self, index: usize) -> (r: &ShortcutBinding)
        requires
            index < self@.len(),
        ensures
            r@ == self@[index as int].1,
    {
        &self.entries[index].1
    }

    /// The index of the first entry keyed `key`, or the number of entries where there is none.
    fn find(&self, key: &str) -> (r: usize)
        ensures
            r == position(self@, key@),
            r <= self@.len(),
    {
        let n: usize = self.entries.len();
        let mut i: usize = 0;
        while i < n
            invariant
                n == self.entries.len(),
                n == self@.len(),
                i <= n,
                forall|j: int| 0 <= j < i ==> (#[trigger] self@[j]).0 != key@,
            decreases n - i,
        {
            if text_eq(self.entries[i].0.as_str(), key) {
                proof {
                    lemma_position_is(self@, key@, i as int);
                }
                return i;
            }
            i += 1;
        }
        proof {
            lemma_position_is(self@, key@, n as int);
        }
        n
    }

    /// Whether there is an entry keyed `key`.
    pub fn contains_key(&self, key: &str) -> (r: bool)
        ensures
            r == has_key(self@, key@),
    {
        self.find(key) < self.entries.len()
    }

    /// The binding keyed `key`.
    pub fn get(&self, key: &str) -> (r: Option<&ShortcutBinding>)
        ensures
            match r {
                Some(b) => found(self@, key@) == Some(b@),
                None => found(self@, key@) is None,
            },
    {
        let at = self.find(key);
        if at < self.entries.len() {
            Some(&self.entries[at].1)
        } else {
            None
        }
    }

    /// Puts `binding` under `key`, in the place of the entry that was keyed
    /// `key` or, where there was none, at the end.
    pub fn insert(&mut self, key: String, binding: ShortcutBinding)
        ensures
            final(self)@ == inserted(old(self)@, key@, binding@),
            old(self).wf() ==> final(self).wf(),
    {
        let at = self.find(key.as_str());
        let ghost before = self@;
        let ghost k = key@;
        let ghost b = binding@;
        if at < self.entries.len() {
            self.entries.set(at, (key, binding));
            assert(self@ =~= before.update(at as int, (k, b)));
        } else {
            self.entries.push((key, binding));
            assert(self@ =~= before.push((k, b)));
        }
        proof {
            if distinct_keys(before) {
                lemma_inserted(before, k, b);
            }
        }
    }

    /// The keys of the entries, in order.
    pub fn keys(&self) -> (r: Vec<String>)
        ensures
            r.len() == self@.len(),
            forall|i: int| 0 <= i < r.len() ==> (#[trigger] r[i])@ == self@[i].0,
    {
        let n: usize = self.entries.len();
        let mut out: Vec<String> = Vec::new();
        let mut i: usize = 0;
        while i < n
            invariant
                n == self.entries.len(),
                n == self@.len(),
                i <= n,
                out.len() == i,
                forall|j: int| 0 <= j < i ==> (#[trigger] out[j])@ == self@[j].0,
            decreases n - i,
        {
            out.push(self.entries[i].0.clone());
            i += 1;
        }
        out
    }

    /// Decodes a document value as a table of bindings. Nothing comes back
    /// unless the value is an object and every member holds a binding.
    pub fn decode(j: &Json) -> (r: Option<BindingMap>)
        ensures
            match r {
                Some(table) => bindings_decoded(j@) == Some(table@) && table.wf(),
                None => bindings_decoded(j@) is None,
            },
    {
        match j {
            Json::Object(members) => {
                let n: usize = members.len();
                let ghost all = j@->Object_0;
                let mut table = BindingMap::new();
                let mut i: usize = 0;
                while i < n
                    invariant
                        n == members.len(),
                        i <= n,
                        j@ == JsonView::Object(all),
                        all.len() == n,
                        forall|k: int|
                            0 <= k < n ==> #[trigger] all[k] == (members[k].0@, members[k].1@),
                        forall|k: int|
                            0 <= k < i ==> BindingView::decoded((#[trigger] all[k]).1) is Some,
                        table@ == collected(all, i as int),
                        table.wf(),
                    decreases n - i,
                {
                    match ShortcutBinding::decode(&members[i].1) {
                        Some(binding) => {
                            assert(all[i as int].1 == members[i as int].1@);
                            table.insert(members[i].0.clone(), binding);
                        },
                        None => {
                            assert(BindingView::decoded(all[i as int].1) is None);
                            return None;
                        },
                    }
                    i += 1;
                }
                Some(table)
            },
            _ => None,
        }
    }

    /// Reads the table under `key` of `doc`, falling back where it cannot be read.
    pub fn read(doc: &Json, key: &str, fallback: BindingMap) -> (r: BindingMap)
        ensures
            r@ == bindings_or(doc@, key@, fallback@),
            fallback.wf() ==> r.wf(),
    {
        proof {
            reveal(bindings_or);
        }
        match doc.get(key) {
            Some(value) => match BindingMap::decode(value) {
                Some(table) => table,
                None => fallback,
            },
            None => fallback,
        }
    }

    /// The document value that holds this table.
    pub fn encode(&self) -> (r: Json)
        ensures
            r@ == bindings_document(self@),
    {
        let n: usize = self.entries.len();
        let mut members: Vec<(String, Json)> = Vec::new();
        let mut i: usize = 0;
        while i < n
            invariant
                n == self.entries.len(),
                n == self@.len(),
                i <= n,
                members.len() == i,
                forall|k: int|
                    0 <= k < i ==> (#[trigger] members[k]).0@ == self@[k].0 && members[k].1@
                        == self@[k].1.document(),
            decreases n - i,
        {
            let key = self.entries[i].0.clone();
            let value = self.entries[i].1.encode();
            members.push((key, value));
            i += 1;
        }
        let r = Json::Object(members);
        assert(r@->Object_0 =~= bindings_members(self@));
        r
    }
}

impl Clone for BindingMap {
    fn clone(&self) -> (r: Self)
        ensures
            r@ == self@,
    {
        let n: usize = self.entries.len();
        let mut entries: Vec<(String, ShortcutBinding)> = Vec::new();
        let mut i: usize = 0;
        while i < n
            invariant
                n == self.entries.len(),
                i <= n,
                entries.len() == i,
                forall|k: int|
                    0 <= k < i ==> (#[trigger] entries[k]).0@ == self.entries[k].0@ && entries[k].1@
                        == self.entries[k].1@,
            decreases n - i,
        {
            entries.push((self.entries[i].0.clone(), self.entries[i].1.clone()));
            i += 1;
        }
        let r = BindingMap { entries };
        assert(r@ =~= self@);
        r
    }
}

} // verus!
