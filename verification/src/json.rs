//! JSON-shaped values, as the settings document is made of them.

use crate::assoc::found;
use crate::assoc::lemma_position_is;
use crate::text::text_eq;
use crate::text::text_of;
use vstd::prelude::*;

verus! {

/// A JSON number as a document holds it. An integer that is not negative is a
/// `PosInt`, a negative one a `NegInt`; only a `PosInt` is read as an unsigned
/// number. A `Float` holds the IEEE-754 bits of a finite double.
#[derive(Clone, Copy, Debug, PartialEq, Eq, Structural)]
pub enum Number {
    PosInt(u64),
    NegInt(i64),
    Float(u64),
}

/// A JSON-shaped value. The members of an object keep their order.
#[derive(Debug, PartialEq, Eq)]
pub enum Json {
    Null,
    Bool(bool),
    Number(Number),
    String(String),
    Array(Vec<Json>),
    Object(Vec<(String, Json)>),
}

/// The mathematical value of a [`Json`].
pub ghost enum JsonView {
    Null,
    Bool(bool),
    Number(Number),
    String(Seq<char>),
    Array(Seq<JsonView>),
    Object(Seq<(Seq<char>, JsonView)>),
}

/// The mathematical value of `j`.
pub open spec fn json_view(j: Json) -> JsonView
    decreases j,
{
    match j {
        Json::Null => JsonView::Null,
        Json::Bool(b) => JsonView::Bool(b),
        Json::Number(n) => JsonView::Number(n),
        Json::String(s) => JsonView::String(s@),
        Json::Array(items) => JsonView::Array(
            Seq::new(
                items.len() as nat,
                |i: int|
                    if 0 <= i < items.len() {
                        json_view(items[i])
                    } else {
                        JsonView::Null
                    },
            ),
        ),
        Json::Object(members) => JsonView::Object(
            Seq::new(
                members.len() as nat,
                |i: int|
                    if 0 <= i < members.len() {
                        (members[i].0@, json_view(members[i].1))
                    } else {
                        (Seq::empty(), JsonView::Null)
                    },
            ),
        ),
    }
}

impl View for Json {
    type V = JsonView;

    open spec fn view(&self) -> JsonView {
        json_view(*self)
    }
}

impl JsonView {
    /// The member keyed `key`, where this is an object that has one.
    pub open spec fn field(self, key: Seq<char>) -> Option<JsonView> {
        match self {
            JsonView::Object(members) => found(members, key),
            _ => None,
        }
    }

    /// The text of the member keyed `key`, where there is such a member and it is a string.
    pub open spec fn text_field(self, key: Seq<char>) -> Option<Seq<char>> {
        match self.field(key) {
            Some(value) => value.as_text(),
            None => None,
        }
    }

    /// The truth value, where this is one.
    pub open spec fn as_bool(self) -> Option<bool> {
        match self {
            JsonView::Bool(b) => Some(b),
            _ => None,
        }
    }

    /// The text, where this is a string.
    pub open spec fn as_text(self) -> Option<Seq<char>> {
        match self {
            JsonView::String(s) => Some(s),
            _ => None,
        }
    }

    /// An optional text: `null` stands for none.
    pub open spec fn as_optional_text(self) -> Option<Option<Seq<char>>> {
        match self {
            JsonView::Null => Some(None),
            JsonView::String(s) => Some(Some(s)),
            _ => None,
        }
    }

    /// The non-negative integer, where this is one.
    pub open spec fn as_unsigned(self) -> Option<u64> {
        match self {
            JsonView::Number(Number::PosInt(n)) => Some(n),
            _ => None,
        }
    }

    /// The number, where this is one.
    pub open spec fn as_number(self) -> Option<Number> {
        match self {
            JsonView::Number(n) => Some(n),
            _ => None,
        }
    }

    /// The texts of an array that holds nothing but strings.
    pub open spec fn as_text_list(self) -> Option<Seq<Seq<char>>> {
        match self {
            JsonView::Array(items) => if forall|i: int|
                0 <= i < items.len() ==> (#[trigger] items[i]) is String {
                Some(Seq::new(items.len(), |i: int| items[i]->String_0))
            } else {
                None
            },
            _ => None,
        }
    }

    /// The name by which a value selects one of several alternatives: a string,
    /// or an object whose single member is keyed by the name and holds `null`.
    pub open spec fn as_variant_name(self) -> Option<Seq<char>> {
        match self {
            JsonView::String(s) => Some(s),
            JsonView::Object(members) => if members.len() == 1 && members[0].1 is Null {
                Some(members[0].0)
            } else {
                None
            },
            _ => None,
        }
    }
    /// The truth value under `key`, or `fallback` where there is no such member
    /// or it holds something else.
    #[verifier::opaque]
    pub open spec fn bool_or(self, key: Seq<char>, fallback: bool) -> bool {
        match self.field(key) {
            Some(value) => match value.as_bool() {
                Some(b) => b,
                None => fallback,
            },
            None => fallback,
        }
    }

    /// The text under `key`, or `fallback` where there is no such member or it
    /// holds something else.
    #[verifier::opaque]
    pub open spec fn text_or(self, key: Seq<char>, fallback: Seq<char>) -> Seq<char> {
        match self.field(key) {
            Some(value) => match value.as_text() {
                Some(s) => s,
                None => fallback,
            },
            None => fallback,
        }
    }

    /// The optional text under `key`, or `fallback` where there is no such
    /// member or it holds something else.
    #[verifier::opaque]
    pub open spec fn optional_text_or(self, key: Seq<char>, fallback: Option<Seq<char>>) -> Option<
        Seq<char>,
    > {
        match self.field(key) {
            Some(value) => match value.as_optional_text() {
                Some(s) => s,
                None => fallback,
            },
            None => fallback,
        }
    }

    /// The non-negative integer under `key`, or `fallback` where there is no
    /// such member or it holds something else.
    #[verifier::opaque]
    pub open spec fn unsigned_or(self, key: Seq<char>, fallback: u64) -> u64 {
        match self.field(key) {
            Some(value) => match value.as_unsigned() {
                Some(n) => n,
                None => fallback,
            },
            None => fallback,
        }
    }

    /// The size under `key`, or `fallback` where there is no such member or it
    /// holds something else than a non-negative integer that fits a `usize`.
    #[verifier::opaque]
    pub open spec fn size_or(self, key: Seq<char>, fallback: usize) -> usize {
        match self.field(key) {
            Some(value) => match value.as_unsigned() {
                Some(n) => if n <= usize::MAX {
                    n as usize
                } else {
                    fallback
                },
                None => fallback,
            },
            None => fallback,
        }
    }

    /// The number under `key`, or `fallback` where there is no such member or
    /// it holds something else.
    #[verifier::opaque]
    pub open spec fn number_or(self, key: Seq<char>, fallback: Number) -> Number {
        match self.field(key) {
            Some(value) => match value.as_number() {
                Some(n) => n,
                None => fallback,
            },
            None => fallback,
        }
    }

    /// The texts under `key`, or `fallback` where there is no such member or it
    /// holds something else than an array of strings.
    #[verifier::opaque]
    pub open spec fn text_list_or(self, key: Seq<char>, fallback: Seq<Seq<char>>) -> Seq<
        Seq<char>,
    > {
        match self.field(key) {
            Some(value) => match value.as_text_list() {
                Some(list) => list,
                None => fallback,
            },
            None => fallback,
        }
    }
}

impl Json {
    /// Looks up a member of an object by its key.
    pub fn get<'a>(&'a self, key: &str) -> (r: Option<&'a Json>)
        ensures
            match r {
                Some(found) => self@.field(key@) == Some(found@),
                None => self@.field(key@) is None,
            },
    {
        match self {
            Json::Object(members) => {
                let n: usize = members.len();
                let ghost all = self@->Object_0;
                let mut i: usize = 0;
                while i < n
                    invariant
                        n == members.len(),
                        i <= n,
                        self@ == JsonView::Object(all),
                        all.len() == n,
                        forall|j: int|
                            0 <= j < n ==> #[trigger] all[j] == (members[j].0@, members[j].1@),
                        forall|j: int| 0 <= j < i ==> (#[trigger] all[j]).0 != key@,
                    decreases n - i,
                {
                    if text_eq(members[i].0.as_str(), key) {
                        proof {
                            lemma_position_is(all, key@, i as int);
                        }
                        return Some(&members[i].1);
                    }
                    i += 1;
                }
                proof {
                    lemma_position_is(all, key@, n as int);
                }
                None
            },
            _ => None,
        }
    }

    /// Reads the member keyed `key` as a string.
    pub fn text_field(&self, key: &str) -> (r: Option<String>)
        ensures
            match r {
                Some(s) => self@.text_field(key@) == Some(s@),
                None => self@.text_field(key@) is None,
            },
    {
        match self.get(key) {
            Some(value) => value.as_text(),
            None => None,
        }
    }

    /// Reads a truth value.
    pub fn as_bool(&self) -> (r: Option<bool>)
        ensures
            r == self@.as_bool(),
    {
        match self {
            Json::Bool(b) => Some(*b),
            _ => None,
        }
    }

    /// Reads a string.
    pub fn as_text(&self) -> (r: Option<String>)
        ensures
            match r {
                Some(s) => self@.as_text() == Some(s@),
                None => self@.as_text() is None,
            },
    {
        match self {
            Json::String(s) => Some(s.clone()),
            _ => None,
        }
    }

    /// Reads an optional string, for which `null` stands for none.
    pub fn as_optional_text(&self) -> (r: Option<Option<String>>)
        ensures
            match r {
                Some(Some(s)) => self@.as_optional_text() == Some(Some(s@)),
                Some(None) => self@.as_optional_text() == Some(None::<Seq<char>>),
                None => self@.as_optional_text() is None,
            },
    {
        match self {
            Json::Null => Some(None),
            Json::String(s) => Some(Some(s.clone())),
            _ => None,
        }
    }

    /// Reads a non-negative integer.
    pub fn as_unsigned(&self) -> (r: Option<u64>)
        ensures
            r == self@.as_unsigned(),
    {
        match self {
            Json::Number(Number::PosInt(n)) => Some(*n),
            _ => None,
        }
    }

    /// Reads a number of any kind.
    pub fn as_number(&self) -> (r: Option<Number>)
        ensures
            r == self@.as_number(),
    {
        match self {
            Json::Number(n) => Some(*n),
            _ => None,
        }
    }

    /// Reads an array of strings; one element of another shape fails the whole array.
    pub fn as_text_list(&self) -> (r: Option<Vec<String>>)
        ensures
            match r {
                Some(list) => self@.as_text_list() == Some(list.deep_view()),
                None => self@.as_text_list() is None,
            },
    {
        proof {
            reveal_with_fuel(json_view, 2);
        }
        match self {
            Json::Array(items) => {
                let n: usize = items.len();
                let ghost all = self@->Array_0;
                let mut list: Vec<String> = Vec::new();
                let mut i: usize = 0;
                while i < n
                    invariant
                        n == items.len(),
                        i <= n,
                        self@ == JsonView::Array(all),
                        all.len() == n,
                        forall|j: int| 0 <= j < n ==> #[trigger] all[j] == items[j]@,
                        list.len() == i,
                        forall|j: int| 0 <= j < i ==> all[j] is String,
                        forall|j: int| 0 <= j < i ==> (#[trigger] list[j])@ == all[j]->String_0,
                    decreases n - i,
                {
                    match &items[i] {
                        Json::String(s) => {
                            list.push(s.clone());
                        },
                        _ => {
                            assert(!(all[i as int] is String));
                            return None;
                        },
                    }
                    i += 1;
                }
                assert(list.deep_view() =~= Seq::new(all.len(), |i: int| all[i]->String_0));
                Some(list)
            },
            _ => None,
        }
    }

    /// Reads the name by which a value selects one of several alternatives.
    pub fn as_variant_name<'a>(&'a self) -> (r: Option<&'a str>)
        ensures
            match r {
                Some(name) => self@.as_variant_name() == Some(name@),
                None => self@.as_variant_name() is None,
            },
    {
        proof {
            reveal_with_fuel(json_view, 2);
        }
        match self {
            Json::String(s) => Some(s.as_str()),
            Json::Object(members) => {
                if members.len() == 1 {
                    match &members[0].1 {
                        Json::Null => Some(members[0].0.as_str()),
                        _ => None,
                    }
                } else {
                    None
                }
            },
            _ => None,
        }
    }

    /// A JSON string that holds the characters of `s`.
    pub fn text(s: &str) -> (r: Json)
        ensures
            r@ == JsonView::String(s@),
    {
        Json::String(text_of(s))
    }
    /// Reads the truth value under `key`, falling back where it cannot be read.
    pub fn bool_or(&self, key: &str, fallback: bool) -> (r: bool)
        ensures
            r == self@.bool_or(key@, fallback),
    {
        proof {
            reveal(JsonView::bool_or);
        }
        match self.get(key) {
            Some(value) => match value.as_bool() {
                Some(b) => b,
                None => fallback,
            },
            None => fallback,
        }
    }

    /// Reads the text under `key`, falling back where it cannot be read.
    pub fn text_or(&self, key: &str, fallback: String) -> (r: String)
        ensures
            r@ == self@.text_or(key@, fallback@),
    {
        proof {
            reveal(JsonView::text_or);
        }
        match self.get(key) {
            Some(value) => match value.as_text() {
                Some(s) => s,
                None => fallback,
            },
            None => fallback,
        }
    }

    /// Reads the optional text under `key`, falling back where it cannot be read.
    pub fn optional_text_or(&self, key: &str, fallback: Option<String>) -> (r: Option<String>)
        ensures
            optional_text_view(r) == self@.optional_text_or(key@, optional_text_view(fallback)),
    {
        proof {
            reveal(JsonView::optional_text_or);
        }
        match self.get(key) {
            Some(value) => match value.as_optional_text() {
                Some(s) => s,
                None => fallback,
            },
            None => fallback,
        }
    }

    /// Reads the non-negative integer under `key`, falling back where it cannot be read.
    pub fn unsigned_or(&self, key: &str, fallback: u64) -> (r: u64)
        ensures
            r == self@.unsigned_or(key@, fallback),
    {
        proof {
            reveal(JsonView::unsigned_or);
        }
        match self.get(key) {
            Some(value) => match value.as_unsigned() {
                Some(n) => n,
                None => fallback,
            },
            None => fallback,
        }
    }

    /// Reads the size under `key`, falling back where it cannot be read.
    pub fn size_or(&self, key: &str, fallback: usize) -> (r: usize)
        ensures
            r == self@.size_or(key@, fallback),
    {
        proof {
            reveal(JsonView::size_or);
        }
        match self.get(key) {
            Some(value) => match value.as_unsigned() {
                Some(n) => if n <= usize::MAX as u64 {
                    n as usize
                } else {
                    fallback
                },
                None => fallback,
            },
            None => fallback,
        }
    }

    /// Reads the number under `key`, falling back where it cannot be read.
    pub fn number_or(&self, key: &str, fallback: Number) -> (r: Number)
        ensures
            r == self@.number_or(key@, fallback),
    {
        proof {
            reveal(JsonView::number_or);
        }
        match self.get(key) {
            Some(value) => match value.as_number() {
                Some(n) => n,
                None => fallback,
            },
            None => fallback,
        }
    }

    /// Reads the texts under `key`, falling back where they cannot be read.
    pub fn text_list_or(&self, key: &str, fallback: Vec<String>) -> (r: Vec<String>)
        ensures
            r.deep_view() == self@.text_list_or(key@, fallback.deep_view()),
    {
        proof {
            reveal(JsonView::text_list_or);
        }
        match self.get(key) {
            Some(value) => match value.as_text_list() {
                Some(list) => list,
                None => fallback,
            },
            None => fallback,
        }
    }

    /// An object with the given members.
    pub fn object(members: Vec<(String, Json)>) -> (r: Json)
        ensures
            r@ == JsonView::Object(members_view(members)),
    {
        let r = Json::Object(members);
        assert(r@->Object_0 =~= members_view(members));
        r
    }

    /// A JSON string, or `null` where there is no text.
    pub fn optional_text(s: &Option<String>) -> (r: Json)
        ensures
            r@ == optional_text_document(optional_text_view(*s)),
    {
        match s {
            Some(text) => Json::text(text.as_str()),
            None => Json::Null,
        }
    }

    /// A JSON array of strings.
    pub fn text_list(list: &Vec<String>) -> (r: Json)
        ensures
            r@ == text_list_document(list.deep_view()),
    {
        let n: usize = list.len();
        let mut items: Vec<Json> = Vec::new();
        let mut i: usize = 0;
        while i < n
            invariant
                n == list.len(),
                i <= n,
                items.len() == i,
                forall|k: int| 0 <= k < i ==> (#[trigger] items[k])@ == JsonView::String(list[k]@),
            decreases n - i,
        {
            items.push(Json::text(list[i].as_str()));
            i += 1;
        }
        let r = Json::Array(items);
        assert(r@->Array_0 =~= text_list_document(list.deep_view())->Array_0);
        r
    }
}

/// A copy of `j` with the same value.
pub fn json_copy(j: &Json) -> (r: Json)
    ensures
        r@ == j@,
    decreases j,
{
    match j {
        Json::Null => Json::Null,
        Json::Bool(b) => Json::Bool(*b),
        Json::Number(n) => Json::Number(*n),
        Json::String(s) => Json::String(s.clone()),
        Json::Array(items) => {
            let n: usize = items.len();
            let mut out: Vec<Json> = Vec::new();
            let mut i: usize = 0;
            while i < n
                invariant
                    n == items.len(),
                    i <= n,
                    j is Array,
                    j->Array_0 == *items,
                    out.len() == i,
                    forall|k: int| 0 <= k < i ==> (#[trigger] out[k])@ == items[k]@,
                decreases n - i,
            {
                proof {
                    assert(decreases_to!(*j => j->Array_0));
                    assert(decreases_to!(*items => items[i as int]));
                }
                out.push(json_copy(&items[i]));
                i += 1;
            }
            let r = Json::Array(out);
            assert(r@->Array_0 =~= j@->Array_0);
            r
        },
        Json::Object(members) => {
            let n: usize = members.len();
            let mut out: Vec<(String, Json)> = Vec::new();
            let mut i: usize = 0;
            while i < n
                invariant
                    n == members.len(),
                    i <= n,
                    j is Object,
                    j->Object_0 == *members,
                    out.len() == i,
                    forall|k: int|
                        0 <= k < i ==> (#[trigger] out[k]).0@ == members[k].0@ && out[k].1@
                            == members[k].1@,
                decreases n - i,
            {
                proof {
                    assert(decreases_to!(*j => j->Object_0));
                    assert(decreases_to!(*members => members[i as int]));
                    assert(decreases_to!(members[i as int] => members[i as int].1));
                }
                out.push((members[i].0.clone(), json_copy(&members[i].1)));
                i += 1;
            }
            let r = Json::Object(out);
            assert(r@->Object_0 =~= j@->Object_0);
            r
        },
    }
}

impl Clone for Json {
    fn clone(&self) -> (r: Self)
        ensures
            r@ == self@,
    {
        json_copy(self)
    }
}

/// The value of the members of an object.
pub open spec fn members_view(members: Vec<(String, Json)>) -> Seq<(Seq<char>, JsonView)> {
    Seq::new(members.len() as nat, |i: int| (members[i].0@, members[i].1@))
}

/// Adds a member at the end of the members of an object.
pub fn push_member(members: &mut Vec<(String, Json)>, key: &str, value: Json)
    ensures
        members_view(*final(members)) == members_view(*old(members)).push((key@, value@)),
{
    let ghost v = value@;
    members.push((text_of(key), value));
    assert(members_view(*members) =~= members_view(*old(members)).push((key@, v)));
}

/// The value of an optional text.
pub open spec fn optional_text_view(s: Option<String>) -> Option<Seq<char>> {
    match s {
        Some(text) => Some(text@),
        None => None,
    }
}

/// The document value that holds an optional text: `null` where there is none.
pub open spec fn optional_text_document(s: Option<Seq<char>>) -> JsonView {
    match s {
        Some(text) => JsonView::String(text),
        None => JsonView::Null,
    }
}

/// The document value that holds a list of texts: an array of strings.
pub open spec fn text_list_document(list: Seq<Seq<char>>) -> JsonView {
    JsonView::Array(Seq::new(list.len(), |i: int| JsonView::String(list[i])))
}

/// A truth value that a document holds under a key is the one read from there.
pub proof fn lemma_bool_or_found(doc: JsonView, key: Seq<char>, value: bool, fallback: bool)
    requires
        doc.field(key) == Some(JsonView::Bool(value)),
    ensures
        doc.bool_or(key, fallback) == value,
{
    reveal(JsonView::bool_or);
}

/// A text that a document holds under a key is the one read from there.
pub proof fn lemma_text_or_found(
    doc: JsonView,
    key: Seq<char>,
    value: Seq<char>,
    fallback: Seq<char>,
)
    requires
        doc.field(key) == Some(JsonView::String(value)),
    ensures
        doc.text_or(key, fallback) == value,
{
    reveal(JsonView::text_or);
}

/// An optional text that a document holds under a key is the one read from there.
pub proof fn lemma_optional_text_or_found(
    doc: JsonView,
    key: Seq<char>,
    value: Option<Seq<char>>,
    fallback: Option<Seq<char>>,
)
    requires
        doc.field(key) == Some(optional_text_document(value)),
    ensures
        doc.optional_text_or(key, fallback) == value,
{
    reveal(JsonView::optional_text_or);
}

/// A non-negative integer that a document holds under a key is the one read from there.
pub proof fn lemma_unsigned_or_found(doc: JsonView, key: Seq<char>, value: u64, fallback: u64)
    requires
        doc.field(key) == Some(JsonView::Number(Number::PosInt(value))),
    ensures
        doc.unsigned_or(key, fallback) == value,
{
    reveal(JsonView::unsigned_or);
}

/// A size that a document holds under a key is the one read from there.
pub proof fn lemma_size_or_found(doc: JsonView, key: Seq<char>, value: usize, fallback: usize)
    requires
        doc.field(key) == Some(JsonView::Number(Number::PosInt(value as u64))),
    ensures
        doc.size_or(key, fallback) == value,
{
    reveal(JsonView::size_or);
}

/// A number that a document holds under a key is the one read from there.
pub proof fn lemma_number_or_found(doc: JsonView, key: Seq<char>, value: Number, fallback: Number)
    requires
        doc.field(key) == Some(JsonView::Number(value)),
    ensures
        doc.number_or(key, fallback) == value,
{
    reveal(JsonView::number_or);
}

/// A list of texts that a document holds under a key is the one read from there.
pub proof fn lemma_text_list_or_found(
    doc: JsonView,
    key: Seq<char>,
    value: Seq<Seq<char>>,
    fallback: Seq<Seq<char>>,
)
    requires
        doc.field(key) == Some(text_list_document(value)),
    ensures
        doc.text_list_or(key, fallback) == value,
{
    reveal(JsonView::text_list_or);
    lemma_text_list_read_back(value);
}

/// A truth value is read alike from two documents that hold the same under the key.
pub proof fn lemma_bool_or_same(a: JsonView, b: JsonView, key: Seq<char>, fallback: bool)
    requires
        a.field(key) == b.field(key),
    ensures
        a.bool_or(key, fallback) == b.bool_or(key, fallback),
{
    reveal(JsonView::bool_or);
}

/// A text is read alike from two documents that hold the same under the key.
pub proof fn lemma_text_or_same(a: JsonView, b: JsonView, key: Seq<char>, fallback: Seq<char>)
    requires
        a.field(key) == b.field(key),
    ensures
        a.text_or(key, fallback) == b.text_or(key, fallback),
{
    reveal(JsonView::text_or);
}

/// An optional text is read alike from two documents that hold the same under the key.
pub proof fn lemma_optional_text_or_same(a: JsonView, b: JsonView, key: Seq<char>, fallback: Option<Seq<char>>)
    requires
        a.field(key) == b.field(key),
    ensures
        a.optional_text_or(key, fallback) == b.optional_text_or(key, fallback),
{
    reveal(JsonView::optional_text_or);
}

/// A non-negative integer is read alike from two documents that hold the same under the key.
pub proof fn lemma_unsigned_or_same(a: JsonView, b: JsonView, key: Seq<char>, fallback: u64)
    requires
        a.field(key) == b.field(key),
    ensures
        a.unsigned_or(key, fallback) == b.unsigned_or(key, fallback),
{
    reveal(JsonView::unsigned_or);
}

/// A size is read alike from two documents that hold the same under the key.
pub proof fn lemma_size_or_same(a: JsonView, b: JsonView, key: Seq<char>, fallback: usize)
    requires
        a.field(key) == b.field(key),
    ensures
        a.size_or(key, fallback) == b.size_or(key, fallback),
{
    reveal(JsonView::size_or);
}

/// A number is read alike from two documents that hold the same under the key.
pub proof fn lemma_number_or_same(a: JsonView, b: JsonView, key: Seq<char>, fallback: Number)
    requires
        a.field(key) == b.field(key),
    ensures
        a.number_or(key, fallback) == b.number_or(key, fallback),
{
    reveal(JsonView::number_or);
}

/// A list of texts is read alike from two documents that hold the same under the key.
pub proof fn lemma_text_list_or_same(a: JsonView, b: JsonView, key: Seq<char>, fallback: Seq<Seq<char>>)
    requires
        a.field(key) == b.field(key),
    ensures
        a.text_list_or(key, fallback) == b.text_list_or(key, fallback),
{
    reveal(JsonView::text_list_or);
}

/// A list of texts is read back from the document value that holds it.
pub proof fn lemma_text_list_read_back(list: Seq<Seq<char>>)
    ensures
        text_list_document(list).as_text_list() == Some(list),
{
    let items = text_list_document(list)->Array_0;
    assert(Seq::new(items.len(), |i: int| items[i]->String_0) =~= list);
}

} // verus!
