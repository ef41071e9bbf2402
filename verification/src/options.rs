//! The preferences that are one of a few named values.

use crate::json::Json;
use crate::json::JsonView;
use crate::json::Number;
use crate::platform::Platform;
use crate::text::join3;
use crate::text::lowercase;
use crate::text::lowercase_of;
use crate::text::text_eq;
use vstd::prelude::*;

verus! {

/// Where the recording overlay is shown.
#[derive(Clone, Copy, Debug, PartialEq, Eq, Structural)]
pub enum OverlayPosition {
    Hidden,
    Top,
    Bottom,
}

impl OverlayPosition {
    /// The name that stands for this value in a document.
    pub open spec fn name(self) -> Seq<char> {
        match self {
            OverlayPosition::Hidden => "none"@,
            OverlayPosition::Top => "top"@,
            OverlayPosition::Bottom => "bottom"@,
        }
    }

    /// The value that `name` stands for, if any.
    pub open spec fn named(name: Seq<char>) -> Option<Self> {
        if name == "none"@ {
            Some(OverlayPosition::Hidden)
        } else if name == "top"@ {
            Some(OverlayPosition::Top)
        } else if name == "bottom"@ {
            Some(OverlayPosition::Bottom)
        } else {
            None
        }
    }

    /// Every value is read back from its own name.
    pub proof fn lemma_named_name(self)
        ensures
            Self::named(self.name()) == Some(self),
    {
        reveal_strlit("none");
        reveal_strlit("top");
        reveal_strlit("bottom");
        assert("none"@.len() == 4);
        assert("top"@.len() == 3);
        assert("bottom"@.len() == 6);
    }

    /// The name that stands for this value in a document.
    pub fn as_str(&self) -> (r: &'static str)
        ensures
            r@ == self.name(),
    {
        match self {
            OverlayPosition::Hidden => "none",
            OverlayPosition::Top => "top",
            OverlayPosition::Bottom => "bottom",
        }
    }

    /// Reads a value from its name; an unknown name gives nothing.
    pub fn from_name(name: &str) -> (r: Option<Self>)
        ensures
            r == Self::named(name@),
    {
        if text_eq(name, "none") {
            Some(OverlayPosition::Hidden)
        } else if text_eq(name, "top") {
            Some(OverlayPosition::Top)
        } else if text_eq(name, "bottom") {
            Some(OverlayPosition::Bottom)
        } else {
            None
        }
    }

    /// What a document value decodes to: the value that its variant name stands for.
    pub open spec fn decoded(j: JsonView) -> Option<Self> {
        match j.as_variant_name() {
            Some(name) => Self::named(name),
            None => None,
        }
    }

    /// Decodes a document value.
    pub fn decode(j: &Json) -> (r: Option<Self>)
        ensures
            r == Self::decoded(j@),
    {
        match j.as_variant_name() {
            Some(name) => Self::from_name(name),
            None => None,
        }
    }

    /// The document value that holds this value: its name as a string.
    pub fn encode(&self) -> (r: Json)
        ensures
            r@ == JsonView::String(self.name()),
    {
        Json::text(self.as_str())
    }

    /// The value under `key` of `doc`, or `fallback` where there is no such
    /// member or it does not decode.
    #[verifier::opaque]
    pub open spec fn field_or(doc: JsonView, key: Seq<char>, fallback: Self) -> Self {
        match doc.field(key) {
            Some(value) => match Self::decoded(value) {
                Some(v) => v,
                None => fallback,
            },
            None => fallback,
        }
    }

    /// Reads the value under `key` of `doc`, falling back where it cannot be read.
    pub fn read(doc: &Json, key: &str, fallback: Self) -> (r: Self)
        ensures
            r == Self::field_or(doc@, key@, fallback),
    {
        proof {
            reveal(OverlayPosition::field_or);
        }
        match doc.get(key) {
            Some(value) => match Self::decode(value) {
                Some(v) => v,
                None => fallback,
            },
            None => fallback,
        }
    }

    /// A value is read alike from two documents that hold the same under the key.
    pub proof fn lemma_field_or_same(a: JsonView, b: JsonView, key: Seq<char>, fallback: Self)
        requires
            a.field(key) == b.field(key),
        ensures
            Self::field_or(a, key, fallback) == Self::field_or(b, key, fallback),
    {
        reveal(OverlayPosition::field_or);
    }

    /// A value that a document holds under a key is the one read from there.
    pub proof fn lemma_field_or_found(self, doc: JsonView, key: Seq<char>, fallback: Self)
        requires
            doc.field(key) == Some(JsonView::String(self.name())),
        ensures
            Self::field_or(doc, key, fallback) == self,
    {
        reveal(OverlayPosition::field_or);
        self.lemma_named_name();
    }
}

/// How long an idle model stays loaded.
#[derive(Clone, Copy, Debug, PartialEq, Eq, Structural)]
pub enum ModelUnloadTimeout {
    Never,
    Immediately,
    Min2,
    Min5,
    Min10,
    Min15,
    Hour1,
    Sec5,
}

impl ModelUnloadTimeout {
    /// The name that stands for this value in a document.
    pub open spec fn name(self) -> Seq<char> {
        match self {
            ModelUnloadTimeout::Never => "never"@,
            ModelUnloadTimeout::Immediately => "immediately"@,
            ModelUnloadTimeout::Min2 => "min2"@,
            ModelUnloadTimeout::Min5 => "min5"@,
            ModelUnloadTimeout::Min10 => "min10"@,
            ModelUnloadTimeout::Min15 => "min15"@,
            ModelUnloadTimeout::Hour1 => "hour1"@,
            ModelUnloadTimeout::Sec5 => "sec5"@,
        }
    }

    /// The value that `name` stands for, if any.
    pub open spec fn named(name: Seq<char>) -> Option<Self> {
        if name == "never"@ {
            Some(ModelUnloadTimeout::Never)
        } else if name == "immediately"@ {
            Some(ModelUnloadTimeout::Immediately)
        } else if name == "min2"@ {
            Some(ModelUnloadTimeout::Min2)
        } else if name == "min5"@ {
            Some(ModelUnloadTimeout::Min5)
        } else if name == "min10"@ {
            Some(ModelUnloadTimeout::Min10)
        } else if name == "min15"@ {
            Some(ModelUnloadTimeout::Min15)
        } else if name == "hour1"@ {
            Some(ModelUnloadTimeout::Hour1)
        } else if name == "sec5"@ {
            Some(ModelUnloadTimeout::Sec5)
        } else {
            None
        }
    }

    /// Every value is read back from its own name.
    pub proof fn lemma_named_name(self)
        ensures
            Self::named(self.name()) == Some(self),
    {
        reveal_strlit("never");
        reveal_strlit("immediately");
        reveal_strlit("min2");
        reveal_strlit("min5");
        reveal_strlit("min10");
        reveal_strlit("min15");
        reveal_strlit("hour1");
        reveal_strlit("sec5");
        assert("never"@.len() == 5);
        assert("immediately"@.len() == 11);
        assert("min2"@.len() == 4);
        assert("min5"@.len() == 4);
        assert("min10"@.len() == 5);
        assert("min15"@.len() == 5);
        assert("hour1"@.len() == 5);
        assert("sec5"@.len() == 4);
        assert("never"@[4] == 'r');
        assert("min10"@[4] == '0');
        assert("min15"@[4] == '5');
        assert("hour1"@[4] == '1');
        assert("min2"@[0] == 'm');
        assert("min5"@[0] == 'm');
        assert("sec5"@[0] == 's');
        assert("min2"@[3] == '2');
        assert("min5"@[3] == '5');
        assert("sec5"@[3] == '5');
    }

    /// The name that stands for this value in a document.
    pub fn as_str(&self) -> (r: &'static str)
        ensures
            r@ == self.name(),
    {
        match self {
            ModelUnloadTimeout::Never => "never",
            ModelUnloadTimeout::Immediately => "immediately",
            ModelUnloadTimeout::Min2 => "min2",
            ModelUnloadTimeout::Min5 => "min5",
            ModelUnloadTimeout::Min10 => "min10",
            ModelUnloadTimeout::Min15 => "min15",
            ModelUnloadTimeout::Hour1 => "hour1",
            ModelUnloadTimeout::Sec5 => "sec5",
        }
    }

    /// Reads a value from its name; an unknown name gives nothing.
    pub fn from_name(name: &str) -> (r: Option<Self>)
        ensures
            r == Self::named(name@),
    {
        if text_eq(name, "never") {
            Some(ModelUnloadTimeout::Never)
        } else if text_eq(name, "immediately") {
            Some(ModelUnloadTimeout::Immediately)
        } else if text_eq(name, "min2") {
            Some(ModelUnloadTimeout::Min2)
        } else if text_eq(name, "min5") {
            Some(ModelUnloadTimeout::Min5)
        } else if text_eq(name, "min10") {
            Some(ModelUnloadTimeout::Min10)
        } else if text_eq(name, "min15") {
            Some(ModelUnloadTimeout::Min15)
        } else if text_eq(name, "hour1") {
            Some(ModelUnloadTimeout::Hour1)
        } else if text_eq(name, "sec5") {
            Some(ModelUnloadTimeout::Sec5)
        } else {
            None
        }
    }

    /// What a document value decodes to: the value that its variant name stands for.
    pub open spec fn decoded(j: JsonView) -> Option<Self> {
        match j.as_variant_name() {
            Some(name) => Self::named(name),
            None => None,
        }
    }

    /// Decodes a document value.
    pub fn decode(j: &Json) -> (r: Option<Self>)
        ensures
            r == Self::decoded(j@),
    {
        match j.as_variant_name() {
            Some(name) => Self::from_name(name),
            None => None,
        }
    }

    /// The document value that holds this value: its name as a string.
    pub fn encode(&self) -> (r: Json)
        ensures
            r@ == JsonView::String(self.name()),
    {
        Json::text(self.as_str())
    }

    /// The value under `key` of `doc`, or `fallback` where there is no such
    /// member or it does not decode.
    #[verifier::opaque]
    pub open spec fn field_or(doc: JsonView, key: Seq<char>, fallback: Self) -> Self {
        match doc.field(key) {
            Some(value) => match Self::decoded(value) {
                Some(v) => v,
                None => fallback,
            },
            None => fallback,
        }
    }

    /// Reads the value under `key` of `doc`, falling back where it cannot be read.
    pub fn read(doc: &Json, key: &str, fallback: Self) -> (r: Self)
        ensures
            r == Self::field_or(doc@, key@, fallback),
    {
        proof {
            reveal(ModelUnloadTimeout::field_or);
        }
        match doc.get(key) {
            Some(value) => match Self::decode(value) {
                Some(v) => v,
                None => fallback,
            },
            None => fallback,
        }
    }

    /// A value is read alike from two documents that hold the same under the key.
    pub proof fn lemma_field_or_same(a: JsonView, b: JsonView, key: Seq<char>, fallback: Self)
        requires
            a.field(key) == b.field(key),
        ensures
            Self::field_or(a, key, fallback) == Self::field_or(b, key, fallback),
    {
        reveal(ModelUnloadTimeout::field_or);
    }

    /// A value that a document holds under a key is the one read from there.
    pub proof fn lemma_field_or_found(self, doc: JsonView, key: Seq<char>, fallback: Self)
        requires
            doc.field(key) == Some(JsonView::String(self.name())),
        ensures
            Self::field_or(doc, key, fallback) == self,
    {
        reveal(ModelUnloadTimeout::field_or);
        self.lemma_named_name();
    }
}

/// How transcribed text reaches the focused window.
#[derive(Clone, Copy, Debug, PartialEq, Eq, Structural)]
pub enum PasteMethod {
    CtrlV,
    Direct,
    Disabled,
    ShiftInsert,
    CtrlShiftV,
}

impl PasteMethod {
    /// The name that stands for this value in a document.
    pub open spec fn name(self) -> Seq<char> {
        match self {
            PasteMethod::CtrlV => "ctrl_v"@,
            PasteMethod::Direct => "direct"@,
            PasteMethod::Disabled => "none"@,
            PasteMethod::ShiftInsert => "shift_insert"@,
            PasteMethod::CtrlShiftV => "ctrl_shift_v"@,
        }
    }

    /// The value that `name` stands for, if any.
    pub open spec fn named(name: Seq<char>) -> Option<Self> {
        if name == "ctrl_v"@ {
            Some(PasteMethod::CtrlV)
        } else if name == "direct"@ {
            Some(PasteMethod::Direct)
        } else if name == "none"@ {
            Some(PasteMethod::Disabled)
        } else if name == "shift_insert"@ {
            Some(PasteMethod::ShiftInsert)
        } else if name == "ctrl_shift_v"@ {
            Some(PasteMethod::CtrlShiftV)
        } else {
            None
        }
    }

    /// Every value is read back from its own name.
    pub proof fn lemma_named_name(self)
        ensures
            Self::named(self.name()) == Some(self),
    {
        reveal_strlit("ctrl_v");
        reveal_strlit("direct");
        reveal_strlit("none");
        reveal_strlit("shift_insert");
        reveal_strlit("ctrl_shift_v");
        assert("ctrl_v"@.len() == 6);
        assert("direct"@.len() == 6);
        assert("none"@.len() == 4);
        assert("shift_insert"@.len() == 12);
        assert("ctrl_shift_v"@.len() == 12);
        assert("ctrl_v"@[0] == 'c');
        assert("direct"@[0] == 'd');
        assert("shift_insert"@[0] == 's');
        assert("ctrl_shift_v"@[0] == 'c');
    }

    /// The name that stands for this value in a document.
    pub fn as_str(&self) -> (r: &'static str)
        ensures
            r@ == self.name(),
    {
        match self {
            PasteMethod::CtrlV => "ctrl_v",
            PasteMethod::Direct => "direct",
            PasteMethod::Disabled => "none",
            PasteMethod::ShiftInsert => "shift_insert",
            PasteMethod::CtrlShiftV => "ctrl_shift_v",
        }
    }

    /// Reads a value from its name; an unknown name gives nothing.
    pub fn from_name(name: &str) -> (r: Option<Self>)
        ensures
            r == Self::named(name@),
    {
        if text_eq(name, "ctrl_v") {
            Some(PasteMethod::CtrlV)
        } else if text_eq(name, "direct") {
            Some(PasteMethod::Direct)
        } else if text_eq(name, "none") {
            Some(PasteMethod::Disabled)
        } else if text_eq(name, "shift_insert") {
            Some(PasteMethod::ShiftInsert)
        } else if text_eq(name, "ctrl_shift_v") {
            Some(PasteMethod::CtrlShiftV)
        } else {
            None
        }
    }

    /// What a document value decodes to: the value that its variant name stands for.
    pub open spec fn decoded(j: JsonView) -> Option<Self> {
        match j.as_variant_name() {
            Some(name) => Self::named(name),
            None => None,
        }
    }

    /// Decodes a document value.
    pub fn decode(j: &Json) -> (r: Option<Self>)
        ensures
            r == Self::decoded(j@),
    {
        match j.as_variant_name() {
            Some(name) => Self::from_name(name),
            None => None,
        }
    }

    /// The document value that holds this value: its name as a string.
    pub fn encode(&self) -> (r: Json)
        ensures
            r@ == JsonView::String(self.name()),
    {
        Json::text(self.as_str())
    }

    /// The value under `key` of `doc`, or `fallback` where there is no such
    /// member or it does not decode.
    #[verifier::opaque]
    pub open spec fn field_or(doc: JsonView, key: Seq<char>, fallback: Self) -> Self {
        match doc.field(key) {
            Some(value) => match Self::decoded(value) {
                Some(v) => v,
                None => fallback,
            },
            None => fallback,
        }
    }

    /// Reads the value under `key` of `doc`, falling back where it cannot be read.
    pub fn read(doc: &Json, key: &str, fallback: Self) -> (r: Self)
        ensures
            r == Self::field_or(doc@, key@, fallback),
    {
        proof {
            reveal(PasteMethod::field_or);
        }
        match doc.get(key) {
            Some(value) => match Self::decode(value) {
                Some(v) => v,
                None => fallback,
            },
            None => fallback,
        }
    }

    /// A value is read alike from two documents that hold the same under the key.
    pub proof fn lemma_field_or_same(a: JsonView, b: JsonView, key: Seq<char>, fallback: Self)
        requires
            a.field(key) == b.field(key),
        ensures
            Self::field_or(a, key, fallback) == Self::field_or(b, key, fallback),
    {
        reveal(PasteMethod::field_or);
    }

    /// A value that a document holds under a key is the one read from there.
    pub proof fn lemma_field_or_found(self, doc: JsonView, key: Seq<char>, fallback: Self)
        requires
            doc.field(key) == Some(JsonView::String(self.name())),
        ensures
            Self::field_or(doc, key, fallback) == self,
    {
        reveal(PasteMethod::field_or);
        self.lemma_named_name();
    }
}

/// What becomes of the clipboard after pasting.
#[derive(Clone, Copy, Debug, PartialEq, Eq, Structural)]
pub enum ClipboardHandling {
    DontModify,
    CopyToClipboard,
}

impl ClipboardHandling {
    /// The name that stands for this value in a document.
    pub open spec fn name(self) -> Seq<char> {
        match self {
            ClipboardHandling::DontModify => "dont_modify"@,
            ClipboardHandling::CopyToClipboard => "copy_to_clipboard"@,
        }
    }

    /// The value that `name` stands for, if any.
    pub open spec fn named(name: Seq<char>) -> Option<Self> {
        if name == "dont_modify"@ {
            Some(ClipboardHandling::DontModify)
        } else if name == "copy_to_clipboard"@ {
            Some(ClipboardHandling::CopyToClipboard)
        } else {
            None
        }
    }

    /// Every value is read back from its own name.
    pub proof fn lemma_named_name(self)
        ensures
            Self::named(self.name()) == Some(self),
    {
        reveal_strlit("dont_modify");
        reveal_strlit("copy_to_clipboard");
        assert("dont_modify"@.len() == 11);
        assert("copy_to_clipboard"@.len() == 17);
    }

    /// The name that stands for this value in a document.
    pub fn as_str(&self) -> (r: &'static str)
        ensures
            r@ == self.name(),
    {
        match self {
            ClipboardHandling::DontModify => "dont_modify",
            ClipboardHandling::CopyToClipboard => "copy_to_clipboard",
        }
    }

    /// Reads a value from its name; an unknown name gives nothing.
    pub fn from_name(name: &str) -> (r: Option<Self>)
        ensures
            r == Self::named(name@),
    {
        if text_eq(name, "dont_modify") {
            Some(ClipboardHandling::DontModify)
        } else if text_eq(name, "copy_to_clipboard") {
            Some(ClipboardHandling::CopyToClipboard)
        } else {
            None
        }
    }

    /// What a document value decodes to: the value that its variant name stands for.
    pub open spec fn decoded(j: JsonView) -> Option<Self> {
        match j.as_variant_name() {
            Some(name) => Self::named(name),
            None => None,
        }
    }

    /// Decodes a document value.
    pub fn decode(j: &Json) -> (r: Option<Self>)
        ensures
            r == Self::decoded(j@),
    {
        match j.as_variant_name() {
            Some(name) => Self::from_name(name),
            None => None,
        }
    }

    /// The document value that holds this value: its name as a string.
    pub fn encode(&self) -> (r: Json)
        ensures
            r@ == JsonView::String(self.name()),
    {
        Json::text(self.as_str())
    }

    /// The value under `key` of `doc`, or `fallback` where there is no such
    /// member or it does not decode.
    #[verifier::opaque]
    pub open spec fn field_or(doc: JsonView, key: Seq<char>, fallback: Self) -> Self {
        match doc.field(key) {
            Some(value) => match Self::decoded(value) {
                Some(v) => v,
                None => fallback,
            },
            None => fallback,
        }
    }

    /// Reads the value under `key` of `doc`, falling back where it cannot be read.
    pub fn read(doc: &Json, key: &str, fallback: Self) -> (r: Self)
        ensures
            r == Self::field_or(doc@, key@, fallback),
    {
        proof {
            reveal(ClipboardHandling::field_or);
        }
        match doc.get(key) {
            Some(value) => match Self::decode(value) {
                Some(v) => v,
                None => fallback,
            },
            None => fallback,
        }
    }

    /// A value is read alike from two documents that hold the same under the key.
    pub proof fn lemma_field_or_same(a: JsonView, b: JsonView, key: Seq<char>, fallback: Self)
        requires
            a.field(key) == b.field(key),
        ensures
            Self::field_or(a, key, fallback) == Self::field_or(b, key, fallback),
    {
        reveal(ClipboardHandling::field_or);
    }

    /// A value that a document holds under a key is the one read from there.
    pub proof fn lemma_field_or_found(self, doc: JsonView, key: Seq<char>, fallback: Self)
        requires
            doc.field(key) == Some(JsonView::String(self.name())),
        ensures
            Self::field_or(doc, key, fallback) == self,
    {
        reveal(ClipboardHandling::field_or);
        self.lemma_named_name();
    }
}

/// How long recordings are kept.
#[derive(Clone, Copy, Debug, PartialEq, Eq, Structural)]
pub enum RecordingRetentionPeriod {
    Never,
    PreserveLimit,
    Days3,
    Weeks2,
    Months3,
}

impl RecordingRetentionPeriod {
    /// The name that stands for this value in a document.
    pub open spec fn name(self) -> Seq<char> {
        match self {
            RecordingRetentionPeriod::Never => "never"@,
            RecordingRetentionPeriod::PreserveLimit => "preserve_limit"@,
            RecordingRetentionPeriod::Days3 => "days3"@,
            RecordingRetentionPeriod::Weeks2 => "weeks2"@,
            RecordingRetentionPeriod::Months3 => "months3"@,
        }
    }

    /// The value that `name` stands for, if any.
    pub open spec fn named(name: Seq<char>) -> Option<Self> {
        if name == "never"@ {
            Some(RecordingRetentionPeriod::Never)
        } else if name == "preserve_limit"@ {
            Some(RecordingRetentionPeriod::PreserveLimit)
        } else if name == "days3"@ {
            Some(RecordingRetentionPeriod::Days3)
        } else if name == "weeks2"@ {
            Some(RecordingRetentionPeriod::Weeks2)
        } else if name == "months3"@ {
            Some(RecordingRetentionPeriod::Months3)
        } else {
            None
        }
    }

    /// Every value is read back from its own name.
    pub proof fn lemma_named_name(self)
        ensures
            Self::named(self.name()) == Some(self),
    {
        reveal_strlit("never");
        reveal_strlit("preserve_limit");
        reveal_strlit("days3");
        reveal_strlit("weeks2");
        reveal_strlit("months3");
        assert("never"@.len() == 5);
        assert("preserve_limit"@.len() == 14);
        assert("days3"@.len() == 5);
        assert("weeks2"@.len() == 6);
        assert("months3"@.len() == 7);
        assert("never"@[0] == 'n');
        assert("days3"@[0] == 'd');
    }

    /// The name that stands for this value in a document.
    pub fn as_str(&self) -> (r: &'static str)
        ensures
            r@ == self.name(),
    {
        match self {
            RecordingRetentionPeriod::Never => "never",
            RecordingRetentionPeriod::PreserveLimit => "preserve_limit",
            RecordingRetentionPeriod::Days3 => "days3",
            RecordingRetentionPeriod::Weeks2 => "weeks2",
            RecordingRetentionPeriod::Months3 => "months3",
        }
    }

    /// Reads a value from its name; an unknown name gives nothing.
    pub fn from_name(name: &str) -> (r: Option<Self>)
        ensures
            r == Self::named(name@),
    {
        if text_eq(name, "never") {
            Some(RecordingRetentionPeriod::Never)
        } else if text_eq(name, "preserve_limit") {
            Some(RecordingRetentionPeriod::PreserveLimit)
        } else if text_eq(name, "days3") {
            Some(RecordingRetentionPeriod::Days3)
        } else if text_eq(name, "weeks2") {
            Some(RecordingRetentionPeriod::Weeks2)
        } else if text_eq(name, "months3") {
            Some(RecordingRetentionPeriod::Months3)
        } else {
            None
        }
    }

    /// What a document value decodes to: the value that its variant name stands for.
    pub open spec fn decoded(j: JsonView) -> Option<Self> {
        match j.as_variant_name() {
            Some(name) => Self::named(name),
            None => None,
        }
    }

    /// Decodes a document value.
    pub fn decode(j: &Json) -> (r: Option<Self>)
        ensures
            r == Self::decoded(j@),
    {
        match j.as_variant_name() {
            Some(name) => Self::from_name(name),
            None => None,
        }
    }

    /// The document value that holds this value: its name as a string.
    pub fn encode(&self) -> (r: Json)
        ensures
            r@ == JsonView::String(self.name()),
    {
        Json::text(self.as_str())
    }

    /// The value under `key` of `doc`, or `fallback` where there is no such
    /// member or it does not decode.
    #[verifier::opaque]
    pub open spec fn field_or(doc: JsonView, key: Seq<char>, fallback: Self) -> Self {
        match doc.field(key) {
            Some(value) => match Self::decoded(value) {
                Some(v) => v,
                None => fallback,
            },
            None => fallback,
        }
    }

    /// Reads the value under `key` of `doc`, falling back where it cannot be read.
    pub fn read(doc: &Json, key: &str, fallback: Self) -> (r: Self)
        ensures
            r == Self::field_or(doc@, key@, fallback),
    {
        proof {
            reveal(RecordingRetentionPeriod::field_or);
        }
        match doc.get(key) {
            Some(value) => match Self::decode(value) {
                Some(v) => v,
                None => fallback,
            },
            None => fallback,
        }
    }

    /// A value is read alike from two documents that hold the same under the key.
    pub proof fn lemma_field_or_same(a: JsonView, b: JsonView, key: Seq<char>, fallback: Self)
        requires
            a.field(key) == b.field(key),
        ensures
            Self::field_or(a, key, fallback) == Self::field_or(b, key, fallback),
    {
        reveal(RecordingRetentionPeriod::field_or);
    }

    /// A value that a document holds under a key is the one read from there.
    pub proof fn lemma_field_or_found(self, doc: JsonView, key: Seq<char>, fallback: Self)
        requires
            doc.field(key) == Some(JsonView::String(self.name())),
        ensures
            Self::field_or(doc, key, fallback) == self,
    {
        reveal(RecordingRetentionPeriod::field_or);
        self.lemma_named_name();
    }
}

/// The engine that captures global key combinations.
#[derive(Clone, Copy, Debug, PartialEq, Eq, Structural)]
pub enum KeyboardImplementation {
    Tauri,
    HandyKeys,
}

impl KeyboardImplementation {
    /// The name that stands for this value in a document.
    pub open spec fn name(self) -> Seq<char> {
        match self {
            KeyboardImplementation::Tauri => "tauri"@,
            KeyboardImplementation::HandyKeys => "handy_keys"@,
        }
    }

    /// The value that `name` stands for, if any.
    pub open spec fn named(name: Seq<char>) -> Option<Self> {
        if name == "tauri"@ {
            Some(KeyboardImplementation::Tauri)
        } else if name == "handy_keys"@ {
            Some(KeyboardImplementation::HandyKeys)
        } else {
            None
        }
    }

    /// Every value is read back from its own name.
    pub proof fn lemma_named_name(self)
        ensures
            Self::named(self.name()) == Some(self),
    {
        reveal_strlit("tauri");
        reveal_strlit("handy_keys");
        assert("tauri"@.len() == 5);
        assert("handy_keys"@.len() == 10);
    }

    /// The name that stands for this value in a document.
    pub fn as_str(&self) -> (r: &'static str)
        ensures
            r@ == self.name(),
    {
        match self {
            KeyboardImplementation::Tauri => "tauri",
            KeyboardImplementation::HandyKeys => "handy_keys",
        }
    }

    /// Reads a value from its name; an unknown name gives nothing.
    pub fn from_name(name: &str) -> (r: Option<Self>)
        ensures
            r == Self::named(name@),
    {
        if text_eq(name, "tauri") {
            Some(KeyboardImplementation::Tauri)
        } else if text_eq(name, "handy_keys") {
            Some(KeyboardImplementation::HandyKeys)
        } else {
            None
        }
    }

    /// What a document value decodes to: the value that its variant name stands for.
    pub open spec fn decoded(j: JsonView) -> Option<Self> {
        match j.as_variant_name() {
            Some(name) => Self::named(name),
            None => None,
        }
    }

    /// Decodes a document value.
    pub fn decode(j: &Json) -> (r: Option<Self>)
        ensures
            r == Self::decoded(j@),
    {
        match j.as_variant_name() {
            Some(name) => Self::from_name(name),
            None => None,
        }
    }

    /// The document value that holds this value: its name as a string.
    pub fn encode(&self) -> (r: Json)
        ensures
            r@ == JsonView::String(self.name()),
    {
        Json::text(self.as_str())
    }

    /// The value under `key` of `doc`, or `fallback` where there is no such
    /// member or it does not decode.
    #[verifier::opaque]
    pub open spec fn field_or(doc: JsonView, key: Seq<char>, fallback: Self) -> Self {
        match doc.field(key) {
            Some(value) => match Self::decoded(value) {
                Some(v) => v,
                None => fallback,
            },
            None => fallback,
        }
    }

    /// Reads the value under `key` of `doc`, falling back where it cannot be read.
    pub fn read(doc: &Json, key: &str, fallback: Self) -> (r: Self)
        ensures
            r == Self::field_or(doc@, key@, fallback),
    {
        proof {
            reveal(KeyboardImplementation::field_or);
        }
        match doc.get(key) {
            Some(value) => match Self::decode(value) {
                Some(v) => v,
                None => fallback,
            },
            None => fallback,
        }
    }

    /// A value is read alike from two documents that hold the same under the key.
    pub proof fn lemma_field_or_same(a: JsonView, b: JsonView, key: Seq<char>, fallback: Self)
        requires
            a.field(key) == b.field(key),
        ensures
            Self::field_or(a, key, fallback) == Self::field_or(b, key, fallback),
    {
        reveal(KeyboardImplementation::field_or);
    }

    /// A value that a document holds under a key is the one read from there.
    pub proof fn lemma_field_or_found(self, doc: JsonView, key: Seq<char>, fallback: Self)
        requires
            doc.field(key) == Some(JsonView::String(self.name())),
        ensures
            Self::field_or(doc, key, fallback) == self,
    {
        reveal(KeyboardImplementation::field_or);
        self.lemma_named_name();
    }
}

/// The sounds played when recording starts and stops.
#[derive(Clone, Copy, Debug, PartialEq, Eq, Structural)]
pub enum SoundTheme {
    Marimba,
    Pop,
    Custom,
}

impl SoundTheme {
    /// The name that stands for this value in a document.
    pub open spec fn name(self) -> Seq<char> {
        match self {
            SoundTheme::Marimba => "marimba"@,
            SoundTheme::Pop => "pop"@,
            SoundTheme::Custom => "custom"@,
        }
    }

    /// The value that `name` stands for, if any.
    pub open spec fn named(name: Seq<char>) -> Option<Self> {
        if name == "marimba"@ {
            Some(SoundTheme::Marimba)
        } else if name == "pop"@ {
            Some(SoundTheme::Pop)
        } else if name == "custom"@ {
            Some(SoundTheme::Custom)
        } else {
            None
        }
    }

    /// Every value is read back from its own name.
    pub proof fn lemma_named_name(self)
        ensures
            Self::named(self.name()) == Some(self),
    {
        reveal_strlit("marimba");
        reveal_strlit("pop");
        reveal_strlit("custom");
        assert("marimba"@.len() == 7);
        assert("pop"@.len() == 3);
        assert("custom"@.len() == 6);
    }

    /// The name that stands for this value in a document.
    pub fn as_str(&self) -> (r: &'static str)
        ensures
            r@ == self.name(),
    {
        match self {
            SoundTheme::Marimba => "marimba",
            SoundTheme::Pop => "pop",
            SoundTheme::Custom => "custom",
        }
    }

    /// Reads a value from its name; an unknown name gives nothing.
    pub fn from_name(name: &str) -> (r: Option<Self>)
        ensures
            r == Self::named(name@),
    {
        if text_eq(name, "marimba") {
            Some(SoundTheme::Marimba)
        } else if text_eq(name, "pop") {
            Some(SoundTheme::Pop)
        } else if text_eq(name, "custom") {
            Some(SoundTheme::Custom)
        } else {
            None
        }
    }

    /// What a document value decodes to: the value that its variant name stands for.
    pub open spec fn decoded(j: JsonView) -> Option<Self> {
        match j.as_variant_name() {
            Some(name) => Self::named(name),
            None => None,
        }
    }

    /// Decodes a document value.
    pub fn decode(j: &Json) -> (r: Option<Self>)
        ensures
            r == Self::decoded(j@),
    {
        match j.as_variant_name() {
            Some(name) => Self::from_name(name),
            None => None,
        }
    }

    /// The document value that holds this value: its name as a string.
    pub fn encode(&self) -> (r: Json)
        ensures
            r@ == JsonView::String(self.name()),
    {
        Json::text(self.as_str())
    }

    /// The value under `key` of `doc`, or `fallback` where there is no such
    /// member or it does not decode.
    #[verifier::opaque]
    pub open spec fn field_or(doc: JsonView, key: Seq<char>, fallback: Self) -> Self {
        match doc.field(key) {
            Some(value) => match Self::decoded(value) {
                Some(v) => v,
                None => fallback,
            },
            None => fallback,
        }
    }

    /// Reads the value under `key` of `doc`, falling back where it cannot be read.
    pub fn read(doc: &Json, key: &str, fallback: Self) -> (r: Self)
        ensures
            r == Self::field_or(doc@, key@, fallback),
    {
        proof {
            reveal(SoundTheme::field_or);
        }
        match doc.get(key) {
            Some(value) => match Self::decode(value) {
                Some(v) => v,
                None => fallback,
            },
            None => fallback,
        }
    }

    /// A value is read alike from two documents that hold the same under the key.
    pub proof fn lemma_field_or_same(a: JsonView, b: JsonView, key: Seq<char>, fallback: Self)
        requires
            a.field(key) == b.field(key),
        ensures
            Self::field_or(a, key, fallback) == Self::field_or(b, key, fallback),
    {
        reveal(SoundTheme::field_or);
    }

    /// A value that a document holds under a key is the one read from there.
    pub proof fn lemma_field_or_found(self, doc: JsonView, key: Seq<char>, fallback: Self)
        requires
            doc.field(key) == Some(JsonView::String(self.name())),
        ensures
            Self::field_or(doc, key, fallback) == self,
    {
        reveal(SoundTheme::field_or);
        self.lemma_named_name();
    }
}

impl ModelUnloadTimeout {
    /// The timeout in whole minutes: none for `Never`, zero for the two values
    /// that are shorter than a minute.
    pub open spec fn minutes(self) -> Option<u64> {
        match self {
            ModelUnloadTimeout::Never => None,
            ModelUnloadTimeout::Immediately => Some(0),
            ModelUnloadTimeout::Min2 => Some(2),
            ModelUnloadTimeout::Min5 => Some(5),
            ModelUnloadTimeout::Min10 => Some(10),
            ModelUnloadTimeout::Min15 => Some(15),
            ModelUnloadTimeout::Hour1 => Some(60),
            ModelUnloadTimeout::Sec5 => Some(0),
        }
    }

    /// The timeout in seconds: none for `Never`.
    pub open spec fn seconds(self) -> Option<u64> {
        match self {
            ModelUnloadTimeout::Never => None,
            ModelUnloadTimeout::Immediately => Some(0),
            ModelUnloadTimeout::Min2 => Some(120),
            ModelUnloadTimeout::Min5 => Some(300),
            ModelUnloadTimeout::Min10 => Some(600),
            ModelUnloadTimeout::Min15 => Some(900),
            ModelUnloadTimeout::Hour1 => Some(3600),
            ModelUnloadTimeout::Sec5 => Some(5),
        }
    }

    /// The timeout in whole minutes.
    pub fn to_minutes(self) -> (r: Option<u64>)
        ensures
            r == self.minutes(),
    {
        match self {
            ModelUnloadTimeout::Never => None,
            ModelUnloadTimeout::Immediately => Some(0),
            ModelUnloadTimeout::Min2 => Some(2),
            ModelUnloadTimeout::Min5 => Some(5),
            ModelUnloadTimeout::Min10 => Some(10),
            ModelUnloadTimeout::Min15 => Some(15),
            ModelUnloadTimeout::Hour1 => Some(60),
            ModelUnloadTimeout::Sec5 => Some(0),
        }
    }

    /// The timeout in seconds.
    pub fn to_seconds(self) -> (r: Option<u64>)
        ensures
            r == self.seconds(),
    {
        match self {
            ModelUnloadTimeout::Never => None,
            ModelUnloadTimeout::Immediately => Some(0),
            ModelUnloadTimeout::Sec5 => Some(5),
            _ => match self.to_minutes() {
                Some(m) => Some(m * 60),
                None => None,
            },
        }
    }
}

impl Default for ModelUnloadTimeout {
    fn default() -> (r: Self)
        ensures
            r == ModelUnloadTimeout::Never,
    {
        ModelUnloadTimeout::Never
    }
}

impl Default for ClipboardHandling {
    fn default() -> (r: Self)
        ensures
            r == ClipboardHandling::DontModify,
    {
        ClipboardHandling::DontModify
    }
}

impl KeyboardImplementation {
    /// The engine that a platform starts with: `HandyKeys` on macOS, `Tauri` elsewhere.
    pub open spec fn initial(platform: Platform) -> Self {
        if platform == Platform::MacOs {
            KeyboardImplementation::HandyKeys
        } else {
            KeyboardImplementation::Tauri
        }
    }

    /// The engine that a platform starts with.
    pub fn default_for(platform: Platform) -> (r: Self)
        ensures
            r == Self::initial(platform),
    {
        match platform {
            Platform::MacOs => KeyboardImplementation::HandyKeys,
            _ => KeyboardImplementation::Tauri,
        }
    }
}

impl PasteMethod {
    /// The paste method that a platform starts with: `Direct` on Linux, `CtrlV` elsewhere.
    pub open spec fn initial(platform: Platform) -> Self {
        if platform == Platform::Linux {
            PasteMethod::Direct
        } else {
            PasteMethod::CtrlV
        }
    }

    /// The paste method that a platform starts with.
    pub fn default_for(platform: Platform) -> (r: Self)
        ensures
            r == Self::initial(platform),
    {
        match platform {
            Platform::Linux => PasteMethod::Direct,
            _ => PasteMethod::CtrlV,
        }
    }
}

impl SoundTheme {
    /// The resource that holds the sound for the start of a recording.
    pub open spec fn start_path(self) -> Seq<char> {
        "resources/"@ + self.name() + "_start.wav"@
    }

    /// The resource that holds the sound for the end of a recording.
    pub open spec fn stop_path(self) -> Seq<char> {
        "resources/"@ + self.name() + "_stop.wav"@
    }

    /// The resource that holds the sound for the start of a recording.
    pub fn to_start_path(&self) -> (r: String)
        ensures
            r@ == self.start_path(),
    {
        join3("resources/", self.as_str(), "_start.wav")
    }

    /// The resource that holds the sound for the end of a recording.
    pub fn to_stop_path(&self) -> (r: String)
        ensures
            r@ == self.stop_path(),
    {
        join3("resources/", self.as_str(), "_stop.wav")
    }
}

/// How much the application logs.
#[derive(Clone, Copy, Debug, PartialEq, Eq, Structural)]
pub enum LogLevel {
    Trace,
    Debug,
    Info,
    Warn,
    Error,
}

impl LogLevel {
    /// The name that stands for this level in a document.
    pub open spec fn name(self) -> Seq<char> {
        match self {
            LogLevel::Trace => "trace"@,
            LogLevel::Debug => "debug"@,
            LogLevel::Info => "info"@,
            LogLevel::Warn => "warn"@,
            LogLevel::Error => "error"@,
        }
    }

    /// The level that `name` stands for as it is written, if any.
    pub open spec fn named(name: Seq<char>) -> Option<Self> {
        if name == "trace"@ {
            Some(LogLevel::Trace)
        } else if name == "debug"@ {
            Some(LogLevel::Debug)
        } else if name == "info"@ {
            Some(LogLevel::Info)
        } else if name == "warn"@ {
            Some(LogLevel::Warn)
        } else if name == "error"@ {
            Some(LogLevel::Error)
        } else {
            None
        }
    }

    /// The level that `name` stands for in any letter case: as it is written,
    /// or else in its lowercase form.
    pub open spec fn named_in_any_case(name: Seq<char>) -> Option<Self> {
        match Self::named(name) {
            Some(level) => Some(level),
            None => Self::named(lowercase_of(name)),
        }
    }

    /// The level that a number stands for in documents of the older format: 1 to 5.
    pub open spec fn coded(code: u64) -> Option<Self> {
        if code == 1 {
            Some(LogLevel::Trace)
        } else if code == 2 {
            Some(LogLevel::Debug)
        } else if code == 3 {
            Some(LogLevel::Info)
        } else if code == 4 {
            Some(LogLevel::Warn)
        } else if code == 5 {
            Some(LogLevel::Error)
        } else {
            None
        }
    }

    /// The number that stands for this level in documents of the older format.
    pub open spec fn code(self) -> u64 {
        match self {
            LogLevel::Trace => 1,
            LogLevel::Debug => 2,
            LogLevel::Info => 3,
            LogLevel::Warn => 4,
            LogLevel::Error => 5,
        }
    }

    /// What a document value decodes to. A string is read as a name in any letter
    /// case, a non-negative integer as a code; nothing else is a level.
    pub open spec fn decoded(j: JsonView) -> Option<Self> {
        match j {
            JsonView::String(name) => Self::named_in_any_case(name),
            JsonView::Number(Number::PosInt(code)) => Self::coded(code),
            _ => None,
        }
    }

    /// Every level is read back from its own name.
    pub proof fn lemma_named_name(self)
        ensures
            Self::named(self.name()) == Some(self),
            Self::named_in_any_case(self.name()) == Some(self),
    {
        reveal_strlit("trace");
        reveal_strlit("debug");
        reveal_strlit("info");
        reveal_strlit("warn");
        reveal_strlit("error");
        assert("trace"@.len() == 5);
        assert("debug"@.len() == 5);
        assert("info"@.len() == 4);
        assert("warn"@.len() == 4);
        assert("error"@.len() == 5);
        assert("trace"@[0] == 't');
        assert("debug"@[0] == 'd');
        assert("error"@[0] == 'e');
        assert("info"@[0] == 'i');
        assert("warn"@[0] == 'w');
    }

    /// Every level decodes from its name and from its code alike, and no
    /// number but the five codes decodes to a level.
    pub proof fn lemma_both_encodings(self, number: u64)
        ensures
            Self::decoded(JsonView::String(self.name())) == Some(self),
            Self::decoded(JsonView::Number(Number::PosInt(self.code()))) == Some(self),
            Self::decoded(JsonView::Number(Number::PosInt(number))) is Some <==> 1 <= number <= 5,
    {
        self.lemma_named_name();
    }

    /// The name that stands for this level in a document.
    pub fn as_str(&self) -> (r: &'static str)
        ensures
            r@ == self.name(),
    {
        match self {
            LogLevel::Trace => "trace",
            LogLevel::Debug => "debug",
            LogLevel::Info => "info",
            LogLevel::Warn => "warn",
            LogLevel::Error => "error",
        }
    }

    /// Reads a level from its name as it is written; an unknown name gives nothing.
    pub fn from_name(name: &str) -> (r: Option<Self>)
        ensures
            r == Self::named(name@),
    {
        if text_eq(name, "trace") {
            Some(LogLevel::Trace)
        } else if text_eq(name, "debug") {
            Some(LogLevel::Debug)
        } else if text_eq(name, "info") {
            Some(LogLevel::Info)
        } else if text_eq(name, "warn") {
            Some(LogLevel::Warn)
        } else if text_eq(name, "error") {
            Some(LogLevel::Error)
        } else {
            None
        }
    }

    /// Reads a level from its name in any letter case.
    pub fn from_name_in_any_case(name: &str) -> (r: Option<Self>)
        ensures
            r == Self::named_in_any_case(name@),
    {
        match Self::from_name(name) {
            Some(level) => Some(level),
            None => {
                let lowered = lowercase(name);
                Self::from_name(lowered.as_str())
            },
        }
    }

    /// Reads a level from its code in documents of the older format.
    pub fn from_code(code: u64) -> (r: Option<Self>)
        ensures
            r == Self::coded(code),
    {
        match code {
            1 => Some(LogLevel::Trace),
            2 => Some(LogLevel::Debug),
            3 => Some(LogLevel::Info),
            4 => Some(LogLevel::Warn),
            5 => Some(LogLevel::Error),
            _ => None,
        }
    }

    /// Decodes a document value, in the current format or the older one.
    pub fn decode(j: &Json) -> (r: Option<Self>)
        ensures
            r == Self::decoded(j@),
    {
        match j {
            Json::String(name) => Self::from_name_in_any_case(name.as_str()),
            Json::Number(Number::PosInt(code)) => Self::from_code(*code),
            _ => None,
        }
    }

    /// The document value that holds this level: its name as a string.
    pub fn encode(&self) -> (r: Json)
        ensures
            r@ == JsonView::String(self.name()),
    {
        Json::text(self.as_str())
    }

    /// The value under `key` of `doc`, or `fallback` where there is no such
    /// member or it does not decode.
    #[verifier::opaque]
    pub open spec fn field_or(doc: JsonView, key: Seq<char>, fallback: Self) -> Self {
        match doc.field(key) {
            Some(value) => match Self::decoded(value) {
                Some(v) => v,
                None => fallback,
            },
            None => fallback,
        }
    }

    /// Reads the value under `key` of `doc`, falling back where it cannot be read.
    pub fn read(doc: &Json, key: &str, fallback: Self) -> (r: Self)
        ensures
            r == Self::field_or(doc@, key@, fallback),
    {
        proof {
            reveal(LogLevel::field_or);
        }
        match doc.get(key) {
            Some(value) => match Self::decode(value) {
                Some(v) => v,
                None => fallback,
            },
            None => fallback,
        }
    }

    /// A value is read alike from two documents that hold the same under the key.
    pub proof fn lemma_field_or_same(a: JsonView, b: JsonView, key: Seq<char>, fallback: Self)
        requires
            a.field(key) == b.field(key),
        ensures
            Self::field_or(a, key, fallback) == Self::field_or(b, key, fallback),
    {
        reveal(LogLevel::field_or);
    }

    /// A value that a document holds under a key is the one read from there.
    pub proof fn lemma_field_or_found(self, doc: JsonView, key: Seq<char>, fallback: Self)
        requires
            doc.field(key) == Some(JsonView::String(self.name())),
        ensures
            Self::field_or(doc, key, fallback) == self,
    {
        reveal(LogLevel::field_or);
        self.lemma_named_name();
    }
}

} // verus!
